use kak_sessions::response::Response;

#[test]
fn nop_renders_to_nothing_for_any_client() {
    assert_eq!(Response::Nop.to_kak_cmd(Some("c1")), None);
    assert_eq!(Response::Nop.to_kak_cmd(None), None);
}

#[test]
fn command_is_scoped_to_the_client() {
    let resp = Response::Command { cmd: "info -title kak-tree-sitter ready".to_string() };
    assert_eq!(
        resp.to_kak_cmd(Some("c1")),
        Some("eval -client c1 info -title kak-tree-sitter ready".to_string()),
    );
}

#[test]
fn command_without_client_is_the_bare_text() {
    let resp = Response::Command { cmd: "info ready".to_string() };
    assert_eq!(resp.to_kak_cmd(None), Some("info ready".to_string()));
}
