use kak_sessions::session::{Fifo, FifoHandle, Session, SessionState};
use kak_sessions::token::Token;

#[test]
fn new_session_starts_idle_with_its_identity() {
    let session = Session::new("main".to_string(), Token(1), Token(2));
    assert_eq!(session.name(), "main");
    assert_eq!(session.cmd_token(), Token(1));
    assert_eq!(session.buf_token(), Token(2));
    assert!(matches!(session.state(), SessionState::Idle));
}

#[test]
fn state_mut_advances_the_protocol_state_in_place() {
    let mut session = Session::new("main".to_string(), Token(1), Token(2));
    session.state_mut().request_highlighting(
        "c1".to_string(),
        "buf.rs".to_string(),
        "rust".to_string(),
        42,
    );
    assert!(matches!(
        session.state(),
        SessionState::HighlightingWaiting { .. }
    ));
    session.state_mut().idle();
    assert!(matches!(session.state(), SessionState::Idle));
    // identity is untouched by state changes
    assert_eq!(session.name(), "main");
    assert_eq!(session.cmd_token(), Token(1));
    assert_eq!(session.buf_token(), Token(2));
}

#[test]
fn fifo_exposes_owner_and_handle() {
    let cmd = Fifo::Cmd {
        session_name: "main".to_string(),
        file: FifoHandle(10),
        buffer: "hello".to_string(),
    };
    assert_eq!(cmd.session(), "main");
    assert_eq!(cmd.file(), FifoHandle(10));

    let buf = Fifo::Buf {
        session_name: "main".to_string(),
        file: FifoHandle(11),
        buffer: String::new(),
    };
    assert_eq!(buf.session(), "main");
    assert_eq!(buf.file(), FifoHandle(11));
}
