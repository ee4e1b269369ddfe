use kak_sessions::session::SessionState;

#[test]
fn highlighting_request_then_idle_then_idle_again() {
    let mut state = SessionState::Idle;
    state.request_highlighting(
        "c1".to_string(),
        "buf.rs".to_string(),
        "rust".to_string(),
        100,
    );
    match &state {
        SessionState::HighlightingWaiting { client, buffer, lang, timestamp } => {
            assert_eq!(client, "c1");
            assert_eq!(buffer, "buf.rs");
            assert_eq!(lang, "rust");
            assert_eq!(*timestamp, 100);
        }
        SessionState::Idle => panic!("the request must be outstanding"),
    }

    state.idle();
    assert!(matches!(state, SessionState::Idle));

    // a second reset is a no-op that leaves the state idle
    state.idle();
    assert!(matches!(state, SessionState::Idle));
}

#[test]
fn idle_resets_whatever_correlation_data_was_carried() {
    let mut state = SessionState::HighlightingWaiting {
        client: "other-client".to_string(),
        buffer: "lib.rs".to_string(),
        lang: "c".to_string(),
        timestamp: u64::MAX,
    };
    state.idle();
    assert!(matches!(state, SessionState::Idle));
}
