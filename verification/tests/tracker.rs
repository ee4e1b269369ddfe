use kak_sessions::session::{Fifo, FifoHandle, Session, SessionState};
use kak_sessions::token::Token;
use kak_sessions::tracker::SessionTracker;

fn cmd_fifo(session: &str, handle: u64) -> Fifo {
    Fifo::Cmd {
        session_name: session.to_string(),
        file: FifoHandle(handle),
        buffer: String::new(),
    }
}

fn buf_fifo(session: &str, handle: u64) -> Fifo {
    Fifo::Buf {
        session_name: session.to_string(),
        file: FifoHandle(handle),
        buffer: String::new(),
    }
}

fn tracked_main() -> SessionTracker {
    let mut tracker = SessionTracker::default();
    let session = Session::new("main".to_string(), Token(1), Token(2));
    tracker.track(
        "main".to_string(),
        session,
        cmd_fifo("main", 10),
        buf_fifo("main", 11),
    );
    tracker
}

#[test]
fn empty_tracker_is_empty() {
    let tracker = SessionTracker::default();
    assert!(tracker.is_empty());
}

#[test]
fn tracked_session_resolves_by_both_tokens() {
    let mut tracker = tracked_main();
    assert!(!tracker.is_empty());

    let (session, fifo) = tracker.by_token(Token(1)).expect("command token must resolve");
    assert_eq!(session.name(), "main");
    assert_eq!(session.cmd_token(), Token(1));
    assert_eq!(session.buf_token(), Token(2));
    assert!(matches!(fifo, Fifo::Cmd { .. }));
    assert_eq!(fifo.session(), "main");
    assert_eq!(fifo.file(), FifoHandle(10));

    let (session, fifo) = tracker.by_token(Token(2)).expect("buffer token must resolve");
    assert_eq!(session.name(), "main");
    assert!(matches!(fifo, Fifo::Buf { .. }));
    assert_eq!(fifo.file(), FifoHandle(11));

    assert!(tracker.by_token(Token(3)).is_none());
}

#[test]
fn untrack_returns_session_and_both_channels() {
    let mut tracker = tracked_main();
    let (session, cmd, buf) = tracker.untrack("main").expect("session must be tracked");
    assert_eq!(session.name(), "main");
    assert_eq!(session.cmd_token(), Token(1));
    assert_eq!(session.buf_token(), Token(2));
    let cmd = cmd.expect("the command channel must come back");
    let buf = buf.expect("the buffer channel must come back");
    assert!(matches!(cmd, Fifo::Cmd { .. }));
    assert_eq!(cmd.file(), FifoHandle(10));
    assert!(matches!(buf, Fifo::Buf { .. }));
    assert_eq!(buf.file(), FifoHandle(11));

    assert!(tracker.by_token(Token(1)).is_none());
    assert!(tracker.by_token(Token(2)).is_none());
    assert!(tracker.is_empty());
}

#[test]
fn untrack_is_idempotent() {
    let mut tracker = tracked_main();
    assert!(tracker.untrack("main").is_some());
    assert!(tracker.untrack("main").is_none());
    assert!(tracker.untrack("main").is_none());
}

#[test]
fn untrack_unknown_name_returns_none() {
    let mut tracker = tracked_main();
    assert!(tracker.untrack("other").is_none());
    assert!(!tracker.is_empty());
}

#[test]
fn by_token_never_tracked_returns_none() {
    let mut tracker = SessionTracker::default();
    assert!(tracker.by_token(Token(1)).is_none());
}

#[test]
fn duplicate_name_is_rejected() {
    let mut tracker = tracked_main();
    let imposter = Session::new("main".to_string(), Token(3), Token(4));
    tracker.track(
        "main".to_string(),
        imposter,
        cmd_fifo("main", 20),
        buf_fifo("main", 21),
    );
    // the second registration left no trace
    assert!(tracker.by_token(Token(3)).is_none());
    assert!(tracker.by_token(Token(4)).is_none());
    let (session, _, _) = tracker.untrack("main").expect("the first session stays");
    assert_eq!(session.cmd_token(), Token(1));
    assert!(tracker.is_empty());
}

#[test]
fn live_token_reuse_is_rejected() {
    let mut tracker = tracked_main();
    let session = Session::new("other".to_string(), Token(2), Token(5));
    tracker.track(
        "other".to_string(),
        session,
        cmd_fifo("other", 20),
        buf_fifo("other", 21),
    );
    assert!(tracker.untrack("other").is_none());
    assert!(tracker.by_token(Token(5)).is_none());
    // token 2 still resolves to the first session's buffer channel
    let (session, fifo) = tracker.by_token(Token(2)).expect("token 2 stays with main");
    assert_eq!(session.name(), "main");
    assert!(matches!(fifo, Fifo::Buf { .. }));
}

#[test]
fn registry_key_must_be_the_sessions_name() {
    let mut tracker = SessionTracker::default();
    let session = Session::new("main".to_string(), Token(1), Token(2));
    tracker.track(
        "other".to_string(),
        session,
        cmd_fifo("other", 10),
        buf_fifo("other", 11),
    );
    assert!(tracker.is_empty());
    assert!(tracker.by_token(Token(1)).is_none());
}

#[test]
fn two_sessions_are_torn_down_independently() {
    let mut tracker = tracked_main();
    let session = Session::new("side".to_string(), Token(7), Token(8));
    tracker.track(
        "side".to_string(),
        session,
        cmd_fifo("side", 30),
        buf_fifo("side", 31),
    );

    let (removed, cmd, buf) = tracker.untrack("main").expect("main is tracked");
    assert_eq!(removed.name(), "main");
    assert!(cmd.is_some());
    assert!(buf.is_some());

    assert!(tracker.by_token(Token(1)).is_none());
    let (session, fifo) = tracker.by_token(Token(7)).expect("side is untouched");
    assert_eq!(session.name(), "side");
    assert_eq!(fifo.session(), "side");
    assert!(!tracker.is_empty());
}

#[test]
fn state_advanced_through_by_token_is_kept() {
    let mut tracker = tracked_main();
    {
        let (session, _) = tracker.by_token(Token(1)).expect("command token resolves");
        session.state_mut().request_highlighting(
            "c1".to_string(),
            "buf.rs".to_string(),
            "rust".to_string(),
            100,
        );
    }
    let (session, _) = tracker.by_token(Token(2)).expect("buffer token resolves");
    match session.state() {
        SessionState::HighlightingWaiting { client, buffer, lang, timestamp } => {
            assert_eq!(client, "c1");
            assert_eq!(buffer, "buf.rs");
            assert_eq!(lang, "rust");
            assert_eq!(*timestamp, 100);
        }
        SessionState::Idle => panic!("the request must still be outstanding"),
    }
}

#[test]
fn buffer_accumulated_through_by_token_is_kept() {
    let mut tracker = tracked_main();
    {
        let (_, fifo) = tracker.by_token(Token(2)).expect("buffer token resolves");
        match fifo {
            Fifo::Buf { buffer, .. } => buffer.push_str("fn main() {}"),
            Fifo::Cmd { .. } => panic!("token 2 carries the buffer channel"),
        }
    }
    let (_, fifo) = tracker.by_token(Token(2)).expect("buffer token resolves");
    match fifo {
        Fifo::Buf { buffer, .. } => assert_eq!(buffer, "fn main() {}"),
        Fifo::Cmd { .. } => panic!("token 2 carries the buffer channel"),
    }
}
