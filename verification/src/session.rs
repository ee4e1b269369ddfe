//! Sessions, their protocol state, and the channels they own.

use crate::token::Token;
use vstd::prelude::*;

verus! {

/// Protocol state machine of one session.
///
/// A session is either idle or has an outstanding highlighting request and
/// is waiting for the buffer-content channel to deliver the text needed to
/// perform it. There are exactly two transitions: a command requesting
/// highlighting moves an idle session to `HighlightingWaiting`
/// ([`Self::request_highlighting`]), and consuming the awaited content (or
/// an error-recovery sweep) moves it back ([`Self::idle`]).
#[derive(Debug, PartialEq, Eq)]
pub enum SessionState {
    /// No outstanding request. Initial state, re-entered once a request
    /// completes.
    Idle,
    /// The session requested highlighting and waits for buffer content,
    /// carrying the correlation data needed to resume once it arrives.
    HighlightingWaiting { client: String, buffer: String, lang: String, timestamp: u64 },
}

impl SessionState {
    /// Forcibly resets the state to `Idle`, whatever correlation data the
    /// previous state carried: used both on completion of a request and as
    /// the error-recovery reset for a stale or malformed buffer delivery.
    pub fn idle(&mut self)
        ensures
            *final(self) == SessionState::Idle,
    {
        *self = SessionState::Idle;
    }

    /// The one transition out of `Idle`: a command requesting highlighting
    /// moves the session to `HighlightingWaiting` with the given
    /// correlation data. The protocol has no transition for a highlighting
    /// request while one is already outstanding — issuing one is a caller
    /// error — so that case is excluded here.
    pub fn request_highlighting(
        &mut self,
        client: String,
        buffer: String,
        lang: String,
        timestamp: u64,
    )
        requires
            *old(self) is Idle,
        ensures
            *final(self) == (SessionState::HighlightingWaiting {
                client,
                buffer,
                lang,
                timestamp,
            }),
    {
        *self = SessionState::HighlightingWaiting { client, buffer, lang, timestamp };
    }
}

/// Stands for the OS handle of one named-pipe endpoint.
///
/// The channel owns its endpoint exclusively; the reactor half of the
/// daemon, which performs the actual reads, keeps the open file object and
/// knows it under this number. The tracker never reads from the handle, it
/// only carries it with the channel so that teardown can release it.
#[derive(Clone, Copy, Debug, PartialEq, Eq, Hash, Structural)]
pub struct FifoHandle(pub u64);

/// A FIFO recognized by the daemon: one named-pipe endpoint, typed by what
/// it carries.
///
/// A FIFO either receives textual commands (`Cmd`) or streams buffer
/// content (`Buf`). Besides the owned handle it accumulates the bytes read
/// so far; when the accumulated text is complete — a whole command, or the
/// full buffer content awaited by `HighlightingWaiting` — is decided by the
/// caller from the owning session's protocol state, not by the FIFO.
#[derive(Debug, PartialEq, Eq)]
pub enum Fifo {
    Cmd { session_name: String, file: FifoHandle, buffer: String },
    Buf { session_name: String, file: FifoHandle, buffer: String },
}

impl Fifo {
    /// Name of the owning session: a lookup key, not an ownership edge.
    pub open spec fn spec_session(self) -> Seq<char> {
        match self {
            Fifo::Cmd { session_name, .. } => session_name@,
            Fifo::Buf { session_name, .. } => session_name@,
        }
    }

    /// The owned endpoint handle.
    pub open spec fn spec_file(self) -> FifoHandle {
        match self {
            Fifo::Cmd { file, .. } => file,
            Fifo::Buf { file, .. } => file,
        }
    }

    /// The text accumulated so far.
    pub open spec fn spec_buffer(self) -> Seq<char> {
        match self {
            Fifo::Cmd { buffer, .. } => buffer@,
            Fifo::Buf { buffer, .. } => buffer@,
        }
    }

    /// Handle of the owned endpoint, for the reactor-driven reads performed
    /// by the caller.
    pub fn file(&self) -> (r: FifoHandle)
        ensures
            r == self.spec_file(),
    {
        match self {
            Fifo::Cmd { file, .. } => *file,
            Fifo::Buf { file, .. } => *file,
        }
    }

    /// Name of the owning session.
    pub fn session(&self) -> (r: &str)
        ensures
            r@ == self.spec_session(),
    {
        match self {
            Fifo::Cmd { session_name, .. } => session_name.as_str(),
            Fifo::Buf { session_name, .. } => session_name.as_str(),
        }
    }
}

/// An active session: its identity, its protocol state, and the two tokens
/// under which the reactor knows its channels.
#[derive(Debug)]
pub struct Session {
    name: String,
    state: SessionState,
    cmd_token: Token,
    buf_token: Token,
}

impl Session {
    /// The session's name.
    pub closed spec fn spec_name(self) -> Seq<char> {
        self.name@
    }

    /// The session's protocol state.
    pub closed spec fn spec_state(self) -> SessionState {
        self.state
    }

    /// Token of the command channel.
    pub closed spec fn spec_cmd_token(self) -> Token {
        self.cmd_token
    }

    /// Token of the buffer-content channel.
    pub closed spec fn spec_buf_token(self) -> Token {
        self.buf_token
    }

    /// A fresh, idle session. Its two tokens are assigned here, once, and
    /// are immutable afterwards; they must be distinct, one per channel.
    pub fn new(name: String, cmd_token: Token, buf_token: Token) -> (s: Session)
        requires
            cmd_token != buf_token,
        ensures
            s.spec_name() == name@,
            s.spec_state() == SessionState::Idle,
            s.spec_cmd_token() == cmd_token,
            s.spec_buf_token() == buf_token,
    {
        Session { name, state: SessionState::Idle, cmd_token, buf_token }
    }

    /// Unique identifier, stable for the session's lifetime: both the
    /// registry key and the target for outbound responses.
    pub fn name(&self) -> (r: &str)
        ensures
            r@ == self.spec_name(),
    {
        self.name.as_str()
    }

    /// Token correlating this session to its command channel.
    pub fn cmd_token(&self) -> (r: Token)
        ensures
            r == self.spec_cmd_token(),
    {
        self.cmd_token
    }

    /// Token correlating this session to its buffer-content channel.
    pub fn buf_token(&self) -> (r: Token)
        ensures
            r == self.spec_buf_token(),
    {
        self.buf_token
    }

    /// The current protocol state.
    pub fn state(&self) -> (r: &SessionState)
        ensures
            *r == self.spec_state(),
    {
        &self.state
    }

    /// Mutable access to the protocol state; identity and tokens stay as
    /// they are.
    pub fn state_mut(&mut self) -> (r: &mut SessionState)
        ensures
            *r == old(self).spec_state(),
            final(self).spec_state() == *final(r),
            final(self).spec_name() == old(self).spec_name(),
            final(self).spec_cmd_token() == old(self).spec_cmd_token(),
            final(self).spec_buf_token() == old(self).spec_buf_token(),
    {
        &mut self.state
    }
}

} // verus!
