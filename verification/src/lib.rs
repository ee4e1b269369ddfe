//! Session-lifecycle and protocol-state tracking for a daemon that bridges
//! editor instances to an asynchronous highlighting backend.
//!
//! Each editor session owns two named-pipe channels (one for commands, one
//! for buffer content), registered with an I/O reactor under opaque tokens.
//! The tracker keeps a bidirectional, cross-consistent mapping between
//! session identity and the tokens/channels the session owns, so that
//! per-token readiness events can be correlated back to the owning session
//! and teardown releases exactly the resources that session owns.

mod assoc;
pub mod response;
pub mod session;
pub mod token;
pub mod tracker;
