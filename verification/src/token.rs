//! Opaque channel identifiers handed out by the I/O reactor.

use vstd::prelude::*;

verus! {

/// Identifier under which the reactor reports readiness for one channel.
///
/// The reactor is the sole allocator of tokens; the tracker only records and
/// erases the association between a token and the channel registered under
/// it, and never interprets the value.
#[derive(Clone, Copy, Debug, PartialEq, Eq, Hash, Structural)]
pub struct Token(pub usize);

} // verus!
