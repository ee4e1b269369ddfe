//! Responses sent back to the editor, rendered as editor commands.
//!
//! Outbound responses never travel through the reactor or the named-pipe
//! channels: the caller pipes the rendered text to a one-shot invocation of
//! the editor binary addressed at the session's name. Rendering itself is
//! simple string construction and lives here; spawning the editor process
//! is the caller's part.

use vstd::prelude::*;
use vstd::string::StringExecFns;

verus! {

/// A response for an editor session: either nothing at all, or a command
/// the editor shall evaluate.
#[derive(Debug, PartialEq, Eq)]
pub enum Response {
    /// Nothing needs to be told to the editor.
    Nop,
    /// A command for the editor to evaluate.
    Command { cmd: String },
}

/// The view of an optional client name.
pub open spec fn client_view(client: Option<&str>) -> Option<Seq<char>> {
    match client {
        Some(c) => Some(c@),
        None => None,
    }
}

impl Response {
    /// What rendering yields: nothing for the no-op response; otherwise
    /// the command text, wrapped for evaluation in the addressed client's
    /// context when a client is given.
    pub open spec fn spec_kak_cmd(self, client: Option<Seq<char>>) -> Option<Seq<char>> {
        match self {
            Response::Nop => None,
            Response::Command { cmd } => Some(
                match client {
                    Some(c) => "eval -client "@ + c + " "@ + cmd@,
                    None => cmd@,
                },
            ),
        }
    }

    /// Renders the response into the editor's command syntax, scoped to an
    /// optional target client. Yields `None` — nothing to send — exactly
    /// for the no-op response.
    pub fn to_kak_cmd(&self, client: Option<&str>) -> (r: Option<String>)
        ensures
            r is None <==> self.spec_kak_cmd(client_view(client)) is None,
            r is None <==> *self is Nop,
            r matches Some(s) ==> self.spec_kak_cmd(client_view(client)) == Some(s@),
    {
        match self {
            Response::Nop => None,
            Response::Command { cmd } => match client {
                Some(c) => {
                    let mut out = "eval -client ".to_owned();
                    out.append(c);
                    out.append(" ");
                    out.append(cmd.as_str());
                    Some(out)
                },
                None => Some(cmd.clone()),
            },
        }
    }
}

} // verus!
