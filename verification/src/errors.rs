//! The dashboard's error type and the replies it turns into.

use vstd::prelude::*;

verus! {

/// A reply of the dashboard, as far as the library decides it.
#[derive(Debug, PartialEq, Eq)]
pub enum Reply {
    /// `303 See Other` to the path.
    Redirect(String),
    /// The status code with the body.
    Status(u16, String),
}

/// An error of a dashboard request handler.
#[derive(Debug, PartialEq, Eq)]
pub enum HandlerError {
    /// An unexpected failure; the text is what the reply shows.
    Anyhow(String),
    /// No user is signed in.
    LoggedOut,
    /// The signed-in user may not see the page.
    Forbidden,
}

/// The path `/`.
pub open spec fn root_path() -> Seq<char> {
    seq!['/']
}

/// A redirect to `/`.
pub fn redirect_to_root() -> (r: Reply)
    ensures
        r matches Reply::Redirect(p) && p@ == root_path(),
{
    proof { reveal_strlit("/"); }
    let mut p = String::new();
    p.append("/");
    Reply::Redirect(p)
}

impl HandlerError {
    /// The reply for the error: the text of an unexpected failure with
    /// `500`, a redirect to `/` when no one is signed in, and an empty `403`.
    pub fn into_response(self) -> (r: Reply)
        ensures
            match self {
                HandlerError::Anyhow(body) => r == Reply::Status(500, body),
                HandlerError::LoggedOut => r matches Reply::Redirect(p) && p@ == root_path(),
                HandlerError::Forbidden => r matches Reply::Status(403, body) && body@.len() == 0,
            },
    {
        match self {
            HandlerError::Anyhow(body) => Reply::Status(500, body),
            HandlerError::LoggedOut => redirect_to_root(),
            HandlerError::Forbidden => Reply::Status(403, String::new()),
        }
    }
}

} // verus!
