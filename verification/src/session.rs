//! Who is signed in: what the dashboard makes of the values that a visitor's
//! session holds.

use vstd::prelude::*;

use crate::decimal::{parse_u64, parsed_u64};
use crate::errors::{redirect_to_root, root_path, HandlerError, Reply};

verus! {

/// The session key under which the signed-in user's row id is kept.
pub const USER_ID_KEY: &'static str = "USER_ID";

/// The session key under which the signed-in user's Discord id is kept.
pub const DISCORD_USER_ID_KEY: &'static str = "DISCORD_USER_ID";

/// The signed-in user's row id, or a redirect to `/` when the session cannot
/// be read or holds none.
pub fn user_id_or_redirect(stored: Result<Option<i32>, String>) -> (r: Result<i32, Reply>)
    ensures
        match stored {
            Ok(Some(id)) => r == Ok::<i32, Reply>(id),
            _ => r matches Err(Reply::Redirect(p)) && p@ == root_path(),
        },
{
    match stored {
        Ok(Some(id)) => Ok(id),
        _ => Err(redirect_to_root()),
    }
}

/// The signed-in user's Discord id: an unreadable session is a failure with
/// the session's error text, a missing entry means no one is signed in, and
/// an entry that is not a `u64` is a failure "Cannot convert ID".
pub fn discord_user_id(stored: Result<Option<String>, String>) -> (r: Result<u64, HandlerError>)
    ensures
        match stored {
            Err(e) => r == Err::<u64, HandlerError>(HandlerError::Anyhow(e)),
            Ok(None) => r matches Err(HandlerError::LoggedOut),
            Ok(Some(v)) => match parsed_u64(v@) {
                Some(n) => r == Ok::<u64, HandlerError>(n),
                None => r matches Err(HandlerError::Anyhow(m)) && m@ == "Cannot convert ID"@,
            },
        },
{
    match stored {
        Err(e) => Err(HandlerError::Anyhow(e)),
        Ok(None) => Err(HandlerError::LoggedOut),
        Ok(Some(v)) => match parse_u64(v.as_str()) {
            Ok(n) => Ok(n),
            Err(_) => {
                let mut m = String::new();
                m.append("Cannot convert ID");
                Err(HandlerError::Anyhow(m))
            },
        },
    }
}

/// The signed-in user's row id: an unreadable session is a failure with the
/// session's error text, and a missing entry means no one is signed in.
pub fn user_id(stored: Result<Option<i32>, String>) -> (r: Result<i32, HandlerError>)
    ensures
        match stored {
            Err(e) => r == Err::<i32, HandlerError>(HandlerError::Anyhow(e)),
            Ok(None) => r matches Err(HandlerError::LoggedOut),
            Ok(Some(id)) => r == Ok::<i32, HandlerError>(id),
        },
{
    match stored {
        Err(e) => Err(HandlerError::Anyhow(e)),
        Ok(None) => Err(HandlerError::LoggedOut),
        Ok(Some(id)) => Ok(id),
    }
}

/// What the session store does next when it creates a session.
#[derive(Debug, PartialEq, Eq)]
pub enum CreateStep {
    /// The session's id is taken: draw a new random id and ask again.
    DrawNewId,
    /// The id is free: save the session under it.
    Save,
}

/// The next step of creating a session in the store, given whether a stored
/// session already has the session's id.
pub fn create_step(id_taken: bool) -> (r: CreateStep)
    ensures
        r is DrawNewId <==> id_taken,
        r is Save <==> !id_taken,
{
    if id_taken {
        CreateStep::DrawNewId
    } else {
        CreateStep::Save
    }
}

} // verus!
