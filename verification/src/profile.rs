//! The profile page and its form.

use vstd::prelude::*;

use crate::entities::user;
use crate::errors::{HandlerError, Reply};
use crate::templates::{Common, Profile};

verus! {

/// The form of the profile page.
#[derive(Debug, PartialEq, Eq)]
pub struct ProfileForm {
    pub name: Option<String>,
    pub email: Option<String>,
}

/// The profile page of the signed-in user; a failure "Your user doesn't
/// exist? Clever!" when the user's row is gone.
pub fn profile(found: Option<user::Model>, common: Common) -> (r: Result<Profile, HandlerError>)
    ensures
        match found {
            Some(u) => r matches Ok(page) && page.common == common && page.name == u.name && page.email == u.email,
            None => r matches Err(HandlerError::Anyhow(m)) && m@ == "Your user doesn't exist? Clever!"@,
        },
{
    match found {
        Some(u) => Ok(Profile { common, name: u.name, email: u.email }),
        None => {
            let mut m = String::new();
            m.append("Your user doesn't exist? Clever!");
            Err(HandlerError::Anyhow(m))
        },
    }
}

/// The path `/profile`.
pub open spec fn profile_path() -> Seq<char> {
    "/profile"@
}

/// The new name and email that the profile form stores, and the redirect
/// back to `/profile` that follows; the form must hold both (the handler
/// stops with "Email is required" or "Name is required" otherwise).
pub fn submit(form: ProfileForm) -> (r: (String, String, Reply))
    requires
        form.name is Some,
        form.email is Some,
    ensures
        r.0 == form.name->0,
        r.1 == form.email->0,
        r.2 matches Reply::Redirect(p) && p@ == profile_path(),
{
    let email = form.email.unwrap();
    let name = form.name.unwrap();
    let mut p = String::new();
    p.append("/profile");
    (name, email, Reply::Redirect(p))
}

} // verus!
