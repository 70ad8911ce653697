//! Signing in with a password: the check of the password against the stored
//! one, and what the sign-in form answers.

use vstd::prelude::*;

use crate::errors::Reply;
use crate::templates::IndexTemplate;

verus! {

/// The sign-in form.
#[derive(Debug, PartialEq, Eq)]
pub struct LoginForm {
    /// The email of the account.
    pub username: String,
    pub password: String,
}

/// What `bcrypt::verify(password, hash)` returns: `Some` of whether the
/// password matches the hash, `None` when it fails (a hash it cannot read).
pub uninterp spec fn bcrypt_verify_outcome(password: Seq<char>, hash: Seq<char>) -> Option<bool>;

/// Calls `bcrypt::verify` with the password's bytes. Its result is named
/// `bcrypt_verify_outcome` of the password and the hash; a text without any
/// `$` is no bcrypt hash, and the call fails on it.
#[verifier::external_body]
fn bcrypt_verify(password: &str, hash: &str) -> (r: Option<bool>)
    ensures
        r == bcrypt_verify_outcome(password@, hash@),
        !hash@.contains('$') ==> r is None,
{
    bcrypt::verify(password.as_bytes(), hash).ok()
}

/// Calls `bcrypt::hash` with the password's bytes at bcrypt's default cost
/// (`DEFAULT_COST`, 12). Its result depends on a random salt and is not
/// named. It fails only when no random salt can be had; a hash it gives is
/// 60 characters long, starts with `$2b$12$` (version 2b, the cost in two
/// digits), and `bcrypt::verify` accepts the same password for it.
#[verifier::external_body]
fn bcrypt_hash_default_cost(password: &str) -> (r: Option<String>)
    ensures
        r matches Some(h) ==> {
            &&& h@.len() == 60
            &&& h@.subrange(0, 7) == "$2b$12$"@
            &&& bcrypt_verify_outcome(password@, h@) == Some(true)
        },
{
    bcrypt::hash(password.as_bytes(), bcrypt::DEFAULT_COST).ok()
}

/// What checking a password against the stored one finds.
#[derive(Debug, PartialEq, Eq)]
pub enum PasswordCheck {
    /// The stored hash accepts the password.
    Accepted,
    /// The password is wrong.
    Rejected,
    /// The stored value was the password itself, not a hash; the hash to
    /// store in its place (at bcrypt's default cost) is given, and the password counts as right once
    /// it is stored.
    Upgrade(String),
    /// The stored value was the password itself, but no hash could be made.
    Failed,
}

/// Checks a password against the stored value: a bcrypt hash decides by
/// itself; a stored value that is no bcrypt hash is taken for the password
/// itself, kept from before passwords were hashed, and is then replaced by a
/// hash of it.
pub fn validate_password(password: &str, stored: &str) -> (r: PasswordCheck)
    ensures
        match bcrypt_verify_outcome(password@, stored@) {
            Some(true) => r is Accepted,
            Some(false) => r is Rejected,
            None => if password@ == stored@ {
                match r {
                    PasswordCheck::Upgrade(h) => {
                        &&& h@.len() == 60
                        &&& h@.subrange(0, 7) == "$2b$12$"@
                        &&& bcrypt_verify_outcome(password@, h@) == Some(true)
                    },
                    PasswordCheck::Failed => true,
                    _ => false,
                }
            } else {
                r is Rejected
            },
        },
        // A password kept in plain text from before passwords were hashed is
        // accepted once and replaced by a hash that accepts it.
        !stored@.contains('$') && password@ == stored@ ==> (r is Upgrade || r is Failed),
        !stored@.contains('$') && password@ != stored@ ==> r is Rejected,
{
    match bcrypt_verify(password, stored) {
        Some(true) => PasswordCheck::Accepted,
        Some(false) => PasswordCheck::Rejected,
        None => {
            if password.unicode_len() == stored.unicode_len() && same_text(password, stored) {
                match bcrypt_hash_default_cost(stored) {
                    Some(h) => PasswordCheck::Upgrade(h),
                    None => PasswordCheck::Failed,
                }
            } else {
                PasswordCheck::Rejected
            }
        },
    }
}

/// Whether two texts of the same length are equal.
fn same_text(a: &str, b: &str) -> (r: bool)
    requires
        a@.len() == b@.len(),
    ensures
        r == (a@ == b@),
{
    let n: usize = a.unicode_len();
    let mut i: usize = 0;
    while i < n
        invariant
            n == a@.len(),
            a@.len() == b@.len(),
            i <= n,
            forall|j: int| 0 <= j < i ==> a@[j] == b@[j],
        decreases n - i,
    {
        if a.get_char(i) != b.get_char(i) {
            return false;
        }
        i = i + 1;
    }
    assert(a@ =~= b@);
    true
}

/// What the sign-in form answers.
#[derive(Debug, PartialEq, Eq)]
pub enum LoginOutcome {
    /// Sign the user in (keep the row id in the session), then reply.
    SignIn { user_id: i32, then: Reply },
    /// Show the sign-in page again.
    ShowPage(IndexTemplate),
    /// Reply without signing in.
    Refuse(Reply),
}

/// The path `/dashboard`.
pub open spec fn dashboard_path() -> Seq<char> {
    "/dashboard"@
}

/// A redirect to `/dashboard`.
pub fn redirect_to_dashboard() -> (r: Reply)
    ensures
        r matches Reply::Redirect(p) && p@ == dashboard_path(),
{
    let mut p = String::new();
    p.append("/dashboard");
    Reply::Redirect(p)
}

/// The answer to the sign-in form, given the row id of the user whose email
/// is the name typed (`None` when there is none or the lookup failed) and
/// whether the password was accepted: a known user with the right password
/// is signed in and sent to the dashboard; a wrong password shows the page
/// again with the name and "Invalid password"; an unknown name is sent to `/`.
pub fn login(username: String, user: Option<i32>, password_accepted: bool) -> (r: LoginOutcome)
    ensures
        match user {
            Some(id) => if password_accepted {
                r matches LoginOutcome::SignIn { user_id, then: Reply::Redirect(p) } && user_id == id && p@ == dashboard_path()
            } else {
                r matches LoginOutcome::ShowPage(page) && page.username == Some(username)
                    && (page.message matches Some(m) && m@ == "Invalid password"@)
            },
            None => r matches LoginOutcome::Refuse(Reply::Redirect(p)) && p@ == crate::errors::root_path(),
        },
{
    match user {
        Some(id) => {
            if password_accepted {
                LoginOutcome::SignIn { user_id: id, then: redirect_to_dashboard() }
            } else {
                let mut m = String::new();
                m.append("Invalid password");
                LoginOutcome::ShowPage(IndexTemplate { username: Some(username), message: Some(m) })
            }
        },
        None => LoginOutcome::Refuse(crate::errors::redirect_to_root()),
    }
}

/// What the start page shows.
#[derive(Debug, PartialEq, Eq)]
pub enum StartPage {
    /// Reply with the redirect.
    Leave(Reply),
    /// Show the sign-in page (after marking the session as in use).
    SignInPage(IndexTemplate),
}

/// What the start page answers: a signed-in visitor is sent to the
/// dashboard, anyone else is shown the empty sign-in page.
pub fn index(signed_in: bool) -> (r: StartPage)
    ensures
        signed_in ==> (r matches StartPage::Leave(Reply::Redirect(p)) && p@ == dashboard_path()),
        !signed_in ==> (r matches StartPage::SignInPage(page) && page.username is None && page.message is None),
{
    if signed_in {
        StartPage::Leave(redirect_to_dashboard())
    } else {
        StartPage::SignInPage(IndexTemplate { username: None, message: None })
    }
}

} // verus!
