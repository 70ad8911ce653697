//! A row of the `user` table: an account of the dashboard.

use vstd::prelude::*;

verus! {

/// A user row.
#[derive(Debug, PartialEq, Eq)]
pub struct Model {
    pub id: i32,
    pub name: String,
    pub email: String,
    /// A bcrypt hash, or, for accounts that have not signed in since they
    /// were created by hand, the password itself.
    pub password: String,
    /// The Discord snowflake of the account's Discord user, in decimal.
    pub discord_id: Option<String>,
}

} // verus!
