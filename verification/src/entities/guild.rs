//! A row of the `guild` table: a Discord server that the bot has joined.

use vstd::prelude::*;

verus! {

/// A guild row.
#[derive(Debug, PartialEq, Eq)]
pub struct Model {
    pub id: i32,
    /// The guild's Discord snowflake, in decimal.
    pub discord_id: String,
    pub name: Option<String>,
    pub logo_url: Option<String>,
}

} // verus!
