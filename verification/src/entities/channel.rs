//! A row of the `channel` table: a guild channel that the dashboard manages.

use vstd::prelude::*;

verus! {

/// A channel row.
#[derive(Debug, PartialEq, Eq)]
pub struct Model {
    pub id: i32,
    pub name: Option<String>,
    /// The `id` of the guild row that the channel belongs to.
    pub guild_id: i32,
    /// The channel's Discord snowflake, in decimal.
    pub discord_id: String,
    pub allow_reset: bool,
    pub reset_message: Option<String>,
    pub reset_schedule: Option<String>,
}

} // verus!
