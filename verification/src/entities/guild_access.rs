//! A row of the `guild_access` table: what a dashboard user may do in a guild.

use vstd::prelude::*;

verus! {

/// The Discord roles that the user holds in the guild.
#[derive(Debug, PartialEq, Eq)]
pub struct RoleInfo {
    pub role_ids: Vec<u64>,
}

/// A guild access row, keyed by guild and user.
#[derive(Debug, PartialEq, Eq)]
pub struct Model {
    pub guild_id: i32,
    pub user_id: i32,
    pub is_owner: bool,
    pub is_administrator: bool,
    pub roles: RoleInfo,
}

/// The tables that a guild access row refers to; a row goes when either
/// of its rows goes.
#[derive(Debug, PartialEq, Eq)]
pub enum Relation {
    Guild,
    User,
}

} // verus!
