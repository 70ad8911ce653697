//! What the dashboard's pages show.

use vstd::prelude::*;

use crate::channels::ChannelCandidate;
use crate::entities::{channel, guild};

verus! {

/// A guild in the dashboard's guild list.
#[derive(Debug, PartialEq, Eq)]
pub struct GuildItem {
    pub name: String,
    pub id: i32,
    pub logo_url: Option<String>,
    /// Whether the page being shown is about this guild.
    pub selected: bool,
}

/// What every page of a signed-in user shows: its title and the user's guilds.
#[derive(Debug, PartialEq, Eq)]
pub struct Common {
    pub page_title: String,
    pub guilds: Vec<GuildItem>,
}

/// The sign-in page.
#[derive(Debug, PartialEq, Eq)]
pub struct IndexTemplate {
    pub username: Option<String>,
    pub message: Option<String>,
}

/// The dashboard's start page.
#[derive(Debug, PartialEq, Eq)]
pub struct Dashboard {
    pub common: Common,
}

/// The profile page.
#[derive(Debug, PartialEq, Eq)]
pub struct Profile {
    pub common: Common,
    pub name: String,
    pub email: String,
}

/// The page of one guild.
#[derive(Debug, PartialEq, Eq)]
pub struct GuildPage {
    pub common: Common,
    pub guild: guild::Model,
    pub managed_channels: Vec<channel::Model>,
}

/// The list of a guild's managed channels.
#[derive(Debug, PartialEq, Eq)]
pub struct Channels {
    pub common: Common,
    pub channels: Vec<channel::Model>,
    pub guild_id: i32,
}

/// The page that offers a guild's channels for management.
#[derive(Debug, PartialEq, Eq)]
pub struct AddChannel {
    pub common: Common,
    pub channels: Vec<ChannelCandidate>,
    pub guild_id: i32,
}

} // verus!
