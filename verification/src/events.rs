//! What the bot does with the events that Discord sends it.

use vstd::prelude::*;

use crate::decimal::{decimal, u64_to_string};

verus! {

/// An event from Discord, as far as the bot looks into it.
#[derive(Debug, PartialEq, Eq)]
pub enum BotEvent {
    /// The bot has joined a guild, or the guild has become available.
    GuildCreate { id: u64, name: String, icon_url: Option<String> },
    /// Any other event, by its name.
    Other { name: String },
}

/// A guild row to write: inserted, or, when a row with its Discord id
/// exists, used to update that row's name and logo.
#[derive(Debug, PartialEq, Eq)]
pub struct GuildUpsert {
    pub discord_id: String,
    pub name: Option<String>,
    pub logo_url: Option<String>,
}

/// What the bot does with an event.
#[derive(Debug, PartialEq, Eq)]
pub enum EventAction {
    /// Write the guild row.
    StoreGuild(GuildUpsert),
    /// Only report the event, by its name.
    Report(String),
}

/// What the bot does with an event: a guild it joins is recorded under its
/// Discord id, with its name and icon as logo; any other event is reported.
pub fn handle_event(event: BotEvent) -> (r: EventAction)
    ensures
        match event {
            BotEvent::GuildCreate { id, name, icon_url } => r matches EventAction::StoreGuild(g)
                && g.discord_id@ == decimal(id as nat) && g.name == Some(name) && g.logo_url == icon_url,
            BotEvent::Other { name } => r == EventAction::Report(name),
        },
{
    match event {
        BotEvent::GuildCreate { id, name, icon_url } => EventAction::StoreGuild(GuildUpsert {
            discord_id: u64_to_string(id),
            name: Some(name),
            logo_url: icon_url,
        }),
        BotEvent::Other { name } => EventAction::Report(name),
    }
}

} // verus!
