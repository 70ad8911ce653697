//! Verified core of the Orac Discord bot and its web dashboard: the
//! decisions and data shaping that the bot's commands, its event handler and
//! the dashboard's request handlers perform between their reads and writes.

pub mod channels;
pub mod commands;
pub mod config;
pub mod decimal;
pub mod entities;
pub mod errors;
pub mod events;
pub mod filters;
pub mod guilds;
pub mod login;
pub mod migrator;
pub mod oauth;
pub mod profile;
pub mod session;
pub mod templates;
pub mod util;
