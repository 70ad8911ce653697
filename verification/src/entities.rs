//! The rows of the bot's database tables, as the library's logic reads and
//! writes them.

pub mod channel;
pub mod guild;
pub mod guild_access;
pub mod user;
