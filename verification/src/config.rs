//! The bot's settings, read from `bot_config.toml`.

use vstd::prelude::*;

verus! {

/// The bot's settings.
#[derive(Debug, PartialEq, Eq)]
pub struct Config {
    /// The bot's Discord token.
    pub discord_token: String,
    /// The OAuth client secret of the bot's Discord application.
    pub client_secret: String,
    /// The OAuth client id of the bot's Discord application.
    pub client_id: String,
    /// Where Discord sends users back after they authorize the dashboard.
    pub redirect_url: String,
}

} // verus!
