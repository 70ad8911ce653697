//! The bot's slash and prefix commands, as far as they decide anything: the
//! names that resetting a channel uses and the message that confirms it.

use vstd::prelude::*;

use crate::decimal::{decimal, u64_to_string};

verus! {

/// The text at the bottom of the help menu.
pub const HELP_FOOTER: &'static str = "Orac is maintained by Thea, so blame her.";

/// The bot's answer to `ping`.
pub const PING_REPLY: &'static str = "pong";

/// How a channel is reset: a copy of it is made under `new_name` (its
/// settings otherwise copied), the channel is deleted, and the copy then
/// takes the old name, `final_name`.
#[derive(Debug, PartialEq, Eq)]
pub struct ResetPlan {
    pub new_name: String,
    pub final_name: String,
}

/// The names that resetting the guild channel `name` uses: the copy is made
/// as `new_` followed by the name and then renamed to the name.
pub fn reset_channel(name: &str) -> (r: ResetPlan)
    ensures
        r.new_name@ == "new_"@ + name@,
        r.final_name@ == name@,
{
    let mut new_name = String::new();
    new_name.append("new_");
    new_name.append(name);
    ResetPlan { new_name, final_name: name.to_owned() }
}

/// The message that confirms a reset: a mention of the new channel (by id)
/// followed by " has been reset!".
pub fn reset_confirmation(channel_id: u64) -> (r: String)
    ensures
        r@ == "<#"@ + decimal(channel_id as nat) + "> has been reset!"@,
{
    let mut r = String::new();
    r.append("<#");
    let id = u64_to_string(channel_id);
    r.append(id.as_str());
    r.append("> has been reset!");
    r
}

} // verus!
