//! The page of one guild.

use vstd::prelude::*;

use crate::entities::guild;
use crate::errors::HandlerError;
use crate::decimal::signed_decimal;
use crate::util::{guild_label, guild_name_or_id};

verus! {

/// The title of a guild's page: the guild's name, or its row id when it has
/// none; a failure "Could not load guild!" when there is no such guild.
pub fn get(found: Option<guild::Model>) -> (r: Result<(guild::Model, String), HandlerError>)
    ensures
        match found {
            Some(g) => r matches Ok((h, title)) && h == g && title@ == guild_label(g)
                && (g.name matches Some(n) ==> title@ == n@)
                && (g.name is None ==> title@ == signed_decimal(g.id as int)),
            None => r matches Err(HandlerError::Anyhow(m)) && m@ == "Could not load guild!"@,
        },
{
    match found {
        Some(g) => {
            let title = guild_name_or_id(&g);
            Ok((g, title))
        },
        None => {
            let mut m = String::new();
            m.append("Could not load guild!");
            Err(HandlerError::Anyhow(m))
        },
    }
}

} // verus!
