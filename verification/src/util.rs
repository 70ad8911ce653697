//! What every page of a signed-in user needs: the guild list beside the page,
//! and the check that the user may see a guild's pages.

use vstd::prelude::*;

use crate::decimal::{i32_to_string, signed_decimal};
use crate::entities::guild;
use crate::errors::HandlerError;
use crate::templates::{Common, GuildItem};

verus! {

/// A copy of an optional string.
pub fn copy_text(s: &Option<String>) -> (r: Option<String>)
    ensures
        r == *s,
{
    match s {
        Some(t) => Some(t.clone()),
        None => None,
    }
}

/// The name under which a guild is listed: its name, or its row id in
/// decimal when it has none.
pub open spec fn guild_label(g: guild::Model) -> Seq<char> {
    match g.name {
        Some(n) => n@,
        None => signed_decimal(g.id as int),
    }
}

/// Whether `item` lists the guild `g`, selected exactly when `selected` names it.
pub open spec fn lists_guild(item: GuildItem, g: guild::Model, selected: Option<i32>) -> bool {
    &&& item.name@ == guild_label(g)
    &&& item.id == g.id
    &&& item.logo_url == g.logo_url
    &&& item.selected == (selected == Some(g.id))
}

/// The name under which a guild is listed.
pub fn guild_name_or_id(g: &guild::Model) -> (r: String)
    ensures
        r@ == guild_label(*g),
        g.name matches Some(n) ==> r@ == n@,
        g.name is None ==> r@ == signed_decimal(g.id as int),
{
    match &g.name {
        Some(n) => n.clone(),
        None => i32_to_string(g.id),
    }
}

/// The part of every page that shows the title and the user's guilds, in
/// the order given, with the guild `selected_guild` marked.
pub fn get_common(page_title: &str, selected_guild: Option<i32>, user_guilds: &Vec<guild::Model>) -> (r: Common)
    ensures
        r.page_title@ == page_title@,
        r.guilds@.len() == user_guilds@.len(),
        forall|i: int| 0 <= i < user_guilds@.len() ==> #[trigger] lists_guild(r.guilds@[i], user_guilds@[i], selected_guild),
        // A named guild is listed under its whole name, an unnamed one under
        // its row id in decimal.
        forall|i: int| 0 <= i < user_guilds@.len() ==> ((#[trigger] user_guilds@[i]).name matches Some(n) ==> r.guilds@[i].name@ == n@),
        forall|i: int| 0 <= i < user_guilds@.len() ==> (#[trigger] user_guilds@[i]).name is None
            ==> r.guilds@[i].name@ == signed_decimal(user_guilds@[i].id as int),
        forall|i: int| 0 <= i < user_guilds@.len() ==> r.guilds@[i].id == (#[trigger] user_guilds@[i]).id
            && r.guilds@[i].logo_url == user_guilds@[i].logo_url
            && r.guilds@[i].selected == (selected_guild == Some(user_guilds@[i].id)),
{
    let mut guilds: Vec<GuildItem> = Vec::new();
    let mut i: usize = 0;
    while i < user_guilds.len()
        invariant
            i <= user_guilds@.len(),
            guilds@.len() == i,
            forall|j: int| 0 <= j < i ==> #[trigger] lists_guild(guilds@[j], user_guilds@[j], selected_guild),
            forall|j: int| 0 <= j < i ==> ((#[trigger] user_guilds@[j]).name matches Some(n) ==> guilds@[j].name@ == n@),
            forall|j: int| 0 <= j < i ==> (#[trigger] user_guilds@[j]).name is None
                ==> guilds@[j].name@ == signed_decimal(user_guilds@[j].id as int),
            forall|j: int| 0 <= j < i ==> guilds@[j].id == (#[trigger] user_guilds@[j]).id
                && guilds@[j].logo_url == user_guilds@[j].logo_url
                && guilds@[j].selected == (selected_guild == Some(user_guilds@[j].id)),
        decreases user_guilds@.len() - i,
    {
        let u = &user_guilds[i];
        let selected = match selected_guild {
            Some(s) => s == u.id,
            None => false,
        };
        let name = guild_name_or_id(u);
        guilds.push(GuildItem {
            name,
            id: u.id,
            logo_url: copy_text(&u.logo_url),
            selected,
        });
        i = i + 1;
    }
    Common { page_title: page_title.to_owned(), guilds }
}

/// A guild list marks at most one guild, when the guilds' ids differ.
pub proof fn lemma_at_most_one_selected(user_guilds: Seq<guild::Model>, items: Seq<GuildItem>, selected: Option<i32>)
    requires
        items.len() == user_guilds.len(),
        forall|i: int| 0 <= i < user_guilds.len() ==> #[trigger] lists_guild(items[i], user_guilds[i], selected),
        forall|i: int, j: int| 0 <= i < j < user_guilds.len() ==> user_guilds[i].id != user_guilds[j].id,
    ensures
        forall|i: int, j: int| 0 <= i < items.len() && 0 <= j < items.len() && items[i].selected && items[j].selected ==> i == j,
{
    assert forall|i: int, j: int| 0 <= i < items.len() && 0 <= j < items.len() && items[i].selected && items[j].selected implies i == j by {
        assert(lists_guild(items[i], user_guilds[i], selected));
        assert(lists_guild(items[j], user_guilds[j], selected));
        if i < j {
            assert(user_guilds[i].id != user_guilds[j].id);
        } else if j < i {
            assert(user_guilds[j].id != user_guilds[i].id);
        }
    }
}

/// The outcome of the check that the signed-in user may see a guild's
/// pages, given how many access rows the user has for the guild: allowed
/// for exactly one row, forbidden otherwise.
pub fn check_guild_access(access_rows: u64) -> (r: Result<(), HandlerError>)
    ensures
        r is Ok <==> access_rows == 1,
        r is Err ==> r matches Err(HandlerError::Forbidden),
{
    if access_rows == 1 {
        Ok(())
    } else {
        Err(HandlerError::Forbidden)
    }
}

} // verus!
