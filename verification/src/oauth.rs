//! Signing in through Discord: what the dashboard does with the OAuth reply,
//! and which guild access rows it writes for the guilds that the user and the
//! bot share.

use oauth2::{AuthUrl, ClientId, CsrfToken, RedirectUrl, Scope};
use vstd::prelude::*;

use crate::config::Config;
use crate::entities::guild;
use crate::entities::guild_access::{Model as GuildAccess, RoleInfo};
use crate::errors::{redirect_to_root, root_path, HandlerError, Reply};
use crate::session::{DISCORD_USER_ID_KEY, USER_ID_KEY};

verus! {

/// A guild of the signed-in user, as Discord lists it for the user.
#[derive(Debug, PartialEq, Eq)]
pub struct PartialGuild {
    /// The guild's Discord snowflake, in decimal.
    pub id: String,
    pub name: String,
    /// Whether the user owns the guild.
    pub owner: bool,
    /// The user's permission bits in the guild.
    pub permissions: i64,
}

/// A guild that the user and the bot share: the user's guild (its index in
/// the user's list) and the bot's guild row that has its id.
#[derive(Debug, PartialEq, Eq)]
pub struct SharedGuild {
    pub user_guild: usize,
    pub guild_row: i32,
}

/// Whether `k` is the first of the bot's guild rows with the Discord id `id`.
pub open spec fn first_row_with_id(bot_guilds: Seq<guild::Model>, id: Seq<char>, k: int) -> bool {
    &&& 0 <= k < bot_guilds.len()
    &&& bot_guilds[k].discord_id@ == id
    &&& forall|j: int| 0 <= j < k ==> bot_guilds[j].discord_id@ != id
}

/// Whether some guild row of the bot has the Discord id `id`.
pub open spec fn has_row_with_id(bot_guilds: Seq<guild::Model>, id: Seq<char>) -> bool {
    exists|k: int| 0 <= k < bot_guilds.len() && bot_guilds[k].discord_id@ == id
}

/// Whether `s` names, in order and once each, the first `n` guilds of the
/// user that the bot has a row for, each with the first such row.
pub open spec fn shared_guilds(
    user_guilds: Seq<PartialGuild>,
    bot_guilds: Seq<guild::Model>,
    n: int,
    s: Seq<SharedGuild>,
) -> bool
    decreases n,
{
    if n <= 0 {
        s.len() == 0
    } else {
        let id = user_guilds[n - 1].id@;
        if has_row_with_id(bot_guilds, id) {
            &&& s.len() > 0
            &&& s.last().user_guild == n - 1
            &&& exists|k: int| first_row_with_id(bot_guilds, id, k) && bot_guilds[k].id == s.last().guild_row
            &&& shared_guilds(user_guilds, bot_guilds, n - 1, s.drop_last())
        } else {
            shared_guilds(user_guilds, bot_guilds, n - 1, s)
        }
    }
}

/// The first of the bot's guild rows with the Discord id `id`, if any.
fn find_row(bot_guilds: &Vec<guild::Model>, id: &String) -> (r: Option<usize>)
    ensures
        match r {
            Some(k) => first_row_with_id(bot_guilds@, id@, k as int),
            None => !has_row_with_id(bot_guilds@, id@),
        },
{
    let mut k: usize = 0;
    while k < bot_guilds.len()
        invariant
            k <= bot_guilds@.len(),
            forall|j: int| 0 <= j < k ==> bot_guilds@[j].discord_id@ != id@,
        decreases bot_guilds@.len() - k,
    {
        if bot_guilds[k].discord_id == *id {
            return Some(k);
        }
        k = k + 1;
    }
    None
}

/// The guilds that the user and the bot share, in the order of the user's
/// list, each with the first of the bot's rows for it.
pub fn select_guild(user_guilds: &Vec<PartialGuild>, bot_guilds: &Vec<guild::Model>) -> (r: Vec<SharedGuild>)
    ensures
        shared_guilds(user_guilds@, bot_guilds@, user_guilds@.len() as int, r@),
        // Every user guild that some bot row carries (the last row too) is shared.
        forall|i: int| 0 <= i < user_guilds@.len() && (exists|k: int| 0 <= k < bot_guilds@.len()
            && bot_guilds@[k].discord_id@ == #[trigger] user_guilds@[i].id@)
            ==> exists|j: int| 0 <= j < r@.len() && r@[j].user_guild == i,
        // Each shared guild is one of the user's, once, in order, with the
        // first bot row that carries its id.
        forall|j: int| 0 <= j < r@.len() ==> #[trigger] r@[j].user_guild < user_guilds@.len(),
        forall|i: int, j: int| 0 <= i < j < r@.len() ==> r@[i].user_guild < r@[j].user_guild,
        forall|j: int| 0 <= j < r@.len() ==> exists|k: int|
            0 <= k < bot_guilds@.len() && bot_guilds@[k].discord_id@ == user_guilds@[#[trigger] r@[j].user_guild as int].id@
                && bot_guilds@[k].id == r@[j].guild_row
                && forall|l: int| 0 <= l < k ==> bot_guilds@[l].discord_id@ != user_guilds@[r@[j].user_guild as int].id@,
{
    let mut shared: Vec<SharedGuild> = Vec::new();
    let mut i: usize = 0;
    while i < user_guilds.len()
        invariant
            i <= user_guilds@.len(),
            shared_guilds(user_guilds@, bot_guilds@, i as int, shared@),
        decreases user_guilds@.len() - i,
    {
        let found = find_row(bot_guilds, &user_guilds[i].id);
        let ghost before = shared@;
        match found {
            Some(k) => {
                shared.push(SharedGuild { user_guild: i, guild_row: bot_guilds[k].id });
                assert(shared@.drop_last() =~= before);
                assert(first_row_with_id(bot_guilds@, user_guilds@[i as int].id@, k as int));
            },
            None => {},
        }
        i = i + 1;
    }
    proof {
        lemma_shared_guilds_are_shared(user_guilds@, bot_guilds@, user_guilds@.len() as int, shared@);
    }
    shared
}

/// Access is granted exactly for the guilds that the bot has a row for:
/// each such guild of the user (whichever row carries its id, the last one
/// too) is granted, each at most once, in the order of the user's list, and
/// with the first row that carries the guild's Discord id.
pub proof fn lemma_shared_guilds_are_shared(
    user_guilds: Seq<PartialGuild>,
    bot_guilds: Seq<guild::Model>,
    n: int,
    s: Seq<SharedGuild>,
)
    requires
        0 <= n <= user_guilds.len(),
        shared_guilds(user_guilds, bot_guilds, n, s),
    ensures
        forall|i: int| 0 <= i < s.len() ==> #[trigger] s[i].user_guild < n,
        forall|i: int, j: int| 0 <= i < j < s.len() ==> s[i].user_guild < s[j].user_guild,
        forall|i: int| 0 <= i < s.len() ==> exists|k: int|
            0 <= k < bot_guilds.len() && bot_guilds[k].discord_id@ == user_guilds[#[trigger] s[i].user_guild as int].id@
                && bot_guilds[k].id == s[i].guild_row
                && forall|l: int| 0 <= l < k ==> bot_guilds[l].discord_id@ != user_guilds[s[i].user_guild as int].id@,
        forall|i: int| 0 <= i < n && (exists|k: int| 0 <= k < bot_guilds.len() && bot_guilds[k].discord_id@ == #[trigger] user_guilds[i].id@)
            ==> exists|j: int| 0 <= j < s.len() && s[j].user_guild == i,
    decreases n,
{
    if n > 0 {
        let id = user_guilds[n - 1].id@;
        if has_row_with_id(bot_guilds, id) {
            let rest = s.drop_last();
            lemma_shared_guilds_are_shared(user_guilds, bot_guilds, n - 1, rest);
            assert forall|i: int| 0 <= i < s.len() implies #[trigger] s[i].user_guild < n by {
                if i < rest.len() {
                    assert(s[i] == rest[i]);
                }
            }
            assert forall|i: int, j: int| 0 <= i < j < s.len() implies s[i].user_guild < s[j].user_guild by {
                assert(s[i] == rest[i]);
                if j < rest.len() {
                    assert(s[j] == rest[j]);
                }
            }
            assert forall|i: int| 0 <= i < s.len() implies exists|k: int|
                0 <= k < bot_guilds.len() && bot_guilds[k].discord_id@ == user_guilds[#[trigger] s[i].user_guild as int].id@
                    && bot_guilds[k].id == s[i].guild_row
                    && forall|l: int| 0 <= l < k ==> bot_guilds[l].discord_id@ != user_guilds[s[i].user_guild as int].id@ by {
                if i < rest.len() {
                    assert(s[i] == rest[i]);
                } else {
                    let k = choose|k: int| first_row_with_id(bot_guilds, id, k) && bot_guilds[k].id == s.last().guild_row;
                    assert(s[i] == s.last());
                    assert(bot_guilds[k].discord_id@ == user_guilds[s[i].user_guild as int].id@);
                }
            }
            assert forall|i: int| 0 <= i < n && (exists|k: int| 0 <= k < bot_guilds.len() && bot_guilds[k].discord_id@ == #[trigger] user_guilds[i].id@)
                implies exists|j: int| 0 <= j < s.len() && s[j].user_guild == i by {
                if i < n - 1 {
                    let j = choose|j: int| 0 <= j < rest.len() && rest[j].user_guild == i;
                    assert(s[j] == rest[j]);
                } else {
                    assert(s[s.len() - 1].user_guild == i);
                }
            }
        } else {
            lemma_shared_guilds_are_shared(user_guilds, bot_guilds, n - 1, s);
            assert forall|i: int| 0 <= i < n && (exists|k: int| 0 <= k < bot_guilds.len() && bot_guilds[k].discord_id@ == #[trigger] user_guilds[i].id@)
                implies exists|j: int| 0 <= j < s.len() && s[j].user_guild == i by {
                if i == n - 1 {
                    let k = choose|k: int| 0 <= k < bot_guilds.len() && bot_guilds[k].discord_id@ == user_guilds[i].id@;
                    assert(has_row_with_id(bot_guilds, id));
                }
            }
        }
    }
}

/// Calls `Permissions::administrator` of serenity on the permission bits,
/// which holds when the administrator bit (`1 << 3`) is set.
#[verifier::external_body]
fn permissions_grant_administrator(bits: u64) -> (r: bool)
    ensures
        r == (bits & 8 == 8),
{
    serenity::model::permissions::Permissions::from_bits_retain(bits).administrator()
}

/// The access row for a guild that the user and the bot share: the user's
/// ownership from the user's guild list, administrator when the member's
/// permissions (when Discord gives them) hold the administrator bit, and the
/// member's roles.
pub fn guild_access_record(
    user_id: i32,
    guild_row: i32,
    is_owner: bool,
    member_permissions: Option<u64>,
    role_ids: Vec<u64>,
) -> (r: GuildAccess)
    ensures
        r.user_id == user_id,
        r.guild_id == guild_row,
        r.is_owner == is_owner,
        r.is_administrator == match member_permissions {
            Some(bits) => bits & 8 == 8,
            None => false,
        },
        r.roles.role_ids@ == role_ids@,
{
    let is_administrator = match member_permissions {
        Some(bits) => permissions_grant_administrator(bits),
        None => false,
    };
    GuildAccess {
        guild_id: guild_row,
        user_id,
        is_owner,
        is_administrator,
        roles: RoleInfo { role_ids },
    }
}

/// Discord's OAuth authorization endpoint.
pub const DISCORD_AUTHORIZE_URL: &'static str = "https://discord.com/oauth2/authorize";

/// Discord's OAuth token endpoint.
pub const DISCORD_TOKEN_URL: &'static str = "https://discord.com/api/oauth2/token";

/// What `url::Url::parse` makes of a text given as the redirect URL:
/// `None` when it takes the text, else `Some` of the text that its
/// `ParseError` displays.
pub uninterp spec fn redirect_url_refusal(text: Seq<char>) -> Option<Seq<char>>;

/// Whether a scope is written with lowercase ASCII letters only (and is not
/// empty), so that a URL query carries it as it is.
pub open spec fn plain_scope(s: Seq<char>) -> bool {
    s.len() > 0 && forall|i: int| 0 <= i < s.len() ==> 'a' <= #[trigger] s[i] && s[i] <= 'z'
}

/// Scopes joined by `+`, as a URL query writes a list separated by spaces.
pub open spec fn joined_scopes(scopes: Seq<Seq<char>>) -> Seq<char>
    decreases scopes.len(),
{
    if scopes.len() == 0 {
        Seq::empty()
    } else if scopes.len() == 1 {
        scopes[0]
    } else {
        joined_scopes(scopes.drop_last()) + "+"@ + scopes.last()
    }
}

/// How a URL query writes a text (form_urlencoded's serialization of its
/// UTF-8 bytes, as `query_pairs_mut` appends a value).
pub uninterp spec fn query_text(text: Seq<char>) -> Seq<char>;

/// Builds Discord's OAuth authorization URL with oauth2: a `BasicClient`
/// for Discord's authorize endpoint with the client id and the redirect URL,
/// then `authorize_url` with a random state and the scopes in order. It fails
/// exactly when `RedirectUrl::new` refuses the redirect URL (with the text of
/// that refusal). oauth2 writes the query pairs in a fixed order:
/// `response_type=code`, `client_id`, `state`, `redirect_uri`, then `scope`
/// (the scopes joined by spaces), each value written as `query_text`; a
/// plain scope list (lowercase ASCII letters) is written as it is, joined by
/// `+`. The state is random and is not stated.
#[verifier::external_body]
fn discord_authorize_url(client_id: &str, redirect_url: &str, scopes: &Vec<String>) -> (r: Result<String, String>)
    ensures
        r is Ok <==> redirect_url_refusal(redirect_url@) is None,
        r matches Err(e) ==> redirect_url_refusal(redirect_url@) == Some(e@),
        r matches Ok(u) ==> ("https://discord.com/oauth2/authorize?response_type=code&client_id="@
            + query_text(client_id@) + "&state="@).is_prefix_of(u@),
        r matches Ok(u) ==> (scopes@.len() > 0 && forall|i: int| 0 <= i < scopes@.len() ==> plain_scope(#[trigger] scopes@[i]@))
            ==> ("&redirect_uri="@ + query_text(redirect_url@) + "&scope="@
                + joined_scopes(scopes@.map_values(|s: String| s@))).is_suffix_of(u@),
{
    let redirect = RedirectUrl::new(redirect_url.to_string()).map_err(|e| e.to_string())?;
    let authorize = AuthUrl::new("https://discord.com/oauth2/authorize".to_string()).map_err(|e| e.to_string())?;
    let client = oauth2::basic::BasicClient::new(ClientId::new(client_id.to_string()), None, authorize, None)
        .set_redirect_uri(redirect);
    let request = client.authorize_url(CsrfToken::new_random);
    let (url, _state) = request.add_scopes(scopes.iter().map(|s| Scope::new(s.clone()))).url();
    Ok(url.to_string())
}

/// The session keys that starting the OAuth sign-in clears.
pub open spec fn oauth_cleared_keys() -> Seq<Seq<char>> {
    seq!["DISCORD_USER_ID"@, "USER_ID"@, "OAUTH_TOKEN"@]
}

/// Starting the OAuth sign-in: the session keys to clear (the Discord user,
/// the user and the OAuth token), and the URL of Discord's authorization page
/// to send the visitor to, asking for the scopes `guilds`, `identify` and
/// `email`; a failure with the parser's text when the configured redirect URL
/// is no URL.
pub fn start_oauth(config: &Config) -> (r: (Vec<String>, Result<String, HandlerError>))
    ensures
        r.0@.map_values(|k: String| k@) == oauth_cleared_keys(),
        r.1 is Ok <==> redirect_url_refusal(config.redirect_url@) is None,
        r.1 matches Ok(u) ==> ("https://discord.com/oauth2/authorize?response_type=code&client_id="@
            + query_text(config.client_id@) + "&state="@).is_prefix_of(u@),
        r.1 matches Ok(u) ==> ("&redirect_uri="@ + query_text(config.redirect_url@)
            + "&scope=guilds+identify+email"@).is_suffix_of(u@),
        r.1 matches Err(e) ==> (e matches HandlerError::Anyhow(m) && redirect_url_refusal(config.redirect_url@) == Some(m@)),
{
    let mut keys: Vec<String> = Vec::new();
    keys.push(DISCORD_USER_ID_KEY.to_owned());
    keys.push(USER_ID_KEY.to_owned());
    keys.push("OAUTH_TOKEN".to_owned());
    let mut scopes: Vec<String> = Vec::new();
    scopes.push("guilds".to_owned());
    scopes.push("identify".to_owned());
    scopes.push("email".to_owned());
    proof {
        reveal_strlit("DISCORD_USER_ID");
        reveal_strlit("USER_ID");
        reveal_strlit("guilds");
        reveal_strlit("identify");
        reveal_strlit("email");
        reveal_strlit("+");
        reveal_strlit("&scope=");
        reveal_strlit("&scope=guilds+identify+email");
        let views = scopes@.map_values(|s: String| s@);
        assert(views.len() == 3);
        assert(views[0] == "guilds"@);
        assert(views[1] == "identify"@);
        assert(views[2] == "email"@);
        assert(views.drop_last().drop_last() =~= seq!["guilds"@]);
        assert(views.drop_last() =~= seq!["guilds"@, "identify"@]);
        reveal_with_fuel(joined_scopes, 3);
        assert(joined_scopes(seq!["guilds"@]) == "guilds"@);
        assert(joined_scopes(views) =~= "guilds"@ + "+"@ + "identify"@ + "+"@ + "email"@);
        assert("&scope="@ + joined_scopes(views) =~= "&scope=guilds+identify+email"@);
        reveal_strlit("&redirect_uri=");
        let q = query_text(config.redirect_url@);
        assert("&redirect_uri="@ + q + "&scope="@ + joined_scopes(views)
            =~= "&redirect_uri="@ + q + "&scope=guilds+identify+email"@);
        assert forall|i: int| 0 <= i < scopes@.len() implies plain_scope(#[trigger] scopes@[i]@) by {
            assert(scopes@[i]@ == views[i]);
        }
        assert(keys@.map_values(|k: String| k@) =~= oauth_cleared_keys());
    }
    let url = match discord_authorize_url(
        config.client_id.as_str(),
        config.redirect_url.as_str(),
        &scopes,
    ) {
        Ok(u) => Ok(u),
        Err(e) => Err(HandlerError::Anyhow(e)),
    };
    (keys, url)
}

/// The code that Discord hands back in the OAuth redirect, or the failure
/// "No OAuth code" when there is none.
pub fn oauth_code(code: Option<String>) -> (r: Result<String, HandlerError>)
    ensures
        match code {
            Some(c) => r == Ok::<String, HandlerError>(c),
            None => r matches Err(HandlerError::Anyhow(m)) && m@ == "No OAuth code"@,
        },
{
    match code {
        Some(c) => Ok(c),
        None => {
            let mut m = String::new();
            m.append("No OAuth code");
            Err(HandlerError::Anyhow(m))
        },
    }
}

/// What the OAuth sign-in does once the Discord user is known.
#[derive(Debug, PartialEq, Eq)]
pub enum OauthLogin {
    /// Sign the user in (keep the row id and the Discord id in the session),
    /// store the Discord id in the user's row when `store_discord_id` says
    /// so, then reply.
    SignIn { user_id: i32, discord_id: String, store_discord_id: bool, then: Reply },
    /// Reply without signing in.
    Leave(Reply),
}

/// The path `/oauth/select_guild`.
pub open spec fn select_guild_path() -> Seq<char> {
    "/oauth/select_guild"@
}

/// What the OAuth sign-in does, given the account whose email the Discord
/// user has (its row id and stored Discord id) and the Discord user's id: an
/// account is signed in, gets the Discord id stored when it had another one
/// or none, and goes on to pick guilds; without an account, the visitor is
/// sent to `/`.
pub fn oauth_login(account: Option<(i32, Option<String>)>, discord_id: String) -> (r: OauthLogin)
    ensures
        match account {
            Some((id, stored)) => r matches OauthLogin::SignIn { user_id, discord_id: d, store_discord_id, then: Reply::Redirect(p) }
                && user_id == id && d == discord_id && p@ == select_guild_path()
                && store_discord_id == match stored {
                    Some(s) => s@ != discord_id@,
                    None => true,
                },
            None => r matches OauthLogin::Leave(Reply::Redirect(p)) && p@ == root_path(),
        },
{
    match account {
        Some((id, stored)) => {
            let store = match &stored {
                Some(s) => !(*s == discord_id),
                None => true,
            };
            let mut p = String::new();
            p.append("/oauth/select_guild");
            OauthLogin::SignIn { user_id: id, discord_id, store_discord_id: store, then: Reply::Redirect(p) }
        },
        None => OauthLogin::Leave(redirect_to_root()),
    }
}

} // verus!
