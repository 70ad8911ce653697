use orac::commands::{reset_channel, reset_confirmation, HELP_FOOTER, PING_REPLY};
use orac::entities::guild;
use orac::errors::{HandlerError, Reply};
use orac::events::{handle_event, BotEvent, EventAction};
use orac::migrator::{Channel, Guild, GuildAccess, Session, User};
use orac::oauth::{guild_access_record, oauth_code, oauth_login, select_guild, OauthLogin, PartialGuild};

#[test]
fn reset_uses_a_temporary_name() {
    let plan = reset_channel("general");
    assert_eq!(plan.new_name, "new_general");
    assert_eq!(plan.final_name, "general");
    assert_eq!(reset_confirmation(1234567), "<#1234567> has been reset!");
}

#[test]
fn command_texts() {
    assert_eq!(PING_REPLY, "pong");
    assert_eq!(HELP_FOOTER, "Orac is maintained by Thea, so blame her.");
}

#[test]
fn joined_guilds_are_recorded() {
    let action = handle_event(BotEvent::GuildCreate {
        id: 81384788765712384,
        name: "Discord API".to_string(),
        icon_url: Some("https://cdn.discordapp.com/icons/81384788765712384/a.png".to_string()),
    });
    match action {
        EventAction::StoreGuild(g) => {
            assert_eq!(g.discord_id, "81384788765712384");
            assert_eq!(g.name, Some("Discord API".to_string()));
            assert_eq!(g.logo_url, Some("https://cdn.discordapp.com/icons/81384788765712384/a.png".to_string()));
        },
        other => panic!("unexpected {:?}", other),
    }
    assert_eq!(
        handle_event(BotEvent::Other { name: "message".to_string() }),
        EventAction::Report("message".to_string())
    );
}

fn partial(id: &str, owner: bool) -> PartialGuild {
    PartialGuild { id: id.to_string(), name: "g".to_string(), owner, permissions: 0 }
}

fn row(id: i32, discord_id: &str) -> guild::Model {
    guild::Model { id, discord_id: discord_id.to_string(), name: None, logo_url: None }
}

#[test]
fn shared_guilds_follow_the_user_list() {
    let user_guilds = vec![partial("30", true), partial("10", false), partial("99", false), partial("20", false)];
    let bot_guilds = vec![row(1, "10"), row(2, "20"), row(3, "30"), row(4, "10")];
    let shared = select_guild(&user_guilds, &bot_guilds);
    let pairs: Vec<(usize, i32)> = shared.iter().map(|s| (s.user_guild, s.guild_row)).collect();
    assert_eq!(pairs, vec![(0, 3), (1, 1), (3, 2)]);
    assert!(select_guild(&vec![], &bot_guilds).is_empty());
    assert!(select_guild(&user_guilds, &vec![]).is_empty());
}

#[test]
fn access_rows() {
    let admin = guild_access_record(5, 3, true, Some(8), vec![11, 12]);
    assert_eq!(admin.user_id, 5);
    assert_eq!(admin.guild_id, 3);
    assert!(admin.is_owner);
    assert!(admin.is_administrator);
    assert_eq!(admin.roles.role_ids, vec![11, 12]);
    assert!(guild_access_record(5, 3, false, Some(0x7fff_fff7), vec![]).is_administrator == false);
    assert!(guild_access_record(5, 3, false, Some(u64::MAX), vec![]).is_administrator);
    assert!(!guild_access_record(5, 3, false, None, vec![]).is_administrator);
}

#[test]
fn oauth_reply_needs_a_code() {
    assert!(matches!(oauth_code(Some("abc".to_string())), Ok(ref c) if c == "abc"));
    match oauth_code(None) {
        Err(HandlerError::Anyhow(m)) => assert_eq!(m, "No OAuth code"),
        other => panic!("unexpected {:?}", other),
    }
}

#[test]
fn oauth_sign_in() {
    let next = Reply::Redirect("/oauth/select_guild".to_string());
    assert_eq!(
        oauth_login(Some((2, Some("77".to_string()))), "77".to_string()),
        OauthLogin::SignIn { user_id: 2, discord_id: "77".to_string(), store_discord_id: false, then: Reply::Redirect("/oauth/select_guild".to_string()) }
    );
    assert_eq!(
        oauth_login(Some((2, Some("76".to_string()))), "77".to_string()),
        OauthLogin::SignIn { user_id: 2, discord_id: "77".to_string(), store_discord_id: true, then: Reply::Redirect("/oauth/select_guild".to_string()) }
    );
    assert_eq!(
        oauth_login(Some((2, None)), "77".to_string()),
        OauthLogin::SignIn { user_id: 2, discord_id: "77".to_string(), store_discord_id: true, then: next }
    );
    assert_eq!(oauth_login(None, "77".to_string()), OauthLogin::Leave(Reply::Redirect("/".to_string())));
}

#[test]
fn schema_identifiers() {
    assert_eq!(Guild::Table.iden(), "guild");
    assert_eq!(Guild::LogoUrl.iden(), "logo_url");
    assert_eq!(Channel::ResetSchedule.iden(), "reset_schedule");
    assert_eq!(User::DiscordId.iden(), "discord_id");
    assert_eq!(Session::ExpiryDate.iden(), "expiry_date");
    assert_eq!(GuildAccess::Table.iden(), "guild_access");
    assert_eq!(GuildAccess::IsAdministrator.iden(), "is_administrator");
}
