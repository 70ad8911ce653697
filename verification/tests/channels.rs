use orac::channels::{
    add, add_post, addable_channels, requested_channel, AddChannelForm, ChannelCandidate, FetchedChannel,
};
use orac::entities::{channel, guild};
use orac::errors::{HandlerError, Reply};

fn candidate(id: u64, name: &str, position: u16, is_text: bool) -> ChannelCandidate {
    ChannelCandidate { id, name: name.to_string(), position, is_text }
}

fn row(discord_id: &str) -> channel::Model {
    channel::Model {
        id: 1,
        name: None,
        guild_id: 3,
        discord_id: discord_id.to_string(),
        allow_reset: false,
        reset_message: None,
        reset_schedule: None,
    }
}

fn ids(channels: &[ChannelCandidate]) -> Vec<u64> {
    channels.iter().map(|c| c.id).collect()
}

#[test]
fn offers_text_channels_not_managed_by_position() {
    let candidates = vec![
        candidate(11, "voice", 0, false),
        candidate(12, "rules", 3, true),
        candidate(13, "general", 1, true),
        candidate(14, "memes", 2, true),
        candidate(15, "managed", 0, true),
    ];
    let offered = addable_channels(&candidates, &vec!["15".to_string()]);
    assert_eq!(ids(&offered), vec![13, 14, 12]);
}

#[test]
fn equal_positions_keep_discord_order() {
    let candidates = vec![
        candidate(5, "b", 1, true),
        candidate(3, "a", 0, true),
        candidate(9, "c", 1, true),
        candidate(1, "d", 0, true),
        candidate(7, "e", 1, true),
    ];
    let offered = addable_channels(&candidates, &vec![]);
    assert_eq!(ids(&offered), vec![3, 1, 5, 9, 7]);
}

#[test]
fn matches_a_stable_sort() {
    let candidates: Vec<ChannelCandidate> = (0..40u64)
        .map(|i| candidate(100 + i, "c", ((i * 7) % 5) as u16, i % 6 != 0))
        .collect();
    let existing = vec!["103".to_string(), "131".to_string(), "999".to_string()];
    let mut expected: Vec<&ChannelCandidate> = candidates
        .iter()
        .filter(|c| c.is_text && !existing.contains(&c.id.to_string()))
        .collect();
    expected.sort_by(|a, b| a.position.cmp(&b.position));
    let offered = addable_channels(&candidates, &existing);
    assert_eq!(ids(&offered), expected.iter().map(|c| c.id).collect::<Vec<_>>());
}

#[test]
fn managed_ids_compare_as_text() {
    // "012" is not the text of channel 12, so channel 12 is still offered.
    let candidates = vec![candidate(12, "x", 0, true)];
    let offered = addable_channels(&candidates, &vec!["012".to_string()]);
    assert_eq!(ids(&offered), vec![12]);
}

#[test]
fn add_leaves_out_managed_rows() {
    let candidates = vec![candidate(21, "a", 2, true), candidate(22, "b", 1, true), candidate(23, "c", 0, true)];
    let offered = add(&vec![row("22")], &candidates);
    assert_eq!(ids(&offered), vec![23, 21]);
    let none_left = add(&vec![row("21"), row("22"), row("23")], &candidates);
    assert!(none_left.is_empty());
}

fn form(channel: &str) -> AddChannelForm {
    AddChannelForm {
        channel: channel.to_string(),
        auto_reset: true,
        auto_reset_cron: Some("0 0 * * MON".to_string()),
        auto_reset_message: Some("Fresh start!".to_string()),
    }
}

fn the_guild() -> guild::Model {
    guild::Model { id: 7, discord_id: "555".to_string(), name: Some("Guild".to_string()), logo_url: None }
}

#[test]
fn adds_a_channel_of_the_guild() {
    let fetched = FetchedChannel::Guild { id: 901, guild_id: 555, name: "general".to_string() };
    let (new_row, reply) = add_post(7, &the_guild(), form("901"), fetched).unwrap();
    assert_eq!(new_row.name, Some("general".to_string()));
    assert_eq!(new_row.guild_id, 7);
    assert_eq!(new_row.discord_id, "901");
    assert!(new_row.allow_reset);
    assert_eq!(new_row.reset_schedule, Some("0 0 * * MON".to_string()));
    assert_eq!(new_row.reset_message, Some("Fresh start!".to_string()));
    assert_eq!(reply, Reply::Redirect("/guild/7/channels".to_string()));
}

#[test]
fn refuses_channels_of_other_guilds() {
    let elsewhere = FetchedChannel::Guild { id: 901, guild_id: 556, name: "general".to_string() };
    assert!(matches!(add_post(7, &the_guild(), form("901"), elsewhere), Err(HandlerError::Forbidden)));
    assert!(matches!(add_post(7, &the_guild(), form("901"), FetchedChannel::Other), Err(HandlerError::Forbidden)));
}

#[test]
fn reads_the_chosen_channel() {
    assert!(matches!(requested_channel(&form("901")), Ok(901)));
    match requested_channel(&form("general")) {
        Err(HandlerError::Anyhow(m)) => assert_eq!(m, "invalid digit found in string"),
        other => panic!("unexpected {:?}", other),
    }
    match requested_channel(&form("0")) {
        Err(HandlerError::Anyhow(m)) => assert_eq!(m, "number would be zero for non-zero type"),
        other => panic!("unexpected {:?}", other),
    }
}
