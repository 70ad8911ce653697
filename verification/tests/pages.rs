use orac::entities::{guild, user};
use orac::errors::{HandlerError, Reply};
use orac::guilds;
use orac::profile::{profile, submit, ProfileForm};
use orac::templates::Common;
use orac::util::{check_guild_access, get_common};

fn g(id: i32, name: Option<&str>, logo: Option<&str>) -> guild::Model {
    guild::Model {
        id,
        discord_id: format!("{}", 1000 + id),
        name: name.map(|s| s.to_string()),
        logo_url: logo.map(|s| s.to_string()),
    }
}

#[test]
fn common_lists_the_user_guilds() {
    let guilds = vec![g(1, Some("Alpha"), Some("https://cdn/a.png")), g(2, None, None), g(-3, None, None)];
    let common = get_common("Channels", Some(2), &guilds);
    assert_eq!(common.page_title, "Channels");
    let names: Vec<&str> = common.guilds.iter().map(|i| i.name.as_str()).collect();
    assert_eq!(names, vec!["Alpha", "2", "-3"]);
    let selected: Vec<bool> = common.guilds.iter().map(|i| i.selected).collect();
    assert_eq!(selected, vec![false, true, false]);
    assert_eq!(common.guilds[0].logo_url, Some("https://cdn/a.png".to_string()));
    assert_eq!(common.guilds[1].id, 2);
}

#[test]
fn nothing_selected_without_a_guild() {
    let guilds = vec![g(1, Some("Alpha"), None), g(2, Some("Beta"), None)];
    let common = get_common("Dashboard", None, &guilds);
    assert!(common.guilds.iter().all(|i| !i.selected));
    let empty = get_common("Dashboard", Some(1), &vec![]);
    assert!(empty.guilds.is_empty());
}

#[test]
fn at_most_one_guild_is_selected() {
    let guilds = vec![g(4, None, None), g(5, None, None), g(6, None, None)];
    for selected in [None, Some(4), Some(5), Some(6), Some(7)] {
        let common = get_common("t", selected, &guilds);
        assert!(common.guilds.iter().filter(|i| i.selected).count() <= 1);
    }
}

#[test]
fn guild_access_needs_exactly_one_row() {
    assert!(check_guild_access(1).is_ok());
    assert!(matches!(check_guild_access(0), Err(HandlerError::Forbidden)));
    assert!(matches!(check_guild_access(2), Err(HandlerError::Forbidden)));
}

#[test]
fn guild_page_title() {
    let (found, title) = guilds::get(Some(g(9, Some("Nine"), None))).unwrap();
    assert_eq!(found.id, 9);
    assert_eq!(title, "Nine");
    let (_, title) = guilds::get(Some(g(10, None, None))).unwrap();
    assert_eq!(title, "10");
    match guilds::get(None) {
        Err(HandlerError::Anyhow(m)) => assert_eq!(m, "Could not load guild!"),
        other => panic!("unexpected {:?}", other),
    }
}

fn common() -> Common {
    Common { page_title: "Profile".to_string(), guilds: vec![] }
}

#[test]
fn profile_page_shows_the_user() {
    let u = user::Model {
        id: 1,
        name: "Thea".to_string(),
        email: "thea@example.org".to_string(),
        password: "x".to_string(),
        discord_id: None,
    };
    let page = profile(Some(u), common()).unwrap();
    assert_eq!(page.name, "Thea");
    assert_eq!(page.email, "thea@example.org");
    assert_eq!(page.common.page_title, "Profile");
    match profile(None, common()) {
        Err(HandlerError::Anyhow(m)) => assert_eq!(m, "Your user doesn't exist? Clever!"),
        other => panic!("unexpected {:?}", other),
    }
}

#[test]
fn profile_form_gives_name_and_email() {
    let (name, email, then) = submit(ProfileForm { name: Some("N".to_string()), email: Some("e@x".to_string()) });
    assert_eq!(name, "N");
    assert_eq!(email, "e@x");
    assert_eq!(then, Reply::Redirect("/profile".to_string()));
}

#[test]
fn errors_become_replies() {
    assert_eq!(HandlerError::Anyhow("boom".to_string()).into_response(), Reply::Status(500, "boom".to_string()));
    assert_eq!(HandlerError::LoggedOut.into_response(), Reply::Redirect("/".to_string()));
    assert_eq!(HandlerError::Forbidden.into_response(), Reply::Status(403, String::new()));
}
