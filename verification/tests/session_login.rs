use orac::errors::{HandlerError, Reply};
use orac::login::{index, login, validate_password, LoginOutcome, PasswordCheck, StartPage};
use orac::session::{create_step, CreateStep, discord_user_id, user_id, user_id_or_redirect, DISCORD_USER_ID_KEY, USER_ID_KEY};

#[test]
fn session_keys() {
    assert_eq!(USER_ID_KEY, "USER_ID");
    assert_eq!(DISCORD_USER_ID_KEY, "DISCORD_USER_ID");
}

#[test]
fn user_id_from_the_session() {
    assert!(matches!(user_id(Ok(Some(4))), Ok(4)));
    assert!(matches!(user_id(Ok(None)), Err(HandlerError::LoggedOut)));
    match user_id(Err("store down".to_string())) {
        Err(HandlerError::Anyhow(m)) => assert_eq!(m, "store down"),
        other => panic!("unexpected {:?}", other),
    }
}

#[test]
fn user_id_or_redirect_sends_visitors_home() {
    assert_eq!(user_id_or_redirect(Ok(Some(8))), Ok(8));
    assert_eq!(user_id_or_redirect(Ok(None)), Err(Reply::Redirect("/".to_string())));
    assert_eq!(user_id_or_redirect(Err("x".to_string())), Err(Reply::Redirect("/".to_string())));
}

#[test]
fn discord_user_id_from_the_session() {
    assert!(matches!(discord_user_id(Ok(Some("80351110224678912".to_string()))), Ok(80351110224678912)));
    assert!(matches!(discord_user_id(Ok(Some("0".to_string()))), Ok(0)));
    assert!(matches!(discord_user_id(Ok(None)), Err(HandlerError::LoggedOut)));
    match discord_user_id(Ok(Some("me".to_string()))) {
        Err(HandlerError::Anyhow(m)) => assert_eq!(m, "Cannot convert ID"),
        other => panic!("unexpected {:?}", other),
    }
    match discord_user_id(Err("gone".to_string())) {
        Err(HandlerError::Anyhow(m)) => assert_eq!(m, "gone"),
        other => panic!("unexpected {:?}", other),
    }
}

#[test]
fn hashed_passwords_are_checked() {
    let hash = bcrypt::hash("hunter2", 4).unwrap();
    assert_eq!(validate_password("hunter2", &hash), PasswordCheck::Accepted);
    assert_eq!(validate_password("hunter3", &hash), PasswordCheck::Rejected);
}

#[test]
fn plain_passwords_are_upgraded_once() {
    match validate_password("letmein", "letmein") {
        PasswordCheck::Upgrade(h) => {
            assert_eq!(h.len(), 60);
            assert!(h.starts_with("$2b$12$"));
            assert!(bcrypt::verify("letmein", &h).unwrap());
            assert_eq!(validate_password("letmein", &h), PasswordCheck::Accepted);
        },
        other => panic!("unexpected {:?}", other),
    }
    assert_eq!(validate_password("letmein", "letmeout"), PasswordCheck::Rejected);
}

#[test]
fn sign_in_form_answers() {
    match login("thea@example.org".to_string(), Some(3), true) {
        LoginOutcome::SignIn { user_id, then } => {
            assert_eq!(user_id, 3);
            assert_eq!(then, Reply::Redirect("/dashboard".to_string()));
        },
        other => panic!("unexpected {:?}", other),
    }
    match login("thea@example.org".to_string(), Some(3), false) {
        LoginOutcome::ShowPage(page) => {
            assert_eq!(page.username, Some("thea@example.org".to_string()));
            assert_eq!(page.message, Some("Invalid password".to_string()));
        },
        other => panic!("unexpected {:?}", other),
    }
    assert_eq!(login("nobody".to_string(), None, true), LoginOutcome::Refuse(Reply::Redirect("/".to_string())));
}

#[test]
fn start_page() {
    assert_eq!(index(true), StartPage::Leave(Reply::Redirect("/dashboard".to_string())));
    match index(false) {
        StartPage::SignInPage(page) => {
            assert_eq!(page.username, None);
            assert_eq!(page.message, None);
        },
        other => panic!("unexpected {:?}", other),
    }
}

#[test]
fn session_store_draws_new_ids_until_one_is_free() {
    assert_eq!(create_step(true), CreateStep::DrawNewId);
    assert_eq!(create_step(false), CreateStep::Save);
}
