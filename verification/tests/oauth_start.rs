use orac::config::Config;
use orac::errors::HandlerError;
use orac::oauth::start_oauth;

fn config(redirect_url: &str) -> Config {
    Config {
        discord_token: "token".to_string(),
        client_secret: "secret".to_string(),
        client_id: "1234".to_string(),
        redirect_url: redirect_url.to_string(),
    }
}

#[test]
fn start_oauth_clears_the_session_and_points_at_discord() {
    let (keys, url) = start_oauth(&config("http://localhost:3000/oauth/token"));
    assert_eq!(keys, vec!["DISCORD_USER_ID".to_string(), "USER_ID".to_string(), "OAUTH_TOKEN".to_string()]);
    let url = url.unwrap();
    assert!(url.starts_with("https://discord.com/oauth2/authorize?response_type=code&client_id=1234&state="));
    assert!(url.contains("&redirect_uri=http%3A%2F%2Flocalhost%3A3000%2Foauth%2Ftoken"));
    assert!(url.ends_with("&redirect_uri=http%3A%2F%2Flocalhost%3A3000%2Foauth%2Ftoken&scope=guilds+identify+email"));
    assert!(!url.contains("secret"));
}

#[test]
fn start_oauth_refuses_a_redirect_that_is_no_url() {
    let (keys, url) = start_oauth(&config("not a url"));
    assert_eq!(keys.len(), 3);
    let expected = oauth2::RedirectUrl::new("not a url".to_string()).err().unwrap().to_string();
    match url {
        Err(HandlerError::Anyhow(m)) => assert_eq!(m, expected),
        other => panic!("unexpected {:?}", other),
    }
}
