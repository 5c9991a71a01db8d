use lowboy::auth::provider::{IdentityProvider, IdentityProviderConfig, OAuthClientManager};
use lowboy::auth::Error;

fn config(kind: IdentityProvider, client_id: &str, auth_url: &str) -> IdentityProviderConfig {
    IdentityProviderConfig::new(
        kind,
        client_id.to_string(),
        "secret".to_string(),
        auth_url.to_string(),
        "https://example.com/token".to_string(),
    )
}

#[test]
fn provider_names() {
    assert_eq!(IdentityProvider::GitHub.name(), "github");
    assert_eq!(IdentityProvider::Discord.name(), "discord");
}

#[test]
fn provider_redirect_uris() {
    assert_eq!(
        IdentityProvider::GitHub.redirect_uri(false),
        "http://localhost:3000/login/oauth/github/callback?intermediary_redirect=false"
    );
    assert_eq!(
        IdentityProvider::Discord.redirect_uri(true),
        "http://localhost:3000/login/oauth/discord/callback?intermediary_redirect=true"
    );
}

#[test]
fn provider_user_info_requests() {
    let r = IdentityProvider::GitHub.user_info_request("tok");
    assert_eq!(r.url, "https://api.github.com/user");
    assert_eq!(r.user_agent, "lowboy");
    assert_eq!(r.authorization, "Bearer tok");
    let r = IdentityProvider::Discord.user_info_request("abc");
    assert_eq!(r.url, "https://discord.com/api/users/@me");
    assert_eq!(r.authorization, "Bearer abc");
}

#[test]
fn config_defaults() {
    let c = config(IdentityProvider::GitHub, "id", "https://github.com/login/oauth/authorize");
    assert!(!c.intermediary_redirect);
    assert!(c.scopes.is_empty());
    assert!(c.extra_params.is_empty());
    assert_eq!(c.client_id, "id");
}

#[test]
fn manager_insert_then_get() {
    let mut m = OAuthClientManager::new();
    assert!(m.get(&IdentityProvider::GitHub).is_none());
    m.insert(config(IdentityProvider::GitHub, "first", "https://example.com/auth")).unwrap();
    assert_eq!(m.get(&IdentityProvider::GitHub).unwrap().client_id, "first");
    assert!(m.get(&IdentityProvider::Discord).is_none());
    m.insert(config(IdentityProvider::GitHub, "second", "https://example.com/auth")).unwrap();
    assert_eq!(m.get(&IdentityProvider::GitHub).unwrap().client_id, "second");
}

#[test]
fn manager_refuses_bad_url_and_keeps_state() {
    let mut m = OAuthClientManager::new();
    m.insert(config(IdentityProvider::Discord, "kept", "https://example.com/auth")).unwrap();
    let r = m.insert(config(IdentityProvider::Discord, "bad", "not a url"));
    assert!(matches!(r, Err(Error::OAuth2Url(_))));
    assert_eq!(m.get(&IdentityProvider::Discord).unwrap().client_id, "kept");
}

#[test]
fn manager_from_providers_later_wins() {
    let m = OAuthClientManager::from_providers(vec![
        config(IdentityProvider::GitHub, "a", "https://example.com/a"),
        config(IdentityProvider::Discord, "b", "https://example.com/b"),
        config(IdentityProvider::GitHub, "c", "https://example.com/c"),
    ])
    .unwrap();
    assert_eq!(m.get(&IdentityProvider::GitHub).unwrap().client_id, "c");
    assert_eq!(m.get(&IdentityProvider::Discord).unwrap().client_id, "b");
}

#[test]
fn manager_from_providers_fails_on_any_bad_url() {
    let r = OAuthClientManager::from_providers(vec![
        config(IdentityProvider::GitHub, "a", "https://example.com/a"),
        config(IdentityProvider::Discord, "b", "::"),
    ]);
    assert!(matches!(r, Err(Error::OAuth2Url(_))));
    assert!(OAuthClientManager::from_providers(vec![]).is_ok());
}

fn url_error_text(r: Result<(), Error>) -> String {
    match r {
        Err(e @ Error::OAuth2Url(_)) => e.message(),
        _ => panic!("expected a URL error"),
    }
}

#[test]
fn manager_reports_the_failing_url() {
    let mut m = OAuthClientManager::new();
    // A bad authorization URL is reported before the token URL.
    let both_bad = IdentityProviderConfig::new(
        IdentityProvider::GitHub,
        "id".to_string(),
        "secret".to_string(),
        "http://".to_string(),
        "not a url".to_string(),
    );
    assert_eq!(url_error_text(m.insert(both_bad)), "empty host");
    let token_bad = IdentityProviderConfig::new(
        IdentityProvider::GitHub,
        "id".to_string(),
        "secret".to_string(),
        "https://example.com/auth".to_string(),
        "not a url".to_string(),
    );
    assert_eq!(url_error_text(m.insert(token_bad)), "relative URL without a base");
    assert!(m.get(&IdentityProvider::GitHub).is_none());
    // The first configuration that fails is the one reported.
    let r = OAuthClientManager::from_providers(vec![
        config(IdentityProvider::GitHub, "a", "https://example.com/auth"),
        config(IdentityProvider::Discord, "b", "http://"),
        config(IdentityProvider::GitHub, "c", "not a url"),
    ]);
    match r {
        Err(e) => assert_eq!(e.message(), "empty host"),
        Ok(_) => panic!("expected a URL error"),
    }
}
