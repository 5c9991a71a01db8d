use lowboy::auth::details::{DiscordUserInfo, GitHubUserInfo, RegistrationDetails};
use lowboy::auth::plan::{
    app_error, check_password, hash_registration_password, oauth_user_record, plan_authentication, registration_identity,
    runs_new_user_hook, AuthenticationStep, Operation,
};
use lowboy::auth::provider::{IdentityProvider, IdentityProviderConfig, OAuthClientManager};
use lowboy::auth::{Error, LowboyRegisterForm};
use lowboy::model::credentials::{CredentialKind, Credentials, OAuthCredentials, PasswordCredentials};
use lowboy::model::email::Email;
use lowboy::model::user::User;

fn github_manager() -> OAuthClientManager {
    let mut m = OAuthClientManager::new();
    m.insert(IdentityProviderConfig::new(
        IdentityProvider::GitHub,
        "id".to_string(),
        "secret".to_string(),
        "https://github.com/login/oauth/authorize".to_string(),
        "https://github.com/login/oauth/access_token".to_string(),
    ))
    .unwrap();
    m
}

fn oauth(provider: IdentityProvider, old: &str, new: &str) -> Credentials {
    Credentials {
        kind: CredentialKind::OAuth(provider),
        password: None,
        oauth: Some(OAuthCredentials {
            code: "the-code".to_string(),
            old_state: old.to_string(),
            new_state: new.to_string(),
        }),
        next: None,
    }
}

#[test]
fn plan_password_login() {
    let creds = Credentials {
        kind: CredentialKind::Password,
        password: Some(PasswordCredentials { username: "u".to_string(), password: "p".to_string() }),
        oauth: None,
        next: None,
    };
    match plan_authentication(&github_manager(), creds) {
        Ok(AuthenticationStep::CheckPassword(p)) => {
            assert_eq!(p.username, "u");
            assert_eq!(p.password, "p");
        }
        _ => panic!("expected a password check"),
    }
}

#[test]
fn plan_missing_credentials() {
    let creds = Credentials { kind: CredentialKind::Password, password: None, oauth: None, next: None };
    assert!(matches!(plan_authentication(&github_manager(), creds), Err(Error::MissingCredential(k)) if k == "password"));
    let creds = Credentials {
        kind: CredentialKind::OAuth(IdentityProvider::GitHub),
        password: None,
        oauth: None,
        next: None,
    };
    assert!(matches!(plan_authentication(&github_manager(), creds), Err(Error::MissingCredential(k)) if k == "oauth"));
}

#[test]
fn plan_rejects_changed_state() {
    let r = plan_authentication(&github_manager(), oauth(IdentityProvider::GitHub, "s1", "s2"));
    assert!(matches!(r, Ok(AuthenticationStep::RejectState)));
}

#[test]
fn plan_exchanges_code() {
    let r = plan_authentication(&github_manager(), oauth(IdentityProvider::GitHub, "s", "s"));
    match r {
        Ok(AuthenticationStep::ExchangeCode { provider, code }) => {
            assert_eq!(provider, IdentityProvider::GitHub);
            assert_eq!(code, "the-code");
        }
        _ => panic!("expected a code exchange"),
    }
}

#[test]
fn plan_unconfigured_provider() {
    let r = plan_authentication(&github_manager(), oauth(IdentityProvider::Discord, "s", "s"));
    assert!(matches!(r, Err(Error::OAuthClientManager(m)) if m == "failed to get client for provider: discord"));
}

fn user_with_password(hash: Option<String>) -> User {
    User {
        id: 7,
        username: "frank".to_string(),
        email: Email { id: 1, user_id: 7, address: "frank@example.com".to_string(), verified: true },
        password: hash,
        access_token: None,
        roles: None,
        permissions: None,
    }
}

#[test]
fn password_check_accepts_right_password() {
    let hash = password_auth::generate_hash("hunter22");
    let record = check_password(Some(user_with_password(Some(hash.clone()))), "hunter22").unwrap();
    assert_eq!(record.id, 7);
    assert_eq!(record.username, "frank");
    assert_eq!(record.password, Some(hash));
}

#[test]
fn password_check_refuses_wrong_password_and_unknown_user() {
    let hash = password_auth::generate_hash("hunter22");
    assert!(check_password(Some(user_with_password(Some(hash))), "hunter23").is_none());
    assert!(check_password(None, "anything").is_none());
}

#[test]
fn identity_from_github() {
    let details: RegistrationDetails<()> = RegistrationDetails::GitHub(GitHubUserInfo {
        login: "octo".to_string(),
        email: "octo@example.com".to_string(),
        avatar_url: String::new(),
        name: "Octo".to_string(),
    });
    assert_eq!(
        registration_identity(&details).unwrap(),
        ("octo".to_string(), "octo@example.com".to_string())
    );
}

#[test]
fn identity_from_discord() {
    let with_email: RegistrationDetails<()> = RegistrationDetails::Discord(DiscordUserInfo {
        id: "1".to_string(),
        username: "disco".to_string(),
        email: Some("disco@example.com".to_string()),
        global_name: "Disco".to_string(),
        avatar: None,
    });
    assert_eq!(
        registration_identity(&with_email).unwrap(),
        ("disco".to_string(), "disco@example.com".to_string())
    );
    let without_email: RegistrationDetails<()> = RegistrationDetails::Discord(DiscordUserInfo {
        id: "1".to_string(),
        username: "disco".to_string(),
        email: None,
        global_name: "Disco".to_string(),
        avatar: None,
    });
    assert!(matches!(
        registration_identity(&without_email),
        Err(Error::DiscordEmail(m)) if m == "Your discord account must have an email associated with it."
    ));
}

#[test]
fn app_error_text() {
    assert!(matches!(app_error("boom"), Error::AppError(m) if m == "there was an error executing on_new_user: boom"));
}

#[test]
fn oauth_record_and_hook() {
    let r = oauth_user_record("u", "u@example.com", "tok");
    assert_eq!(r.username, "u");
    assert_eq!(r.email, "u@example.com");
    assert_eq!(r.password, None);
    assert_eq!(r.access_token, Some("tok"));
    assert!(runs_new_user_hook(Operation::Create));
    assert!(!runs_new_user_hook(Operation::Update));
}

#[test]
fn registered_password_logs_in() {
    let form = LowboyRegisterForm::new(
        "frank".to_string(),
        "frank@example.com".to_string(),
        "hunter22!".to_string(),
        None,
    );
    let hash = hash_registration_password(&form);
    assert_ne!(hash, "hunter22!");
    assert!(hash.starts_with("$argon2id$"));
    assert!(password_auth::verify_password("hunter22!", &hash).is_ok());
    let user = user_with_password(Some(hash.clone()));
    let record = check_password(Some(user), "hunter22!").unwrap();
    assert_eq!(record.password, Some(hash.clone()));
    assert!(check_password(Some(user_with_password(Some(hash))), "hunter22").is_none());
}

#[test]
fn auth_error_messages() {
    assert_eq!(Error::MissingCredential("password".to_string()).message(), "missing password credential");
    assert_eq!(Error::DiscordEmail("no address".to_string()).message(), "no address");
    assert_eq!(Error::Diesel("db down".to_string()).message(), "db down");
    let bad = OAuthClientManager::new().insert(IdentityProviderConfig::new(
        IdentityProvider::GitHub,
        "id".to_string(),
        "secret".to_string(),
        "not a url".to_string(),
        "https://github.com/login/oauth/access_token".to_string(),
    ));
    match bad {
        Err(e @ Error::OAuth2Url(_)) => assert_eq!(e.message(), "relative URL without a base"),
        _ => panic!("expected a URL error"),
    }
}
