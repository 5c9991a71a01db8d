//! The decisions of authentication: which check a set of credentials calls
//! for, whether a password is right, and which identity a provider's
//! answer gives.

use vstd::prelude::*;
use vstd::string::StringExecFns;
use super::details::RegistrationDetails;
use super::forms::{LowboyRegisterForm, RegisterFormView, RegistrationForm};
use vstd::string::StringSliceAdditionalSpecFns;
use super::error::Error;
use super::provider::{provider_name, IdentityProvider, OAuthClientManager};
use crate::model::credentials::{CredentialKind, Credentials, PasswordCredentials};
use crate::model::user::{User, UserRecord};
use crate::text::str_eq;

verus! {

/// What must be done next to authenticate a set of credentials.
pub enum AuthenticationStep {
    /// Find the user with this username who has a password, and check the
    /// password against it.
    CheckPassword(PasswordCredentials),
    /// The CSRF state came back changed: the attempt is refused, without an
    /// error.
    RejectState,
    /// Exchange this authorization code with this (configured) provider.
    ExchangeCode { provider: IdentityProvider, code: String },
}

/// The text of the error for a provider with no configured client.
pub open spec fn missing_client_message(p: IdentityProvider) -> Seq<char> {
    "failed to get client for provider: "@ + provider_name(p)
}

/// The message for a Discord account with no e-mail address.
pub open spec fn discord_email_message() -> Seq<char> {
    "Your discord account must have an email associated with it."@
}

/// The texts authentication fails with: a provider with no client is
/// named after "failed to get client for provider: ", and a Discord account
/// without an address is told that it must have one.
pub proof fn lemma_authentication_failure_texts(p: IdentityProvider)
    ensures
        missing_client_message(p) == "failed to get client for provider: "@ + (match p {
            IdentityProvider::GitHub => "github"@,
            IdentityProvider::Discord => "discord"@,
        }),
        discord_email_message() == "Your discord account must have an email associated with it."@,
{
}

/// Decides how to authenticate `credentials`: a password login needs its
/// password credentials; an OAuth login needs its OAuth credentials, is
/// refused when the CSRF state changed, and needs a configured provider.
pub fn plan_authentication(manager: &OAuthClientManager, credentials: Credentials) -> (r: Result<
    AuthenticationStep,
    Error,
>)
    ensures
        match credentials.kind {
            CredentialKind::Password => match credentials.password {
                None => r matches Err(Error::MissingCredential(k)) && k@ == "password"@,
                Some(p) => r == Ok::<AuthenticationStep, Error>(AuthenticationStep::CheckPassword(p)),
            },
            CredentialKind::OAuth(provider) => match credentials.oauth {
                None => r matches Err(Error::MissingCredential(k)) && k@ == "oauth"@,
                Some(o) => if o.old_state@ != o.new_state@ {
                    r matches Ok(AuthenticationStep::RejectState)
                } else if manager.config_of(provider) is None {
                    r matches Err(Error::OAuthClientManager(m)) && m@ == missing_client_message(provider)
                } else {
                    r matches Ok(AuthenticationStep::ExchangeCode { provider: p, code: c })
                        && p == provider && c == o.code
                },
            },
        },
{
    match credentials.kind {
        CredentialKind::Password => match credentials.password {
            None => Err(Error::MissingCredential("password".to_owned())),
            Some(p) => Ok(AuthenticationStep::CheckPassword(p)),
        },
        CredentialKind::OAuth(provider) => match credentials.oauth {
            None => Err(Error::MissingCredential("oauth".to_owned())),
            Some(o) => {
                if !str_eq(o.old_state.as_str(), o.new_state.as_str()) {
                    return Ok(AuthenticationStep::RejectState);
                }
                match manager.get(&provider) {
                    None => Err(
                        Error::OAuthClientManager(
                            "failed to get client for provider: ".to_owned().concat(provider.name()),
                        ),
                    ),
                    Some(_) => Ok(AuthenticationStep::ExchangeCode { provider, code: o.code }),
                }
            },
        },
    }
}

/// Whether `password_auth` accepts a password against a stored hash.
pub uninterp spec fn password_matches(password: Seq<char>, hash: Seq<char>) -> bool;

/// Calls `password_auth::verify_password`. Claimed: it succeeds exactly
/// when `password_matches` holds of the password and the hash (the hash
/// names its algorithm and salt, so the answer depends on these two texts
/// alone).
#[verifier::external_body]
fn verify_password(password: &str, hash: &str) -> (ok: bool)
    ensures
        ok == password_matches(password@, hash@),
{
    password_auth::verify_password(password, hash).is_ok()
}

/// The record a user row gives.
pub open spec fn record_of(u: User) -> UserRecord {
    UserRecord { id: u.id, username: u.username, password: u.password, access_token: u.access_token }
}

/// The outcome of a password login: the record of the user found for the
/// username, when the password matches their stored hash; nothing
/// otherwise.
pub open spec fn password_login(user: Option<User>, password: Seq<char>) -> Option<UserRecord> {
    match user {
        Some(u) => if u.password matches Some(h) && password_matches(password, h@) {
            Some(record_of(u))
        } else {
            None
        },
        None => None,
    }
}

/// The record of the user a password login authenticates: the user found
/// for the username, when the password matches their stored hash.
pub fn check_password(user: Option<User>, password: &str) -> (r: Option<UserRecord>)
    requires
        user matches Some(u) ==> u.password is Some,
    ensures
        r == password_login(user, password@),
{
    match user {
        None => None,
        Some(u) => {
            let ok = match &u.password {
                Some(hash) => verify_password(password, hash.as_str()),
                None => false,
            };
            if ok {
                Some(UserRecord::from(u))
            } else {
                None
            }
        },
    }
}

/// The number of bytes of a text in UTF-8.
pub open spec fn utf8_len(text: Seq<char>) -> nat {
    vstd::utf8::encode_utf8(text).len()
}

/// The longest password, in bytes, that Argon2 hashes.
pub open spec fn max_password_bytes() -> nat {
    0xFFFF_FFFF
}

/// The start of every hash `password_auth` generates: the PHC string of
/// Argon2id, its default variant.
pub open spec fn argon2id_prefix() -> Seq<char> {
    "$argon2id$"@
}

/// Whether a text starts with the Argon2id PHC prefix.
pub open spec fn is_argon2id_hash(text: Seq<char>) -> bool {
    text.len() > argon2id_prefix().len() && text.subrange(0, argon2id_prefix().len() as int)
        == argon2id_prefix()
}

/// Calls `password_auth::generate_hash`. Claimed: the hash it returns is
/// one that `password_auth::verify_password` accepts for the same password
/// (both use Argon2 with its default parameters, and the hash carries its
/// salt), and it is an Argon2id PHC string: `$argon2id$` followed by the
/// version, the parameters, the salt and the hash. The salt is drawn at
/// random, so which hash comes back is not stated beyond that. Argon2 refuses a password of more than
/// 0xFFFF_FFFF bytes and the call then panics, so `requires` leaves such
/// passwords out; a failure of the system's random source, which also
/// panics, is not ruled out by anything here.
#[verifier::external_body]
fn generate_password_hash(password: &str) -> (hash: String)
    requires
        password.spec_bytes().len() <= max_password_bytes(),
    ensures
        password_matches(password@, hash@),
        is_argon2id_hash(hash@),
{
    password_auth::generate_hash(password)
}

/// The hash a registration stores for the password typed into `form`: a
/// hash that the password login accepts for that password, in Argon2id's
/// PHC form, so the typed text is not what is stored (unless the password
/// is itself written in that form).
pub fn hash_registration_password(form: &LowboyRegisterForm) -> (hash: String)
    requires
        utf8_len(form@.password) <= max_password_bytes(),
    ensures
        password_matches(form@.password, hash@),
        is_argon2id_hash(hash@),
        !is_argon2id_hash(form@.password) ==> hash@ != form@.password,
{
    let password = form.password();
    generate_password_hash(password.as_str())
}

/// A password stored at registration logs its user in: once a user's
/// stored hash is one that matches the typed password, the password login
/// with that password gives that user's record.
pub proof fn lemma_registered_password_logs_in(form: RegisterFormView, hash: Seq<char>, u: User)
    requires
        password_matches(form.password, hash),
        u.password matches Some(h) && h@ == hash,
    ensures
        password_login(Some(u), form.password) == Some(record_of(u)),
{
}

/// The username and address a provider's answer gives a user; a Discord
/// account with no address is refused.
pub fn registration_identity<F>(details: &RegistrationDetails<F>) -> (r: Result<(String, String), Error>)
    requires
        !(details is Local),
    ensures
        match details {
            RegistrationDetails::GitHub(info) => r matches Ok((u, e)) && u@ == info.login@ && e@
                == info.email@,
            RegistrationDetails::Discord(info) => match info.email {
                Some(address) => r matches Ok((u, e)) && u@ == info.username@ && e@ == address@,
                None => r matches Err(Error::DiscordEmail(m)) && m@ == discord_email_message(),
            },
            RegistrationDetails::Local(_) => false,
        },
{
    match details {
        RegistrationDetails::GitHub(info) => Ok((info.login.clone(), info.email.clone())),
        RegistrationDetails::Discord(info) => match &info.email {
            Some(address) => Ok((info.username.clone(), address.clone())),
            None => Err(
                Error::DiscordEmail(
                    "Your discord account must have an email associated with it.".to_owned(),
                ),
            ),
        },
        RegistrationDetails::Local(_) => vstd::pervasive::unreached(),
    }
}

/// The error raised when the application's new-user hook fails.
pub fn app_error(detail: &str) -> (e: Error)
    ensures
        e matches Error::AppError(m) && m@ == "there was an error executing on_new_user: "@ + detail@,
{
    Error::AppError("there was an error executing on_new_user: ".to_owned().concat(detail))
}

/// Whether a stored user was just created rather than updated.
#[derive(Clone, Copy, Debug, PartialEq, Eq, Structural)]
pub enum Operation {
    Create,
    Update,
}

/// A user to be created, or updated if their username exists.
pub struct NewLowboyUserRecord<'a> {
    pub username: &'a str,
    pub email: &'a str,
    pub password: Option<&'a str>,
    pub access_token: Option<&'a str>,
}

impl<'a> NewLowboyUserRecord<'a> {
    pub fn new(username: &'a str, email: &'a str) -> (r: Self)
        ensures
            r.username == username,
            r.email == email,
            r.password is None,
            r.access_token is None,
    {
        NewLowboyUserRecord { username, email, password: None, access_token: None }
    }

    pub fn with_password(self, password: Option<&'a str>) -> (r: Self)
        ensures
            r.username == self.username,
            r.email == self.email,
            r.password == password,
            r.access_token == self.access_token,
    {
        NewLowboyUserRecord { password, ..self }
    }

    pub fn with_access_token(self, access_token: Option<&'a str>) -> (r: Self)
        ensures
            r.username == self.username,
            r.email == self.email,
            r.password == self.password,
            r.access_token == access_token,
    {
        NewLowboyUserRecord { access_token, ..self }
    }
}

/// The record an OAuth login stores: the provider's username and address,
/// no password, and the access token.
pub fn oauth_user_record<'a>(username: &'a str, email: &'a str, access_token: &'a str) -> (r:
    NewLowboyUserRecord<'a>)
    ensures
        r.username == username,
        r.email == email,
        r.password is None,
        r.access_token == Some(access_token),
{
    NewLowboyUserRecord::new(username, email).with_access_token(Some(access_token))
}

/// Whether the application's new-user hook runs after a user was stored:
/// only when the user was created.
pub fn runs_new_user_hook(operation: Operation) -> (r: bool)
    ensures
        r == (operation == Operation::Create),
{
    operation == Operation::Create
}

} // verus!
