//! The credentials a login request presents.

use vstd::prelude::*;
use crate::auth::provider::IdentityProvider;

verus! {

/// How a user is logging in.
#[derive(Clone, Copy, Debug, PartialEq, Eq, Structural)]
pub enum CredentialKind {
    Password,
    OAuth(IdentityProvider),
}

/// A username and a password.
pub struct PasswordCredentials {
    pub username: String,
    pub password: String,
}

/// What an OAuth provider sent back: the authorization code, and the CSRF
/// state stored before the redirect and the one the provider returned.
pub struct OAuthCredentials {
    pub code: String,
    pub old_state: String,
    pub new_state: String,
}

/// The credentials of a login request, with the page to go to afterwards.
pub struct Credentials {
    pub kind: CredentialKind,
    pub password: Option<PasswordCredentials>,
    pub oauth: Option<OAuthCredentials>,
    pub next: Option<String>,
}

} // verus!
