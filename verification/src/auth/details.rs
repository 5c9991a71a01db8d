//! What an identity provider says about a user, and what a registration
//! carries.

use vstd::prelude::*;

verus! {

/// A GitHub user, as `https://api.github.com/user` describes them.
pub struct GitHubUserInfo {
    pub login: String,
    pub email: String,
    pub avatar_url: String,
    pub name: String,
}

/// A Discord user, as `https://discord.com/api/users/@me` describes them.
pub struct DiscordUserInfo {
    pub id: String,
    pub username: String,
    pub email: Option<String>,
    pub global_name: String,
    pub avatar: Option<String>,
}

/// How a new user registered: through a provider, with what it said about
/// them, or locally, with the form they filled in.
pub enum RegistrationDetails<F> {
    GitHub(GitHubUserInfo),
    Discord(DiscordUserInfo),
    Local(F),
}

} // verus!
