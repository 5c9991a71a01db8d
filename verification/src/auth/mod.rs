//! Authentication: forms, identity providers and the plan that decides how
//! a set of credentials is checked.

pub mod details;
pub mod error;
pub mod forms;
pub mod plan;
pub mod provider;

pub use error::Error;
pub use forms::{LoginForm, LowboyLoginForm, LowboyRegisterForm, RegistrationForm};
pub use provider::{IdentityProvider, IdentityProviderConfig, OAuthClientManager};
pub use details::{DiscordUserInfo, GitHubUserInfo, RegistrationDetails};
