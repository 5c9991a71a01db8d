//! The framework's data model.

pub mod credentials;
pub mod email;
pub mod id;
pub mod post;
pub mod role;
pub mod token;
pub mod unverified_email;
pub mod user;

pub use email::{CreateEmailRecord, Email, EmailRecord, UpdateEmailRecord};
pub use role::{
    CreatePermissionRecord, CreateRoleRecord, Permission, PermissionRecord, Role, RoleRecord,
    UpdatePermissionRecord, UpdateRoleRecord,
};
pub use token::{CreateTokenRecord, Token, TokenRecord};
pub use unverified_email::UnverifiedEmail;
pub use user::{CreateUserRecord, UpdateUserRecord, User, UserModel, UserRecord};
pub use credentials::{CredentialKind, Credentials, OAuthCredentials, PasswordCredentials};
pub use id::Id;
pub use post::{NewPost, Post, PostRow};
