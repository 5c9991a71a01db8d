//! Verified core of the lowboy web framework: forms and their validation,
//! identity providers and the authentication plan, user/role/permission
//! models, error classification, layout contexts and the redirect rules of
//! the authentication controllers.

pub mod text;
pub mod error;
pub mod validation;
pub mod auth;
pub mod model;
pub mod view;
pub mod controller;
pub mod cli;
pub mod session_store;
pub mod signing;
