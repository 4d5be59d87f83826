//! Core of a short-link redirection service: the data model and repository
//! contract, the error taxonomy and rejection chain, the credential gate,
//! the redirect resolver, the static-asset chooser, and the router that
//! composes them with a fixed precedence.

pub mod api;
pub mod auth;
pub mod database;
pub mod errors;
pub mod laws;
pub mod redirect;
pub mod router;
pub mod response;
pub mod ui;
