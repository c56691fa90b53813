//! Version 1 of the API: password authentication and OAuth sign-in.

pub mod auth;
pub mod oauth;
