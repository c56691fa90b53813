//! Verified core of an authentication REST server: response envelopes,
//! credential validation, OAuth provider selection and the session-driven
//! decisions of the login, signup and OAuth handlers.

use vstd::prelude::*;

pub mod api;
pub mod creds;
pub mod json;
pub mod oauth;
pub mod session;
pub mod text;

verus! {

} // verus!
