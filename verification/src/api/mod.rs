//! The handlers of the REST API.

pub mod v1;
