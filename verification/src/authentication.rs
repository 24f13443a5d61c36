//! The caller of a request: a role and a user identifier.

pub mod identity;
