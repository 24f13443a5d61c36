//! What is decided for each request once the store has answered.

pub mod booking;
pub mod vehicle;
