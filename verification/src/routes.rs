//! What each endpoint asks of its caller and of the path it is called with.

pub mod booking;
pub mod vehicle;
