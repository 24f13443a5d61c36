//! The rules that a request must meet before anything is stored.

pub mod booking;
pub mod json;
pub mod vehicle;

pub use json::{CustomValidateTrait, Json};
