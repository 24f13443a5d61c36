//! Reading of texts: numbers, lists with commas, sort parameters.

pub mod number;
pub mod parameters;
pub mod text;
