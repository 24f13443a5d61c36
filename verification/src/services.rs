//! What the library hands to the document store.

pub mod mongodb;
