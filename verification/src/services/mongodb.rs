//! Queries for the document store: the criteria of a search as a list of
//! typed clauses, what the clauses mean for a stored record, and the
//! document that asks the store for them.

pub mod booking;
pub mod document;
pub mod filter;
pub mod query_builder;
pub mod vehicle;

pub use filter::{Clause, Filter, StoredRecord, Value};
pub use query_builder::{CanonicalText, QueryBuilder, ToValue};
