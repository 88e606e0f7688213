//! Domain identity, value-object validation and the two-way mapping between
//! aggregates, wire records and persisted attribute maps of a personal
//! finance tracker.

pub mod application;
pub mod domain;
pub mod infrastructure;
pub mod text;
