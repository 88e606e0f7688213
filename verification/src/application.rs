//! The application layer: wire records and their mapping to aggregates.

pub mod dtos;
pub mod error;
