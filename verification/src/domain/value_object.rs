//! Value objects shared by the aggregates.

pub mod amount;
pub mod decimal;
pub mod timestamp;
