//! The persistence mapping between aggregates and attribute maps.

pub mod category_mapper;
pub mod mapper;
pub mod payment_mapper;
pub mod subscribe_mapper;
