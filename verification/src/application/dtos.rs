//! Wire records and their mapping to aggregates.

use vstd::prelude::*;

pub mod category_dto;
pub mod payment_method_dto;
pub mod subscribe_dto;

verus! {

/// The two mappings between a wire record `T` and an aggregate `D`, with
/// errors of type `E`.
pub trait DTO<T, D, E> where T: Sized {
    /// Validates a wire record and builds the aggregate from it.
    fn map_to_domain_model(v: T) -> Result<D, E>;

    /// The wire record of an aggregate.
    fn map_to_dto(v: &D) -> T;
}

} // verus!
