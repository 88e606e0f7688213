//! What can go wrong with a subscription.

use crate::domain::payment_cycle::PaymentCycleError;
use crate::domain::subscribe::subscribe_name::SubscribeNameError;
use crate::domain::value_object::amount::AmountError;
use crate::domain::AggregateIdError;
use vstd::prelude::*;

verus! {

/// What can go wrong with a subscription.
#[derive(Debug, PartialEq, Eq)]
pub enum SubscribeError {
    /// The amount is invalid.
    InvalidAmountError(AmountError),
    /// The text names no status; holds the text.
    InvalidSubscribeStatus(String),
    /// The store refused to delete the subscription.
    DeleteSubscribeFailed(String),
    /// The subscriptions of a user could not be read.
    QueryError(String),
    /// The subscription could not be read by its id.
    FindByIdError(String),
    /// The store refused to update the subscription.
    UpdateSubscribeError(String),
    /// A required field is missing.
    MissingField(String),
    /// The store refused to create the subscription.
    CreateSubscribeFailed(String),
    /// A field holds a value of the wrong type.
    ParseFailed(String),
    /// There is no such subscription.
    NotExists,
    /// An identifier is malformed; holds the message.
    SubscribeIdFailed(String),
    /// The payment cycle is invalid; holds the message.
    InvalidPaymentCycle(String),
    /// The name is invalid; holds the message.
    InvalidSubscribeName(String),
}

/// The mathematical value of a [`SubscribeError`].
pub enum SubscribeErrorView {
    InvalidAmountError(AmountError),
    InvalidSubscribeStatus(Seq<char>),
    DeleteSubscribeFailed(Seq<char>),
    QueryError(Seq<char>),
    FindByIdError(Seq<char>),
    UpdateSubscribeError(Seq<char>),
    MissingField(Seq<char>),
    CreateSubscribeFailed(Seq<char>),
    ParseFailed(Seq<char>),
    NotExists,
    SubscribeIdFailed(Seq<char>),
    InvalidPaymentCycle(Seq<char>),
    InvalidSubscribeName(Seq<char>),
}

impl SubscribeErrorView {
    /// The message of this error.
    pub open spec fn message(self) -> Seq<char> {
        match self {
            SubscribeErrorView::InvalidAmountError(e) => "Invalid Amount: "@ + e.debug_name(),
            SubscribeErrorView::InvalidSubscribeStatus(s) => "Not match Subscribe Status: "@ + s,
            SubscribeErrorView::DeleteSubscribeFailed(s) => "Failed to delete subscribe: "@ + s,
            SubscribeErrorView::QueryError(s) => "Failed to query subscribe: "@ + s,
            SubscribeErrorView::FindByIdError(s) => "Failed to find by id subscribe: "@ + s,
            SubscribeErrorView::UpdateSubscribeError(s) => "Failed to update subscribe: "@ + s,
            SubscribeErrorView::MissingField(s) => "Required subscribe field '"@ + s + "' was missing"@,
            SubscribeErrorView::CreateSubscribeFailed(s) => "Failed to create subscribe: "@ + s,
            SubscribeErrorView::ParseFailed(s) => "Failed to parse field '"@ + s + "'"@,
            SubscribeErrorView::NotExists => "Subscribe not exist"@,
            SubscribeErrorView::SubscribeIdFailed(s) => s,
            SubscribeErrorView::InvalidPaymentCycle(s) => s,
            SubscribeErrorView::InvalidSubscribeName(s) => s,
        }
    }
}

impl View for SubscribeError {
    type V = SubscribeErrorView;

    open spec fn view(&self) -> SubscribeErrorView {
        match self {
            SubscribeError::InvalidAmountError(e) => SubscribeErrorView::InvalidAmountError(*e),
            SubscribeError::InvalidSubscribeStatus(s) => SubscribeErrorView::InvalidSubscribeStatus(s@),
            SubscribeError::DeleteSubscribeFailed(s) => SubscribeErrorView::DeleteSubscribeFailed(s@),
            SubscribeError::QueryError(s) => SubscribeErrorView::QueryError(s@),
            SubscribeError::FindByIdError(s) => SubscribeErrorView::FindByIdError(s@),
            SubscribeError::UpdateSubscribeError(s) => SubscribeErrorView::UpdateSubscribeError(s@),
            SubscribeError::MissingField(s) => SubscribeErrorView::MissingField(s@),
            SubscribeError::CreateSubscribeFailed(s) => SubscribeErrorView::CreateSubscribeFailed(s@),
            SubscribeError::ParseFailed(s) => SubscribeErrorView::ParseFailed(s@),
            SubscribeError::NotExists => SubscribeErrorView::NotExists,
            SubscribeError::SubscribeIdFailed(s) => SubscribeErrorView::SubscribeIdFailed(s@),
            SubscribeError::InvalidPaymentCycle(s) => SubscribeErrorView::InvalidPaymentCycle(s@),
            SubscribeError::InvalidSubscribeName(s) => SubscribeErrorView::InvalidSubscribeName(s@),
        }
    }
}

impl SubscribeError {
    /// The message of this error, as a string.
    pub fn to_string(&self) -> (r: String)
        ensures
            r@ == self@.message(),
    {
        match self {
            SubscribeError::InvalidAmountError(e) => "Invalid Amount: ".to_owned().concat(e.debug_string().as_str()),
            SubscribeError::InvalidSubscribeStatus(s) => "Not match Subscribe Status: ".to_owned().concat(s.as_str()),
            SubscribeError::DeleteSubscribeFailed(s) => "Failed to delete subscribe: ".to_owned().concat(s.as_str()),
            SubscribeError::QueryError(s) => "Failed to query subscribe: ".to_owned().concat(s.as_str()),
            SubscribeError::FindByIdError(s) => "Failed to find by id subscribe: ".to_owned().concat(s.as_str()),
            SubscribeError::UpdateSubscribeError(s) => "Failed to update subscribe: ".to_owned().concat(s.as_str()),
            SubscribeError::MissingField(s) => "Required subscribe field '".to_owned().concat(s.as_str()).concat("' was missing"),
            SubscribeError::CreateSubscribeFailed(s) => "Failed to create subscribe: ".to_owned().concat(s.as_str()),
            SubscribeError::ParseFailed(s) => "Failed to parse field '".to_owned().concat(s.as_str()).concat("'"),
            SubscribeError::NotExists => "Subscribe not exist".to_owned(),
            SubscribeError::SubscribeIdFailed(s) => s.clone(),
            SubscribeError::InvalidPaymentCycle(s) => s.clone(),
            SubscribeError::InvalidSubscribeName(s) => s.clone(),
        }
    }

    /// Wraps an amount error.
    pub fn from_amount_error(value: AmountError) -> (r: Self)
        ensures
            r@ == SubscribeErrorView::InvalidAmountError(value),
    {
        SubscribeError::InvalidAmountError(value)
    }

    /// Wraps an identifier error, keeping its message.
    pub fn from_id_error(value: AggregateIdError) -> (r: Self)
        ensures
            r@ == SubscribeErrorView::SubscribeIdFailed(value.message()),
    {
        SubscribeError::SubscribeIdFailed(value.to_string())
    }

    /// Wraps a payment cycle error, keeping its message.
    pub fn from_cycle_error(value: &PaymentCycleError) -> (r: Self)
        ensures
            r@ == SubscribeErrorView::InvalidPaymentCycle(value@.message()),
    {
        SubscribeError::InvalidPaymentCycle(value.to_string())
    }

    /// Wraps a name error, keeping its message.
    pub fn from_name_error(value: SubscribeNameError) -> (r: Self)
        ensures
            r@ == SubscribeErrorView::InvalidSubscribeName(value.message()),
    {
        SubscribeError::InvalidSubscribeName(value.to_string())
    }
}

} // verus!
