//! The one error type of the application layer. Each variant keeps the
//! message of the error that it wraps.

use crate::domain::payment::payment_error::PaymentError;
use crate::domain::subscribe::subscribe_error::SubscribeError;
use crate::domain::category::category_error::CategoryError;
use crate::domain::AggregateIdError;
use vstd::prelude::*;

verus! {

/// An error of the application layer.
#[derive(Debug, PartialEq, Eq)]
pub enum ApplicationError {
    /// An identifier is malformed.
    InvalidAggregateIdFormatError(String),
    /// A payment method is invalid or could not be stored.
    PaymentMethodError(String),
    /// A subscription is invalid or could not be stored.
    SubscribeError(String),
    /// A category is invalid or could not be stored.
    CategoryError(String),
}

/// The mathematical value of a [`ApplicationError`].
pub enum ApplicationErrorView {
    InvalidAggregateIdFormatError(Seq<char>),
    PaymentMethodError(Seq<char>),
    SubscribeError(Seq<char>),
    CategoryError(Seq<char>),
}

impl ApplicationErrorView {
    /// The message of this error.
    pub open spec fn message(self) -> Seq<char> {
        match self {
            ApplicationErrorView::InvalidAggregateIdFormatError(s) => "Aggregate id format error: '"@ + s + "'"@,
            ApplicationErrorView::PaymentMethodError(s) => "Payment method error: '"@ + s + "'"@,
            ApplicationErrorView::SubscribeError(s) => "Subscribe error: '"@ + s,
            ApplicationErrorView::CategoryError(s) => "Category error: '"@ + s + "'"@,
        }
    }
}

impl View for ApplicationError {
    type V = ApplicationErrorView;

    open spec fn view(&self) -> ApplicationErrorView {
        match self {
            ApplicationError::InvalidAggregateIdFormatError(s) => ApplicationErrorView::InvalidAggregateIdFormatError(s@),
            ApplicationError::PaymentMethodError(s) => ApplicationErrorView::PaymentMethodError(s@),
            ApplicationError::SubscribeError(s) => ApplicationErrorView::SubscribeError(s@),
            ApplicationError::CategoryError(s) => ApplicationErrorView::CategoryError(s@),
        }
    }
}

impl ApplicationError {
    /// The message of this error, as a string.
    pub fn to_string(&self) -> (r: String)
        ensures
            r@ == self@.message(),
    {
        match self {
            ApplicationError::InvalidAggregateIdFormatError(s) => "Aggregate id format error: '".to_owned().concat(s.as_str()).concat("'"),
            ApplicationError::PaymentMethodError(s) => "Payment method error: '".to_owned().concat(s.as_str()).concat("'"),
            ApplicationError::SubscribeError(s) => "Subscribe error: '".to_owned().concat(s.as_str()),
            ApplicationError::CategoryError(s) => "Category error: '".to_owned().concat(s.as_str()).concat("'"),
        }
    }

    /// Wraps a payment method error, keeping its message.
    pub fn from_payment_error(value: &PaymentError) -> (r: Self)
        ensures
            r@ == ApplicationErrorView::PaymentMethodError(value@.message()),
    {
        ApplicationError::PaymentMethodError(value.to_string())
    }

    /// Wraps an identifier error, keeping its message.
    pub fn from_id_error(value: AggregateIdError) -> (r: Self)
        ensures
            r@ == ApplicationErrorView::InvalidAggregateIdFormatError(value.message()),
    {
        ApplicationError::InvalidAggregateIdFormatError(value.to_string())
    }

    /// Wraps a subscription error, keeping its message.
    pub fn from_subscribe_error(value: &SubscribeError) -> (r: Self)
        ensures
            r@ == ApplicationErrorView::SubscribeError(value@.message()),
    {
        ApplicationError::SubscribeError(value.to_string())
    }

    /// Wraps a category error, keeping its message.
    pub fn from_category_error(value: &CategoryError) -> (r: Self)
        ensures
            r@ == ApplicationErrorView::CategoryError(value@.message()),
    {
        ApplicationError::CategoryError(value.to_string())
    }
}

/// An identifier error with the given message.
pub fn to_aggregate_id_error(message: String) -> (r: ApplicationError)
    ensures
        r@ == ApplicationErrorView::InvalidAggregateIdFormatError(message@),
{
    ApplicationError::InvalidAggregateIdFormatError(message)
}

/// A payment method error with the given message.
pub fn to_payment_method_error(message: String) -> (r: ApplicationError)
    ensures
        r@ == ApplicationErrorView::PaymentMethodError(message@),
{
    ApplicationError::PaymentMethodError(message)
}

/// A subscription error with the given message.
pub fn to_subscribe_error(message: String) -> (r: ApplicationError)
    ensures
        r@ == ApplicationErrorView::SubscribeError(message@),
{
    ApplicationError::SubscribeError(message)
}

/// A category error with the given message.
pub fn to_category_error(message: String) -> (r: ApplicationError)
    ensures
        r@ == ApplicationErrorView::CategoryError(message@),
{
    ApplicationError::CategoryError(message)
}

} // verus!
