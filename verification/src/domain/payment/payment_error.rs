//! What can go wrong with a payment method.

use crate::domain::payment::payment_method_name::PaymentMethodNameError;
use crate::domain::AggregateIdError;
use vstd::prelude::*;

verus! {

/// What can go wrong with a payment method.
#[derive(Debug, PartialEq, Eq)]
pub enum PaymentError {
    /// The store refused to create the payment method.
    CreatePaymentMethodFailed(String),
    /// The store refused to delete the payment method.
    DeletePaymentMethodFailed(String),
    /// The payment methods of a user could not be read.
    QueryError(String),
    /// The payment method could not be read by its id.
    FindByIdError(String),
    /// The store refused to update the payment method.
    UpdatePaymentMethodError(String),
    /// An identifier is malformed; holds the message.
    PaymentMethodIdFailed(String),
    /// A category or kind is unknown; holds the message.
    PaymentMethodNameFailed(String),
    /// A required field is missing.
    MissingField(String),
    /// The kind does not belong to the category.
    InvalidMethodCombination,
    /// There is no such payment method.
    NotExists,
    /// A timestamp could not be read; holds the parser's message.
    InvalidFormatDatetime(String),
}

/// The mathematical value of a [`PaymentError`].
pub enum PaymentErrorView {
    CreatePaymentMethodFailed(Seq<char>),
    DeletePaymentMethodFailed(Seq<char>),
    QueryError(Seq<char>),
    FindByIdError(Seq<char>),
    UpdatePaymentMethodError(Seq<char>),
    PaymentMethodIdFailed(Seq<char>),
    PaymentMethodNameFailed(Seq<char>),
    MissingField(Seq<char>),
    InvalidMethodCombination,
    NotExists,
    InvalidFormatDatetime(Seq<char>),
}

impl PaymentErrorView {
    /// The message of this error.
    pub open spec fn message(self) -> Seq<char> {
        match self {
            PaymentErrorView::CreatePaymentMethodFailed(s) => "Failed to create payment method: "@ + s,
            PaymentErrorView::DeletePaymentMethodFailed(s) => "Failed to delete payment method: "@ + s,
            PaymentErrorView::QueryError(s) => "Failed to query payment methods: "@ + s,
            PaymentErrorView::FindByIdError(s) => "Failed to find by id payment methods: "@ + s,
            PaymentErrorView::UpdatePaymentMethodError(s) => "Failed to update payment method: "@ + s,
            PaymentErrorView::PaymentMethodIdFailed(s) => s,
            PaymentErrorView::PaymentMethodNameFailed(s) => s,
            PaymentErrorView::MissingField(s) => "Required payment method field '"@ + s + "' was missing"@,
            PaymentErrorView::InvalidMethodCombination => "Invalid method combination"@,
            PaymentErrorView::NotExists => "Payment method not exist"@,
            PaymentErrorView::InvalidFormatDatetime(s) => "Invalid datetime format: "@ + s,
        }
    }
}

impl View for PaymentError {
    type V = PaymentErrorView;

    open spec fn view(&self) -> PaymentErrorView {
        match self {
            PaymentError::CreatePaymentMethodFailed(s) => PaymentErrorView::CreatePaymentMethodFailed(s@),
            PaymentError::DeletePaymentMethodFailed(s) => PaymentErrorView::DeletePaymentMethodFailed(s@),
            PaymentError::QueryError(s) => PaymentErrorView::QueryError(s@),
            PaymentError::FindByIdError(s) => PaymentErrorView::FindByIdError(s@),
            PaymentError::UpdatePaymentMethodError(s) => PaymentErrorView::UpdatePaymentMethodError(s@),
            PaymentError::PaymentMethodIdFailed(s) => PaymentErrorView::PaymentMethodIdFailed(s@),
            PaymentError::PaymentMethodNameFailed(s) => PaymentErrorView::PaymentMethodNameFailed(s@),
            PaymentError::MissingField(s) => PaymentErrorView::MissingField(s@),
            PaymentError::InvalidMethodCombination => PaymentErrorView::InvalidMethodCombination,
            PaymentError::NotExists => PaymentErrorView::NotExists,
            PaymentError::InvalidFormatDatetime(s) => PaymentErrorView::InvalidFormatDatetime(s@),
        }
    }
}

impl PaymentError {
    /// The message of this error, as a string.
    pub fn to_string(&self) -> (r: String)
        ensures
            r@ == self@.message(),
    {
        match self {
            PaymentError::CreatePaymentMethodFailed(s) => "Failed to create payment method: ".to_owned().concat(s.as_str()),
            PaymentError::DeletePaymentMethodFailed(s) => "Failed to delete payment method: ".to_owned().concat(s.as_str()),
            PaymentError::QueryError(s) => "Failed to query payment methods: ".to_owned().concat(s.as_str()),
            PaymentError::FindByIdError(s) => "Failed to find by id payment methods: ".to_owned().concat(s.as_str()),
            PaymentError::UpdatePaymentMethodError(s) => "Failed to update payment method: ".to_owned().concat(s.as_str()),
            PaymentError::PaymentMethodIdFailed(s) => s.clone(),
            PaymentError::PaymentMethodNameFailed(s) => s.clone(),
            PaymentError::MissingField(s) => "Required payment method field '".to_owned().concat(s.as_str()).concat("' was missing"),
            PaymentError::InvalidMethodCombination => "Invalid method combination".to_owned(),
            PaymentError::NotExists => "Payment method not exist".to_owned(),
            PaymentError::InvalidFormatDatetime(s) => "Invalid datetime format: ".to_owned().concat(s.as_str()),
        }
    }

    /// Wraps an identifier error, keeping its message.
    pub fn from_id_error(value: AggregateIdError) -> (r: Self)
        ensures
            r@ == PaymentErrorView::PaymentMethodIdFailed(value.message()),
    {
        PaymentError::PaymentMethodIdFailed(value.to_string())
    }

    /// Wraps a taxonomy error, keeping its message.
    pub fn from_name_error(value: &PaymentMethodNameError) -> (r: Self)
        ensures
            r@ == PaymentErrorView::PaymentMethodNameFailed(value@.message()),
    {
        PaymentError::PaymentMethodNameFailed(value.to_string())
    }
}

} // verus!
