//! How often a subscription is paid.

use crate::text::str_eq;
use vstd::prelude::*;

verus! {

/// How often a subscription is paid.
#[derive(Debug, Clone, Copy, PartialEq, Eq, Structural)]
pub enum PaymentCycle {
    Monthly,
    Yearly,
}

/// Why a text names no payment cycle. Parsing never reports it: a text that
/// names no cycle is read as monthly.
#[derive(Debug, PartialEq, Eq)]
pub enum PaymentCycleError {
    /// The text names no cycle; holds the text.
    InvalidVariantStr(String),
}

/// The mathematical value of a [`PaymentCycleError`].
pub enum PaymentCycleErrorView {
    InvalidVariantStr(Seq<char>),
}

impl PaymentCycleErrorView {
    /// The message of this error.
    pub open spec fn message(self) -> Seq<char> {
        match self {
            PaymentCycleErrorView::InvalidVariantStr(s) => "Invalid variant from str: "@ + s,
        }
    }
}

impl View for PaymentCycleError {
    type V = PaymentCycleErrorView;

    open spec fn view(&self) -> PaymentCycleErrorView {
        match self {
            PaymentCycleError::InvalidVariantStr(s) => PaymentCycleErrorView::InvalidVariantStr(s@),
        }
    }
}

impl PaymentCycleError {
    /// The message of this error, as a string.
    pub fn to_string(&self) -> (r: String)
        ensures
            r@ == self@.message(),
    {
        match self {
            PaymentCycleError::InvalidVariantStr(s) => "Invalid variant from str: ".to_owned().concat(
                s.as_str(),
            ),
        }
    }
}

impl PaymentCycle {
    /// The label of the cycle.
    pub open spec fn label(self) -> Seq<char> {
        match self {
            PaymentCycle::Monthly => "monthly"@,
            PaymentCycle::Yearly => "yearly"@,
        }
    }

    /// The cycle that a text is read as: yearly for `yearly`, monthly for
    /// everything else.
    pub open spec fn from_text(s: Seq<char>) -> PaymentCycle {
        if s == "yearly"@ {
            PaymentCycle::Yearly
        } else {
            PaymentCycle::Monthly
        }
    }

    /// Reading the label of a cycle gives the cycle.
    pub proof fn lemma_from_text_label(c: PaymentCycle)
        ensures
            PaymentCycle::from_text(c.label()) == c,
    {
        reveal_strlit("monthly");
        reveal_strlit("yearly");
        assert("monthly"@.len() == 7);
        assert("yearly"@.len() == 6);
    }

    /// The label of the cycle.
    pub fn as_str(&self) -> (r: &'static str)
        ensures
            r@ == self.label(),
    {
        match self {
            PaymentCycle::Monthly => "monthly",
            PaymentCycle::Yearly => "yearly",
        }
    }

    /// Reads a cycle from its label. The match is exact; a text that is no
    /// label is read as monthly, so the result is always `Ok`.
    pub fn from_str(s: &str) -> (r: Result<Self, PaymentCycleError>)
        ensures
            r matches Ok(c) && c == PaymentCycle::from_text(s@),
    {
        if str_eq(s, "yearly") {
            Ok(PaymentCycle::Yearly)
        } else {
            Ok(PaymentCycle::Monthly)
        }
    }

    /// The label, as a string.
    pub fn to_string(&self) -> (r: String)
        ensures
            r@ == self.label(),
    {
        self.as_str().to_owned()
    }
}

} // verus!
