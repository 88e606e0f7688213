//! An amount of money: a decimal greater than zero.

use crate::domain::value_object::decimal::{
    decimal_parse, decimal_quotient, decimal_text, same_number, DecimalValue,
};
use vstd::prelude::*;
use vstd::std_specs::cmp::PartialEqSpecImpl;

verus! {

/// Why a value is no amount.
#[derive(Debug, Clone, Copy, PartialEq, Eq, Structural)]
pub enum AmountError {
    /// The value is zero or less.
    ZeroOrLess,
    /// The text is no decimal.
    ParseError,
}

impl AmountError {
    /// The message of this error.
    pub open spec fn message(self) -> Seq<char> {
        match self {
            AmountError::ZeroOrLess => "Amount must be greater than 0"@,
            AmountError::ParseError => "Amount can not parse into Decimal"@,
        }
    }

    /// The name of the variant, as `Debug` prints it.
    pub open spec fn debug_name(self) -> Seq<char> {
        match self {
            AmountError::ZeroOrLess => "ZeroOrLess"@,
            AmountError::ParseError => "ParseError"@,
        }
    }

    /// The message of this error, as a string.
    pub fn to_string(&self) -> (r: String)
        ensures
            r@ == self.message(),
    {
        match self {
            AmountError::ZeroOrLess => "Amount must be greater than 0".to_owned(),
            AmountError::ParseError => "Amount can not parse into Decimal".to_owned(),
        }
    }

    /// The name of the variant, as a string.
    pub fn debug_string(&self) -> (r: String)
        ensures
            r@ == self.debug_name(),
    {
        match self {
            AmountError::ZeroOrLess => "ZeroOrLess".to_owned(),
            AmountError::ParseError => "ParseError".to_owned(),
        }
    }
}

/// What validating a decimal as an amount gives.
pub open spec fn amount_spec(d: (i128, u32)) -> Result<(i128, u32), AmountError> {
    if d.0 > 0 {
        Ok(d)
    } else {
        Err(AmountError::ZeroOrLess)
    }
}

/// What reading an amount from a text gives.
pub open spec fn amount_from_text(s: Seq<char>) -> Result<(i128, u32), AmountError> {
    match decimal_parse(s) {
        Some(d) => amount_spec(d),
        None => Err(AmountError::ParseError),
    }
}

/// What dividing an amount by a decimal gives: the quotient, if there is
/// one and it is greater than zero.
pub open spec fn amount_quotient(a: (i128, u32), by: (i128, u32)) -> Result<
    (i128, u32),
    AmountError,
> {
    match decimal_quotient(a.0, a.1, by.0, by.1) {
        Some(q) => amount_spec(q),
        None => Err(AmountError::ZeroOrLess),
    }
}

/// An amount of money. Two amounts are equal if they are the same number,
/// whatever their scales.
#[derive(Debug, Clone, Copy, Eq)]
pub struct Amount {
    value: DecimalValue,
}

impl View for Amount {
    type V = (i128, u32);

    /// Mantissa and scale of the amount.
    closed spec fn view(&self) -> (i128, u32) {
        self.value@
    }
}

impl PartialEq for Amount {
    fn eq(&self, other: &Self) -> (r: bool) {
        self.value == other.value
    }
}

impl PartialEqSpecImpl for Amount {
    open spec fn obeys_eq_spec() -> bool {
        true
    }

    open spec fn eq_spec(&self, other: &Self) -> bool {
        same_number(self@, other@)
    }
}

impl Amount {
    /// What holds of every value of the type.
    #[verifier::type_invariant]
    pub open spec fn inv(self) -> bool {
        self.wf()
    }

    /// The amount is a decimal greater than zero.
    pub open spec fn wf(self) -> bool {
        self.value_spec().wf() && self@.0 > 0
    }

    /// The decimal that the amount holds.
    pub closed spec fn value_spec(self) -> DecimalValue {
        self.value
    }

    /// Validates a decimal as an amount: it must be greater than zero.
    pub fn from_decimal(value: DecimalValue) -> (r: Result<Self, AmountError>)
        ensures
            r is Ok <==> value.is_positive(),
            match r {
                Ok(a) => amount_spec(value@) == Ok::<(i128, u32), AmountError>(a@) && a.wf(),
                Err(e) => amount_spec(value@) == Err::<(i128, u32), AmountError>(e),
            },
    {
        proof {
            use_type_invariant(&value);
        }
        if value.mantissa() <= 0 {
            Err(AmountError::ZeroOrLess)
        } else {
            Ok(Self { value })
        }
    }

    /// Validates a decimal as an amount; the same as
    /// [`Amount::from_decimal`].
    pub fn try_from(value: DecimalValue) -> (r: Result<Self, AmountError>)
        ensures
            r is Ok <==> value.is_positive(),
            match r {
                Ok(a) => amount_spec(value@) == Ok::<(i128, u32), AmountError>(a@) && a.wf(),
                Err(e) => amount_spec(value@) == Err::<(i128, u32), AmountError>(e),
            },
    {
        Self::from_decimal(value)
    }

    /// Reads an amount from a decimal text.
    pub fn from_str(s: &str) -> (r: Result<Self, AmountError>)
        ensures
            match r {
                Ok(a) => amount_from_text(s@) == Ok::<(i128, u32), AmountError>(a@) && a.wf(),
                Err(e) => amount_from_text(s@) == Err::<(i128, u32), AmountError>(e),
            },
    {
        match DecimalValue::parse(s) {
            Some(value) => Self::from_decimal(value),
            None => Err(AmountError::ParseError),
        }
    }

    /// Divides the amount; the quotient must again be greater than zero.
    pub fn divide(&self, by: &DecimalValue) -> (r: Result<Self, AmountError>)
        ensures
            match r {
                Ok(a) => amount_quotient(self@, by@) == Ok::<(i128, u32), AmountError>(a@)
                    && a.wf(),
                Err(e) => amount_quotient(self@, by@) == Err::<(i128, u32), AmountError>(e),
            },
    {
        proof {
            use_type_invariant(self);
            use_type_invariant(by);
        }
        match self.value.quotient(by) {
            Some(q) => Self::from_decimal(q),
            None => Err(AmountError::ZeroOrLess),
        }
    }

    /// The decimal that the amount holds.
    pub fn value(&self) -> (r: &DecimalValue)
        ensures
            *r == self.value_spec(),
            r@ == self@,
            r.is_positive(),
    {
        proof {
            use_type_invariant(self);
        }
        &self.value
    }

    /// The amount as a decimal text.
    pub fn to_string(&self) -> (r: String)
        ensures
            r@ == decimal_text(self@.0, self@.1),
    {
        proof {
            use_type_invariant(self);
        }
        self.value.print()
    }
}

} // verus!
