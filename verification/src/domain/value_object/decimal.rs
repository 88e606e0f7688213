//! A decimal number as the `rust_decimal` crate holds it: a signed integer
//! of at most 96 bits, scaled down by a power of ten of at most 28.
//!
//! Parsing, printing and division are done by `rust_decimal`; here their
//! results carry names, so that contracts can speak of them.

use vstd::prelude::*;
use vstd::std_specs::cmp::PartialEqSpecImpl;

verus! {

/// The largest magnitude of a mantissa: 2 to the 96, less one.
pub const MAX_MANTISSA: i128 = 0xFFFF_FFFF_FFFF_FFFF_FFFF_FFFF;

/// The largest scale.
pub const MAX_SCALE: u32 = 28;

/// The decimal that `rust_decimal` reads from a text, as mantissa and scale;
/// `None` where it reads none.
pub uninterp spec fn decimal_parse(s: Seq<char>) -> Option<(i128, u32)>;

/// The text that `rust_decimal` prints for a decimal.
pub uninterp spec fn decimal_text(mantissa: i128, scale: u32) -> Seq<char>;

/// The quotient that `rust_decimal` computes, as mantissa and scale; `None`
/// where the divisor is zero or the quotient overflows.
pub uninterp spec fn decimal_quotient(
    mantissa: i128,
    scale: u32,
    by_mantissa: i128,
    by_scale: u32,
) -> Option<(i128, u32)>;

/// 10 to the power `n`.
pub open spec fn pow10(n: nat) -> int
    decreases n,
{
    if n == 0 {
        1
    } else {
        10 * pow10((n - 1) as nat)
    }
}

/// Whether two decimals, each given by mantissa and scale, are the same
/// number: `1.0` and `1.00` are.
pub open spec fn same_number(a: (i128, u32), b: (i128, u32)) -> bool {
    a.0 * pow10(b.1 as nat) == b.0 * pow10(a.1 as nat)
}

/// A power of ten is at least one.
pub proof fn lemma_pow10_positive(n: nat)
    ensures
        pow10(n) >= 1,
    decreases n,
{
    if n > 0 {
        lemma_pow10_positive((n - 1) as nat);
    }
}

/// The power of a sum is the product of the powers.
pub proof fn lemma_pow10_sum(a: nat, b: nat)
    ensures
        pow10(a + b) == pow10(a) * pow10(b),
    decreases b,
{
    if b > 0 {
        lemma_pow10_sum(a, (b - 1) as nat);
        assert(pow10(a) * (10 * pow10((b - 1) as nat)) == 10 * (pow10(a) * pow10((b - 1) as nat)))
            by (nonlinear_arith);
    }
}

/// Two decimals are the same number exactly if the one of smaller scale,
/// brought to the scale of the other, has the other's mantissa.
pub proof fn lemma_same_number(a: (i128, u32), b: (i128, u32))
    requires
        a.1 <= b.1,
    ensures
        same_number(a, b) <==> a.0 * pow10((b.1 - a.1) as nat) == b.0,
        same_number(b, a) <==> a.0 * pow10((b.1 - a.1) as nat) == b.0,
{
    let d = (b.1 - a.1) as nat;
    let p = pow10(a.1 as nat);
    let x = a.0 * pow10(d);
    lemma_pow10_sum(a.1 as nat, d);
    lemma_pow10_positive(a.1 as nat);
    assert(a.0 * (p * pow10(d)) == x * p) by (nonlinear_arith)
        requires
            x == a.0 * pow10(d),
    ;
    assert(x * p == b.0 * p <==> x == b.0) by (nonlinear_arith)
        requires
            p >= 1,
    ;
}

/// A multiple of a number by a power of ten is no smaller in magnitude.
proof fn lemma_scaled_magnitude(y: int, n: nat)
    ensures
        y > 0 ==> y * pow10(n) >= y,
        y < 0 ==> y * pow10(n) <= y,
{
    lemma_pow10_positive(n);
    let p = pow10(n);
    assert(y > 0 ==> y * p >= y) by (nonlinear_arith)
        requires
            p >= 1,
    ;
    assert(y < 0 ==> y * p <= y) by (nonlinear_arith)
        requires
            p >= 1,
    ;
}

/// Whether `m * 10^d` is `n`.
fn scaled_equals(m: i128, d: u32, n: i128) -> (r: bool)
    requires
        -MAX_MANTISSA <= m <= MAX_MANTISSA,
        -MAX_MANTISSA <= n <= MAX_MANTISSA,
    ensures
        r == (m * pow10(d as nat) == n),
{
    let mut x: i128 = m;
    let mut i: u32 = 0;
    while i < d
        invariant
            i <= d,
            x == m * pow10(i as nat),
            -MAX_MANTISSA <= x <= MAX_MANTISSA,
            -MAX_MANTISSA <= n <= MAX_MANTISSA,
        decreases d - i,
    {
        let y: i128 = x * 10;
        proof {
            assert(y == m * pow10((i + 1) as nat)) by (nonlinear_arith)
                requires
                    y == x * 10,
                    x == m * pow10(i as nat),
                    pow10((i + 1) as nat) == 10 * pow10(i as nat),
            ;
        }
        if y > MAX_MANTISSA || y < -MAX_MANTISSA {
            proof {
                let rest = (d - i - 1) as nat;
                lemma_pow10_sum((i + 1) as nat, rest);
                lemma_scaled_magnitude(y as int, rest);
                assert(m * (pow10((i + 1) as nat) * pow10(rest)) == y * pow10(rest))
                    by (nonlinear_arith)
                    requires
                        y == m * pow10((i + 1) as nat),
                ;
            }
            return false;
        }
        x = y;
        i += 1;
    }
    x == n
}

/// A decimal number: `mantissa / 10^scale`. Two values are equal if they
/// are the same number, whatever their scales.
#[derive(Debug, Clone, Copy, Eq)]
pub struct DecimalValue {
    mantissa: i128,
    scale: u32,
}

impl View for DecimalValue {
    type V = (i128, u32);

    /// Mantissa and scale.
    closed spec fn view(&self) -> (i128, u32) {
        (self.mantissa, self.scale)
    }
}

/// Whether a mantissa and a scale make a decimal.
pub open spec fn decimal_in_range(mantissa: i128, scale: u32) -> bool {
    -MAX_MANTISSA <= mantissa <= MAX_MANTISSA && scale <= MAX_SCALE
}

impl PartialEq for DecimalValue {
    fn eq(&self, other: &Self) -> (r: bool) {
        proof {
            use_type_invariant(self);
            use_type_invariant(other);
        }
        if self.scale <= other.scale {
            proof {
                lemma_same_number(self@, other@);
            }
            scaled_equals(self.mantissa, other.scale - self.scale, other.mantissa)
        } else {
            proof {
                lemma_same_number(other@, self@);
            }
            scaled_equals(other.mantissa, self.scale - other.scale, self.mantissa)
        }
    }
}

impl PartialEqSpecImpl for DecimalValue {
    open spec fn obeys_eq_spec() -> bool {
        true
    }

    open spec fn eq_spec(&self, other: &Self) -> bool {
        same_number(self@, other@)
    }
}

/// The value of an optional decimal.
pub open spec fn optional_decimal(d: Option<DecimalValue>) -> Option<(i128, u32)> {
    match d {
        Some(d) => Some(d@),
        None => None,
    }
}

impl DecimalValue {
    /// What holds of every value of the type.
    #[verifier::type_invariant]
    pub open spec fn inv(self) -> bool {
        self.wf()
    }

    /// Mantissa and scale are within the limits.
    pub open spec fn wf(self) -> bool {
        decimal_in_range(self@.0, self@.1)
    }

    /// Whether the number is greater than zero.
    pub open spec fn is_positive(self) -> bool {
        self@.0 > 0
    }

    /// The decimal with the given mantissa and scale, if both are within the
    /// limits.
    pub fn new(mantissa: i128, scale: u32) -> (r: Option<Self>)
        ensures
            r is Some <==> decimal_in_range(mantissa, scale),
            r matches Some(d) ==> d@ == (mantissa, scale) && d.wf(),
    {
        if -MAX_MANTISSA <= mantissa && mantissa <= MAX_MANTISSA && scale <= MAX_SCALE {
            Some(Self { mantissa, scale })
        } else {
            None
        }
    }

    /// The whole number `value`.
    pub fn from_int(value: i64) -> (r: Self)
        ensures
            r@ == (value as i128, 0u32),
            r.wf(),
    {
        Self { mantissa: value as i128, scale: 0 }
    }

    /// The mantissa.
    pub fn mantissa(&self) -> (r: i128)
        ensures
            r == self@.0,
    {
        self.mantissa
    }

    /// The scale.
    pub fn scale(&self) -> (r: u32)
        ensures
            r == self@.1,
    {
        self.scale
    }

    /// Reads a decimal from a text with the `FromStr` impl of
    /// `rust_decimal::Decimal`; the result is the named one.
    #[verifier::external_body]
    pub(crate) fn parse(s: &str) -> (r: Option<Self>)
        ensures
            optional_decimal(r) == decimal_parse(s@),
            r matches Some(d) ==> d.wf(),
    {
        match s.parse::<rust_decimal::Decimal>() {
            Ok(d) => Some(Self { mantissa: d.mantissa(), scale: d.scale() }),
            Err(_) => None,
        }
    }

    /// Prints the decimal with the `Display` impl of
    /// `rust_decimal::Decimal`; the result is the named one.
    #[verifier::external_body]
    pub(crate) fn print(&self) -> (r: String)
        requires
            self.wf(),
        ensures
            r@ == decimal_text(self@.0, self@.1),
    {
        rust_decimal::Decimal::from_i128_with_scale(self.mantissa, self.scale).to_string()
    }

    /// Divides with `rust_decimal::Decimal::checked_div`; the result is the
    /// named one.
    #[verifier::external_body]
    pub(crate) fn quotient(&self, by: &DecimalValue) -> (r: Option<Self>)
        requires
            self.wf(),
            by.wf(),
        ensures
            optional_decimal(r) == decimal_quotient(self@.0, self@.1, by@.0, by@.1),
            r matches Some(d) ==> d.wf(),
    {
        let a = rust_decimal::Decimal::from_i128_with_scale(self.mantissa, self.scale);
        let b = rust_decimal::Decimal::from_i128_with_scale(by.mantissa, by.scale);
        a.checked_div(b).map(|d| Self { mantissa: d.mantissa(), scale: d.scale() })
    }
}

} // verus!
