//! Fixed-point decimal values.
//!
//! Amounts, fees and exchange rates are held as fixed-point decimals so
//! that no precision is lost on monetary fields.  A [`Dec`] mirrors the
//! representation used by `rust_decimal::Decimal` — a signed mantissa of
//! at most 96 bits and a power-of-ten scale of at most 28 — and the
//! arithmetic itself is delegated to that crate through trusted wrappers
//! from plain values to plain values.

use crate::text::{all_digits, digits_val};
use vstd::prelude::*;

verus! {

/// A fixed-point decimal with value `mantissa * 10^(-scale)`.
#[derive(Clone, Copy, Debug, PartialEq, Eq, Structural)]
pub struct Dec {
    pub mantissa: i128,
    pub scale: u32,
}

/// One past the largest mantissa magnitude the representation carries
/// (`2^96`).
pub open spec fn dec_mantissa_bound() -> int {
    0x1_0000_0000_0000_0000_0000_0000
}

impl Dec {
    /// Within the 96-bit, scale-28 representation.
    pub open spec fn wf(self) -> bool {
        -dec_mantissa_bound() < self.mantissa < dec_mantissa_bound() && self.scale <= 28
    }
}

/// What `rust_decimal`'s checked subtraction returns.
pub uninterp spec fn dec_sub(a: Dec, b: Dec) -> Option<Dec>;

/// What `rust_decimal`'s checked multiplication returns.
pub uninterp spec fn dec_mul(a: Dec, b: Dec) -> Option<Dec>;

/// What `rust_decimal`'s checked division returns.
pub uninterp spec fn dec_div(a: Dec, b: Dec) -> Option<Dec>;

/// What `rust_decimal`'s radix-10 string parse returns.
pub uninterp spec fn dec_of_str(s: Seq<char>) -> Option<Dec>;

/// Relies on `rust_decimal::Decimal::checked_sub`: the checked difference
/// `a - b`, `None` exactly on overflow; any result stays within the
/// representation.  `from_i128_with_scale`, `mantissa` and `scale`
/// convert between `Dec` and `Decimal`.
#[verifier::external_body]
pub(crate) fn dec_checked_sub(a: Dec, b: Dec) -> (r: Option<Dec>)
    requires
        a.wf(),
        b.wf(),
    ensures
        r == dec_sub(a, b),
        r is Some ==> r->0.wf(),
{
    let x = rust_decimal::Decimal::from_i128_with_scale(a.mantissa, a.scale);
    let y = rust_decimal::Decimal::from_i128_with_scale(b.mantissa, b.scale);
    match x.checked_sub(y) {
        Some(d) => Some(Dec { mantissa: d.mantissa(), scale: d.scale() }),
        None => None,
    }
}

/// Relies on `rust_decimal::Decimal::checked_mul`: the checked product
/// `a * b`, `None` exactly on overflow; any result stays within the
/// representation.
#[verifier::external_body]
pub(crate) fn dec_checked_mul(a: Dec, b: Dec) -> (r: Option<Dec>)
    requires
        a.wf(),
        b.wf(),
    ensures
        r == dec_mul(a, b),
        r is Some ==> r->0.wf(),
{
    let x = rust_decimal::Decimal::from_i128_with_scale(a.mantissa, a.scale);
    let y = rust_decimal::Decimal::from_i128_with_scale(b.mantissa, b.scale);
    match x.checked_mul(y) {
        Some(d) => Some(Dec { mantissa: d.mantissa(), scale: d.scale() }),
        None => None,
    }
}

/// Relies on `rust_decimal::Decimal::checked_div`: the checked quotient
/// `a / b`, `None` on a zero divisor or on overflow; any result stays
/// within the representation.
#[verifier::external_body]
pub(crate) fn dec_checked_div(a: Dec, b: Dec) -> (r: Option<Dec>)
    requires
        a.wf(),
        b.wf(),
    ensures
        r == dec_div(a, b),
        r is Some ==> r->0.wf(),
        b.mantissa == 0 ==> r is None,
{
    let x = rust_decimal::Decimal::from_i128_with_scale(a.mantissa, a.scale);
    let y = rust_decimal::Decimal::from_i128_with_scale(b.mantissa, b.scale);
    match x.checked_div(y) {
        Some(d) => Some(Dec { mantissa: d.mantissa(), scale: d.scale() }),
        None => None,
    }
}

/// Relies on `rust_decimal::Decimal`'s `FromStr`: the result depends on
/// the characters alone; an empty string does not parse; a non-empty
/// all-digit string parses to its integer value with scale zero when the
/// value fits in 96 bits, and fails to parse otherwise.
#[verifier::external_body]
pub(crate) fn dec_parse(s: &str) -> (r: Option<Dec>)
    ensures
        r == dec_of_str(s@),
        r is Some ==> r->0.wf(),
        s@.len() == 0 ==> r is None,
        s@.len() > 0 && all_digits(s@) && digits_val(s@) < dec_mantissa_bound() ==> r == Some(
            (Dec { mantissa: digits_val(s@) as i128, scale: 0u32 }),
        ),
        s@.len() > 0 && all_digits(s@) && digits_val(s@) >= dec_mantissa_bound() ==> r is None,
{
    match <rust_decimal::Decimal as core::str::FromStr>::from_str(s) {
        Ok(d) => Some(Dec { mantissa: d.mantissa(), scale: d.scale() }),
        Err(_) => None,
    }
}

} // verus!
