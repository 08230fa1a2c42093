//! Monetary amounts, carried as `rust_decimal::Decimal`.
use rust_decimal::Decimal;
use vstd::prelude::*;

verus! {

#[verifier::external_type_specification]
#[verifier::external_body]
pub struct ExDecimal(Decimal);

/// The mantissa `m` of a decimal whose value is `m * 10^-scale`.
pub uninterp spec fn decimal_mantissa(d: Decimal) -> int;

/// The scale `s` (number of fractional digits) of a decimal.
pub uninterp spec fn decimal_scale(d: Decimal) -> int;

/// The decimal text that `Display` gives for a decimal.
pub uninterp spec fn decimal_text(d: Decimal) -> Seq<char>;

/// What `Decimal::checked_add` gives for two decimals (`None` on overflow).
pub uninterp spec fn decimal_checked_sum(a: Decimal, b: Decimal) -> Option<Decimal>;

/// Ten to the power `n`.
pub open spec fn pow10(n: nat) -> int
    decreases n,
{
    if n == 0 { 1 } else { 10 * pow10((n - 1) as nat) }
}

/// Numeric order of two decimals: `a > b`, by cross-multiplying the mantissas
/// with the other side's scale.
pub open spec fn decimal_greater(a: Decimal, b: Decimal) -> bool {
    decimal_mantissa(a) * pow10(decimal_scale(b) as nat) > decimal_mantissa(b) * pow10(
        decimal_scale(a) as nat,
    )
}

/// Numeric order of two decimals: `a >= b`.
pub open spec fn decimal_at_least(a: Decimal, b: Decimal) -> bool {
    decimal_mantissa(a) * pow10(decimal_scale(b) as nat) >= decimal_mantissa(b) * pow10(
        decimal_scale(a) as nat,
    )
}

/// Numeric comparison `a > b` through `Decimal`'s `PartialOrd`, which compares
/// the represented values `mantissa * 10^-scale` (rust_decimal's `cmp_impl`).
#[verifier::external_body]
pub(crate) fn decimal_gt(a: &Decimal, b: &Decimal) -> (r: bool)
    ensures
        r == (decimal_mantissa(*a) * pow10(decimal_scale(*b) as nat) > decimal_mantissa(*b) * pow10(
            decimal_scale(*a) as nat,
        )),
        r == decimal_greater(*a, *b),
{
    *a > *b
}

/// Numeric comparison `a >= b` through `Decimal`'s `PartialOrd`.
#[verifier::external_body]
pub(crate) fn decimal_ge(a: &Decimal, b: &Decimal) -> (r: bool)
    ensures
        r == (decimal_mantissa(*a) * pow10(decimal_scale(*b) as nat) >= decimal_mantissa(*b) * pow10(
            decimal_scale(*a) as nat,
        )),
        r == decimal_at_least(*a, *b),
{
    *a >= *b
}

/// The mantissa of the sum of two decimals aligned to the larger of their
/// scales: the other mantissa is multiplied by ten to the scale difference.
pub open spec fn aligned_mantissa_sum(a: Decimal, b: Decimal) -> int {
    let sa = decimal_scale(a);
    let sb = decimal_scale(b);
    if sa >= sb {
        decimal_mantissa(a) + decimal_mantissa(b) * pow10((sa - sb) as nat)
    } else {
        decimal_mantissa(a) * pow10((sb - sa) as nat) + decimal_mantissa(b)
    }
}

/// Whether adding two decimals stays exact: both positive with mantissas
/// below 2^64, scales at most 19 apart, and the aligned sum below 2^96.
pub open spec fn exact_sum_case(a: Decimal, b: Decimal) -> bool {
    &&& 0 < decimal_mantissa(a) < 0x1_0000_0000_0000_0000
    &&& 0 < decimal_mantissa(b) < 0x1_0000_0000_0000_0000
    &&& -19 <= decimal_scale(a) - decimal_scale(b) <= 19
    &&& aligned_mantissa_sum(a, b) < 0x1_0000_0000_0000_0000_0000_0000
}

/// What is known of a checked sum: adding to zero gives the other operand,
/// adding zero to a non-zero decimal gives that decimal, and in the exact
/// case the sum is the aligned mantissa sum at the larger scale.
pub open spec fn sum_facts(a: Decimal, b: Decimal, r: Option<Decimal>) -> bool {
    &&& decimal_mantissa(a) == 0 ==> r == Some(b)
    &&& decimal_mantissa(b) == 0 && decimal_mantissa(a) != 0 ==> r == Some(a)
    &&& exact_sum_case(a, b) ==> (r matches Some(s) && decimal_mantissa(s) == aligned_mantissa_sum(a, b)
        && decimal_scale(s) == if decimal_scale(a) >= decimal_scale(b) {
        decimal_scale(a)
    } else {
        decimal_scale(b)
    })
}

/// `Decimal::checked_add`: the sum, or `None` when it overflows the 96-bit
/// mantissa. The result is named; beyond that the contract states the zero
/// cases and the exact case (two positive operands whose aligned sum fits,
/// which rust_decimal adds without rounding), not the rounding applied when
/// the aligned sum does not fit.
#[verifier::external_body]
pub(crate) fn decimal_add(a: &Decimal, b: &Decimal) -> (r: Option<Decimal>)
    ensures
        r == decimal_checked_sum(*a, *b),
        sum_facts(*a, *b, r),
{
    a.checked_add(*b)
}

/// `Decimal::ZERO`: mantissa 0.
#[verifier::external_body]
pub(crate) fn decimal_zero() -> (r: Decimal)
    ensures
        decimal_mantissa(r) == 0,
        decimal_scale(r) == 0,
{
    Decimal::ZERO
}

/// `Decimal`'s `Display`, e.g. `1.50` for mantissa 150 at scale 2.
#[verifier::external_body]
pub(crate) fn decimal_to_text(d: &Decimal) -> (r: String)
    ensures
        r@ == decimal_text(*d),
{
    d.to_string()
}

/// `Decimal::clone` (a bitwise copy) gives an equal decimal.
pub assume_specification[ <Decimal as Clone>::clone ](d: &Decimal) -> (r: Decimal)
    ensures
        r == *d,
;

} // verus!
