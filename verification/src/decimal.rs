//! Fixed-point decimals with eighteen fractional digits, and the arithmetic on them
//! that the contracts use. The arithmetic itself is that of `cosmwasm_std`.
use vstd::prelude::*;

verus! {

/// One whole unit expressed in atomics: ten to the eighteenth.
pub const DECIMAL_FRACTIONAL: u128 = 1_000_000_000_000_000_000u128;

/// `a * b / c`, rounded down.
pub open spec fn mul_div_floor(a: int, b: int, c: int) -> int {
    (a * b) / c
}

/// A non-negative fixed-point number: the value is `atomics / 10^18`.
#[derive(Clone, Copy, Debug, PartialEq, Eq, Structural)]
pub struct Decimal {
    pub atomics: u128,
}

impl Decimal {
    /// The decimal 1.0.
    pub fn one() -> (r: Decimal)
        ensures
            r.atomics == DECIMAL_FRACTIONAL,
    {
        Decimal { atomics: DECIMAL_FRACTIONAL }
    }

    /// The decimal 0.0.
    pub fn zero() -> (r: Decimal)
        ensures
            r.atomics == 0,
    {
        Decimal { atomics: 0 }
    }

    /// `numerator / denominator`, rounded down to eighteen fractional digits. The
    /// denominator must not be zero and the quotient must fit (the host's decimal
    /// panics otherwise).
    pub fn from_ratio(numerator: u128, denominator: u128) -> (r: Decimal)
        requires
            denominator != 0,
            mul_div_floor(numerator as int, DECIMAL_FRACTIONAL as int, denominator as int) <= u128::MAX,
        ensures
            r.atomics == mul_div_floor(numerator as int, DECIMAL_FRACTIONAL as int, denominator as int),
    {
        decimal_from_ratio(numerator, denominator)
    }

    /// `1 - self`; the subtraction of `cosmwasm_std::Decimal` panics below zero.
    pub fn one_minus(&self) -> (r: Decimal)
        requires
            self.atomics <= DECIMAL_FRACTIONAL,
        ensures
            r.atomics == DECIMAL_FRACTIONAL - self.atomics,
    {
        Decimal { atomics: DECIMAL_FRACTIONAL - self.atomics }
    }
}

/// Calls `cosmwasm_std::Decimal::from_ratio`, which computes
/// `numerator * 10^18 / denominator` rounded down (through a 256-bit intermediate),
/// and panics on a zero denominator or on a result above `u128::MAX`; `requires`
/// leaves those inputs out.
#[verifier::external_body]
pub(crate) fn decimal_from_ratio(numerator: u128, denominator: u128) -> (r: Decimal)
    requires
        denominator != 0,
        mul_div_floor(numerator as int, DECIMAL_FRACTIONAL as int, denominator as int)
            <= u128::MAX,
    ensures
        r.atomics == mul_div_floor(numerator as int, DECIMAL_FRACTIONAL as int, denominator as int),
{
    let d = cosmwasm_std::Decimal::from_ratio(numerator, denominator);
    Decimal { atomics: d.atomics().u128() }
}

/// Calls `Uint128 * cosmwasm_std::Decimal`, which computes
/// `amount * atomics / 10^18` rounded down and panics when that exceeds `u128::MAX`;
/// `requires` leaves those inputs out.
#[verifier::external_body]
pub(crate) fn uint_mul_decimal(amount: u128, rate: Decimal) -> (r: u128)
    requires
        mul_div_floor(amount as int, rate.atomics as int, DECIMAL_FRACTIONAL as int)
            <= u128::MAX,
    ensures
        r == mul_div_floor(amount as int, rate.atomics as int, DECIMAL_FRACTIONAL as int),
{
    let r = cosmwasm_std::Uint128::new(amount) * cosmwasm_std::Decimal::raw(rate.atomics);
    r.u128()
}

/// Calls `cosmwasm_std::Decimal / cosmwasm_std::Decimal`, which computes
/// `a.atomics * 10^18 / b.atomics` rounded down and panics on a zero divisor or on a
/// result above `u128::MAX`; `requires` leaves those inputs out.
#[verifier::external_body]
pub(crate) fn decimal_div(a: Decimal, b: Decimal) -> (r: Decimal)
    requires
        b.atomics != 0,
        mul_div_floor(a.atomics as int, DECIMAL_FRACTIONAL as int, b.atomics as int)
            <= u128::MAX,
    ensures
        r.atomics == mul_div_floor(a.atomics as int, DECIMAL_FRACTIONAL as int, b.atomics as int),
{
    let r = cosmwasm_std::Decimal::raw(a.atomics) / cosmwasm_std::Decimal::raw(b.atomics);
    Decimal { atomics: r.atomics().u128() }
}

/// Calls `cosmwasm_std::Uint128::checked_multiply_ratio`, which computes `a * b / c`
/// rounded down through a 256-bit intermediate and fails on a zero `c` or on a result
/// above `u128::MAX`; the failure is returned as `None`.
#[verifier::external_body]
pub(crate) fn checked_mul_div(a: u128, b: u128, c: u128) -> (r: Option<u128>)
    ensures
        r is Some <==> (c != 0 && mul_div_floor(a as int, b as int, c as int) <= u128::MAX),
        r matches Some(x) ==> x == mul_div_floor(a as int, b as int, c as int),
{
    cosmwasm_std::Uint128::new(a).checked_multiply_ratio(b, c).ok().map(|x| x.u128())
}

/// Whether `a * b / c`, rounded down, can be computed: `c` is not zero and the result
/// fits in 128 bits.
pub fn mul_div_fits(a: u128, b: u128, c: u128) -> (r: bool)
    ensures
        r == (c != 0 && mul_div_floor(a as int, b as int, c as int) <= u128::MAX),
{
    checked_mul_div(a, b, c).is_some()
}

} // verus!
