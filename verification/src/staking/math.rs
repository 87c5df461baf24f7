//! Division of an amount by a decimal.
use vstd::prelude::*;

use crate::decimal::{Decimal, decimal_from_ratio, mul_div_floor, uint_mul_decimal, DECIMAL_FRACTIONAL};

verus! {

/// `a / b`, rounded down: the amount that `b` units per whole unit make of `a`.
/// `b` must be non-zero and the quotient must fit in 128 bits (the computation
/// panics otherwise).
pub fn decimal_division(a: u128, b: Decimal) -> (r: u128)
    requires
        b.atomics > 0,
        mul_div_floor(a as int, DECIMAL_FRACTIONAL as int, b.atomics as int) <= u128::MAX,
    ensures
        r == mul_div_floor(a as int, DECIMAL_FRACTIONAL as int, b.atomics as int),
{
    proof {
        vstd::arithmetic::div_mod::lemma_div_multiples_vanish(b.atomics as int, DECIMAL_FRACTIONAL as int);
        assert(DECIMAL_FRACTIONAL as int * b.atomics as int == b.atomics as int * DECIMAL_FRACTIONAL as int)
            by (nonlinear_arith);
    }
    let denominator = uint_mul_decimal(DECIMAL_FRACTIONAL, b);
    let decimal = decimal_from_ratio(a, denominator);
    proof {
        vstd::arithmetic::div_mod::lemma_div_multiples_vanish(decimal.atomics as int, DECIMAL_FRACTIONAL as int);
    }
    uint_mul_decimal(DECIMAL_FRACTIONAL, decimal)
}

} // verus!
