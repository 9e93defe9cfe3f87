//! Products of two 64-bit amounts divided by a third, computed in 128 bits.

use vstd::prelude::*;

verus! {

/// `a * b / d`, rounded down.
pub open spec fn mul_div_floor_spec(a: nat, b: nat, d: nat) -> nat
    recommends
        d > 0,
{
    (a * b) / d
}

/// `a * b / d`, rounded up.
pub open spec fn mul_div_ceil_spec(a: nat, b: nat, d: nat) -> nat
    recommends
        d > 0,
{
    ((a * b + d - 1) / (d as int)) as nat
}

/// The product of two 64-bit values leaves room in 128 bits for one more
/// 64-bit value.
pub proof fn lemma_product_fits(a: u64, b: u64)
    ensures
        0 <= a * b <= 0xffff_ffff_ffff_ffff * 0xffff_ffff_ffff_ffff,
        a * b + 0xffff_ffff_ffff_ffff <= u128::MAX,
{
    assert(0 <= a * b <= 0xffff_ffff_ffff_ffff * 0xffff_ffff_ffff_ffff) by (nonlinear_arith)
        requires
            0 <= a <= 0xffff_ffff_ffff_ffff,
            0 <= b <= 0xffff_ffff_ffff_ffff,
    ;
}

/// Rounding up never gives less than rounding down, and at most one more.
pub proof fn lemma_ceil_floor(a: nat, b: nat, d: nat)
    requires
        d > 0,
    ensures
        mul_div_floor_spec(a, b, d) <= mul_div_ceil_spec(a, b, d) <= mul_div_floor_spec(a, b, d)
            + 1,
        (a * b) % d == 0 ==> mul_div_ceil_spec(a, b, d) == mul_div_floor_spec(a, b, d),
        (a * b) % d != 0 ==> mul_div_ceil_spec(a, b, d) == mul_div_floor_spec(a, b, d) + 1,
{
    let p: int = (a * b) as int;
    let dd: int = d as int;
    assert((p + dd - 1) / dd == if p % dd == 0 { p / dd } else { p / dd + 1 })
        by (nonlinear_arith)
        requires
            dd > 0,
            p >= 0,
    ;
}

/// Rounding down gives the largest number whose multiple stays within the
/// product, and rounding up the smallest whose multiple reaches it.
pub proof fn lemma_mul_div_bounds(a: nat, b: nat, d: nat)
    requires
        d > 0,
    ensures
        mul_div_floor_spec(a, b, d) * d <= a * b < mul_div_floor_spec(a, b, d) * d + d,
        mul_div_ceil_spec(a, b, d) * d - d < a * b <= mul_div_ceil_spec(a, b, d) * d,
{
    let p: int = (a * b) as int;
    let dd: int = d as int;
    assert((p / dd) * dd <= p < (p / dd) * dd + dd) by (nonlinear_arith)
        requires
            dd > 0,
            p >= 0,
    ;
    assert(((p + dd - 1) / dd) * dd - dd < p <= ((p + dd - 1) / dd) * dd) by (nonlinear_arith)
        requires
            dd > 0,
            p >= 0,
    ;
    assert((p + dd - 1) / dd >= 0) by (nonlinear_arith)
        requires
            dd > 0,
            p >= 0,
    ;
}

/// Multiplies in 128 bits and divides, rounding down. `None` when the divisor
/// is zero or the quotient needs more than 64 bits.
pub fn mul_div_floor(a: u64, b: u64, d: u64) -> (r: Option<u64>)
    ensures
        r == if d == 0 || mul_div_floor_spec(a as nat, b as nat, d as nat) > u64::MAX {
            None
        } else {
            Some(mul_div_floor_spec(a as nat, b as nat, d as nat) as u64)
        },
{
    if d == 0 {
        return None;
    }
    proof {
        lemma_product_fits(a, b);
    }
    let product: u128 = (a as u128) * (b as u128);
    let quotient: u128 = product / (d as u128);
    if quotient > u64::MAX as u128 {
        None
    } else {
        Some(quotient as u64)
    }
}

/// Multiplies in 128 bits and divides, rounding up. `None` when the divisor
/// is zero or the quotient needs more than 64 bits.
pub fn mul_div_ceil(a: u64, b: u64, d: u64) -> (r: Option<u64>)
    ensures
        r == if d == 0 || mul_div_ceil_spec(a as nat, b as nat, d as nat) > u64::MAX {
            None
        } else {
            Some(mul_div_ceil_spec(a as nat, b as nat, d as nat) as u64)
        },
{
    if d == 0 {
        return None;
    }
    proof {
        lemma_product_fits(a, b);
    }
    let product: u128 = (a as u128) * (b as u128);
    let quotient: u128 = (product + (d as u128 - 1)) / (d as u128);
    if quotient > u64::MAX as u128 {
        None
    } else {
        Some(quotient as u64)
    }
}

} // verus!
