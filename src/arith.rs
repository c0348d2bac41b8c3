//! Saturating arithmetic on balances, stated over mathematical integers.
use vstd::prelude::*;

verus! {

/// `a + b`, clamped to `u128::MAX`.
pub open spec fn sat_add(a: u128, b: u128) -> u128 {
    if a + b > u128::MAX {
        u128::MAX
    } else {
        (a + b) as u128
    }
}

/// `a - b`, clamped to zero.
pub open spec fn sat_sub(a: u128, b: u128) -> u128 {
    if a < b {
        0
    } else {
        (a - b) as u128
    }
}

/// `a * b`, clamped to `u128::MAX`.
pub open spec fn sat_mul(a: u128, b: u128) -> u128 {
    if a * b > u128::MAX {
        u128::MAX
    } else {
        (a * b) as u128
    }
}

/// `a / b`, or zero when `b` is zero.
pub open spec fn safe_div(a: u128, b: u128) -> u128 {
    if b == 0 {
        0
    } else {
        a / b
    }
}

pub fn saturating_mul(a: u128, b: u128) -> (r: u128)
    ensures
        r == sat_mul(a, b),
{
    match a.checked_mul(b) {
        Some(p) => p,
        None => u128::MAX,
    }
}

pub fn guarded_div(a: u128, b: u128) -> (r: u128)
    ensures
        r == safe_div(a, b),
{
    if b == 0 {
        0
    } else {
        a / b
    }
}

} // verus!
