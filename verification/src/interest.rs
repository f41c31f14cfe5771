//! The interest calculator: a pure function from principal to bonus amount.

use vstd::prelude::*;

verus! {

/// Interest numerator: the bonus is 7770 parts per 100000 of the principal.
pub const INTEREST_RATE_NUM: u128 = 7770;

/// Interest denominator.
pub const INTEREST_RATE_DENOM: u128 = 100000;

/// The bonus owed on `amount`: `floor(amount * 7770 / 100000)`, or zero when
/// the intermediate product does not fit in 128 bits (a deliberate defensive
/// default rather than an error).
pub open spec fn spec_interest(amount: u128) -> int {
    if amount * INTEREST_RATE_NUM <= u128::MAX {
        (amount * INTEREST_RATE_NUM) / (INTEREST_RATE_DENOM as int)
    } else {
        0
    }
}

/// Computes the fixed-rate interest bonus for a principal amount.
pub fn calculate_interest(amount: u128) -> (r: u128)
    ensures
        r == spec_interest(amount),
{
    match amount.checked_mul(INTEREST_RATE_NUM) {
        Some(v) => v / INTEREST_RATE_DENOM,
        None => 0,
    }
}

} // verus!
