//! Fixed-point money arithmetic: powers of ten, amounts scaled by an asset's
//! decimals, and the value of a position.

use vstd::prelude::*;

verus! {

/// Ten to the power `n`.
pub open spec fn pow10(n: nat) -> nat
    decreases n,
{
    if n == 0 {
        1
    } else {
        10 * pow10((n - 1) as nat)
    }
}

/// `x`, or the largest `u64` where `x` is above it.
pub open spec fn saturated(x: int) -> int {
    if x > u64::MAX {
        u64::MAX as int
    } else {
        x
    }
}

/// An amount in native units scaled up by the asset's decimals, saturating.
pub open spec fn scaled_amount(amount: u64, decimals: u8) -> int {
    saturated(amount * pow10(decimals as nat))
}

/// The value of `amount` native units at `price` per unit: the scaled amount
/// times the price, saturating.
pub open spec fn position_value(amount: u64, price: u64, decimals: u8) -> int {
    saturated(scaled_amount(amount, decimals) * price)
}

/// Powers of ten never shrink as the exponent grows.
pub proof fn lemma_pow10_monotonic(i: nat, j: nat)
    requires
        i <= j,
    ensures
        1 <= pow10(i) <= pow10(j),
    decreases j,
{
    if j == 0 {
    } else if i == j {
        lemma_pow10_monotonic(0, (j - 1) as nat);
    } else {
        lemma_pow10_monotonic(i, (j - 1) as nat);
    }
}

/// Ten to the power `exponent`, or `None` where that does not fit in a `u64`.
pub fn pow10_checked(exponent: u32) -> (r: Option<u64>)
    ensures
        match r {
            Some(p) => p == pow10(exponent as nat),
            None => pow10(exponent as nat) > u64::MAX,
        },
{
    let mut power: u64 = 1;
    let mut i: u32 = 0;
    while i < exponent
        invariant
            i <= exponent,
            power == pow10(i as nat),
        decreases exponent - i,
    {
        match power.checked_mul(10) {
            Some(next) => {
                power = next;
            },
            None => {
                proof {
                    lemma_pow10_monotonic((i + 1) as nat, exponent as nat);
                }
                return None;
            },
        }
        i = i + 1;
    }
    Some(power)
}

/// Multiplies, giving the largest `u64` where the product is above it.
pub fn saturating_product(a: u64, b: u64) -> (r: u64)
    ensures
        r == saturated(a * b),
{
    match a.checked_mul(b) {
        Some(p) => p,
        None => u64::MAX,
    }
}

/// Scales `amount` up by ten to the power `decimals`, saturating.
pub fn scale_amount(amount: u64, decimals: u8) -> (r: u64)
    ensures
        r == scaled_amount(amount, decimals),
{
    match pow10_checked(decimals as u32) {
        Some(factor) => saturating_product(amount, factor),
        None => {
            if amount == 0 {
                assert(amount * pow10(decimals as nat) == 0) by (nonlinear_arith)
                    requires
                        amount == 0,
                ;
                0
            } else {
                assert(amount * pow10(decimals as nat) > u64::MAX) by (nonlinear_arith)
                    requires
                        amount >= 1,
                        pow10(decimals as nat) > u64::MAX,
                ;
                u64::MAX
            }
        },
    }
}

/// Scales `amount` down by ten to the power `decimals`, rounding towards zero.
pub fn unscale_amount(amount: u64, decimals: u8) -> (r: u64)
    ensures
        r == amount as int / pow10(decimals as nat) as int,
{
    match pow10_checked(decimals as u32) {
        Some(factor) => {
            proof {
                lemma_pow10_monotonic(0, decimals as nat);
            }
            amount / factor
        },
        None => {
            assert(amount as int / pow10(decimals as nat) as int == 0) by (nonlinear_arith)
                requires
                    0 <= amount < pow10(decimals as nat),
            ;
            0
        },
    }
}

/// The value of a position: the amount scaled by the asset's decimals, times
/// the unit price. Either product stops at the largest `u64`.
pub fn calculate_value(amount: u64, price: u64, decimals: u8) -> (r: u64)
    ensures
        r == position_value(amount, price, decimals),
{
    saturating_product(scale_amount(amount, decimals), price)
}

} // verus!
