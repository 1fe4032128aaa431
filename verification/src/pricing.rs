//! The arithmetic of the sale: scaling by the asset's decimal precision, the
//! supply cap, and the quantity that a payment buys.
//!
//! Every quantity is defined over the mathematical integers; the executable
//! functions compute it in 128 bits and reject whatever leaves 64 bits.

use crate::error::PresaleError;
use vstd::prelude::*;

verus! {

/// The whole units of the asset that a sale may ever issue.
pub const SUPPLY_CAP_UNITS: u64 = 69_420_000;

/// The largest decimal precision whose scaled supply cap fits the counters.
pub const MAX_CAP_DECIMALS: u8 = 11;

/// Ten to the power `e`.
pub open spec fn pow10(e: nat) -> nat
    decreases e,
{
    if e == 0 {
        1
    } else {
        10 * pow10((e - 1) as nat)
    }
}

/// The supply cap of an asset with `decimals` decimal places, in its
/// smallest units.
pub open spec fn supply_cap_spec(decimals: u8) -> nat {
    SUPPLY_CAP_UNITS as nat * pow10(decimals as nat)
}

/// The supply cap as the sale stores it: refused where it leaves 64 bits.
pub open spec fn supply_cap_result(decimals: u8) -> Result<u64, PresaleError> {
    if supply_cap_spec(decimals) <= u64::MAX {
        Ok(supply_cap_spec(decimals) as u64)
    } else {
        Err(PresaleError::MathOverflow)
    }
}

/// The smallest units of the asset that `amount` buys at `price` per whole
/// unit, rounded down.
pub open spec fn tokens_spec(amount: u64, decimals: u8, price: u64) -> nat
    recommends
        price > 0,
{
    (amount as nat * pow10(decimals as nat)) / (price as nat)
}

/// The quantity as the sale issues it: refused where the price is zero or the
/// quantity leaves 64 bits, and where the payment buys nothing.
pub open spec fn tokens_result(amount: u64, decimals: u8, price: u64) -> Result<
    u64,
    PresaleError,
> {
    if price == 0 || tokens_spec(amount, decimals, price) > u64::MAX {
        Err(PresaleError::MathOverflow)
    } else if tokens_spec(amount, decimals, price) == 0 {
        Err(PresaleError::InvalidLimits)
    } else {
        Ok(tokens_spec(amount, decimals, price) as u64)
    }
}

/// Powers of ten are positive and grow with the exponent.
pub proof fn lemma_pow10_increases(a: nat, b: nat)
    requires
        a <= b,
    ensures
        0 < pow10(a) <= pow10(b),
    decreases b,
{
    if b == 0 {
    } else if a == b {
        lemma_pow10_increases((a - 1) as nat, (b - 1) as nat);
    } else {
        lemma_pow10_increases(a, (b - 1) as nat);
    }
}

/// A dividend of at least 2^128 and a positive divisor below 2^64 leave a
/// quotient of at least 2^64.
proof fn lemma_wide_quotient(product: nat, price: nat)
    requires
        product > u128::MAX,
        0 < price <= u64::MAX,
    ensures
        product / price > u64::MAX,
{
    assert(product / price > 0xffff_ffff_ffff_ffff) by (nonlinear_arith)
        requires
            product >= 0x1_0000_0000_0000_0000_0000_0000_0000_0000,
            0 < price <= 0xffff_ffff_ffff_ffff,
    {
        assert(product >= 0x1_0000_0000_0000_0000 * price);
        assert((0x1_0000_0000_0000_0000 * price) / price == 0x1_0000_0000_0000_0000);
        assert(product / price >= (0x1_0000_0000_0000_0000 * price) / price);
    }
}

/// Ten to the power `decimals`, or `None` where it leaves 128 bits.
pub fn checked_scale(decimals: u8) -> (scale: Option<u128>)
    ensures
        match scale {
            Some(s) => s == pow10(decimals as nat),
            None => pow10(decimals as nat) > u128::MAX,
        },
{
    let mut scale: u128 = 1;
    let mut i: u8 = 0;
    while i < decimals
        invariant
            i <= decimals,
            scale == pow10(i as nat),
        decreases decimals - i,
    {
        match scale.checked_mul(10) {
            Some(next) => {
                scale = next;
            },
            None => {
                proof {
                    lemma_pow10_increases((i + 1) as nat, decimals as nat);
                }
                return None;
            },
        }
        i += 1;
    }
    Some(scale)
}

/// The supply cap of an asset with `decimals` decimal places.
pub fn supply_cap_for(decimals: u8) -> (cap: Result<u64, PresaleError>)
    ensures
        cap == supply_cap_result(decimals),
{
    let scale = match checked_scale(decimals) {
        Some(scale) => scale,
        None => {
            assert(supply_cap_spec(decimals) > u64::MAX) by (nonlinear_arith)
                requires
                    supply_cap_spec(decimals) == 69_420_000 * pow10(decimals as nat),
                    pow10(decimals as nat) > u128::MAX,
            ;
            return Err(PresaleError::MathOverflow);
        },
    };
    let wide = match (SUPPLY_CAP_UNITS as u128).checked_mul(scale) {
        Some(wide) => wide,
        None => {
            return Err(PresaleError::MathOverflow);
        },
    };
    if wide > u64::MAX as u128 {
        return Err(PresaleError::MathOverflow);
    }
    Ok(wide as u64)
}

/// The quantity of the asset that `amount` buys at `price`.
pub fn tokens_for(amount: u64, decimals: u8, price: u64) -> (tokens: Result<u64, PresaleError>)
    ensures
        tokens == tokens_result(amount, decimals, price),
{
    if price == 0 {
        return Err(PresaleError::MathOverflow);
    }
    if amount == 0 {
        assert(tokens_spec(amount, decimals, price) == 0) by (nonlinear_arith)
            requires
                amount == 0,
                price > 0,
                tokens_spec(amount, decimals, price) == (amount as nat * pow10(decimals as nat))
                    / (price as nat),
        ;
        return Err(PresaleError::InvalidLimits);
    }
    let ghost product = amount as nat * pow10(decimals as nat);
    let scale = match checked_scale(decimals) {
        Some(scale) => scale,
        None => {
            proof {
                assert(product > u128::MAX) by (nonlinear_arith)
                    requires
                        product == amount as nat * pow10(decimals as nat),
                        amount >= 1,
                        pow10(decimals as nat) > u128::MAX,
                ;
                lemma_wide_quotient(product, price as nat);
            }
            return Err(PresaleError::MathOverflow);
        },
    };
    let wide = match (amount as u128).checked_mul(scale) {
        Some(wide) => wide,
        None => {
            proof {
                lemma_wide_quotient(product, price as nat);
            }
            return Err(PresaleError::MathOverflow);
        },
    };
    let quotient = wide / (price as u128);
    if quotient > u64::MAX as u128 {
        return Err(PresaleError::MathOverflow);
    }
    if quotient == 0 {
        return Err(PresaleError::InvalidLimits);
    }
    Ok(quotient as u64)
}

} // verus!
