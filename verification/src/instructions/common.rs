use vstd::prelude::*;

use crate::error::PerpDexError;
use crate::math::{fits_u64, lemma_product_quotient_bounded, unsigned_abs, PRECISION};

verus! {

/// Mark price of the virtual AMM: `quote * PRECISION / base`.
pub open spec fn spec_amm_price(base_reserve: u64, quote_reserve: u64) -> int {
    quote_reserve * PRECISION / (base_reserve as int)
}

/// The first reason the mark price cannot be read from the reserves, if
/// any: an empty reserve, or `quote * PRECISION` beyond `u64` (reported
/// as a division by zero).
pub open spec fn amm_price_error(base_reserve: u64, quote_reserve: u64) -> Option<PerpDexError> {
    if base_reserve == 0 || quote_reserve == 0 {
        Some(PerpDexError::InsufficientAMMLiquidity)
    } else if !fits_u64(quote_reserve * PRECISION) {
        Some(PerpDexError::DivisionByZero)
    } else {
        None
    }
}

/// Mark price of the virtual AMM, in quote units per base unit with
/// `PRECISION`.
pub fn amm_price(base_reserve: u64, quote_reserve: u64) -> (r: Result<u64, PerpDexError>)
    ensures
        match r {
            Ok(v) => amm_price_error(base_reserve, quote_reserve) is None
                && v == spec_amm_price(base_reserve, quote_reserve),
            Err(e) => amm_price_error(base_reserve, quote_reserve) == Some(e),
        },
{
    if base_reserve > 0 && quote_reserve > 0 {
        match quote_reserve.checked_mul(PRECISION) {
            Some(x) => Ok(x / base_reserve),
            None => Err(PerpDexError::DivisionByZero),
        }
    } else {
        Err(PerpDexError::InsufficientAMMLiquidity)
    }
}

/// The part `part / whole` of an amount, as the exchange computes it: a
/// ratio `part * PRECISION / whole` rounded down, then
/// `amount * ratio / PRECISION` rounded down.
pub open spec fn spec_ratio(part: u64, whole: u64) -> int {
    part * PRECISION / (whole as int)
}

/// The amount taken proportionally for `part` out of `whole`.
pub open spec fn spec_proportional(amount: u64, part: u64, whole: u64) -> int {
    amount * spec_ratio(part, whole) / (PRECISION as int)
}

/// Whether the proportional share can be computed in `u64`.
pub open spec fn proportional_fits(amount: u64, part: u64, whole: u64) -> bool {
    fits_u64(part * PRECISION) && fits_u64(amount * spec_ratio(part, whole))
}

/// Share of `amount` proportional to `part / whole`, where `0 < part <=
/// whole`. Errors: the ratio overflows (reported as a division by zero),
/// or `amount * ratio` overflows.
pub fn proportional_share(amount: u64, part: u64, whole: u64) -> (r: Result<u64, PerpDexError>)
    requires
        0 < part <= whole,
    ensures
        match r {
            Ok(v) => proportional_fits(amount, part, whole) && v == spec_proportional(amount, part, whole)
                && v <= amount,
            Err(e) => !proportional_fits(amount, part, whole) && if !fits_u64(part * PRECISION) {
                e == PerpDexError::DivisionByZero
            } else {
                e == PerpDexError::MathOverflow
            },
        },
{
    let ratio = match part.checked_mul(PRECISION) {
        Some(x) => x / whole,
        None => return Err(PerpDexError::DivisionByZero),
    };
    proof {
        lemma_product_quotient_bounded(PRECISION as int, part as int, whole as int);
        vstd::arithmetic::mul::lemma_mul_is_commutative(PRECISION as int, part as int);
    }
    match amount.checked_mul(ratio) {
        Some(x) => {
            proof {
                vstd::arithmetic::mul::lemma_mul_is_commutative(amount as int, ratio as int);
                vstd::arithmetic::mul::lemma_mul_inequality(ratio as int, PRECISION as int, amount as int);
                vstd::arithmetic::div_mod::lemma_div_is_ordered(amount * ratio, amount * PRECISION, PRECISION as int);
                vstd::arithmetic::div_mod::lemma_div_by_multiple(amount as int, PRECISION as int);
            }
            Ok(x / PRECISION)
        },
        None => Err(PerpDexError::MathOverflow),
    }
}

/// `amount + delta` for a signed delta; the account value of a position
/// with collateral `amount` and profit `delta`.
pub fn add_signed(amount: u64, delta: i64) -> (r: Option<u64>)
    ensures
        match r {
            Some(v) => fits_u64(amount + delta) && v == amount + delta,
            None => !fits_u64(amount + delta),
        },
{
    if delta >= 0 {
        amount.checked_add(delta as u64)
    } else {
        amount.checked_sub(unsigned_abs(delta))
    }
}

} // verus!
