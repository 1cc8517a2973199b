use vstd::prelude::*;

use crate::error::PerpDexError;

verus! {

/// Fixed-point scale: `PRECISION` stands for 1.0.
pub const PRECISION: u64 = 1_000_000;

/// `PRECISION` as a signed value.
pub const PRECISION_I64: i64 = 1_000_000;

/// Whether a mathematical integer fits in an `i64`.
pub open spec fn fits_i64(x: int) -> bool {
    i64::MIN <= x <= i64::MAX
}

/// Whether a mathematical integer fits in a `u64`.
pub open spec fn fits_u64(x: int) -> bool {
    0 <= x <= u64::MAX
}

/// Whether an unsigned input can be taken as an `i64`; larger inputs are
/// refused with `MathOverflow` rather than wrapped.
pub open spec fn fits_signed(x: u64) -> bool {
    x <= i64::MAX
}

/// Integer division rounding toward zero, as Rust's `/` on signed integers.
pub open spec fn tdiv(a: int, d: int) -> int {
    if a >= 0 {
        if d > 0 { a / d } else { -(a / (-d)) }
    } else {
        if d > 0 { -((-a) / d) } else { (-a) / (-d) }
    }
}

/// An unsigned input as an `i64`, or `None` above `i64::MAX`.
pub fn to_i64(x: u64) -> (r: Option<i64>)
    ensures
        match r {
            Some(v) => fits_signed(x) && v == x,
            None => !fits_signed(x),
        },
{
    if x <= i64::MAX as u64 { Some(x as i64) } else { None }
}

/// The signed price move in favour of the position: exit minus entry for a
/// long, entry minus exit for a short.
pub open spec fn price_move(entry_price: u64, current_price: u64, is_long: bool) -> int {
    if is_long {
        current_price - entry_price
    } else {
        entry_price - current_price
    }
}

/// Whether the profit of a position can be computed: prices and size
/// within `i64` and `price_move * size` in `i64`.
pub open spec fn pnl_defined(entry_price: u64, current_price: u64, size: u64, is_long: bool) -> bool {
    &&& fits_signed(entry_price)
    &&& fits_signed(current_price)
    &&& fits_signed(size)
    &&& fits_i64(price_move(entry_price, current_price, is_long) * size)
}

/// Unrealized profit of a position: `price_move * size / PRECISION`,
/// rounded toward zero.
pub open spec fn spec_pnl(entry_price: u64, current_price: u64, size: u64, is_long: bool) -> int {
    tdiv(price_move(entry_price, current_price, is_long) * size, PRECISION as int)
}

/// Unrealized profit of a position: `price_move * size / PRECISION`,
/// rounded toward zero. Prices or a size beyond `i64`, or a product beyond
/// `i64`, are refused with `MathOverflow`.
pub fn calculate_unrealized_pnl(entry_price: u64, current_price: u64, size: u64, is_long: bool) -> (r: Result<i64, PerpDexError>)
    ensures
        match r {
            Ok(v) => pnl_defined(entry_price, current_price, size, is_long)
                && v == spec_pnl(entry_price, current_price, size, is_long),
            Err(e) => !pnl_defined(entry_price, current_price, size, is_long) && e == PerpDexError::MathOverflow,
        },
{
    let (entry, current, signed_size) = match (to_i64(entry_price), to_i64(current_price), to_i64(size)) {
        (Some(e), Some(c), Some(s)) => (e, c, s),
        _ => return Err(PerpDexError::MathOverflow),
    };
    let price_diff: i64 = if is_long { current - entry } else { entry - current };
    match price_diff.checked_mul(signed_size) {
        Some(x) => {
            match x.checked_div(PRECISION_I64) {
                Some(v) => Ok(v),
                None => Err(PerpDexError::MathOverflow),
            }
        },
        None => Err(PerpDexError::MathOverflow),
    }
}

/// `x * y` computed in `u128`, where it cannot overflow.
pub fn wide_product(x: u64, y: u64) -> (r: u128)
    ensures
        r == x * y,
{
    proof {
        vstd::arithmetic::mul::lemma_mul_upper_bound(x as int, u64::MAX as int, y as int, u64::MAX as int);
    }
    x as u128 * y as u128
}

/// The absolute value of a signed integer, as `i64::unsigned_abs`.
pub fn unsigned_abs(x: i64) -> (r: u64)
    ensures
        r as int == if x < 0 { -x } else { x as int },
{
    if x >= 0 {
        x as u64
    } else if x == i64::MIN {
        0x8000_0000_0000_0000u64
    } else {
        (-x) as u64
    }
}

/// The funding rate as the position sees it: the rate itself for a long,
/// its negation for a short.
pub open spec fn signed_rate(funding_rate: i64, is_long: bool) -> int {
    if is_long { funding_rate as int } else { -funding_rate }
}

/// Funding owed by a position (positive: the position pays), or `None`
/// where an input or an intermediate product or quotient leaves `i64` or
/// the interval is zero. Every step rounds toward zero, in the order the formula
/// `rate * size * elapsed / interval / PRECISION` is written.
pub open spec fn spec_funding_payment(funding_rate: i64, position_size: u64, is_long: bool, time_elapsed: u64, funding_interval: u64) -> Option<int> {
    let a = signed_rate(funding_rate, is_long);
    let b = a * position_size;
    let c = b * time_elapsed;
    let d = funding_interval as int;
    if !fits_signed(position_size) || !fits_signed(time_elapsed) || !fits_signed(funding_interval) {
        None
    } else if !fits_i64(a) || !fits_i64(b) || !fits_i64(c) || d == 0 || !fits_i64(tdiv(c, d)) {
        None
    } else {
        Some(tdiv(tdiv(c, d), PRECISION as int))
    }
}

proof fn lemma_tdiv_matches(x: int, d: int)
    requires
        d != 0,
    ensures
        tdiv(x, d) == (if x == 0 {
            0
        } else if x > 0 && d > 0 {
            x / d
        } else if x < 0 && d < 0 {
            (x * -1) / (d * -1)
        } else if x < 0 {
            ((x * -1) / d) * -1
        } else {
            (x / (d * -1)) * -1
        }),
{
    if x == 0 {
        if d > 0 {
            vstd::arithmetic::div_mod::lemma_basic_div(0, d);
        } else {
            vstd::arithmetic::div_mod::lemma_basic_div(0, -d);
        }
    }
}

fn checked_div_i64(x: i64, d: i64) -> (r: Option<i64>)
    ensures
        r == (if d == 0 || !fits_i64(tdiv(x as int, d as int)) { None::<i64> } else { Some(tdiv(x as int, d as int) as i64) }),
{
    proof {
        if d != 0 {
            lemma_tdiv_matches(x as int, d as int);
        }
    }
    x.checked_div(d)
}

/// Funding payment of a position over `time_elapsed` seconds:
/// `rate * size * time_elapsed / funding_interval / PRECISION`, with the
/// sign of the rate flipped for a short. Positive means the position pays.
pub fn calculate_funding_payment(funding_rate: i64, position_size: u64, is_long: bool, time_elapsed: u64, funding_interval: u64) -> (r: Result<i64, PerpDexError>)
    ensures
        match r {
            Ok(v) => spec_funding_payment(funding_rate, position_size, is_long, time_elapsed, funding_interval) == Some(v as int),
            Err(e) => spec_funding_payment(funding_rate, position_size, is_long, time_elapsed, funding_interval) is None
                && e == PerpDexError::MathOverflow,
        },
{
    let (signed_size, elapsed, interval) = match (to_i64(position_size), to_i64(time_elapsed), to_i64(funding_interval)) {
        (Some(s), Some(t), Some(i)) => (s, t, i),
        _ => return Err(PerpDexError::MathOverflow),
    };
    let rate_multiplier: i64 = if is_long { 1 } else { -1 };
    let a = match funding_rate.checked_mul(rate_multiplier) {
        Some(a) => a,
        None => return Err(PerpDexError::MathOverflow),
    };
    let b = match a.checked_mul(signed_size) {
        Some(b) => b,
        None => return Err(PerpDexError::MathOverflow),
    };
    let c = match b.checked_mul(elapsed) {
        Some(c) => c,
        None => return Err(PerpDexError::MathOverflow),
    };
    let d = match checked_div_i64(c, interval) {
        Some(d) => d,
        None => return Err(PerpDexError::MathOverflow),
    };
    match checked_div_i64(d, PRECISION_I64) {
        Some(v) => Ok(v),
        None => Err(PerpDexError::MathOverflow),
    }
}

/// `min(max(x, lo), hi)`: the bounds are applied in this order, so `hi`
/// wins where `lo > hi`.
pub open spec fn clamp_spec(x: int, lo: int, hi: int) -> int {
    let m = if x >= lo { x } else { lo };
    if m <= hi { m } else { hi }
}

/// The funding rate for a premium index, `premium * sensitivity /
/// PRECISION` clamped to `[-max, max]`, or `None` where the sensitivity,
/// the maximum or the product leaves `i64`.
pub open spec fn spec_funding_rate(premium_index: i64, funding_rate_sensitivity: u64, max_funding_rate: u64) -> Option<int> {
    let p = premium_index * funding_rate_sensitivity;
    if !fits_signed(funding_rate_sensitivity) || !fits_signed(max_funding_rate) || !fits_i64(p) {
        None
    } else {
        Some(clamp_spec(tdiv(p, PRECISION as int), -(max_funding_rate as int), max_funding_rate as int))
    }
}

/// Funding rate from the premium index: `premium_index * sensitivity /
/// PRECISION`, clamped to `[-max_funding_rate, max_funding_rate]`.
pub fn calculate_funding_rate(premium_index: i64, funding_rate_sensitivity: u64, max_funding_rate: u64) -> (r: Result<i64, PerpDexError>)
    ensures
        match r {
            Ok(v) => spec_funding_rate(premium_index, funding_rate_sensitivity, max_funding_rate) == Some(v as int),
            Err(e) => spec_funding_rate(premium_index, funding_rate_sensitivity, max_funding_rate) is None
                && e == PerpDexError::MathOverflow,
        },
{
    let (sensitivity, max_rate) = match (to_i64(funding_rate_sensitivity), to_i64(max_funding_rate)) {
        (Some(s), Some(m)) => (s, m),
        _ => return Err(PerpDexError::MathOverflow),
    };
    let p = match premium_index.checked_mul(sensitivity) {
        Some(p) => p,
        None => return Err(PerpDexError::MathOverflow),
    };
    let rate = match checked_div_i64(p, PRECISION_I64) {
        Some(rate) => rate,
        None => return Err(PerpDexError::MathOverflow),
    };
    let min_rate = -max_rate;
    let m = if rate >= min_rate { rate } else { min_rate };
    let c = if m <= max_rate { m } else { max_rate };
    Ok(c)
}

/// Premium index `(mark - oracle) * PRECISION / oracle`; `None` where a
/// price or a step leaves `i64`.
pub open spec fn spec_premium_index(mark_price: u64, oracle_price: u64) -> Option<int> {
    let p = (mark_price - oracle_price) * PRECISION;
    if !fits_signed(mark_price) || !fits_signed(oracle_price) || !fits_i64(p) || !fits_i64(tdiv(p, oracle_price as int)) {
        None
    } else {
        Some(tdiv(p, oracle_price as int))
    }
}

/// Relative deviation of the mark price from the oracle price, in
/// `PRECISION` units, rounded toward zero.
pub fn calculate_premium_index(mark_price: u64, oracle_price: u64) -> (r: Result<i64, PerpDexError>)
    ensures
        match r {
            Ok(v) => oracle_price != 0 && spec_premium_index(mark_price, oracle_price) == Some(v as int),
            Err(e) => if oracle_price == 0 {
                e == PerpDexError::DivisionByZero
            } else {
                spec_premium_index(mark_price, oracle_price) is None && e == PerpDexError::MathOverflow
            },
        },
{
    if oracle_price == 0 {
        return Err(PerpDexError::DivisionByZero);
    }
    let (mark, oracle) = match (to_i64(mark_price), to_i64(oracle_price)) {
        (Some(m), Some(o)) => (m, o),
        _ => return Err(PerpDexError::MathOverflow),
    };
    let diff = mark - oracle;
    let p = match diff.checked_mul(PRECISION_I64) {
        Some(p) => p,
        None => return Err(PerpDexError::MathOverflow),
    };
    match checked_div_i64(p, oracle) {
        Some(v) => Ok(v),
        None => Err(PerpDexError::MathOverflow),
    }
}

/// Margin a position needs: `size * entry_price / leverage / PRECISION`.
pub open spec fn spec_margin_requirement(position_size: u64, entry_price: u64, leverage: u8) -> int {
    position_size * entry_price / (leverage as int) / (PRECISION as int)
}

/// Margin requirement of a position; refuses a zero leverage and a
/// notional `size * entry_price` beyond `u64`.
pub fn calculate_margin_requirement(position_size: u64, entry_price: u64, leverage: u8) -> (r: Result<u64, PerpDexError>)
    ensures
        match r {
            Ok(v) => leverage != 0 && fits_u64(position_size * entry_price)
                && v == spec_margin_requirement(position_size, entry_price, leverage),
            Err(e) => if leverage == 0 {
                e == PerpDexError::DivisionByZero
            } else {
                !fits_u64(position_size * entry_price) && e == PerpDexError::MathOverflow
            },
        },
{
    if leverage == 0 {
        return Err(PerpDexError::DivisionByZero);
    }
    match position_size.checked_mul(entry_price) {
        Some(n) => Ok(n / (leverage as u64) / PRECISION),
        None => Err(PerpDexError::MathOverflow),
    }
}

/// Health factor `(collateral + pnl) * PRECISION / margin_requirement`.
pub open spec fn spec_health_factor(collateral: u64, unrealized_pnl: i64, margin_requirement: u64) -> int {
    (collateral + unrealized_pnl) * PRECISION / (margin_requirement as int)
}

/// Whether the health factor of a position can be computed: a nonzero
/// margin requirement, an account value `collateral + pnl` in `u64`, and
/// that value times `PRECISION` in `u64`.
pub open spec fn health_factor_defined(collateral: u64, unrealized_pnl: i64, margin_requirement: u64) -> bool {
    margin_requirement != 0 && fits_u64(collateral + unrealized_pnl)
        && fits_u64((collateral + unrealized_pnl) * PRECISION)
}

/// Health factor of a position, in `PRECISION` units (1.0 = exactly at
/// the margin requirement).
pub fn calculate_health_factor(collateral: u64, unrealized_pnl: i64, margin_requirement: u64) -> (r: Result<u64, PerpDexError>)
    ensures
        match r {
            Ok(v) => health_factor_defined(collateral, unrealized_pnl, margin_requirement)
                && v == spec_health_factor(collateral, unrealized_pnl, margin_requirement),
            Err(e) => !health_factor_defined(collateral, unrealized_pnl, margin_requirement)
                && if margin_requirement == 0 {
                    e == PerpDexError::DivisionByZero
                } else {
                    e == PerpDexError::MathOverflow
                },
        },
{
    if margin_requirement == 0 {
        return Err(PerpDexError::DivisionByZero);
    }
    let total_value = if unrealized_pnl >= 0 {
        match collateral.checked_add(unrealized_pnl as u64) {
            Some(t) => t,
            None => return Err(PerpDexError::MathOverflow),
        }
    } else {
        match collateral.checked_sub(unsigned_abs(unrealized_pnl)) {
            Some(t) => t,
            None => return Err(PerpDexError::MathOverflow),
        }
    };
    match total_value.checked_mul(PRECISION) {
        Some(x) => Ok(x / margin_requirement),
        None => Err(PerpDexError::MathOverflow),
    }
}

/// A position is liquidatable when its health factor is below the
/// liquidation threshold.
pub fn is_liquidatable(health_factor: u64, liquidation_threshold: u64) -> (r: bool)
    ensures
        r == (health_factor < liquidation_threshold),
{
    health_factor < liquidation_threshold
}

/// `a * b * rate / PRECISION / PRECISION`: a notional times a rate in
/// `PRECISION` units, the form of the liquidation bonus and the trade fee.
pub open spec fn spec_rate_of_notional(a: u64, b: u64, rate: u64) -> int {
    a * b * rate / (PRECISION as int) / (PRECISION as int)
}

/// Whether `a * b` and `a * b * rate` both fit in `u64`.
pub open spec fn rate_of_notional_fits(a: u64, b: u64, rate: u64) -> bool {
    fits_u64(a * b) && fits_u64(a * b * rate)
}

fn rate_of_notional(a: u64, b: u64, rate: u64) -> (r: Result<u64, PerpDexError>)
    ensures
        match r {
            Ok(v) => rate_of_notional_fits(a, b, rate) && v == spec_rate_of_notional(a, b, rate),
            Err(e) => !rate_of_notional_fits(a, b, rate) && e == PerpDexError::MathOverflow,
        },
{
    let n = match a.checked_mul(b) {
        Some(n) => n,
        None => return Err(PerpDexError::MathOverflow),
    };
    match n.checked_mul(rate) {
        Some(x) => Ok(x / PRECISION / PRECISION),
        None => Err(PerpDexError::MathOverflow),
    }
}

/// A rate of a notional is never negative.
pub proof fn lemma_rate_of_notional_nonnegative(a: u64, b: u64, rate: u64)
    ensures
        spec_rate_of_notional(a, b, rate) >= 0,
{
    vstd::arithmetic::mul::lemma_mul_nonnegative(a as int, b as int);
    vstd::arithmetic::mul::lemma_mul_nonnegative(a * b, rate as int);
    vstd::arithmetic::div_mod::lemma_div_pos_is_pos(a * b * rate, PRECISION as int);
    vstd::arithmetic::div_mod::lemma_div_pos_is_pos(a * b * rate / (PRECISION as int), PRECISION as int);
}

/// Liquidator bonus: `liquidated_size * liquidation_price * bonus_rate /
/// PRECISION^2`, each division rounding down.
pub fn calculate_liquidation_bonus(liquidated_size: u64, liquidation_price: u64, liquidation_bonus_rate: u64) -> (r: Result<u64, PerpDexError>)
    ensures
        match r {
            Ok(v) => rate_of_notional_fits(liquidated_size, liquidation_price, liquidation_bonus_rate)
                && v == spec_rate_of_notional(liquidated_size, liquidation_price, liquidation_bonus_rate),
            Err(e) => !rate_of_notional_fits(liquidated_size, liquidation_price, liquidation_bonus_rate)
                && e == PerpDexError::MathOverflow,
        },
{
    rate_of_notional(liquidated_size, liquidation_price, liquidation_bonus_rate)
}

/// Output of a constant-product trade of `input_amount` against reserves
/// `(reserve_x, reserve_y)` with `k = reserve_x * reserve_y`: buying base
/// gives `reserve_x - k / (reserve_y + input)`, selling base gives
/// `reserve_y - k / (reserve_x + input)`.
pub open spec fn spec_vamm_output(reserve_x: u64, reserve_y: u64, input_amount: u64, is_buying_base: bool) -> int {
    let k = reserve_x * reserve_y;
    if is_buying_base {
        reserve_x - k / (reserve_y + input_amount)
    } else {
        reserve_y - k / (reserve_x + input_amount)
    }
}

/// Whether the trade's arithmetic stays in range: `k` is held in `u128`,
/// so only the grown input-side reserve must fit in `u64`.
pub open spec fn vamm_trade_fits(reserve_x: u64, reserve_y: u64, input_amount: u64, is_buying_base: bool) -> bool {
    if is_buying_base { fits_u64(reserve_y + input_amount) } else { fits_u64(reserve_x + input_amount) }
}

/// `x * y / z <= x` when `z >= y > 0`.
pub proof fn lemma_product_quotient_bounded(x: int, y: int, z: int)
    requires
        0 <= x,
        0 < y <= z,
    ensures
        0 <= (x * y) / z <= x,
{
    vstd::arithmetic::mul::lemma_mul_nonnegative(x, y);
    vstd::arithmetic::div_mod::lemma_div_is_ordered_by_denominator(x * y, y, z);
    vstd::arithmetic::div_mod::lemma_div_by_multiple(x, y);
    vstd::arithmetic::div_mod::lemma_div_pos_is_pos(x * y, z);
}

/// Output amount of a trade on the virtual constant-product market maker.
pub fn calculate_vamm_output(reserve_x: u64, reserve_y: u64, input_amount: u64, is_buying_base: bool) -> (r: Result<u64, PerpDexError>)
    ensures
        match r {
            Ok(v) => reserve_x != 0 && reserve_y != 0
                && vamm_trade_fits(reserve_x, reserve_y, input_amount, is_buying_base)
                && v == spec_vamm_output(reserve_x, reserve_y, input_amount, is_buying_base),
            Err(e) => if reserve_x == 0 || reserve_y == 0 {
                e == PerpDexError::InsufficientAMMLiquidity
            } else {
                !vamm_trade_fits(reserve_x, reserve_y, input_amount, is_buying_base) && e == PerpDexError::MathOverflow
            },
        },
{
    if reserve_x == 0 || reserve_y == 0 {
        return Err(PerpDexError::InsufficientAMMLiquidity);
    }
    let k: u128 = wide_product(reserve_x, reserve_y);
    if is_buying_base {
        let new_reserve_y = match reserve_y.checked_add(input_amount) {
            Some(y) => y,
            None => return Err(PerpDexError::MathOverflow),
        };
        proof {
            lemma_product_quotient_bounded(reserve_x as int, reserve_y as int, new_reserve_y as int);
        }
        let new_reserve_x = (k / new_reserve_y as u128) as u64;
        Ok(reserve_x - new_reserve_x)
    } else {
        let new_reserve_x = match reserve_x.checked_add(input_amount) {
            Some(x) => x,
            None => return Err(PerpDexError::MathOverflow),
        };
        proof {
            vstd::arithmetic::mul::lemma_mul_is_commutative(reserve_x as int, reserve_y as int);
            lemma_product_quotient_bounded(reserve_y as int, reserve_x as int, new_reserve_x as int);
        }
        let new_reserve_y = (k / new_reserve_x as u128) as u64;
        Ok(reserve_y - new_reserve_y)
    }
}

/// `|a - b|` on unsigned values.
pub open spec fn abs_diff(a: u64, b: u64) -> int {
    if a > b { a - b } else { b - a }
}

/// Relative distance `|a - b| * PRECISION / reference`.
pub open spec fn spec_relative_diff(a: u64, reference: u64) -> int {
    abs_diff(a, reference) * PRECISION / (reference as int)
}

fn relative_diff(a: u64, reference: u64) -> (r: Result<u64, PerpDexError>)
    ensures
        match r {
            Ok(v) => reference != 0 && fits_u64(abs_diff(a, reference) * PRECISION)
                && v == spec_relative_diff(a, reference),
            Err(e) => if reference == 0 {
                e == PerpDexError::DivisionByZero
            } else {
                !fits_u64(abs_diff(a, reference) * PRECISION) && e == PerpDexError::MathOverflow
            },
        },
{
    if reference == 0 {
        return Err(PerpDexError::DivisionByZero);
    }
    let diff = if a > reference { a - reference } else { reference - a };
    match diff.checked_mul(PRECISION) {
        Some(x) => Ok(x / reference),
        None => Err(PerpDexError::MathOverflow),
    }
}

/// Price impact `|output_price - initial_price| * PRECISION / initial_price`.
pub fn calculate_price_impact(initial_price: u64, output_price: u64) -> (r: Result<u64, PerpDexError>)
    ensures
        match r {
            Ok(v) => initial_price != 0 && fits_u64(abs_diff(output_price, initial_price) * PRECISION)
                && v == spec_relative_diff(output_price, initial_price),
            Err(e) => if initial_price == 0 {
                e == PerpDexError::DivisionByZero
            } else {
                !fits_u64(abs_diff(output_price, initial_price) * PRECISION) && e == PerpDexError::MathOverflow
            },
        },
{
    relative_diff(output_price, initial_price)
}

/// Fee of a trade: `size * price * fee_rate / PRECISION^2`, each division
/// rounding down.
pub fn calculate_trade_fee(size: u64, price: u64, fee_rate: u64) -> (r: Result<u64, PerpDexError>)
    ensures
        match r {
            Ok(v) => rate_of_notional_fits(size, price, fee_rate) && v == spec_rate_of_notional(size, price, fee_rate),
            Err(e) => !rate_of_notional_fits(size, price, fee_rate) && e == PerpDexError::MathOverflow,
        },
{
    rate_of_notional(size, price, fee_rate)
}

/// An oracle price is stale when more than `max_staleness` seconds have
/// passed since its last update (compared exactly, with no overflow).
pub fn is_oracle_stale(last_update_time: i64, current_time: i64, max_staleness: u64) -> (r: bool)
    ensures
        r == (current_time - last_update_time > max_staleness),
{
    let staleness: i128 = current_time as i128 - last_update_time as i128;
    staleness > max_staleness as i128
}

/// Whether the mark price lies within `max_deviation` (relative, in
/// `PRECISION` units, rounded down) of the oracle price.
pub fn is_oracle_deviation_acceptable(oracle_price: u64, mark_price: u64, max_deviation: u64) -> (r: Result<bool, PerpDexError>)
    ensures
        match r {
            Ok(b) => oracle_price != 0 && fits_u64(abs_diff(mark_price, oracle_price) * PRECISION)
                && b == (spec_relative_diff(mark_price, oracle_price) <= max_deviation),
            Err(e) => if oracle_price == 0 {
                e == PerpDexError::DivisionByZero
            } else {
                !fits_u64(abs_diff(mark_price, oracle_price) * PRECISION) && e == PerpDexError::MathOverflow
            },
        },
{
    let deviation = relative_diff(mark_price, oracle_price)?;
    Ok(deviation <= max_deviation)
}

} // verus!
