//! Properties of the exchange's arithmetic that relate several inputs or
//! several calls, proved over the same spec functions the contracts use.

use vstd::prelude::*;

use crate::math::{
    price_move, spec_health_factor, spec_rate_of_notional, signed_rate, spec_funding_payment, spec_funding_rate, spec_pnl,
    spec_premium_index, tdiv, PRECISION,
};
use crate::instructions::order::{spec_new_reserves, spec_quote_amount, trade_refusal};
use crate::error::PerpDexError;
use crate::instructions::market::{CreatePerpMarket, UpdateMarketConfig};
use crate::instructions::funding::{SettleFundingPayment, UpdateFundingRate};
use crate::instructions::order::FillOrder;
use crate::instructions::position::ClosePosition;
use crate::instructions::initialize::InitializeProtocol;
use crate::instructions::insurance::DepositInsuranceFund;
use crate::instructions::liquidation::LiquidatePosition;
use crate::instructions::user::{DepositCollateral, WithdrawCollateral};
use crate::state::{Address, InsuranceFund, Order, ProtocolState, User};

verus! {

/// Rounding toward zero commutes with negation.
pub proof fn lemma_tdiv_neg(x: int, d: int)
    requires
        d != 0,
    ensures
        tdiv(-x, d) == -tdiv(x, d),
{
    if x == 0 {
        if d > 0 {
            vstd::arithmetic::div_mod::lemma_basic_div(0, d);
        } else {
            vstd::arithmetic::div_mod::lemma_basic_div(0, -d);
        }
    }
}

/// Rounding toward zero keeps the sign of a quotient by a positive divisor.
pub proof fn lemma_tdiv_sign(x: int, d: int)
    requires
        d > 0,
    ensures
        x >= 0 ==> tdiv(x, d) >= 0,
        x <= 0 ==> tdiv(x, d) <= 0,
{
    if x >= 0 {
        vstd::arithmetic::div_mod::lemma_div_pos_is_pos(x, d);
    } else {
        vstd::arithmetic::div_mod::lemma_div_pos_is_pos(-x, d);
    }
}

/// A long and a short of the same size and entry price have opposite
/// unrealized profit at any price.
pub proof fn law_pnl_long_short_opposite(entry_price: u64, current_price: u64, size: u64)
    ensures
        spec_pnl(entry_price, current_price, size, true) == -spec_pnl(entry_price, current_price, size, false),
{
    let x = price_move(entry_price, current_price, false) * size;
    vstd::arithmetic::mul::lemma_mul_unary_negation(price_move(entry_price, current_price, false), size as int);
    lemma_tdiv_neg(x, PRECISION as int);
}

/// Funding is a transfer between the sides: where the payment of a long
/// and of a short of the same size are both defined, they are opposite.
pub proof fn law_funding_long_short_opposite(funding_rate: i64, position_size: u64, time_elapsed: u64, funding_interval: u64)
    requires
        spec_funding_payment(funding_rate, position_size, true, time_elapsed, funding_interval) is Some,
        spec_funding_payment(funding_rate, position_size, false, time_elapsed, funding_interval) is Some,
    ensures
        spec_funding_payment(funding_rate, position_size, true, time_elapsed, funding_interval)->0
            == -spec_funding_payment(funding_rate, position_size, false, time_elapsed, funding_interval)->0,
{
    let w = position_size as int;
    let t = time_elapsed as int;
    let d = funding_interval as int;
    let b = signed_rate(funding_rate, false) * w;
    let c = b * t;
    vstd::arithmetic::mul::lemma_mul_unary_negation(signed_rate(funding_rate, false), w);
    vstd::arithmetic::mul::lemma_mul_unary_negation(b, t);
    lemma_tdiv_neg(c, d);
    lemma_tdiv_neg(tdiv(c, d), PRECISION as int);
}

/// With a positive funding rate, longs pay (a nonnegative payment) and
/// shorts receive (a nonpositive one).
pub proof fn law_positive_rate_longs_pay(funding_rate: i64, position_size: u64, is_long: bool, time_elapsed: u64, funding_interval: u64)
    requires
        funding_rate > 0,
        spec_funding_payment(funding_rate, position_size, is_long, time_elapsed, funding_interval) is Some,
    ensures
        is_long ==> spec_funding_payment(funding_rate, position_size, is_long, time_elapsed, funding_interval)->0 >= 0,
        !is_long ==> spec_funding_payment(funding_rate, position_size, is_long, time_elapsed, funding_interval)->0 <= 0,
{
    let a = signed_rate(funding_rate, is_long);
    let b = a * position_size;
    let c = b * time_elapsed;
    if is_long {
        vstd::arithmetic::mul::lemma_mul_nonnegative(a, position_size as int);
        vstd::arithmetic::mul::lemma_mul_nonnegative(b, time_elapsed as int);
    } else {
        vstd::arithmetic::mul::lemma_mul_nonnegative(-a, position_size as int);
        vstd::arithmetic::mul::lemma_mul_unary_negation(a, position_size as int);
        vstd::arithmetic::mul::lemma_mul_nonnegative(-b, time_elapsed as int);
        vstd::arithmetic::mul::lemma_mul_unary_negation(b, time_elapsed as int);
    }
    lemma_tdiv_sign(c, funding_interval as int);
    lemma_tdiv_sign(tdiv(c, funding_interval as int), PRECISION as int);
}

/// The funding rate never exceeds the market's maximum in either
/// direction.
pub proof fn law_funding_rate_within_max(premium_index: i64, funding_rate_sensitivity: u64, max_funding_rate: u64)
    requires
        spec_funding_rate(premium_index, funding_rate_sensitivity, max_funding_rate) is Some,
    ensures
        -(max_funding_rate as int) <= spec_funding_rate(premium_index, funding_rate_sensitivity, max_funding_rate)->0
            <= max_funding_rate,
{
}

/// When the mark price is at or above the oracle price, the premium index
/// and the funding rate drawn from it are nonnegative, so longs pay; when
/// below, both are nonpositive, so shorts pay.
pub proof fn law_premium_sets_funding_direction(mark_price: u64, oracle_price: u64, funding_rate_sensitivity: u64, max_funding_rate: u64)
    requires
        oracle_price != 0,
        spec_premium_index(mark_price, oracle_price) is Some,
        spec_funding_rate(spec_premium_index(mark_price, oracle_price)->0 as i64, funding_rate_sensitivity, max_funding_rate) is Some,
    ensures
        mark_price >= oracle_price ==> spec_premium_index(mark_price, oracle_price)->0 >= 0
            && spec_funding_rate(spec_premium_index(mark_price, oracle_price)->0 as i64, funding_rate_sensitivity, max_funding_rate)->0 >= 0,
        mark_price <= oracle_price ==> spec_premium_index(mark_price, oracle_price)->0 <= 0
            && spec_funding_rate(spec_premium_index(mark_price, oracle_price)->0 as i64, funding_rate_sensitivity, max_funding_rate)->0 <= 0,
{
    let diff = mark_price - oracle_price;
    let p = diff * PRECISION;
    lemma_tdiv_sign(p, oracle_price as int);
    let premium = tdiv(p, oracle_price as int);
    let q = premium * funding_rate_sensitivity;
    if diff >= 0 {
        vstd::arithmetic::mul::lemma_mul_nonnegative(premium, funding_rate_sensitivity as int);
    } else {
        vstd::arithmetic::mul::lemma_mul_nonnegative(-premium, funding_rate_sensitivity as int);
        vstd::arithmetic::mul::lemma_mul_unary_negation(premium, funding_rate_sensitivity as int);
    }
    if diff <= 0 {
        vstd::arithmetic::mul::lemma_mul_nonnegative(-premium, funding_rate_sensitivity as int);
        vstd::arithmetic::mul::lemma_mul_unary_negation(premium, funding_rate_sensitivity as int);
    }
    lemma_tdiv_sign(q, PRECISION as int);
}

/// A fill on the virtual AMM never grows the reserves' product beyond
/// `k = base * quote` (rounding lets the product shrink, in the trader's
/// favour), leaves both reserves
/// nonnegative, and a buy never takes out less quote than it pays in.
pub proof fn law_vamm_trade_keeps_product(base_reserve: u64, quote_reserve: u64, fill_size: u64, is_buying_base: bool)
    requires
        trade_refusal(base_reserve, quote_reserve, fill_size, is_buying_base) is None,
    ensures
        ({
            let (nb, nq) = spec_new_reserves(base_reserve, quote_reserve, fill_size, is_buying_base);
            &&& 0 <= nb
            &&& 0 <= nq
            &&& nb * nq <= base_reserve * quote_reserve
            &&& 0 <= spec_quote_amount(base_reserve, quote_reserve, fill_size, is_buying_base)
        }),
{
    if is_buying_base {
        crate::instructions::order::lemma_buy_costs_quote(base_reserve, quote_reserve, fill_size);
        let nb = base_reserve - fill_size;
        let k = base_reserve * quote_reserve;
        vstd::arithmetic::div_mod::lemma_div_pos_is_pos(k, nb);
    } else {
        crate::instructions::order::lemma_vamm_output_bounded(base_reserve, quote_reserve, fill_size, false);
        let k = base_reserve * quote_reserve;
        let grown = base_reserve + fill_size;
        vstd::arithmetic::div_mod::lemma_fundamental_div_mod(k, grown);
        vstd::arithmetic::div_mod::lemma_mod_pos_bound(k, grown);
        vstd::arithmetic::mul::lemma_mul_is_commutative(grown, k / grown);
        vstd::arithmetic::mul::lemma_mul_is_commutative(base_reserve as int, quote_reserve as int);
    }
}

/// While the protocol is not paused, the owner can withdraw what was just
/// deposited, and doing so restores the account's collateral.
pub proof fn law_withdraw_undoes_deposit(user: Address, account: User, protocol_state: ProtocolState, amount: u64, deposit_time: i64, withdraw_time: i64)
    requires
        (DepositCollateral { user, user_account: account }).refusal(amount) is None,
        !protocol_state.paused,
    ensures
        ({
            let after_deposit = (DepositCollateral { user, user_account: account }).credited(amount, deposit_time);
            let withdrawal = WithdrawCollateral { user, user_account: after_deposit, protocol_state };
            &&& withdrawal.refusal(amount) is None
            &&& withdrawal.debited(amount, withdraw_time).collateral == account.collateral
        }),
{
}

/// A health factor below 1.0 (`PRECISION`) means exactly that the
/// position's value (collateral plus profit) is below its margin
/// requirement.
pub proof fn law_health_below_one_iff_value_below_margin(collateral: u64, unrealized_pnl: i64, margin_requirement: u64)
    requires
        margin_requirement != 0,
        collateral + unrealized_pnl >= 0,
    ensures
        (spec_health_factor(collateral, unrealized_pnl, margin_requirement) < PRECISION)
            <==> (collateral + unrealized_pnl < margin_requirement),
{
    let v = collateral + unrealized_pnl;
    let m = margin_requirement as int;
    let p = PRECISION as int;
    vstd::arithmetic::div_mod::lemma_div_by_multiple(p, m);
    vstd::arithmetic::mul::lemma_mul_is_commutative(v, p);
    vstd::arithmetic::mul::lemma_mul_is_commutative(m, p);
    if v < m {
        vstd::arithmetic::mul::lemma_mul_strict_inequality(v, m, p);
        vstd::arithmetic::div_mod::lemma_div_by_multiple_is_strongly_ordered(v * p, p * m, p, m);
    } else {
        vstd::arithmetic::mul::lemma_mul_inequality(m, v, p);
        vstd::arithmetic::div_mod::lemma_div_is_ordered(m * p, v * p, m);
    }
}

/// Only the protocol admin may create or configure markets: any other
/// signer is refused as unauthorized, whatever the arguments.
pub proof fn law_only_admin_manages_markets(
    create: CreatePerpMarket,
    configure: UpdateMarketConfig,
    max_leverage: u8,
    initial_base_reserve: u64,
    initial_quote_reserve: u64,
    now: i64,
    new_max_leverage: Option<u8>,
    maker_fee_rate: Option<u64>,
    taker_fee_rate: Option<u64>,
)
    requires
        create.protocol_state.admin != create.admin,
        configure.protocol_state.admin != configure.admin,
    ensures
        create.refusal(max_leverage, initial_base_reserve, initial_quote_reserve, now) == Some(PerpDexError::Unauthorized),
        configure.refusal(new_max_leverage, maker_fee_rate, taker_fee_rate) == Some(PerpDexError::Unauthorized),
{
}

/// Only the owner of an account may withdraw its collateral.
pub proof fn law_only_owner_withdraws(withdrawal: WithdrawCollateral, amount: u64)
    requires
        withdrawal.user_account.owner != withdrawal.user,
    ensures
        withdrawal.refusal(amount) == Some(PerpDexError::Unauthorized),
{
}

/// The insurance fund's accounting: its balance plus the bad debt it has
/// covered never exceeds the fees collected into it.
pub open spec fn fund_accounting_holds(fund: InsuranceFund) -> bool {
    fund.balance + fund.total_bad_debt_covered <= fund.total_fees_collected
}

/// The insurance fund's accounting holds from its creation and is kept by
/// every deposit and every liquidation: a deposit raises the balance and
/// the fees collected alike, and a liquidation moves the bad debt from the
/// balance to the covered total and pays the bonus out of the balance. (A
/// refused deposit or liquidation leaves the fund as it was.)
pub proof fn law_insurance_fund_accounting(
    now: i64,
    insurance_fund_bump: u8,
    deposit: DepositInsuranceFund,
    amount: u64,
    liquidation: LiquidatePosition,
    liquidation_size: u64,
    current_price: u64,
)
    requires
        fund_accounting_holds(deposit.insurance_fund),
        fund_accounting_holds(liquidation.insurance_fund),
    ensures
        fund_accounting_holds(InitializeProtocol::initial_fund(now, insurance_fund_bump)),
        deposit.refusal(amount) is None ==> fund_accounting_holds(deposit.deposited(amount, now)),
        liquidation.refusal(liquidation_size, current_price) is None
            ==> fund_accounting_holds(liquidation.fund_after(liquidation_size, current_price, now)),
{
    crate::math::lemma_rate_of_notional_nonnegative(liquidation_size, current_price, liquidation.market.liquidation_bonus_rate);
}

/// Funding is settled once per period: right after a settlement at time
/// `now`, settling the same position again at `now` finds no unsettled
/// time and changes nothing.
pub proof fn law_funding_settled_once(settlement: SettleFundingPayment, now: i64)
    requires
        settlement.refusal(now) is None,
        settlement.elapsed(now) != 0,
    ensures
        ({
            let again = SettleFundingPayment {
                user_account: settlement.settled_account(now),
                position: settlement.settled_position(now),
                ..settlement
            };
            &&& again.refusal(now) is None
            &&& again.elapsed(now) == 0
        }),
{
}

/// The fee rate of a fill is the market's maker rate for a limit order
/// (type 1) and its taker rate for a market order, whatever side the order
/// is on; the fee is the fill's notional `fill_size * price` times that
/// rate, over `PRECISION` twice.
pub proof fn law_fill_fee_by_order_type(fill: FillOrder, fill_size: u64, other_side: u8)
    ensures
        ({
            let rate = if fill.order.order_type == 1 {
                fill.market.maker_fee_rate
            } else {
                fill.market.taker_fee_rate
            };
            let price = fill.price(fill_size) as u64;
            &&& fill.fee_rate() == rate
            &&& spec_rate_of_notional(fill_size, price, fill.fee_rate())
                == fill_size * price * rate / (PRECISION as int) / (PRECISION as int)
        }),
        (FillOrder { order: Order { side: other_side, ..fill.order }, ..fill }).fee_rate() == fill.fee_rate(),
{
}

/// The signed value of a whole position at `current_price`: its
/// collateral plus `(current - entry) * size / PRECISION` for a long
/// (`entry - current` for a short), rounded toward zero.
pub open spec fn signed_position_value(collateral: u64, entry_price: u64, size: u64, side: u8, current_price: u64) -> int {
    let moved: int = if side == 0 { current_price - entry_price } else { entry_price - current_price };
    collateral + tdiv(moved * size, PRECISION as int)
}

/// The bad debt of a liquidation is by how much the notional of the
/// liquidated size, `liquidation_size * current_price / PRECISION`,
/// exceeds the whole position's signed value, zero if it does not. So a
/// partial liquidation never records more than its own notional less the
/// position's value, and liquidating more never records less.
pub proof fn law_bad_debt_on_liquidated_size(liquidation: LiquidatePosition, size_a: u64, size_b: u64, current_price: u64)
    ensures
        ({
            let p = liquidation.position;
            let value = signed_position_value(p.collateral, p.entry_price, p.size, p.side, current_price);
            let notional_a = size_a * current_price / (PRECISION as int);
            &&& liquidation.bad_debt(size_a, current_price) == if notional_a > value { notional_a - value } else { 0 }
            &&& value >= 0 ==> liquidation.bad_debt(size_a, current_price) <= notional_a
            &&& size_a <= size_b ==> liquidation.bad_debt(size_a, current_price) <= liquidation.bad_debt(size_b, current_price)
        }),
{
    if size_a <= size_b {
        vstd::arithmetic::mul::lemma_mul_inequality(size_a as int, size_b as int, current_price as int);
        vstd::arithmetic::div_mod::lemma_div_is_ordered(size_a * current_price, size_b * current_price, PRECISION as int);
    }
}

/// Closing a position realizes the price move from entry to exit (the AMM
/// mark `quote * PRECISION / base`) times the closed size, over
/// `PRECISION`, rounded toward zero: exit minus entry for a long, entry
/// minus exit for a short. A long closed below its entry, or a short above
/// it, realizes no profit, and a loss once the move times the size reaches
/// `PRECISION`.
pub proof fn law_close_realizes_price_move(close: ClosePosition, close_size: u64)
    requires
        close.refusal(close_size) is None,
    ensures
        ({
            let exit: int = close.market.vamm_quote_reserve * PRECISION / (close.market.vamm_base_reserve as int);
            let entry: int = close.position.entry_price as int;
            let moved: int = if close.position.side == 0 { exit - entry } else { entry - exit };
            let realized = close.realized(close_size);
            &&& close.exit_price() == exit
            &&& realized == tdiv(moved * close_size, PRECISION as int)
            &&& moved <= 0 ==> realized <= 0
            &&& moved >= 0 ==> realized >= 0
            &&& -moved * close_size >= PRECISION ==> realized < 0
        }),
{
    let exit: int = close.market.vamm_quote_reserve * PRECISION / (close.market.vamm_base_reserve as int);
    let entry: int = close.position.entry_price as int;
    let moved: int = if close.position.side == 0 { exit - entry } else { entry - exit };
    vstd::arithmetic::div_mod::lemma_div_is_ordered_by_denominator(
        close.market.vamm_quote_reserve * PRECISION,
        1,
        close.market.vamm_base_reserve as int,
    );
    assert(close.market.vamm_quote_reserve * PRECISION / 1 == close.market.vamm_quote_reserve * PRECISION);
    assert(0 <= exit <= u64::MAX);
    assert(close.exit_price() == exit);
    assert(close.realized(close_size) == tdiv(moved * close_size, PRECISION as int));
    if moved <= 0 {
        vstd::arithmetic::mul::lemma_mul_inequality(moved, 0, close_size as int);
    } else {
        vstd::arithmetic::mul::lemma_mul_inequality(0, moved, close_size as int);
    }
    lemma_tdiv_sign(moved * close_size, PRECISION as int);
    if -moved * close_size >= PRECISION {
        vstd::arithmetic::mul::lemma_mul_unary_negation(moved, close_size as int);
        let x = -moved * close_size;
        assert(moved * close_size == -x);
        assert(x / (PRECISION as int) >= 1);
        assert(tdiv(moved * close_size, PRECISION as int) == -(x / (PRECISION as int)));
    }
}

/// A settlement charges funding for the time since the later of the
/// market's last funding update and the position's last settlement, and
/// for nothing before either: the payment is that of the current rate over
/// exactly that time.
pub proof fn law_settlement_period(settlement: SettleFundingPayment, now: i64)
    ensures
        ({
            let since_update: int = now - settlement.market.last_funding_update;
            let since_settlement: int = now - settlement.position.last_funding_settlement;
            let unpaid: int = if since_update <= since_settlement { since_update } else { since_settlement };
            let elapsed: int = if unpaid > 0 { unpaid } else { 0 };
            &&& settlement.elapsed(now) == elapsed
            &&& settlement.elapsed(now) <= if since_update > 0 { since_update } else { 0 }
            &&& settlement.elapsed(now) <= if since_settlement > 0 { since_settlement } else { 0 }
            &&& settlement.payment(now) == spec_funding_payment(
                settlement.market.current_funding_rate,
                settlement.position.size,
                settlement.position.side == 0,
                elapsed as u64,
                settlement.market.funding_interval,
            )
        }),
{
}

/// A funding rate update stores as premium index the relative gap of the
/// AMM mark `quote * PRECISION / base` over the oracle price,
/// `(mark - oracle) * PRECISION / oracle` rounded toward zero, and as rate
/// `premium * sensitivity / PRECISION` rounded toward zero and clamped to
/// `[-max, max]`. A mark below the oracle gives a rate of zero or less
/// (shorts pay longs), a mark above it a rate of zero or more.
pub proof fn law_update_rate_follows_premium(update: UpdateFundingRate, oracle_price: u64, now: i64)
    requires
        update.refusal(oracle_price, now) is None,
    ensures
        ({
            let m = update.market;
            let mark: int = m.vamm_quote_reserve * PRECISION / (m.vamm_base_reserve as int);
            let premium = update.premium(oracle_price).unwrap();
            let rate = update.rate(oracle_price).unwrap();
            let raw = tdiv(premium * m.funding_rate_sensitivity, PRECISION as int);
            let max = m.max_funding_rate as int;
            &&& premium == tdiv((mark - oracle_price) * PRECISION, oracle_price as int)
            &&& rate == if raw < -max { -max } else if raw > max { max } else { raw }
            &&& mark <= oracle_price ==> rate <= 0
            &&& mark >= oracle_price ==> rate >= 0
        }),
{
    let m = update.market;
    let mark: int = m.vamm_quote_reserve * PRECISION / (m.vamm_base_reserve as int);
    vstd::arithmetic::div_mod::lemma_div_is_ordered_by_denominator(m.vamm_quote_reserve * PRECISION, 1, m.vamm_base_reserve as int);
    let d = (mark - oracle_price) * PRECISION;
    lemma_tdiv_sign(d, oracle_price as int);
    let premium = update.premium(oracle_price).unwrap();
    let sens = m.funding_rate_sensitivity as int;
    if premium <= 0 {
        vstd::arithmetic::mul::lemma_mul_inequality(premium, 0, sens);
    } else {
        vstd::arithmetic::mul::lemma_mul_inequality(0, premium, sens);
    }
    lemma_tdiv_sign(premium * sens, PRECISION as int);
}

} // verus!
