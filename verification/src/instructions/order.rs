use vstd::prelude::*;

use crate::error::PerpDexError;
use crate::events::{OrderCancelled, OrderFilled, OrderPlaced, OrderSide, OrderType};
use crate::instructions::common::{amm_price, amm_price_error, spec_amm_price};
use crate::math::{
    calculate_trade_fee, calculate_vamm_output, fits_u64, rate_of_notional_fits, spec_rate_of_notional,
    spec_vamm_output, vamm_trade_fits, wide_product, PRECISION,
};
use crate::state::{Address, Order, PerpMarket, User};

verus! {

/// Accounts of placing an order: the user, the user's account, and the
/// market, which must not be paused.
pub struct PlaceOrder {
    /// The signing wallet.
    pub user: Address,
    /// The user's account.
    pub user_account: User,
    /// Address of the market account.
    pub market_key: Address,
    /// The market.
    pub market: PerpMarket,
}

impl PlaceOrder {
    /// The first reason placing the order is refused, if any.
    pub open spec fn refusal(&self, side: u8, order_type: u8, size: u64, price: u64) -> Option<PerpDexError> {
        if self.user_account.owner != self.user {
            Some(PerpDexError::Unauthorized)
        } else if self.market.paused {
            Some(PerpDexError::MarketPaused)
        } else if side > 1 {
            Some(PerpDexError::InvalidOrderSide)
        } else if order_type > 1 {
            Some(PerpDexError::InvalidOrderType)
        } else if size == 0 {
            Some(PerpDexError::InvalidOrderSize)
        } else if order_type == 1 && price == 0 {
            Some(PerpDexError::InvalidOrderPrice)
        } else if !fits_u64(self.user_account.order_count + 1) {
            Some(PerpDexError::MathOverflow)
        } else {
            None
        }
    }

    /// Places an open order of `size` base units at `price` (0 for a
    /// market order) at time `now`, and counts it among the user's open
    /// orders. Returns the new
    /// order account (with address bump `bump`) and the event.
    pub fn execute(&mut self, order_id: u64, side: u8, order_type: u8, size: u64, price: u64, now: i64, bump: u8) -> (r: Result<(Order, OrderPlaced), PerpDexError>)
        ensures
            match r {
                Err(e) => old(self).refusal(side, order_type, size, price) == Some(e)
                    && final(self).user_account == old(self).user_account,
                Ok((order, placed)) => {
                    let s = old(self);
                    &&& s.refusal(side, order_type, size, price) is None
                    &&& final(self).user_account == User {
                        order_count: (s.user_account.order_count + 1) as u64,
                        last_interaction: now,
                        ..s.user_account
                    }
                    &&& order == Order {
                        user: s.user_account.owner,
                        market: s.market_key,
                        order_id,
                        side,
                        order_type,
                        size,
                        filled_size: 0,
                        filled_quote: 0,
                        price,
                        status: 0,
                        created_at: now,
                        updated_at: now,
                        bump,
                    }
                    &&& placed == OrderPlaced {
                        user: s.user_account.owner,
                        market: s.market_key,
                        order_id,
                        side: if side == 0 { OrderSide::Long } else { OrderSide::Short },
                        order_type: if order_type == 0 { OrderType::Market } else { OrderType::Limit },
                        size,
                        price,
                        timestamp: now,
                    }
                },
            },
            final(self).user == old(self).user,
            final(self).market_key == old(self).market_key,
            final(self).market == old(self).market,
            r matches Ok((order, _)) ==> order.spec_consistent(),
    {
        if !self.user_account.owner.same_as(&self.user) {
            return Err(PerpDexError::Unauthorized);
        }
        if self.market.paused {
            return Err(PerpDexError::MarketPaused);
        }
        if side > 1 {
            return Err(PerpDexError::InvalidOrderSide);
        }
        if order_type > 1 {
            return Err(PerpDexError::InvalidOrderType);
        }
        if size == 0 {
            return Err(PerpDexError::InvalidOrderSize);
        }
        if order_type == 1 && price == 0 {
            return Err(PerpDexError::InvalidOrderPrice);
        }
        let order_count = match self.user_account.order_count.checked_add(1) {
            Some(c) => c,
            None => return Err(PerpDexError::MathOverflow),
        };
        let order = Order {
            user: self.user_account.owner,
            market: self.market_key,
            order_id,
            side,
            order_type,
            size,
            filled_size: 0,
            filled_quote: 0,
            price,
            status: 0,
            created_at: now,
            updated_at: now,
            bump,
        };
        self.user_account.order_count = order_count;
        self.user_account.last_interaction = now;
        let placed = OrderPlaced {
            user: self.user_account.owner,
            market: self.market_key,
            order_id,
            side: if side == 0 { OrderSide::Long } else { OrderSide::Short },
            order_type: if order_type == 0 { OrderType::Market } else { OrderType::Limit },
            size,
            price,
            timestamp: now,
        };
        Ok((order, placed))
    }
}

/// Accounts of cancelling an order: only the order's owner may cancel it,
/// and only while it is open.
pub struct CancelOrder {
    /// The signing wallet.
    pub user: Address,
    /// The user's account.
    pub user_account: User,
    /// The order.
    pub order: Order,
    /// The order's market.
    pub market: PerpMarket,
}

impl CancelOrder {
    /// The first reason the cancellation is refused, if any.
    pub open spec fn refusal(&self) -> Option<PerpDexError> {
        if self.user_account.owner != self.user {
            Some(PerpDexError::Unauthorized)
        } else if self.order.user != self.user {
            Some(PerpDexError::Unauthorized)
        } else if !self.order.spec_is_open() {
            Some(PerpDexError::OrderAlreadyCancelled)
        } else {
            None
        }
    }

    /// Cancels the order at time `now` and removes it from the user's open
    /// orders; the event reports the size that was still unfilled.
    pub fn execute(&mut self, now: i64) -> (r: Result<OrderCancelled, PerpDexError>)
        ensures
            match r {
                Err(e) => old(self).refusal() == Some(e) && final(self).order == old(self).order
                    && final(self).user_account == old(self).user_account,
                Ok(cancelled) => {
                    let s = old(self);
                    &&& s.refusal() is None
                    &&& final(self).order == Order { status: 2, updated_at: now, ..s.order }
                    &&& final(self).user_account == User {
                        order_count: one_fewer(s.user_account.order_count),
                        ..s.user_account
                    }
                    &&& cancelled == OrderCancelled {
                        user: s.order.user,
                        market: s.order.market,
                        order_id: s.order.order_id,
                        cancelled_size: s.order.spec_remaining_size(),
                        timestamp: now,
                    }
                },
            },
            final(self).user == old(self).user,
            final(self).market == old(self).market,
            old(self).order.spec_consistent() ==> final(self).order.spec_consistent(),
    {
        if !self.user_account.owner.same_as(&self.user) {
            return Err(PerpDexError::Unauthorized);
        }
        if !self.order.user.same_as(&self.user) {
            return Err(PerpDexError::Unauthorized);
        }
        if !self.order.is_open() {
            return Err(PerpDexError::OrderAlreadyCancelled);
        }
        let cancelled_size = self.order.remaining_size();
        self.user_account.order_count = self.user_account.order_count.saturating_sub(1);
        self.order.status = 2;
        self.order.updated_at = now;
        Ok(OrderCancelled {
            user: self.order.user,
            market: self.order.market,
            order_id: self.order.order_id,
            cancelled_size,
            timestamp: now,
        })
    }
}

/// An open-order count after one order leaves it (never below zero).
pub open spec fn one_fewer(count: u64) -> u64 {
    if count > 0 { (count - 1) as u64 } else { 0 }
}

/// Reserves after a trade of `fill_size` base units: a buy takes exactly
/// `fill_size` of base out of the pool and sets the quote reserve to
/// `k / new_base`; a sell puts `fill_size` of base in and pays out the
/// constant-product output in quote.
pub open spec fn spec_new_reserves(base_reserve: u64, quote_reserve: u64, fill_size: u64, is_buying_base: bool) -> (int, int) {
    if is_buying_base {
        let nb = base_reserve - fill_size;
        (nb, base_reserve * quote_reserve / nb)
    } else {
        (base_reserve + fill_size, quote_reserve - spec_vamm_output(base_reserve, quote_reserve, fill_size, false))
    }
}

/// Quote exchanged by the trade: paid into the pool on a buy, paid out on
/// a sell.
pub open spec fn spec_quote_amount(base_reserve: u64, quote_reserve: u64, fill_size: u64, is_buying_base: bool) -> int {
    if is_buying_base {
        spec_new_reserves(base_reserve, quote_reserve, fill_size, true).1 - quote_reserve
    } else {
        spec_vamm_output(base_reserve, quote_reserve, fill_size, false)
    }
}

/// The first reason the AMM cannot take the trade, if any: an empty
/// reserve, a buy of the whole base reserve or more, or a new reserve
/// beyond `u64`.
pub open spec fn trade_refusal(base_reserve: u64, quote_reserve: u64, fill_size: u64, is_buying_base: bool) -> Option<PerpDexError> {
    if base_reserve == 0 || quote_reserve == 0 {
        Some(PerpDexError::InsufficientAMMLiquidity)
    } else if is_buying_base && fill_size >= base_reserve {
        Some(PerpDexError::InsufficientAMMLiquidity)
    } else if is_buying_base && !fits_u64(spec_new_reserves(base_reserve, quote_reserve, fill_size, true).1) {
        Some(PerpDexError::MathOverflow)
    } else if !is_buying_base && !vamm_trade_fits(base_reserve, quote_reserve, fill_size, false) {
        Some(PerpDexError::MathOverflow)
    } else {
        None
    }
}

/// Execution price of a fill: quote per base unit, with `PRECISION`.
pub open spec fn spec_execution_price(fill_size: u64, quote_amount: int) -> int {
    quote_amount * PRECISION / (fill_size as int)
}

/// Accounts of filling an order against the virtual AMM.
pub struct FillOrder {
    /// Whoever sends the fill.
    pub filler: Address,
    /// Account of the order's owner.
    pub user_account: User,
    /// Address of the market account.
    pub market_key: Address,
    /// The market, whose reserves move.
    pub market: PerpMarket,
    /// The order, which must be open.
    pub order: Order,
}

impl FillOrder {
    /// Whether the order buys base.
    pub open spec fn buying(&self) -> bool {
        self.order.side == 0
    }

    /// Quote exchanged for `fill_size` base units.
    pub open spec fn quote_amount(&self, fill_size: u64) -> int {
        spec_quote_amount(self.market.vamm_base_reserve, self.market.vamm_quote_reserve, fill_size, self.buying())
    }

    /// Reserves after the AMM trade.
    pub open spec fn new_reserves(&self, fill_size: u64) -> (int, int) {
        spec_new_reserves(self.market.vamm_base_reserve, self.market.vamm_quote_reserve, fill_size, self.buying())
    }

    /// Execution price of the fill.
    pub open spec fn price(&self, fill_size: u64) -> int {
        spec_execution_price(fill_size, self.quote_amount(fill_size))
    }

    /// Fee rate of the order: maker for a limit order, taker otherwise.
    pub open spec fn fee_rate(&self) -> u64 {
        if self.order.spec_is_limit() { self.market.maker_fee_rate } else { self.market.taker_fee_rate }
    }

    /// Whether `fill_size` completes the order.
    pub open spec fn completes(&self, fill_size: u64) -> bool {
        self.order.filled_size + fill_size >= self.order.size
    }

    /// The first reason the limit price refuses the fill, if any.
    pub open spec fn limit_refusal(&self) -> Option<PerpDexError> {
        let base = self.market.vamm_base_reserve;
        let quote = self.market.vamm_quote_reserve;
        if !self.order.spec_is_limit() {
            None
        } else if amm_price_error(base, quote) is Some {
            amm_price_error(base, quote)
        } else if self.order.spec_is_long() && spec_amm_price(base, quote) > self.order.price {
            Some(PerpDexError::InvalidOrderPrice)
        } else if self.order.spec_is_short() && spec_amm_price(base, quote) < self.order.price {
            Some(PerpDexError::InvalidOrderPrice)
        } else {
            None
        }
    }

    /// The first reason the fill is refused, if any.
    pub open spec fn refusal(&self, fill_size: u64) -> Option<PerpDexError> {
        let base = self.market.vamm_base_reserve;
        let quote = self.market.vamm_quote_reserve;
        let q = self.quote_amount(fill_size);
        if self.user_account.owner != self.order.user {
            Some(PerpDexError::Unauthorized)
        } else if self.market.paused {
            Some(PerpDexError::MarketPaused)
        } else if !self.order.spec_is_open() {
            Some(PerpDexError::OrderAlreadyFilled)
        } else if fill_size == 0 || fill_size > self.order.spec_remaining_size() {
            Some(PerpDexError::InvalidOrderSize)
        } else if self.limit_refusal() is Some {
            self.limit_refusal()
        } else if trade_refusal(base, quote, fill_size, self.buying()) is Some {
            trade_refusal(base, quote, fill_size, self.buying())
        } else if !fits_u64(q * PRECISION) {
            Some(PerpDexError::DivisionByZero)
        } else if !fits_u64(fill_size * self.price(fill_size)) {
            Some(PerpDexError::MathOverflow)
        } else if !rate_of_notional_fits(fill_size, self.price(fill_size) as u64, self.fee_rate()) {
            Some(PerpDexError::MathOverflow)
        } else if !fits_u64(self.order.filled_quote + q) {
            Some(PerpDexError::MathOverflow)
        } else {
            None
        }
    }

    /// Trades `fill_size` base units on the virtual AMM: a buy takes
    /// exactly `fill_size` of base out, a sell puts `fill_size` of base in.
    /// Returns the quote exchanged and the new base and quote reserves.
    pub fn execute_vamm_trade(base_reserve: u64, quote_reserve: u64, fill_size: u64, is_buying_base: bool) -> (r: Result<(u64, u64, u64), PerpDexError>)
        ensures
            match r {
                Ok((q, nb, nq)) => trade_refusal(base_reserve, quote_reserve, fill_size, is_buying_base) is None
                    && q == spec_quote_amount(base_reserve, quote_reserve, fill_size, is_buying_base)
                    && (nb as int, nq as int) == spec_new_reserves(base_reserve, quote_reserve, fill_size, is_buying_base),
                Err(e) => trade_refusal(base_reserve, quote_reserve, fill_size, is_buying_base) == Some(e),
            },
    {
        if base_reserve == 0 || quote_reserve == 0 {
            return Err(PerpDexError::InsufficientAMMLiquidity);
        }
        if is_buying_base {
            if fill_size >= base_reserve {
                return Err(PerpDexError::InsufficientAMMLiquidity);
            }
            let new_base_reserve = base_reserve - fill_size;
            let k: u128 = wide_product(base_reserve, quote_reserve);
            let new_quote_wide: u128 = k / new_base_reserve as u128;
            if new_quote_wide > u64::MAX as u128 {
                return Err(PerpDexError::MathOverflow);
            }
            let new_quote_reserve = new_quote_wide as u64;
            proof {
                lemma_buy_costs_quote(base_reserve, quote_reserve, fill_size);
            }
            Ok((new_quote_reserve - quote_reserve, new_base_reserve, new_quote_reserve))
        } else {
            let output_amount = calculate_vamm_output(base_reserve, quote_reserve, fill_size, false)?;
            proof {
                lemma_vamm_output_bounded(base_reserve, quote_reserve, fill_size, false);
            }
            Ok((output_amount, base_reserve + fill_size, quote_reserve - output_amount))
        }
    }

    /// Fills `fill_size` base units of the order at time `now` by trading
    /// them on the virtual AMM. The reserves and `k` move to the post-trade
    /// values, the order's filled size and filled quote grow, and once
    /// nothing is left the order becomes filled and leaves the owner's
    /// open orders. Returns the event and the trade fee.
    pub fn execute(&mut self, fill_size: u64, now: i64) -> (r: Result<(OrderFilled, u64), PerpDexError>)
        ensures
            match r {
                Err(e) => old(self).refusal(fill_size) == Some(e)
                    && final(self).market == old(self).market
                    && final(self).order == old(self).order
                    && final(self).user_account == old(self).user_account,
                Ok((filled, fee)) => {
                    let s = old(self);
                    let (nb, nq) = s.new_reserves(fill_size);
                    let new_filled = s.order.filled_size + fill_size;
                    &&& s.refusal(fill_size) is None
                    &&& final(self).market == PerpMarket {
                        vamm_base_reserve: nb as u64,
                        vamm_quote_reserve: nq as u64,
                        vamm_k: (nb * nq) as u128,
                        ..s.market
                    }
                    &&& final(self).order == Order {
                        filled_size: new_filled as u64,
                        filled_quote: (s.order.filled_quote + s.quote_amount(fill_size)) as u64,
                        status: if s.completes(fill_size) { 1 } else { s.order.status },
                        updated_at: now,
                        ..s.order
                    }
                    &&& final(self).user_account == User {
                        order_count: if s.completes(fill_size) {
                            one_fewer(s.user_account.order_count)
                        } else {
                            s.user_account.order_count
                        },
                        ..s.user_account
                    }
                    &&& filled == OrderFilled {
                        user: s.order.user,
                        market: s.order.market,
                        order_id: s.order.order_id,
                        filled_size: fill_size,
                        filled_price: s.price(fill_size) as u64,
                        remaining_size: (s.order.size - new_filled) as u64,
                        timestamp: now,
                    }
                    &&& fee == spec_rate_of_notional(fill_size, s.price(fill_size) as u64, s.fee_rate())
                },
            },
            final(self).filler == old(self).filler,
            final(self).market_key == old(self).market_key,
            r matches Ok((filled, fee)) ==> fee == fill_size * filled.filled_price * (if old(self).order.order_type == 1 {
                old(self).market.maker_fee_rate
            } else {
                old(self).market.taker_fee_rate
            }) / (PRECISION as int) / (PRECISION as int),
            r is Ok ==> {
                &&& final(self).order.spec_consistent()
                &&& final(self).market.vamm_k == final(self).market.vamm_base_reserve * final(self).market.vamm_quote_reserve
                &&& final(self).market.vamm_base_reserve * final(self).market.vamm_quote_reserve
                    <= old(self).market.vamm_base_reserve * old(self).market.vamm_quote_reserve
            },
    {
        if !self.user_account.owner.same_as(&self.order.user) {
            return Err(PerpDexError::Unauthorized);
        }
        if self.market.paused {
            return Err(PerpDexError::MarketPaused);
        }
        if !self.order.is_open() {
            return Err(PerpDexError::OrderAlreadyFilled);
        }
        if fill_size == 0 {
            return Err(PerpDexError::InvalidOrderSize);
        }
        let remaining_size = self.order.remaining_size();
        if fill_size > remaining_size {
            return Err(PerpDexError::InvalidOrderSize);
        }
        if self.order.is_limit() {
            let amm = amm_price(self.market.vamm_base_reserve, self.market.vamm_quote_reserve)?;
            if self.order.is_long() && amm > self.order.price {
                return Err(PerpDexError::InvalidOrderPrice);
            }
            if self.order.is_short() && amm < self.order.price {
                return Err(PerpDexError::InvalidOrderPrice);
            }
        }
        let is_buying_base = self.order.is_long();
        let (quote_amount, new_base_reserve, new_quote_reserve) = Self::execute_vamm_trade(
            self.market.vamm_base_reserve,
            self.market.vamm_quote_reserve,
            fill_size,
            is_buying_base,
        )?;
        proof {
            crate::laws::law_vamm_trade_keeps_product(
                self.market.vamm_base_reserve,
                self.market.vamm_quote_reserve,
                fill_size,
                is_buying_base,
            );
        }
        let execution_price = match quote_amount.checked_mul(PRECISION) {
            Some(x) => x / fill_size,
            None => return Err(PerpDexError::DivisionByZero),
        };
        let fee_rate = if self.order.is_limit() { self.market.maker_fee_rate } else { self.market.taker_fee_rate };
        match fill_size.checked_mul(execution_price) {
            Some(_) => {},
            None => return Err(PerpDexError::MathOverflow),
        }
        let fee = calculate_trade_fee(fill_size, execution_price, fee_rate)?;
        let filled_quote = match self.order.filled_quote.checked_add(quote_amount) {
            Some(q) => q,
            None => return Err(PerpDexError::MathOverflow),
        };

        self.market.vamm_base_reserve = new_base_reserve;
        self.market.vamm_quote_reserve = new_quote_reserve;
        self.market.vamm_k = wide_product(new_base_reserve, new_quote_reserve);

        let new_filled = self.order.filled_size + fill_size;
        self.order.filled_size = new_filled;
        self.order.filled_quote = filled_quote;
        if new_filled >= self.order.size {
            self.order.status = 1;
            self.user_account.order_count = self.user_account.order_count.saturating_sub(1);
        }
        self.order.updated_at = now;

        let filled = OrderFilled {
            user: self.order.user,
            market: self.order.market,
            order_id: self.order.order_id,
            filled_size: fill_size,
            filled_price: execution_price,
            remaining_size: self.order.remaining_size(),
            timestamp: now,
        };
        Ok((filled, fee))
    }
}

/// A buy of `fill_size < base` base units costs a nonnegative amount of
/// quote, and the pool's product does not grow.
pub proof fn lemma_buy_costs_quote(base_reserve: u64, quote_reserve: u64, fill_size: u64)
    requires
        base_reserve != 0,
        fill_size < base_reserve,
    ensures
        ({
            let nb = base_reserve - fill_size;
            let k = base_reserve * quote_reserve;
            &&& k / nb >= quote_reserve
            &&& nb * (k / nb) <= k
            &&& 0 <= nb * (k / nb)
        }),
{
    let nb = base_reserve - fill_size;
    let k = base_reserve * quote_reserve;
    vstd::arithmetic::mul::lemma_mul_nonnegative(base_reserve as int, quote_reserve as int);
    vstd::arithmetic::div_mod::lemma_div_is_ordered_by_denominator(k, nb, base_reserve as int);
    vstd::arithmetic::mul::lemma_mul_is_commutative(base_reserve as int, quote_reserve as int);
    vstd::arithmetic::div_mod::lemma_div_by_multiple(quote_reserve as int, base_reserve as int);
    vstd::arithmetic::div_mod::lemma_fundamental_div_mod(k, nb);
    vstd::arithmetic::div_mod::lemma_mod_pos_bound(k, nb);
    vstd::arithmetic::div_mod::lemma_div_pos_is_pos(k, nb);
    vstd::arithmetic::mul::lemma_mul_nonnegative(nb, k / nb);
}

/// The output of a trade never exceeds the reserve it is paid from.
pub proof fn lemma_vamm_output_bounded(base_reserve: u64, quote_reserve: u64, input_amount: u64, is_buying_base: bool)
    requires
        base_reserve != 0,
        quote_reserve != 0,
        vamm_trade_fits(base_reserve, quote_reserve, input_amount, is_buying_base),
    ensures
        0 <= spec_vamm_output(base_reserve, quote_reserve, input_amount, is_buying_base)
            <= if is_buying_base { base_reserve as int } else { quote_reserve as int },
{
    if is_buying_base {
        crate::math::lemma_product_quotient_bounded(base_reserve as int, quote_reserve as int, quote_reserve + input_amount);
    } else {
        vstd::arithmetic::mul::lemma_mul_is_commutative(base_reserve as int, quote_reserve as int);
        crate::math::lemma_product_quotient_bounded(quote_reserve as int, base_reserve as int, base_reserve + input_amount);
    }
}

} // verus!
