use vstd::prelude::*;

use crate::error::PerpDexError;
use crate::events::{PnLSettled, PositionClosed, PositionOpened, PositionSide};
use crate::instructions::common::{amm_price, amm_price_error, proportional_fits, proportional_share, spec_amm_price, spec_proportional};
use crate::math::{
    calculate_margin_requirement, calculate_unrealized_pnl, fits_u64, pnl_defined, spec_margin_requirement, spec_pnl,
    tdiv, wide_product, PRECISION,
};
use crate::state::{Address, Order, PerpMarket, Position, User};

verus! {

/// Accounts of opening a position from a filled order: the user, the
/// user's account, the market whose maximum leverage applies, and the
/// user's filled order in that market.
pub struct OpenPosition {
    /// The signing wallet.
    pub user: Address,
    /// The user's account, which funds the margin.
    pub user_account: User,
    /// Address of the market account.
    pub market_key: Address,
    /// The market.
    pub market: PerpMarket,
    /// The filled order the position comes from.
    pub order: Order,
}

impl OpenPosition {
    /// Whether the order is the user's filled order in this market with
    /// this side and size, filled at an average price of `entry_price`.
    pub open spec fn matches_order(&self, size: u64, entry_price: u64, side: u8) -> bool {
        &&& self.order.user == self.user
        &&& self.order.market == self.market_key
        &&& self.order.status == 1
        &&& self.order.side == side
        &&& self.order.filled_size == size
        &&& self.order.spec_fill_price() == entry_price
    }

    /// Margin the new position takes from the user's collateral.
    pub open spec fn margin(size: u64, entry_price: u64, leverage: u8) -> int {
        spec_margin_requirement(size, entry_price, leverage)
    }

    /// The first reason opening the position is refused, if any.
    pub open spec fn refusal(&self, size: u64, entry_price: u64, leverage: u8, side: u8) -> Option<PerpDexError> {
        if self.user_account.owner != self.user {
            Some(PerpDexError::Unauthorized)
        } else if side > 1 {
            Some(PerpDexError::InvalidOrderSide)
        } else if size == 0 {
            Some(PerpDexError::InvalidOrderSize)
        } else if entry_price == 0 {
            Some(PerpDexError::InvalidOrderPrice)
        } else if leverage == 0 || leverage > self.market.max_leverage {
            Some(PerpDexError::PositionSizeExceedsMaxLeverage)
        } else if !self.matches_order(size, entry_price, side) {
            Some(PerpDexError::OrderNotFound)
        } else if !fits_u64(size * entry_price) {
            Some(PerpDexError::MathOverflow)
        } else if self.user_account.collateral < Self::margin(size, entry_price, leverage) {
            Some(PerpDexError::InsufficientMargin)
        } else if !fits_u64(self.user_account.position_count + 1) {
            Some(PerpDexError::MathOverflow)
        } else {
            None
        }
    }

    /// Opens a position at time `now` from the user's filled order of this
    /// side and size in this market, at the order's average fill price
    /// `entry_price`: the margin `size * entry_price / leverage / PRECISION`
    /// moves from the user's collateral into the position. Returns the new position account (with address bump
    /// `bump`) and the event.
    pub fn execute(&mut self, size: u64, entry_price: u64, leverage: u8, side: u8, now: i64, bump: u8) -> (r: Result<(Position, PositionOpened), PerpDexError>)
        ensures
            match r {
                Err(e) => old(self).refusal(size, entry_price, leverage, side) == Some(e)
                    && final(self).user_account == old(self).user_account,
                Ok((position, opened)) => {
                    let s = old(self);
                    let margin = Self::margin(size, entry_price, leverage);
                    &&& s.refusal(size, entry_price, leverage, side) is None
                    &&& final(self).user_account == User {
                        collateral: (s.user_account.collateral - margin) as u64,
                        position_count: (s.user_account.position_count + 1) as u64,
                        last_interaction: now,
                        ..s.user_account
                    }
                    &&& position == Position {
                        user: s.user_account.owner,
                        market: s.market_key,
                        side,
                        size,
                        entry_price,
                        leverage,
                        collateral: margin as u64,
                        unrealized_pnl: 0,
                        cumulative_funding_payment: 0,
                        last_funding_settlement: now,
                        last_update: now,
                        closed: false,
                        bump,
                    }
                    &&& opened == PositionOpened {
                        user: s.user_account.owner,
                        market: s.market_key,
                        side: if side == 0 { PositionSide::Long } else { PositionSide::Short },
                        size,
                        entry_price,
                        leverage,
                        collateral: margin as u64,
                        timestamp: now,
                    }
                },
            },
            final(self).user == old(self).user,
            final(self).market_key == old(self).market_key,
            final(self).market == old(self).market,
            final(self).order == old(self).order,
            r matches Ok((position, _)) ==> final(self).user_account.collateral + position.collateral
                == old(self).user_account.collateral,
    {
        if !self.user_account.owner.same_as(&self.user) {
            return Err(PerpDexError::Unauthorized);
        }
        if side > 1 {
            return Err(PerpDexError::InvalidOrderSide);
        }
        if size == 0 {
            return Err(PerpDexError::InvalidOrderSize);
        }
        if entry_price == 0 {
            return Err(PerpDexError::InvalidOrderPrice);
        }
        if !(leverage > 0 && leverage <= self.market.max_leverage) {
            return Err(PerpDexError::PositionSizeExceedsMaxLeverage);
        }
        if !(self.order.user.same_as(&self.user) && self.order.market.same_as(&self.market_key)
            && self.order.status == 1 && self.order.side == side && self.order.filled_size == size)
        {
            return Err(PerpDexError::OrderNotFound);
        }
        let fill_price: u128 = wide_product(self.order.filled_quote, PRECISION) / (self.order.filled_size as u128);
        if fill_price != entry_price as u128 {
            return Err(PerpDexError::OrderNotFound);
        }
        let margin_requirement = calculate_margin_requirement(size, entry_price, leverage)?;
        if self.user_account.collateral < margin_requirement {
            return Err(PerpDexError::InsufficientMargin);
        }
        let position_count = match self.user_account.position_count.checked_add(1) {
            Some(c) => c,
            None => return Err(PerpDexError::MathOverflow),
        };
        self.user_account.collateral = self.user_account.collateral - margin_requirement;
        self.user_account.position_count = position_count;
        self.user_account.last_interaction = now;
        let position = Position {
            user: self.user_account.owner,
            market: self.market_key,
            side,
            size,
            entry_price,
            leverage,
            collateral: margin_requirement,
            unrealized_pnl: 0,
            cumulative_funding_payment: 0,
            last_funding_settlement: now,
            last_update: now,
            closed: false,
            bump,
        };
        let opened = PositionOpened {
            user: self.user_account.owner,
            market: self.market_key,
            side: if side == 0 { PositionSide::Long } else { PositionSide::Short },
            size,
            entry_price,
            leverage,
            collateral: margin_requirement,
            timestamp: now,
        };
        Ok((position, opened))
    }
}

/// Whether the profit of `size` of a position at a price can be computed.
pub open spec fn position_pnl_defined(position: Position, price: u64, size: u64) -> bool {
    pnl_defined(position.entry_price, price, size, position.spec_is_long())
}

/// Profit of `size` of a position at a price, rounded toward zero.
pub open spec fn position_pnl(position: Position, price: u64, size: u64) -> int {
    spec_pnl(position.entry_price, price, size, position.spec_is_long())
}

/// Accounts of recomputing a position's unrealized profit.
pub struct UpdatePositionPnL {
    /// The signing wallet.
    pub user: Address,
    /// The user's account.
    pub user_account: User,
    /// The market.
    pub market: PerpMarket,
    /// The position, which must be open.
    pub position: Position,
}

impl UpdatePositionPnL {
    /// The first reason the update is refused, if any.
    pub open spec fn refusal(&self, current_price: u64) -> Option<PerpDexError> {
        if self.user_account.owner != self.user {
            Some(PerpDexError::Unauthorized)
        } else if self.position.closed {
            Some(PerpDexError::PositionNotFound)
        } else if current_price == 0 {
            Some(PerpDexError::InvalidOrderPrice)
        } else if !position_pnl_defined(self.position, current_price, self.position.size) {
            Some(PerpDexError::MathOverflow)
        } else {
            None
        }
    }

    /// Stores the position's unrealized profit at `current_price`, time
    /// `now`.
    pub fn execute(&mut self, current_price: u64, now: i64) -> (r: Result<(), PerpDexError>)
        ensures
            match r {
                Err(e) => old(self).refusal(current_price) == Some(e) && final(self).position == old(self).position,
                Ok(()) => old(self).refusal(current_price) is None && final(self).position == Position {
                    unrealized_pnl: position_pnl(old(self).position, current_price, old(self).position.size) as i64,
                    last_update: now,
                    ..old(self).position
                },
            },
            final(self).user == old(self).user,
            final(self).user_account == old(self).user_account,
            final(self).market == old(self).market,
    {
        if !self.user_account.owner.same_as(&self.user) {
            return Err(PerpDexError::Unauthorized);
        }
        if self.position.closed {
            return Err(PerpDexError::PositionNotFound);
        }
        if current_price == 0 {
            return Err(PerpDexError::InvalidOrderPrice);
        }
        let unrealized_pnl = calculate_unrealized_pnl(
            self.position.entry_price,
            current_price,
            self.position.size,
            self.position.is_long(),
        )?;
        self.position.unrealized_pnl = unrealized_pnl;
        self.position.last_update = now;
        Ok(())
    }
}

/// Accounts of closing a position, fully or in part, at the AMM's mark
/// price.
pub struct ClosePosition {
    /// The signing wallet.
    pub user: Address,
    /// The user's account, which receives collateral and profit.
    pub user_account: User,
    /// The market, whose reserves give the exit price.
    pub market: PerpMarket,
    /// The position, which must be open.
    pub position: Position,
}

impl ClosePosition {
    /// Exit price: the AMM's mark price.
    pub open spec fn exit_price(&self) -> int {
        spec_amm_price(self.market.vamm_base_reserve, self.market.vamm_quote_reserve)
    }

    /// Realized profit of the closed part.
    pub open spec fn realized(&self, close_size: u64) -> int {
        position_pnl(self.position, self.exit_price() as u64, close_size)
    }

    /// Collateral the closed part returns to the user.
    pub open spec fn returned(&self, close_size: u64) -> int {
        spec_proportional(self.position.collateral, close_size, self.position.size)
    }

    /// What the close credits to the user: the returned collateral plus
    /// the realized profit, never below zero (a loss beyond the returned
    /// collateral stays with the position and does not reach the user's
    /// free collateral).
    pub open spec fn credit(&self, close_size: u64) -> int {
        let c = self.returned(close_size) + self.realized(close_size);
        if c < 0 { 0 } else { c }
    }

    /// The user's collateral after the close.
    pub open spec fn final_collateral(&self, close_size: u64) -> int {
        self.user_account.collateral + self.credit(close_size)
    }

    /// The first reason the close is refused, if any.
    pub open spec fn refusal(&self, close_size: u64) -> Option<PerpDexError> {
        if self.user_account.owner != self.user {
            Some(PerpDexError::Unauthorized)
        } else if self.position.closed {
            Some(PerpDexError::PositionNotFound)
        } else if close_size == 0 {
            Some(PerpDexError::InvalidOrderSize)
        } else if close_size > self.position.size {
            Some(PerpDexError::InvalidPositionSize)
        } else if amm_price_error(self.market.vamm_base_reserve, self.market.vamm_quote_reserve) is Some {
            amm_price_error(self.market.vamm_base_reserve, self.market.vamm_quote_reserve)
        } else if !position_pnl_defined(self.position, self.exit_price() as u64, close_size) {
            Some(PerpDexError::MathOverflow)
        } else if !fits_u64(close_size * PRECISION) {
            Some(PerpDexError::DivisionByZero)
        } else if !proportional_fits(self.position.collateral, close_size, self.position.size) {
            Some(PerpDexError::MathOverflow)
        } else if !fits_u64(self.final_collateral(close_size)) {
            Some(PerpDexError::MathOverflow)
        } else {
            None
        }
    }

    /// Closes `close_size` of the position at the AMM's mark price, time
    /// `now`. Margin is isolated: the user's collateral receives the
    /// proportional share of the position's collateral plus the realized
    /// profit, or that share minus the loss as far as the share covers it;
    /// a loss beyond the share is not taken from the user's free
    /// collateral. The position shrinks and is closed when nothing is left. Returns the
    /// close event and the settlement event.
    pub fn execute(&mut self, close_size: u64, now: i64) -> (r: Result<(PositionClosed, PnLSettled), PerpDexError>)
        ensures
            match r {
                Err(e) => old(self).refusal(close_size) == Some(e)
                    && final(self).user_account == old(self).user_account
                    && final(self).position == old(self).position,
                Ok((closed, settled)) => {
                    let s = old(self);
                    let new_size = s.position.size - close_size;
                    let pnl = s.realized(close_size);
                    &&& s.refusal(close_size) is None
                    &&& final(self).user_account == User {
                        collateral: s.final_collateral(close_size) as u64,
                        last_interaction: now,
                        ..s.user_account
                    }
                    &&& final(self).position == Position {
                        size: new_size as u64,
                        collateral: (s.position.collateral - s.returned(close_size)) as u64,
                        closed: new_size == 0,
                        last_update: now,
                        ..s.position
                    }
                    &&& closed == PositionClosed {
                        user: s.user_account.owner,
                        market: s.position.market,
                        size: close_size,
                        exit_price: s.exit_price() as u64,
                        pnl: pnl as i64,
                        timestamp: now,
                    }
                    &&& settled == PnLSettled {
                        user: s.user_account.owner,
                        market: s.position.market,
                        realized_pnl: pnl as i64,
                        timestamp: now,
                    }
                },
            },
            final(self).user == old(self).user,
            final(self).market == old(self).market,
            r matches Ok((closed, settled)) ==> {
                let s = old(self);
                let exit: int = s.market.vamm_quote_reserve * PRECISION / (s.market.vamm_base_reserve as int);
                let entry: int = s.position.entry_price as int;
                let moved: int = if s.position.side == 0 { exit - entry } else { entry - exit };
                &&& closed.exit_price == exit
                &&& settled.realized_pnl == tdiv(moved * close_size, PRECISION as int)
            },
            r is Ok ==> final(self).user_account.collateral >= old(self).user_account.collateral,
            r is Ok ==> final(self).user_account.collateral + final(self).position.collateral
                == old(self).user_account.collateral + old(self).position.collateral + if old(self).realized(close_size)
                    >= -old(self).returned(close_size) {
                    old(self).realized(close_size)
                } else {
                    -old(self).returned(close_size)
                },
    {
        let ghost before = *self;
        if !self.user_account.owner.same_as(&self.user) {
            return Err(PerpDexError::Unauthorized);
        }
        if self.position.closed {
            return Err(PerpDexError::PositionNotFound);
        }
        if close_size == 0 {
            return Err(PerpDexError::InvalidOrderSize);
        }
        if close_size > self.position.size {
            return Err(PerpDexError::InvalidPositionSize);
        }
        let exit_price = amm_price(self.market.vamm_base_reserve, self.market.vamm_quote_reserve)?;
        let realized_pnl = calculate_unrealized_pnl(
            self.position.entry_price,
            exit_price,
            close_size,
            self.position.is_long(),
        )?;
        let collateral_to_return = proportional_share(self.position.collateral, close_size, self.position.size)?;
        let credit_signed: i128 = collateral_to_return as i128 + realized_pnl as i128;
        let credit: u128 = if credit_signed <= 0 { 0 } else { credit_signed as u128 };
        let total: u128 = self.user_account.collateral as u128 + credit;
        if total > u64::MAX as u128 {
            return Err(PerpDexError::MathOverflow);
        }
        let final_collateral = total as u64;
        self.user_account.collateral = final_collateral;
        let new_size = self.position.size - close_size;
        self.position.size = new_size;
        self.position.collateral = self.position.collateral - collateral_to_return;
        if new_size == 0 {
            self.position.closed = true;
        }
        self.position.last_update = now;
        self.user_account.last_interaction = now;
        let closed = PositionClosed {
            user: self.user_account.owner,
            market: self.position.market,
            size: close_size,
            exit_price,
            pnl: realized_pnl,
            timestamp: now,
        };
        let settled = PnLSettled {
            user: self.user_account.owner,
            market: self.position.market,
            realized_pnl,
            timestamp: now,
        };
        proof {
            crate::laws::law_close_realizes_price_move(before, close_size);
        }
        Ok((closed, settled))
    }
}

} // verus!
