use vstd::prelude::*;

use crate::error::PerpDexError;
use crate::events::{InsuranceFundUsed, PositionLiquidated};
use crate::instructions::common::{
    add_signed, amm_price, amm_price_error, proportional_fits, proportional_share, spec_amm_price, spec_proportional,
};
use crate::laws::signed_position_value;
use crate::math::{
    calculate_health_factor, calculate_liquidation_bonus, calculate_margin_requirement,
    calculate_unrealized_pnl, fits_u64, is_liquidatable, is_oracle_deviation_acceptable, unsigned_abs,
    abs_diff, spec_relative_diff, pnl_defined, spec_pnl, rate_of_notional_fits,
    spec_margin_requirement, spec_rate_of_notional, PRECISION,
};
use crate::state::{Address, InsuranceFund, PerpMarket, Position, ProtocolState, User};

verus! {

/// Accounts of a liquidation: anyone may liquidate a position whose health
/// factor is below the market's liquidation threshold.
pub struct LiquidatePosition {
    /// The liquidator, who receives the bonus.
    pub liquidator: Address,
    /// Account of the position's owner.
    pub user_account: User,
    /// The market of the position.
    pub market: PerpMarket,
    /// The position being liquidated.
    pub position: Position,
    /// The insurance fund, which pays bad debt and the bonus.
    pub insurance_fund: InsuranceFund,
    /// The protocol configuration.
    pub protocol_state: ProtocolState,
}

impl LiquidatePosition {
    /// Mark price of the market.
    pub open spec fn mark(&self) -> int {
        spec_amm_price(self.market.vamm_base_reserve, self.market.vamm_quote_reserve)
    }

    /// The reason the liquidation price is refused, if any: the mark price
    /// cannot be read, or `current_price` deviates from it by more than the
    /// protocol's maximum oracle deviation (relative to `current_price`).
    pub open spec fn oracle_refusal(&self, current_price: u64) -> Option<PerpDexError> {
        let base = self.market.vamm_base_reserve;
        let quote = self.market.vamm_quote_reserve;
        if amm_price_error(base, quote) is Some {
            amm_price_error(base, quote)
        } else if !fits_u64(abs_diff(self.mark() as u64, current_price) * PRECISION) {
            Some(PerpDexError::MathOverflow)
        } else if spec_relative_diff(self.mark() as u64, current_price) > self.protocol_state.max_oracle_deviation {
            Some(PerpDexError::OraclePriceDeviationTooLarge)
        } else {
            None
        }
    }

    /// Whether the profit of the whole position at `current_price` can be
    /// computed.
    pub open spec fn pnl_defined(&self, current_price: u64) -> bool {
        pnl_defined(self.position.entry_price, current_price, self.position.size, self.position.spec_is_long())
    }

    /// Unrealized profit of the whole position at `current_price`.
    pub open spec fn pnl(&self, current_price: u64) -> int {
        spec_pnl(self.position.entry_price, current_price, self.position.size, self.position.spec_is_long())
    }

    /// Margin requirement of the position.
    pub open spec fn margin(&self) -> int {
        spec_margin_requirement(self.position.size, self.position.entry_price, self.position.leverage)
    }

    /// Value of the position: its collateral plus its profit, floored at
    /// zero (a loss beyond the collateral leaves nothing).
    pub open spec fn position_value(&self, current_price: u64) -> int {
        let v = self.position.collateral + self.pnl(current_price);
        if v < 0 { 0 } else { v }
    }

    /// Health factor of the position at `current_price`.
    pub open spec fn health(&self, current_price: u64) -> int {
        self.position_value(current_price) * PRECISION / self.margin()
    }

    /// Notional of the liquidated part: `size * price / PRECISION`.
    pub open spec fn liquidation_value(liquidation_size: u64, current_price: u64) -> int {
        liquidation_size * current_price / (PRECISION as int)
    }

    /// Bonus paid to the liquidator.
    pub open spec fn bonus(&self, liquidation_size: u64, current_price: u64) -> int {
        spec_rate_of_notional(liquidation_size, current_price, self.market.liquidation_bonus_rate)
    }

    /// Bad debt: how far the liquidated notional exceeds the position's
    /// signed value `collateral + pnl` (so an underwater position's
    /// shortfall counts in full), zero when it does not.
    pub open spec fn bad_debt(&self, liquidation_size: u64, current_price: u64) -> int {
        let lv = Self::liquidation_value(liquidation_size, current_price);
        let sv = self.position.collateral + self.pnl(current_price);
        if lv > sv { lv - sv } else { 0 }
    }

    /// What the insurance fund pays: bad debt plus bonus.
    pub open spec fn total_required(&self, liquidation_size: u64, current_price: u64) -> int {
        self.bad_debt(liquidation_size, current_price) + self.bonus(liquidation_size, current_price)
    }

    /// The insurance fund after paying for the liquidation at time `now`.
    pub open spec fn fund_after(&self, liquidation_size: u64, current_price: u64, now: i64) -> InsuranceFund {
        InsuranceFund {
            balance: (self.insurance_fund.balance - self.total_required(liquidation_size, current_price)) as u64,
            total_bad_debt_covered: (self.insurance_fund.total_bad_debt_covered
                + self.bad_debt(liquidation_size, current_price)) as u64,
            last_update: now,
            ..self.insurance_fund
        }
    }

    /// Collateral removed from the position with the liquidated part.
    pub open spec fn collateral_liquidated(&self, liquidation_size: u64) -> int {
        spec_proportional(self.position.collateral, liquidation_size, self.position.size)
    }

    /// The first reason the liquidation is refused, if any, in the order
    /// the checks are made.
    pub open spec fn refusal(&self, liquidation_size: u64, current_price: u64) -> Option<PerpDexError> {
        let p = &self.position;
        if p.closed {
            Some(PerpDexError::PositionNotFound)
        } else if liquidation_size == 0 {
            Some(PerpDexError::InvalidOrderSize)
        } else if current_price == 0 {
            Some(PerpDexError::InvalidOrderPrice)
        } else if liquidation_size > p.size {
            Some(PerpDexError::LiquidationSizeExceedsMax)
        } else if self.oracle_refusal(current_price) is Some {
            self.oracle_refusal(current_price)
        } else if !self.pnl_defined(current_price) {
            Some(PerpDexError::MathOverflow)
        } else if p.leverage == 0 {
            Some(PerpDexError::DivisionByZero)
        } else if !fits_u64(p.size * p.entry_price) {
            Some(PerpDexError::MathOverflow)
        } else if self.margin() == 0 {
            Some(PerpDexError::DivisionByZero)
        } else if !fits_u64(self.position_value(current_price)) || !fits_u64(self.position_value(current_price) * PRECISION) {
            Some(PerpDexError::MathOverflow)
        } else if !(self.health(current_price) < self.market.liquidation_threshold) {
            Some(PerpDexError::PositionNotLiquidatable)
        } else if !fits_u64(liquidation_size * current_price) {
            Some(PerpDexError::MathOverflow)
        } else if !rate_of_notional_fits(liquidation_size, current_price, self.market.liquidation_bonus_rate) {
            Some(PerpDexError::MathOverflow)
        } else if !fits_u64(self.bad_debt(liquidation_size, current_price)) || !fits_u64(self.total_required(liquidation_size, current_price)) {
            Some(PerpDexError::MathOverflow)
        } else if self.insurance_fund.balance < self.total_required(liquidation_size, current_price) {
            Some(PerpDexError::InsufficientInsuranceFund)
        } else if !fits_u64(liquidation_size * PRECISION) {
            Some(PerpDexError::DivisionByZero)
        } else if !proportional_fits(p.collateral, liquidation_size, p.size) {
            Some(PerpDexError::MathOverflow)
        } else if !fits_u64(self.insurance_fund.total_bad_debt_covered + self.bad_debt(liquidation_size, current_price)) {
            Some(PerpDexError::MathOverflow)
        } else {
            None
        }
    }

    /// Liquidates `liquidation_size` of the position at `current_price` at
    /// time `now`, once `current_price` is within the protocol's maximum
    /// oracle deviation of the market's mark price. A position whose loss
    /// exceeds its collateral has value zero and is liquidatable; the
    /// notional not covered by its signed value `collateral + pnl`,
    /// shortfall included, is bad debt. The position loses
    /// that size and the proportional share
    /// of its collateral (and is closed when nothing is left); the
    /// insurance fund pays the bad debt and the liquidator's bonus. The
    /// owner's account and the market are not changed. The bonus is in the
    /// returned `PositionLiquidated` event as `liquidator_reward`; moving
    /// it to the liquidator is up to the caller.
    pub fn execute(&mut self, liquidation_size: u64, current_price: u64, now: i64) -> (r: Result<(PositionLiquidated, InsuranceFundUsed), PerpDexError>)
        ensures
            match r {
                Err(e) => old(self).refusal(liquidation_size, current_price) == Some(e)
                    && final(self).position == old(self).position
                    && final(self).insurance_fund == old(self).insurance_fund
                    && final(self).user_account == old(self).user_account
                    && final(self).market == old(self).market
                    && final(self).protocol_state == old(self).protocol_state
                    && final(self).liquidator == old(self).liquidator,
                Ok((liquidated, used)) => {
                    let s = old(self);
                    let total = s.total_required(liquidation_size, current_price);
                    let bad_debt = s.bad_debt(liquidation_size, current_price);
                    let new_size = s.position.size - liquidation_size;
                    &&& s.refusal(liquidation_size, current_price) is None
                    &&& final(self).position == Position {
                        size: new_size as u64,
                        collateral: (s.position.collateral - s.collateral_liquidated(liquidation_size)) as u64,
                        closed: new_size == 0,
                        last_update: now,
                        ..s.position
                    }
                    &&& final(self).insurance_fund == s.fund_after(liquidation_size, current_price, now)
                    &&& final(self).user_account == s.user_account
                    &&& final(self).market == s.market
                    &&& final(self).protocol_state == s.protocol_state
                    &&& final(self).liquidator == s.liquidator
                    &&& liquidated == PositionLiquidated {
                        user: s.position.user,
                        market: s.position.market,
                        liquidator: s.liquidator,
                        liquidated_size: liquidation_size,
                        liquidation_price: current_price,
                        bad_debt: bad_debt as u64,
                        liquidator_reward: s.bonus(liquidation_size, current_price) as u64,
                        timestamp: now,
                    }
                    &&& used == InsuranceFundUsed {
                        amount: total as u64,
                        remaining_balance: (s.insurance_fund.balance - total) as u64,
                        timestamp: now,
                    }
                },
            },
            r matches Ok((liquidated, _)) ==> {
                let p = old(self).position;
                let value = signed_position_value(p.collateral, p.entry_price, p.size, p.side, current_price);
                let notional = liquidation_size * current_price / (PRECISION as int);
                liquidated.bad_debt == if notional > value { notional - value } else { 0 }
            },
            r is Ok ==> {
                &&& old(self).health(current_price) < old(self).market.liquidation_threshold
                &&& final(self).position.collateral <= old(self).position.collateral
                &&& final(self).insurance_fund.balance + old(self).total_required(liquidation_size, current_price)
                    == old(self).insurance_fund.balance
            },
    {
        if self.position.closed {
            return Err(PerpDexError::PositionNotFound);
        }
        if liquidation_size == 0 {
            return Err(PerpDexError::InvalidOrderSize);
        }
        if current_price == 0 {
            return Err(PerpDexError::InvalidOrderPrice);
        }
        if liquidation_size > self.position.size {
            return Err(PerpDexError::LiquidationSizeExceedsMax);
        }
        let mark = amm_price(self.market.vamm_base_reserve, self.market.vamm_quote_reserve)?;
        if !is_oracle_deviation_acceptable(current_price, mark, self.protocol_state.max_oracle_deviation)? {
            return Err(PerpDexError::OraclePriceDeviationTooLarge);
        }
        let unrealized_pnl = calculate_unrealized_pnl(
            self.position.entry_price,
            current_price,
            self.position.size,
            self.position.is_long(),
        )?;
        let margin_requirement = calculate_margin_requirement(
            self.position.size,
            self.position.entry_price,
            self.position.leverage,
        )?;
        if margin_requirement == 0 {
            return Err(PerpDexError::DivisionByZero);
        }
        let position_value: u64 = if unrealized_pnl < 0 && unsigned_abs(unrealized_pnl) > self.position.collateral {
            0
        } else {
            match add_signed(self.position.collateral, unrealized_pnl) {
                Some(v) => v,
                None => return Err(PerpDexError::MathOverflow),
            }
        };
        let health_factor = calculate_health_factor(position_value, 0, margin_requirement)?;
        if !is_liquidatable(health_factor, self.market.liquidation_threshold) {
            return Err(PerpDexError::PositionNotLiquidatable);
        }
        let liquidation_value = match liquidation_size.checked_mul(current_price) {
            Some(x) => x / PRECISION,
            None => return Err(PerpDexError::MathOverflow),
        };
        let liquidation_bonus = calculate_liquidation_bonus(
            liquidation_size,
            current_price,
            self.market.liquidation_bonus_rate,
        )?;
        let signed_value: i128 = self.position.collateral as i128 + unrealized_pnl as i128;
        let shortfall: i128 = liquidation_value as i128 - signed_value;
        if shortfall > u64::MAX as i128 {
            return Err(PerpDexError::MathOverflow);
        }
        let bad_debt: u64 = if shortfall > 0 { shortfall as u64 } else { 0 };
        let total_required = match bad_debt.checked_add(liquidation_bonus) {
            Some(t) => t,
            None => return Err(PerpDexError::MathOverflow),
        };
        if self.insurance_fund.balance < total_required {
            return Err(PerpDexError::InsufficientInsuranceFund);
        }
        let collateral_to_liquidate = proportional_share(self.position.collateral, liquidation_size, self.position.size)?;
        let total_bad_debt_covered = match self.insurance_fund.total_bad_debt_covered.checked_add(bad_debt) {
            Some(t) => t,
            None => return Err(PerpDexError::MathOverflow),
        };

        let new_size = self.position.size - liquidation_size;
        self.position.size = new_size;
        self.position.collateral = self.position.collateral - collateral_to_liquidate;
        if new_size == 0 {
            self.position.closed = true;
        }
        self.position.last_update = now;

        self.insurance_fund.balance = self.insurance_fund.balance - total_required;
        self.insurance_fund.total_bad_debt_covered = total_bad_debt_covered;
        self.insurance_fund.last_update = now;

        let liquidated = PositionLiquidated {
            user: self.position.user,
            market: self.position.market,
            liquidator: self.liquidator,
            liquidated_size: liquidation_size,
            liquidation_price: current_price,
            bad_debt,
            liquidator_reward: liquidation_bonus,
            timestamp: now,
        };
        let used = InsuranceFundUsed {
            amount: total_required,
            remaining_balance: self.insurance_fund.balance,
            timestamp: now,
        };
        Ok((liquidated, used))
    }
}

} // verus!
