use vstd::prelude::*;

use crate::error::PerpDexError;
use crate::events::{FundingPaymentSettled, FundingRateUpdated};
use crate::instructions::common::{amm_price, amm_price_error, spec_amm_price};
use crate::math::{
    calculate_funding_payment, calculate_funding_rate, calculate_premium_index, fits_i64, fits_signed, fits_u64,
    spec_funding_payment, spec_funding_rate, spec_premium_index, tdiv, to_i64, unsigned_abs, PRECISION,
};
use crate::state::{Address, PerpMarket, Position, User};

verus! {

/// Accounts of a funding rate update; anyone may send it once the next
/// funding time has come.
pub struct UpdateFundingRate {
    /// Whoever sends the update.
    pub updater: Address,
    /// Address of the market account.
    pub market_key: Address,
    /// The market, which must not be paused.
    pub market: PerpMarket,
}

impl UpdateFundingRate {
    /// Mark price of the market.
    pub open spec fn mark_price(&self) -> int {
        spec_amm_price(self.market.vamm_base_reserve, self.market.vamm_quote_reserve)
    }

    /// Premium index of the mark price over `oracle_price`.
    pub open spec fn premium(&self, oracle_price: u64) -> Option<int> {
        spec_premium_index(self.mark_price() as u64, oracle_price)
    }

    /// Funding rate for the premium index, where it is defined.
    pub open spec fn rate(&self, oracle_price: u64) -> Option<int> {
        spec_funding_rate(
            self.premium(oracle_price).unwrap() as i64,
            self.market.funding_rate_sensitivity,
            self.market.max_funding_rate,
        )
    }

    /// The first reason the update is refused, if any.
    pub open spec fn refusal(&self, oracle_price: u64, now: i64) -> Option<PerpDexError> {
        if self.market.paused {
            Some(PerpDexError::MarketPaused)
        } else if oracle_price == 0 {
            Some(PerpDexError::InvalidOrderPrice)
        } else if now < self.market.next_funding_time {
            Some(PerpDexError::FundingRateUpdateTooFrequent)
        } else if amm_price_error(self.market.vamm_base_reserve, self.market.vamm_quote_reserve) is Some {
            amm_price_error(self.market.vamm_base_reserve, self.market.vamm_quote_reserve)
        } else if self.premium(oracle_price) is None || self.rate(oracle_price) is None {
            Some(PerpDexError::MathOverflow)
        } else if !fits_signed(self.market.funding_interval) || !fits_i64(now + self.market.funding_interval) {
            Some(PerpDexError::MathOverflow)
        } else {
            None
        }
    }

    /// Sets the market's premium index and funding rate from the AMM's
    /// mark price and `oracle_price`, at time `now`; the next update may
    /// come one funding interval later (an interval or next time beyond
    /// `i64` is refused with `MathOverflow`).
    pub fn execute(&mut self, oracle_price: u64, now: i64) -> (r: Result<FundingRateUpdated, PerpDexError>)
        ensures
            match r {
                Err(e) => old(self).refusal(oracle_price, now) == Some(e) && final(self).market == old(self).market,
                Ok(updated) => {
                    let s = old(self);
                    let next = now + s.market.funding_interval;
                    &&& s.refusal(oracle_price, now) is None
                    &&& final(self).market == PerpMarket {
                        current_funding_rate: s.rate(oracle_price).unwrap() as i64,
                        premium_index: s.premium(oracle_price).unwrap() as i64,
                        last_funding_update: now,
                        next_funding_time: next as i64,
                        ..s.market
                    }
                    &&& updated == FundingRateUpdated {
                        market: s.market_key,
                        funding_rate: s.rate(oracle_price).unwrap() as i64,
                        premium_index: s.premium(oracle_price).unwrap() as i64,
                        next_funding_time: next as i64,
                        timestamp: now,
                    }
                },
            },
            final(self).updater == old(self).updater,
            final(self).market_key == old(self).market_key,
            r matches Ok(updated) ==> {
                let m = old(self).market;
                let mark: int = m.vamm_quote_reserve * PRECISION / (m.vamm_base_reserve as int);
                let premium = updated.premium_index as int;
                let raw = tdiv(premium * m.funding_rate_sensitivity, PRECISION as int);
                let max = m.max_funding_rate as int;
                &&& premium == tdiv((mark - oracle_price) * PRECISION, oracle_price as int)
                &&& updated.funding_rate == if raw < -max { -max } else if raw > max { max } else { raw }
                &&& mark <= oracle_price ==> updated.funding_rate <= 0
                &&& mark >= oracle_price ==> updated.funding_rate >= 0
            },
    {
        let ghost before = *self;
        if self.market.paused {
            return Err(PerpDexError::MarketPaused);
        }
        if oracle_price == 0 {
            return Err(PerpDexError::InvalidOrderPrice);
        }
        if now < self.market.next_funding_time {
            return Err(PerpDexError::FundingRateUpdateTooFrequent);
        }
        let mark_price = amm_price(self.market.vamm_base_reserve, self.market.vamm_quote_reserve)?;
        let premium_index = calculate_premium_index(mark_price, oracle_price)?;
        let funding_rate = calculate_funding_rate(
            premium_index,
            self.market.funding_rate_sensitivity,
            self.market.max_funding_rate,
        )?;
        let next_funding_time = match to_i64(self.market.funding_interval) {
            Some(interval) => match now.checked_add(interval) {
                Some(t) => t,
                None => return Err(PerpDexError::MathOverflow),
            },
            None => return Err(PerpDexError::MathOverflow),
        };
        proof {
            crate::laws::law_update_rate_follows_premium(before, oracle_price, now);
        }
        self.market.current_funding_rate = funding_rate;
        self.market.premium_index = premium_index;
        self.market.last_funding_update = now;
        self.market.next_funding_time = next_funding_time;
        Ok(FundingRateUpdated {
            market: self.market_key,
            funding_rate,
            premium_index,
            next_funding_time,
            timestamp: now,
        })
    }
}

/// Accounts of settling the funding of a position.
pub struct SettleFundingPayment {
    /// The signing wallet.
    pub user: Address,
    /// The user's account, which pays or receives the funding.
    pub user_account: User,
    /// Address of the market account.
    pub market_key: Address,
    /// The market, whose current funding rate applies.
    pub market: PerpMarket,
    /// The position, which must be open.
    pub position: Position,
}

impl SettleFundingPayment {
    /// Start of the unsettled period: the later of the market's last
    /// funding update and the position's last settlement.
    pub open spec fn settled_until(&self) -> i64 {
        if self.market.last_funding_update >= self.position.last_funding_settlement {
            self.market.last_funding_update
        } else {
            self.position.last_funding_settlement
        }
    }

    /// Seconds not yet settled, zero if none.
    pub open spec fn elapsed(&self, now: i64) -> int {
        if now > self.settled_until() { now - self.settled_until() } else { 0 }
    }

    /// The user's account after settling at time `now`.
    pub open spec fn settled_account(&self, now: i64) -> User {
        User {
            collateral: (self.user_account.collateral - self.payment(now).unwrap()) as u64,
            last_interaction: now,
            ..self.user_account
        }
    }

    /// The position after settling at time `now`.
    pub open spec fn settled_position(&self, now: i64) -> Position {
        Position {
            cumulative_funding_payment: (self.position.cumulative_funding_payment + self.payment(now).unwrap()) as i64,
            last_funding_settlement: now,
            last_update: now,
            ..self.position
        }
    }

    /// Funding owed by the position for the elapsed time, where defined.
    pub open spec fn payment(&self, now: i64) -> Option<int> {
        spec_funding_payment(
            self.market.current_funding_rate,
            self.position.size,
            self.position.spec_is_long(),
            self.elapsed(now) as u64,
            self.market.funding_interval,
        )
    }

    /// The first reason the settlement is refused, if any.
    pub open spec fn refusal(&self, now: i64) -> Option<PerpDexError> {
        let p = self.payment(now).unwrap();
        if self.user_account.owner != self.user {
            Some(PerpDexError::Unauthorized)
        } else if self.position.closed {
            Some(PerpDexError::PositionNotFound)
        } else if self.elapsed(now) == 0 {
            None
        } else if self.payment(now) is None {
            Some(PerpDexError::MathOverflow)
        } else if !fits_i64(self.position.cumulative_funding_payment + p) {
            Some(PerpDexError::MathOverflow)
        } else if p > 0 && self.user_account.collateral < p {
            Some(PerpDexError::InsufficientCollateral)
        } else if p <= 0 && !fits_u64(self.user_account.collateral - p) {
            Some(PerpDexError::MathOverflow)
        } else {
            None
        }
    }

    /// Settles the position's funding at time `now`: the payment for the
    /// time since the later of the market's last funding update and the
    /// position's last settlement is added to the position's cumulative
    /// funding and taken from (or, when negative, paid into) the user's
    /// collateral, and the position is settled up to `now`. Returns `None`,
    /// and changes nothing, when no unsettled time has elapsed, so each
    /// period is settled once.
    pub fn execute(&mut self, now: i64) -> (r: Result<Option<FundingPaymentSettled>, PerpDexError>)
        ensures
            match r {
                Err(e) => old(self).refusal(now) == Some(e)
                    && final(self).user_account == old(self).user_account
                    && final(self).position == old(self).position,
                Ok(None) => old(self).refusal(now) is None && old(self).elapsed(now) == 0
                    && final(self).user_account == old(self).user_account
                    && final(self).position == old(self).position,
                Ok(Some(settled)) => {
                    let s = old(self);
                    let p = s.payment(now).unwrap();
                    &&& s.refusal(now) is None
                    &&& s.elapsed(now) != 0
                    &&& final(self).user_account == s.settled_account(now)
                    &&& final(self).position == s.settled_position(now)
                    &&& settled == FundingPaymentSettled {
                        user: s.user_account.owner,
                        market: s.market_key,
                        payment: p as i64,
                        timestamp: now,
                    }
                },
            },
            final(self).user == old(self).user,
            final(self).market_key == old(self).market_key,
            final(self).market == old(self).market,
            r is Ok ==> {
                let s = old(self);
                let since_update: int = now - s.market.last_funding_update;
                let since_settlement: int = now - s.position.last_funding_settlement;
                let unpaid: int = if since_update <= since_settlement { since_update } else { since_settlement };
                &&& r matches Ok(None) ==> unpaid <= 0
                &&& r matches Ok(Some(settled)) ==> unpaid > 0 && Some(settled.payment as int) == spec_funding_payment(
                    s.market.current_funding_rate,
                    s.position.size,
                    s.position.side == 0,
                    unpaid as u64,
                    s.market.funding_interval,
                )
            },
    {
        if !self.user_account.owner.same_as(&self.user) {
            return Err(PerpDexError::Unauthorized);
        }
        if self.position.closed {
            return Err(PerpDexError::PositionNotFound);
        }
        let settled_until = if self.market.last_funding_update >= self.position.last_funding_settlement {
            self.market.last_funding_update
        } else {
            self.position.last_funding_settlement
        };
        let time_elapsed: u64 = if now > settled_until {
            (now as i128 - settled_until as i128) as u64
        } else {
            0
        };
        if time_elapsed == 0 {
            return Ok(None);
        }
        let funding_payment = calculate_funding_payment(
            self.market.current_funding_rate,
            self.position.size,
            self.position.is_long(),
            time_elapsed,
            self.market.funding_interval,
        )?;
        let cumulative = match self.position.cumulative_funding_payment.checked_add(funding_payment) {
            Some(c) => c,
            None => return Err(PerpDexError::MathOverflow),
        };
        let collateral = if funding_payment > 0 {
            if self.user_account.collateral < funding_payment as u64 {
                return Err(PerpDexError::InsufficientCollateral);
            }
            self.user_account.collateral - funding_payment as u64
        } else {
            match self.user_account.collateral.checked_add(unsigned_abs(funding_payment)) {
                Some(c) => c,
                None => return Err(PerpDexError::MathOverflow),
            }
        };
        self.position.cumulative_funding_payment = cumulative;
        self.user_account.collateral = collateral;
        self.position.last_funding_settlement = now;
        self.position.last_update = now;
        self.user_account.last_interaction = now;
        Ok(Some(FundingPaymentSettled {
            user: self.user_account.owner,
            market: self.market_key,
            payment: funding_payment,
            timestamp: now,
        }))
    }
}

} // verus!
