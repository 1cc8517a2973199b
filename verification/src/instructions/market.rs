use vstd::prelude::*;

use crate::error::PerpDexError;
use crate::events::MarketCreated;
use crate::math::{fits_i64, fits_signed, to_i64, wide_product};
use crate::state::{Address, PerpMarket, ProtocolState};

verus! {

/// Highest maximum leverage a market may be configured with.
pub const MAX_MARKET_LEVERAGE: u8 = 50;

/// Highest maker or taker fee rate a market may be configured with (1%).
pub const MAX_FEE_RATE: u64 = 10_000;

/// Accounts of creating a market: only the protocol admin may, and not
/// while the protocol is paused.
pub struct CreatePerpMarket {
    /// The signing wallet.
    pub admin: Address,
    /// The protocol configuration, whose defaults the market takes.
    pub protocol_state: ProtocolState,
    /// Oracle price feed of the market.
    pub oracle: Address,
    /// Address of the new market account.
    pub market_key: Address,
}

impl CreatePerpMarket {
    /// The first reason creating the market is refused, if any.
    pub open spec fn refusal(&self, max_leverage: u8, initial_base_reserve: u64, initial_quote_reserve: u64, now: i64) -> Option<PerpDexError> {
        if self.protocol_state.admin != self.admin {
            Some(PerpDexError::Unauthorized)
        } else if self.protocol_state.paused {
            Some(PerpDexError::MarketPaused)
        } else if max_leverage == 0 || max_leverage > MAX_MARKET_LEVERAGE {
            Some(PerpDexError::InvalidMarketConfig)
        } else if initial_base_reserve == 0 || initial_quote_reserve == 0 {
            Some(PerpDexError::InvalidAMMParameters)
        } else if !fits_signed(self.protocol_state.default_funding_interval)
            || !fits_i64(now + self.protocol_state.default_funding_interval) {
            Some(PerpDexError::MathOverflow)
        } else {
            None
        }
    }

    /// Creates a market at time `now`: fees, liquidation and funding
    /// parameters come from the protocol defaults, funding starts at zero
    /// and is first due one funding interval later, and the virtual AMM
    /// starts with the given reserves and `k = base * quote`. A funding
    /// interval or next funding time beyond `i64` is refused with
    /// `MathOverflow`. Returns the
    /// new market account (with address bump `bump`) and the event.
    pub fn execute(
        &self,
        market_id: u64,
        base_asset: String,
        quote_asset: String,
        max_leverage: u8,
        initial_base_reserve: u64,
        initial_quote_reserve: u64,
        now: i64,
        bump: u8,
    ) -> (r: Result<(PerpMarket, MarketCreated), PerpDexError>)
        ensures
            match r {
                Err(e) => self.refusal(max_leverage, initial_base_reserve, initial_quote_reserve, now) == Some(e),
                Ok((market, created)) => {
                    let ps = self.protocol_state;
                    &&& self.refusal(max_leverage, initial_base_reserve, initial_quote_reserve, now) is None
                    &&& market == PerpMarket {
                        market_id,
                        base_asset,
                        quote_asset,
                        oracle: self.oracle,
                        max_leverage,
                        maker_fee_rate: ps.default_maker_fee_rate,
                        taker_fee_rate: ps.default_taker_fee_rate,
                        liquidation_threshold: ps.default_liquidation_threshold,
                        liquidation_bonus_rate: ps.default_liquidation_bonus_rate,
                        funding_interval: ps.default_funding_interval,
                        max_funding_rate: ps.default_max_funding_rate,
                        funding_rate_sensitivity: ps.default_funding_rate_sensitivity,
                        current_funding_rate: 0,
                        premium_index: 0,
                        last_funding_update: now,
                        next_funding_time: (now + ps.default_funding_interval) as i64,
                        vamm_base_reserve: initial_base_reserve,
                        vamm_quote_reserve: initial_quote_reserve,
                        vamm_k: (initial_base_reserve * initial_quote_reserve) as u128,
                        paused: false,
                        bump,
                    }
                    &&& created == MarketCreated {
                        market: self.market_key,
                        base_asset,
                        quote_asset,
                        oracle: self.oracle,
                        max_leverage,
                        timestamp: now,
                    }
                },
            },
    {
        if !self.protocol_state.admin.same_as(&self.admin) {
            return Err(PerpDexError::Unauthorized);
        }
        if self.protocol_state.paused {
            return Err(PerpDexError::MarketPaused);
        }
        if !(max_leverage > 0 && max_leverage <= MAX_MARKET_LEVERAGE) {
            return Err(PerpDexError::InvalidMarketConfig);
        }
        if !(initial_base_reserve > 0 && initial_quote_reserve > 0) {
            return Err(PerpDexError::InvalidAMMParameters);
        }
        let ps = &self.protocol_state;
        let next_funding_time = match to_i64(ps.default_funding_interval) {
            Some(interval) => match now.checked_add(interval) {
                Some(t) => t,
                None => return Err(PerpDexError::MathOverflow),
            },
            None => return Err(PerpDexError::MathOverflow),
        };
        let vamm_k: u128 = wide_product(initial_base_reserve, initial_quote_reserve);
        let created = MarketCreated {
            market: self.market_key,
            base_asset: base_asset.clone(),
            quote_asset: quote_asset.clone(),
            oracle: self.oracle,
            max_leverage,
            timestamp: now,
        };
        let market = PerpMarket {
            market_id,
            base_asset,
            quote_asset,
            oracle: self.oracle,
            max_leverage,
            maker_fee_rate: ps.default_maker_fee_rate,
            taker_fee_rate: ps.default_taker_fee_rate,
            liquidation_threshold: ps.default_liquidation_threshold,
            liquidation_bonus_rate: ps.default_liquidation_bonus_rate,
            funding_interval: ps.default_funding_interval,
            max_funding_rate: ps.default_max_funding_rate,
            funding_rate_sensitivity: ps.default_funding_rate_sensitivity,
            current_funding_rate: 0,
            premium_index: 0,
            last_funding_update: now,
            next_funding_time,
            vamm_base_reserve: initial_base_reserve,
            vamm_quote_reserve: initial_quote_reserve,
            vamm_k,
            paused: false,
            bump,
        };
        Ok((market, created))
    }
}

/// Accounts of changing a market's configuration: only the protocol admin
/// may.
pub struct UpdateMarketConfig {
    /// The signing wallet.
    pub admin: Address,
    /// The protocol configuration.
    pub protocol_state: ProtocolState,
    /// The market being configured.
    pub market: PerpMarket,
}

impl UpdateMarketConfig {
    /// The first reason the change is refused, if any.
    pub open spec fn refusal(&self, max_leverage: Option<u8>, maker_fee_rate: Option<u64>, taker_fee_rate: Option<u64>) -> Option<PerpDexError> {
        if self.protocol_state.admin != self.admin {
            Some(PerpDexError::Unauthorized)
        } else if max_leverage matches Some(l) && (l == 0 || l > MAX_MARKET_LEVERAGE) {
            Some(PerpDexError::InvalidMarketConfig)
        } else if maker_fee_rate matches Some(f) && f > MAX_FEE_RATE {
            Some(PerpDexError::InvalidMarketConfig)
        } else if taker_fee_rate matches Some(f) && f > MAX_FEE_RATE {
            Some(PerpDexError::InvalidMarketConfig)
        } else {
            None
        }
    }

    /// Sets each configuration value that is given, leaving the others.
    pub fn execute(&mut self, max_leverage: Option<u8>, maker_fee_rate: Option<u64>, taker_fee_rate: Option<u64>, paused: Option<bool>) -> (r: Result<(), PerpDexError>)
        ensures
            match r {
                Err(e) => old(self).refusal(max_leverage, maker_fee_rate, taker_fee_rate) == Some(e)
                    && final(self).market == old(self).market,
                Ok(()) => {
                    let m = old(self).market;
                    &&& old(self).refusal(max_leverage, maker_fee_rate, taker_fee_rate) is None
                    &&& final(self).market == PerpMarket {
                        max_leverage: match max_leverage { Some(l) => l, None => m.max_leverage },
                        maker_fee_rate: match maker_fee_rate { Some(f) => f, None => m.maker_fee_rate },
                        taker_fee_rate: match taker_fee_rate { Some(f) => f, None => m.taker_fee_rate },
                        paused: match paused { Some(p) => p, None => m.paused },
                        ..m
                    }
                },
            },
            final(self).admin == old(self).admin,
            final(self).protocol_state == old(self).protocol_state,
    {
        if !self.protocol_state.admin.same_as(&self.admin) {
            return Err(PerpDexError::Unauthorized);
        }
        if let Some(leverage) = max_leverage {
            if !(leverage > 0 && leverage <= MAX_MARKET_LEVERAGE) {
                return Err(PerpDexError::InvalidMarketConfig);
            }
        }
        if let Some(fee_rate) = maker_fee_rate {
            if fee_rate > MAX_FEE_RATE {
                return Err(PerpDexError::InvalidMarketConfig);
            }
        }
        if let Some(fee_rate) = taker_fee_rate {
            if fee_rate > MAX_FEE_RATE {
                return Err(PerpDexError::InvalidMarketConfig);
            }
        }
        if let Some(leverage) = max_leverage {
            self.market.max_leverage = leverage;
        }
        if let Some(fee_rate) = maker_fee_rate {
            self.market.maker_fee_rate = fee_rate;
        }
        if let Some(fee_rate) = taker_fee_rate {
            self.market.taker_fee_rate = fee_rate;
        }
        if let Some(pause) = paused {
            self.market.paused = pause;
        }
        Ok(())
    }
}

} // verus!
