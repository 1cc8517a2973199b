use vstd::prelude::*;

use crate::state::{Address, InsuranceFund, ProtocolState};

verus! {

/// Default maker fee rate: 0.1%.
pub const DEFAULT_MAKER_FEE_RATE: u64 = 1_000;

/// Default taker fee rate: 0.2%.
pub const DEFAULT_TAKER_FEE_RATE: u64 = 2_000;

/// Default liquidation threshold: a health factor of 80%.
pub const DEFAULT_LIQUIDATION_THRESHOLD: u64 = 800_000;

/// Default liquidation bonus rate: 5%.
pub const DEFAULT_LIQUIDATION_BONUS_RATE: u64 = 50_000;

/// Default funding interval: one hour.
pub const DEFAULT_FUNDING_INTERVAL: u64 = 3600;

/// Default maximum funding rate: 1% per interval.
pub const DEFAULT_MAX_FUNDING_RATE: u64 = 10_000;

/// Default funding rate sensitivity: 10%.
pub const DEFAULT_FUNDING_RATE_SENSITIVITY: u64 = 100_000;

/// Default maximum oracle staleness: 60 seconds.
pub const DEFAULT_MAX_ORACLE_STALENESS: u64 = 60;

/// Default maximum oracle deviation: 5%.
pub const DEFAULT_MAX_ORACLE_DEVIATION: u64 = 50_000;

/// Accounts of setting up the protocol.
pub struct InitializeProtocol {
    /// The signing wallet, which becomes the admin.
    pub admin: Address,
    /// Address of the insurance fund account.
    pub insurance_fund: Address,
}

impl InitializeProtocol {
    /// The insurance fund as set up at time `now`: empty.
    pub open spec fn initial_fund(now: i64, insurance_fund_bump: u8) -> InsuranceFund {
        InsuranceFund {
            balance: 0,
            total_fees_collected: 0,
            total_bad_debt_covered: 0,
            last_update: now,
            bump: insurance_fund_bump,
        }
    }

    /// The protocol configuration with its defaults and an empty insurance
    /// fund, at time `now`, with the given address bumps.
    pub fn execute(&self, now: i64, protocol_state_bump: u8, insurance_fund_bump: u8) -> (r: (ProtocolState, InsuranceFund))
        ensures
            r.0 == (ProtocolState {
                admin: self.admin,
                insurance_fund: self.insurance_fund,
                default_maker_fee_rate: DEFAULT_MAKER_FEE_RATE,
                default_taker_fee_rate: DEFAULT_TAKER_FEE_RATE,
                default_liquidation_threshold: DEFAULT_LIQUIDATION_THRESHOLD,
                default_liquidation_bonus_rate: DEFAULT_LIQUIDATION_BONUS_RATE,
                default_funding_interval: DEFAULT_FUNDING_INTERVAL,
                default_max_funding_rate: DEFAULT_MAX_FUNDING_RATE,
                default_funding_rate_sensitivity: DEFAULT_FUNDING_RATE_SENSITIVITY,
                max_oracle_staleness: DEFAULT_MAX_ORACLE_STALENESS,
                max_oracle_deviation: DEFAULT_MAX_ORACLE_DEVIATION,
                paused: false,
                bump: protocol_state_bump,
            }),
            r.1 == Self::initial_fund(now, insurance_fund_bump),
    {
        let protocol_state = ProtocolState {
            admin: self.admin,
            insurance_fund: self.insurance_fund,
            default_maker_fee_rate: DEFAULT_MAKER_FEE_RATE,
            default_taker_fee_rate: DEFAULT_TAKER_FEE_RATE,
            default_liquidation_threshold: DEFAULT_LIQUIDATION_THRESHOLD,
            default_liquidation_bonus_rate: DEFAULT_LIQUIDATION_BONUS_RATE,
            default_funding_interval: DEFAULT_FUNDING_INTERVAL,
            default_max_funding_rate: DEFAULT_MAX_FUNDING_RATE,
            default_funding_rate_sensitivity: DEFAULT_FUNDING_RATE_SENSITIVITY,
            max_oracle_staleness: DEFAULT_MAX_ORACLE_STALENESS,
            max_oracle_deviation: DEFAULT_MAX_ORACLE_DEVIATION,
            paused: false,
            bump: protocol_state_bump,
        };
        let insurance_fund = InsuranceFund {
            balance: 0,
            total_fees_collected: 0,
            total_bad_debt_covered: 0,
            last_update: now,
            bump: insurance_fund_bump,
        };
        (protocol_state, insurance_fund)
    }
}

} // verus!
