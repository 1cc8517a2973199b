use vstd::prelude::*;

use crate::error::PerpDexError;
use crate::events::InsuranceFundDeposited;
use crate::math::fits_u64;
use crate::state::{Address, InsuranceFund};

verus! {

/// Accounts of a deposit into the insurance fund; anyone may pay in.
pub struct DepositInsuranceFund {
    /// The signing wallet, which sends the tokens.
    pub payer: Address,
    /// The insurance fund.
    pub insurance_fund: InsuranceFund,
}

impl DepositInsuranceFund {
    /// The fund after a deposit of `amount` at time `now`.
    pub open spec fn deposited(&self, amount: u64, now: i64) -> InsuranceFund {
        InsuranceFund {
            balance: (self.insurance_fund.balance + amount) as u64,
            total_fees_collected: (self.insurance_fund.total_fees_collected + amount) as u64,
            last_update: now,
            ..self.insurance_fund
        }
    }

    /// The first reason the deposit is refused, if any.
    pub open spec fn refusal(&self, amount: u64) -> Option<PerpDexError> {
        if amount == 0 {
            Some(PerpDexError::InvalidOrderSize)
        } else if !fits_u64(self.insurance_fund.balance + amount) {
            Some(PerpDexError::MathOverflow)
        } else if !fits_u64(self.insurance_fund.total_fees_collected + amount) {
            Some(PerpDexError::MathOverflow)
        } else {
            None
        }
    }

    /// Adds `amount` to the fund's balance and to its collected fees, at
    /// time `now`. Moving the tokens is up to the caller.
    pub fn execute(&mut self, amount: u64, now: i64) -> (r: Result<InsuranceFundDeposited, PerpDexError>)
        ensures
            match r {
                Err(e) => old(self).refusal(amount) == Some(e) && final(self).insurance_fund == old(self).insurance_fund,
                Ok(deposited) => {
                    let f = old(self).insurance_fund;
                    &&& old(self).refusal(amount) is None
                    &&& final(self).insurance_fund == old(self).deposited(amount, now)
                    &&& deposited == InsuranceFundDeposited {
                        amount,
                        new_balance: (f.balance + amount) as u64,
                        timestamp: now,
                    }
                },
            },
            final(self).payer == old(self).payer,
    {
        if amount == 0 {
            return Err(PerpDexError::InvalidOrderSize);
        }
        let balance = match self.insurance_fund.balance.checked_add(amount) {
            Some(b) => b,
            None => return Err(PerpDexError::MathOverflow),
        };
        let total_fees_collected = match self.insurance_fund.total_fees_collected.checked_add(amount) {
            Some(t) => t,
            None => return Err(PerpDexError::MathOverflow),
        };
        self.insurance_fund.balance = balance;
        self.insurance_fund.total_fees_collected = total_fees_collected;
        self.insurance_fund.last_update = now;
        Ok(InsuranceFundDeposited { amount, new_balance: balance, timestamp: now })
    }
}

} // verus!
