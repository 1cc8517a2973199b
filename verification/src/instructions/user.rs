use vstd::prelude::*;

use crate::error::PerpDexError;
use crate::events::{CollateralDeposited, CollateralWithdrawn};
use crate::math::fits_u64;
use crate::state::{Address, ProtocolState, User};

verus! {

/// Accounts of creating a user's account.
pub struct InitializeUser {
    /// The signing wallet, which becomes the owner.
    pub user: Address,
}

impl InitializeUser {
    /// The new account at time `now`, with address bump `bump`: owned by
    /// the signer, no collateral, no positions, no orders.
    pub fn execute(&self, now: i64, bump: u8) -> (account: User)
        ensures
            account == (User {
                owner: self.user,
                collateral: 0,
                position_count: 0,
                order_count: 0,
                last_interaction: now,
                bump,
            }),
    {
        User { owner: self.user, collateral: 0, position_count: 0, order_count: 0, last_interaction: now, bump }
    }
}

/// Accounts of depositing collateral.
pub struct DepositCollateral {
    /// The signing wallet, which sends the tokens.
    pub user: Address,
    /// The account credited; its address is derived from the signing
    /// wallet, so its owner must be that wallet.
    pub user_account: User,
}

impl DepositCollateral {
    /// The account after a deposit of `amount` at time `now`.
    pub open spec fn credited(&self, amount: u64, now: i64) -> User {
        User { collateral: (self.user_account.collateral + amount) as u64, last_interaction: now, ..self.user_account }
    }

    /// The first reason the deposit is refused, if any.
    pub open spec fn refusal(&self, amount: u64) -> Option<PerpDexError> {
        if self.user_account.owner != self.user {
            Some(PerpDexError::Unauthorized)
        } else if amount == 0 {
            Some(PerpDexError::InvalidOrderSize)
        } else if !fits_u64(self.user_account.collateral + amount) {
            Some(PerpDexError::MathOverflow)
        } else {
            None
        }
    }

    /// Credits `amount` of collateral at time `now`. Moving the tokens
    /// into the vault is up to the caller.
    pub fn execute(&mut self, amount: u64, now: i64) -> (r: Result<CollateralDeposited, PerpDexError>)
        ensures
            match r {
                Err(e) => old(self).refusal(amount) == Some(e) && final(self).user_account == old(self).user_account,
                Ok(deposited) => {
                    let new_balance = old(self).user_account.collateral + amount;
                    &&& old(self).refusal(amount) is None
                    &&& final(self).user_account == old(self).credited(amount, now)
                    &&& deposited == CollateralDeposited {
                        user: old(self).user_account.owner,
                        amount,
                        new_balance: new_balance as u64,
                        timestamp: now,
                    }
                },
            },
            final(self).user == old(self).user,
    {
        if !self.user_account.owner.same_as(&self.user) {
            return Err(PerpDexError::Unauthorized);
        }
        if amount == 0 {
            return Err(PerpDexError::InvalidOrderSize);
        }
        let new_balance = match self.user_account.collateral.checked_add(amount) {
            Some(b) => b,
            None => return Err(PerpDexError::MathOverflow),
        };
        self.user_account.collateral = new_balance;
        self.user_account.last_interaction = now;
        Ok(CollateralDeposited { user: self.user_account.owner, amount, new_balance, timestamp: now })
    }
}

/// Accounts of withdrawing collateral: only the account's owner may, and
/// not while the protocol is paused.
pub struct WithdrawCollateral {
    /// The signing wallet, which receives the tokens.
    pub user: Address,
    /// The account debited.
    pub user_account: User,
    /// The protocol configuration, which decides whether withdrawals are
    /// allowed (not while paused) and is the vault's authority.
    pub protocol_state: ProtocolState,
}

impl WithdrawCollateral {
    /// The account after a withdrawal of `amount` at time `now`.
    pub open spec fn debited(&self, amount: u64, now: i64) -> User {
        User { collateral: (self.user_account.collateral - amount) as u64, last_interaction: now, ..self.user_account }
    }

    /// The first reason the withdrawal is refused, if any.
    pub open spec fn refusal(&self, amount: u64) -> Option<PerpDexError> {
        if self.user_account.owner != self.user {
            Some(PerpDexError::Unauthorized)
        } else if self.protocol_state.paused {
            Some(PerpDexError::OperationNotAllowed)
        } else if amount == 0 {
            Some(PerpDexError::InvalidOrderSize)
        } else if self.user_account.collateral < amount {
            Some(PerpDexError::InsufficientCollateral)
        } else {
            None
        }
    }

    /// Debits `amount` of collateral at time `now`. Moving the tokens out
    /// of the vault is up to the caller.
    pub fn execute(&mut self, amount: u64, now: i64) -> (r: Result<CollateralWithdrawn, PerpDexError>)
        ensures
            match r {
                Err(e) => old(self).refusal(amount) == Some(e) && final(self).user_account == old(self).user_account,
                Ok(withdrawn) => {
                    let new_balance = old(self).user_account.collateral - amount;
                    &&& old(self).refusal(amount) is None
                    &&& final(self).user_account == old(self).debited(amount, now)
                    &&& withdrawn == CollateralWithdrawn {
                        user: old(self).user_account.owner,
                        amount,
                        new_balance: new_balance as u64,
                        timestamp: now,
                    }
                },
            },
            final(self).user == old(self).user,
            final(self).protocol_state == old(self).protocol_state,
    {
        if !self.user_account.owner.same_as(&self.user) {
            return Err(PerpDexError::Unauthorized);
        }
        if self.protocol_state.paused {
            return Err(PerpDexError::OperationNotAllowed);
        }
        if amount == 0 {
            return Err(PerpDexError::InvalidOrderSize);
        }
        if self.user_account.collateral < amount {
            return Err(PerpDexError::InsufficientCollateral);
        }
        let new_balance = self.user_account.collateral - amount;
        self.user_account.collateral = new_balance;
        self.user_account.last_interaction = now;
        Ok(CollateralWithdrawn { user: self.user_account.owner, amount, new_balance, timestamp: now })
    }
}

} // verus!
