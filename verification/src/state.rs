use vstd::prelude::*;

verus! {

/// A 32-byte account address (a wallet, a program account, an oracle feed).
#[derive(Clone, Copy, Debug, PartialEq, Eq, Default)]
pub struct Address(pub [u8; 32]);

impl Address {
    /// Byte-wise comparison of two addresses.
    pub fn same_as(&self, other: &Address) -> (r: bool)
        ensures
            r == (*self == *other),
    {
        let mut i: usize = 0;
        while i < 32
            invariant
                i <= 32,
                forall|j: int| 0 <= j < i ==> self.0[j] == other.0[j],
            decreases 32 - i,
        {
            if self.0[i] != other.0[i] {
                return false;
            }
            i = i + 1;
        }
        proof {
            assert(self.0@ =~= other.0@);
            vstd::array::axiom_array_ext_equal(self.0, other.0);
        }
        true
    }
}

/// Global protocol configuration and its admin.
#[derive(Clone, Copy, Debug, PartialEq, Eq, Default)]
pub struct ProtocolState {
    /// Protocol admin (may create and configure markets).
    pub admin: Address,
    /// Address of the insurance fund account.
    pub insurance_fund: Address,
    /// Default maker fee rate, in `PRECISION` units.
    pub default_maker_fee_rate: u64,
    /// Default taker fee rate, in `PRECISION` units.
    pub default_taker_fee_rate: u64,
    /// Default liquidation threshold, in `PRECISION` units.
    pub default_liquidation_threshold: u64,
    /// Default liquidation bonus rate, in `PRECISION` units.
    pub default_liquidation_bonus_rate: u64,
    /// Default funding interval, in seconds.
    pub default_funding_interval: u64,
    /// Default maximum funding rate per interval, in `PRECISION` units.
    pub default_max_funding_rate: u64,
    /// Default funding rate sensitivity, in `PRECISION` units.
    pub default_funding_rate_sensitivity: u64,
    /// Maximum oracle staleness, in seconds.
    pub max_oracle_staleness: u64,
    /// Maximum oracle price deviation, in `PRECISION` units.
    pub max_oracle_deviation: u64,
    /// Whether the protocol is paused.
    pub paused: bool,
    /// Bump seed of the account address.
    pub bump: u8,
}

impl ProtocolState {
    /// Size of the stored account, discriminator included.
    pub const LEN: usize = 8 + 32 + 32 + 8 + 8 + 8 + 8 + 8 + 8 + 8 + 8 + 8 + 1 + 1;
}

/// Configuration, funding state and virtual AMM reserves of one market.
#[derive(Clone, Debug, PartialEq, Eq)]
pub struct PerpMarket {
    /// Market identifier.
    pub market_id: u64,
    /// Base asset symbol (such as "SOL").
    pub base_asset: String,
    /// Quote asset symbol (such as "USDC").
    pub quote_asset: String,
    /// Oracle price feed address.
    pub oracle: Address,
    /// Maximum leverage allowed (20 means 20x).
    pub max_leverage: u8,
    /// Maker fee rate, in `PRECISION` units.
    pub maker_fee_rate: u64,
    /// Taker fee rate, in `PRECISION` units.
    pub taker_fee_rate: u64,
    /// Liquidation threshold, in `PRECISION` units.
    pub liquidation_threshold: u64,
    /// Liquidation bonus rate, in `PRECISION` units.
    pub liquidation_bonus_rate: u64,
    /// Funding interval, in seconds.
    pub funding_interval: u64,
    /// Maximum funding rate per interval, in `PRECISION` units.
    pub max_funding_rate: u64,
    /// Funding rate sensitivity, in `PRECISION` units.
    pub funding_rate_sensitivity: u64,
    /// Current funding rate, in `PRECISION` units.
    pub current_funding_rate: i64,
    /// Premium index of the last funding update, in `PRECISION` units.
    pub premium_index: i64,
    /// Time of the last funding update.
    pub last_funding_update: i64,
    /// Earliest time of the next funding update.
    pub next_funding_time: i64,
    /// Virtual AMM base reserve.
    pub vamm_base_reserve: u64,
    /// Virtual AMM quote reserve.
    pub vamm_quote_reserve: u64,
    /// Virtual AMM invariant `k = base * quote`, wide enough for any two
    /// `u64` reserves.
    pub vamm_k: u128,
    /// Whether the market is paused.
    pub paused: bool,
    /// Bump seed of the account address.
    pub bump: u8,
}

impl PerpMarket {
    /// Size of the stored account, discriminator included.
    pub const LEN: usize = 8 + 8 + 32 + 32 + 32 + 1 + 8 + 8 + 8 + 8 + 8 + 8 + 8 + 8 + 8 + 8 + 8 + 8 + 8 + 16 + 1 + 1;
}

/// A trader's account: collateral and counters.
#[derive(Clone, Copy, Debug, PartialEq, Eq, Default)]
pub struct User {
    /// Wallet that owns the account.
    pub owner: Address,
    /// Free collateral, in quote units.
    pub collateral: u64,
    /// Number of positions opened.
    pub position_count: u64,
    /// Number of open orders.
    pub order_count: u64,
    /// Time of the last interaction.
    pub last_interaction: i64,
    /// Bump seed of the account address.
    pub bump: u8,
}

impl User {
    /// Size of the stored account, discriminator included.
    pub const LEN: usize = 8 + 32 + 8 + 8 + 8 + 8 + 1;
}

/// A user's position in one market, with its isolated collateral.
#[derive(Clone, Copy, Debug, PartialEq, Eq, Default)]
pub struct Position {
    /// Owner of the position.
    pub user: Address,
    /// Market of the position.
    pub market: Address,
    /// 0 for long, 1 for short.
    pub side: u8,
    /// Size in base units.
    pub size: u64,
    /// Entry price, in quote units per base unit with `PRECISION`.
    pub entry_price: u64,
    /// Leverage used.
    pub leverage: u8,
    /// Collateral held by the position.
    pub collateral: u64,
    /// Unrealized profit as last computed.
    pub unrealized_pnl: i64,
    /// Sum of the funding payments settled.
    pub cumulative_funding_payment: i64,
    /// Time up to which the position's funding is settled.
    pub last_funding_settlement: i64,
    /// Time of the last update.
    pub last_update: i64,
    /// Whether the position is closed.
    pub closed: bool,
    /// Bump seed of the account address.
    pub bump: u8,
}

impl Position {
    /// Size of the stored account, discriminator included.
    pub const LEN: usize = 8 + 32 + 32 + 1 + 8 + 8 + 1 + 8 + 8 + 8 + 8 + 8 + 1 + 1;

    /// Side 0 is long.
    pub open spec fn spec_is_long(&self) -> bool {
        self.side == 0
    }

    /// Whether the position is long.
    #[verifier::when_used_as_spec(spec_is_long)]
    pub fn is_long(&self) -> (r: bool)
        ensures
            r == (self.side == 0),
    {
        self.side == 0
    }

    /// Whether the position is short.
    pub fn is_short(&self) -> (r: bool)
        ensures
            r == (self.side == 1),
    {
        self.side == 1
    }
}

/// An order of a user in one market.
#[derive(Clone, Copy, Debug, PartialEq, Eq, Default)]
pub struct Order {
    /// Owner of the order.
    pub user: Address,
    /// Market of the order.
    pub market: Address,
    /// Order identifier, unique per user.
    pub order_id: u64,
    /// 0 for long (buy), 1 for short (sell).
    pub side: u8,
    /// 0 for a market order, 1 for a limit order.
    pub order_type: u8,
    /// Size in base units.
    pub size: u64,
    /// Size filled so far, in base units.
    pub filled_size: u64,
    /// Quote exchanged by the fills so far.
    pub filled_quote: u64,
    /// Limit price (0 for a market order).
    pub price: u64,
    /// 0 open, 1 filled, 2 cancelled.
    pub status: u8,
    /// Creation time.
    pub created_at: i64,
    /// Time of the last update.
    pub updated_at: i64,
    /// Bump seed of the account address.
    pub bump: u8,
}

impl Order {
    /// Size of the stored account, discriminator included.
    pub const LEN: usize = 8 + 32 + 32 + 8 + 1 + 1 + 8 + 8 + 8 + 8 + 1 + 8 + 8 + 1;

    /// Side 0 is long.
    pub open spec fn spec_is_long(&self) -> bool {
        self.side == 0
    }

    /// Side 1 is short.
    pub open spec fn spec_is_short(&self) -> bool {
        self.side == 1
    }

    /// Type 1 is a limit order.
    pub open spec fn spec_is_limit(&self) -> bool {
        self.order_type == 1
    }

    /// Status 0 is open.
    pub open spec fn spec_is_open(&self) -> bool {
        self.status == 0
    }

    /// What is left to fill, zero where more than the size was filled.
    pub open spec fn spec_remaining_size(&self) -> u64 {
        if self.filled_size <= self.size { (self.size - self.filled_size) as u64 } else { 0 }
    }

    /// An order never has more filled than its size, and an open order
    /// still has something left to fill.
    pub open spec fn spec_consistent(&self) -> bool {
        &&& self.filled_size <= self.size
        &&& self.status == 0 ==> self.filled_size < self.size
    }

    /// Average price of the fills so far, `filled_quote * PRECISION /
    /// filled_size`, with `PRECISION`.
    pub open spec fn spec_fill_price(&self) -> int {
        self.filled_quote * crate::math::PRECISION / (self.filled_size as int)
    }

    /// Whether the order buys.
    #[verifier::when_used_as_spec(spec_is_long)]
    pub fn is_long(&self) -> (r: bool)
        ensures
            r == (self.side == 0),
    {
        self.side == 0
    }

    /// Whether the order sells.
    #[verifier::when_used_as_spec(spec_is_short)]
    pub fn is_short(&self) -> (r: bool)
        ensures
            r == (self.side == 1),
    {
        self.side == 1
    }

    /// Whether the order is a market order.
    pub fn is_market(&self) -> (r: bool)
        ensures
            r == (self.order_type == 0),
    {
        self.order_type == 0
    }

    /// Whether the order is a limit order.
    #[verifier::when_used_as_spec(spec_is_limit)]
    pub fn is_limit(&self) -> (r: bool)
        ensures
            r == (self.order_type == 1),
    {
        self.order_type == 1
    }

    /// Whether the order is open.
    #[verifier::when_used_as_spec(spec_is_open)]
    pub fn is_open(&self) -> (r: bool)
        ensures
            r == (self.status == 0),
    {
        self.status == 0
    }

    /// Whether the order is filled.
    pub fn is_filled(&self) -> (r: bool)
        ensures
            r == (self.status == 1),
    {
        self.status == 1
    }

    /// Whether the order is cancelled.
    pub fn is_cancelled(&self) -> (r: bool)
        ensures
            r == (self.status == 2),
    {
        self.status == 2
    }

    /// Size left to fill: `size - filled_size`, saturating at zero.
    #[verifier::when_used_as_spec(spec_remaining_size)]
    pub fn remaining_size(&self) -> (r: u64)
        ensures
            r == self.spec_remaining_size(),
    {
        self.size.saturating_sub(self.filled_size)
    }
}

/// The insurance fund: collects fees and covers bad debt and liquidator
/// bonuses.
#[derive(Clone, Copy, Debug, PartialEq, Eq, Default)]
pub struct InsuranceFund {
    /// Balance, in quote units.
    pub balance: u64,
    /// Sum of all deposits.
    pub total_fees_collected: u64,
    /// Sum of all bad debt covered.
    pub total_bad_debt_covered: u64,
    /// Time of the last update.
    pub last_update: i64,
    /// Bump seed of the account address.
    pub bump: u8,
}

impl InsuranceFund {
    /// Size of the stored account, discriminator included.
    pub const LEN: usize = 8 + 8 + 8 + 8 + 8 + 1;
}

} // verus!
