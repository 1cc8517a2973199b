use vstd::prelude::*;

use crate::state::Address;

verus! {
/// A new perpetual market was created.
#[derive(Clone, Debug, PartialEq, Eq)]
pub struct MarketCreated {
    pub market: Address,
    pub base_asset: String,
    pub quote_asset: String,
    pub oracle: Address,
    pub max_leverage: u8,
    pub timestamp: i64,
}

/// A user placed an order.
#[derive(Clone, Copy, Debug, PartialEq, Eq)]
pub struct OrderPlaced {
    pub user: Address,
    pub market: Address,
    pub order_id: u64,
    pub side: OrderSide,
    pub order_type: OrderType,
    pub size: u64,
    pub price: u64,
    pub timestamp: i64,
}

/// An order was filled, fully or in part.
#[derive(Clone, Copy, Debug, PartialEq, Eq)]
pub struct OrderFilled {
    pub user: Address,
    pub market: Address,
    pub order_id: u64,
    pub filled_size: u64,
    pub filled_price: u64,
    pub remaining_size: u64,
    pub timestamp: i64,
}

/// An order was cancelled.
#[derive(Clone, Copy, Debug, PartialEq, Eq)]
pub struct OrderCancelled {
    pub user: Address,
    pub market: Address,
    pub order_id: u64,
    pub cancelled_size: u64,
    pub timestamp: i64,
}

/// A position was opened.
#[derive(Clone, Copy, Debug, PartialEq, Eq)]
pub struct PositionOpened {
    pub user: Address,
    pub market: Address,
    pub side: PositionSide,
    pub size: u64,
    pub entry_price: u64,
    pub leverage: u8,
    pub collateral: u64,
    pub timestamp: i64,
}

/// A position was closed, fully or in part.
#[derive(Clone, Copy, Debug, PartialEq, Eq)]
pub struct PositionClosed {
    pub user: Address,
    pub market: Address,
    pub size: u64,
    pub exit_price: u64,
    pub pnl: i64,
    pub timestamp: i64,
}

/// The funding rate of a market was updated.
#[derive(Clone, Copy, Debug, PartialEq, Eq)]
pub struct FundingRateUpdated {
    pub market: Address,
    pub funding_rate: i64,
    pub premium_index: i64,
    pub next_funding_time: i64,
    pub timestamp: i64,
}

/// A funding payment was settled for a position.
#[derive(Clone, Copy, Debug, PartialEq, Eq)]
pub struct FundingPaymentSettled {
    pub user: Address,
    pub market: Address,
    pub payment: i64,
    pub timestamp: i64,
}

/// A position was liquidated.
#[derive(Clone, Copy, Debug, PartialEq, Eq)]
pub struct PositionLiquidated {
    pub user: Address,
    pub market: Address,
    pub liquidator: Address,
    pub liquidated_size: u64,
    pub liquidation_price: u64,
    pub bad_debt: u64,
    pub liquidator_reward: u64,
    pub timestamp: i64,
}

/// Profit or loss was realized.
#[derive(Clone, Copy, Debug, PartialEq, Eq)]
pub struct PnLSettled {
    pub user: Address,
    pub market: Address,
    pub realized_pnl: i64,
    pub timestamp: i64,
}

/// Collateral was deposited.
#[derive(Clone, Copy, Debug, PartialEq, Eq)]
pub struct CollateralDeposited {
    pub user: Address,
    pub amount: u64,
    pub new_balance: u64,
    pub timestamp: i64,
}

/// Collateral was withdrawn.
#[derive(Clone, Copy, Debug, PartialEq, Eq)]
pub struct CollateralWithdrawn {
    pub user: Address,
    pub amount: u64,
    pub new_balance: u64,
    pub timestamp: i64,
}

/// The insurance fund received a deposit.
#[derive(Clone, Copy, Debug, PartialEq, Eq)]
pub struct InsuranceFundDeposited {
    pub amount: u64,
    pub new_balance: u64,
    pub timestamp: i64,
}

/// The insurance fund paid for a liquidation.
#[derive(Clone, Copy, Debug, PartialEq, Eq)]
pub struct InsuranceFundUsed {
    pub amount: u64,
    pub remaining_balance: u64,
    pub timestamp: i64,
}

/// Side of an order.
#[derive(Clone, Copy, Debug, PartialEq, Eq)]
pub enum OrderSide {
    Long,
    Short,
}

/// Kind of an order.
#[derive(Clone, Copy, Debug, PartialEq, Eq)]
pub enum OrderType {
    Market,
    Limit,
}

/// Side of a position.
#[derive(Clone, Copy, Debug, PartialEq, Eq)]
pub enum PositionSide {
    Long,
    Short,
}

} // verus!
