//! One module per group of instructions. Each instruction is a struct that
//! holds, as plain values, the accounts the instruction reads and writes,
//! with an `execute` method that checks the instruction's account
//! constraints and arguments and applies its effect. Nothing is written
//! when an instruction is refused.

pub mod common;
pub mod funding;
pub mod initialize;
pub mod insurance;
pub mod liquidation;
pub mod market;
pub mod order;
pub mod position;
pub mod user;


pub use funding::{SettleFundingPayment, UpdateFundingRate};
pub use initialize::InitializeProtocol;
pub use insurance::DepositInsuranceFund;
pub use liquidation::LiquidatePosition;
pub use market::{CreatePerpMarket, UpdateMarketConfig};
pub use order::{CancelOrder, FillOrder, PlaceOrder};
pub use position::{ClosePosition, OpenPosition, UpdatePositionPnL};
pub use user::{DepositCollateral, InitializeUser, WithdrawCollateral};
