//! Verified core of a perpetual-futures exchange: fixed-point risk math,
//! the virtual constant-product market maker, and the state transitions of
//! every instruction (orders, positions, funding, liquidation, insurance).

pub mod error;
pub mod instructions;
pub mod laws;
pub mod events;
pub mod math;
pub mod state;
