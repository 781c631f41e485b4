//! Fee lifecycle for a cross-chain relayer: fixed-point prices, gas
//! configuration, price escalation, and balance verification decisions.

pub mod decimal;
pub mod driver;
pub mod dynamic_gas;
pub mod escrow;
pub mod gas;
pub mod notation;
pub mod retry;
pub mod text;
