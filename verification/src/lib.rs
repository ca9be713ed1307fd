//! A constant-product bonding curve: pricing, fees, trade application and the
//! migration of a completed curve to an external liquidity pool.
//!
//! Every function in this crate is verified. The ledger, the clock and the
//! event sink are the caller's business: each instruction takes the values it
//! reads as plain fields of its context and hands back a record of the amounts
//! the caller has to move.

pub mod constants;
pub mod contexts;
pub mod errors;
pub mod instructions;
pub mod launch;
pub mod laws;
pub mod math;
pub mod model;
pub mod state;
pub mod utils;
