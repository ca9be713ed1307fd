//! The two steps that take a completed curve's liquidity to an external pool.

pub mod prepare_curve_migration;
pub mod raydium;
