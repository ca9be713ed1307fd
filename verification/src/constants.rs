//! The numbers a deployment is made with.

use vstd::prelude::*;

verus! {

/// Base tokens minted when a curve is created: one billion, six decimals.
pub const TOTAL_TOKEN_SUPPLY: u64 = 1_000_000_000_000_000;

/// Base tokens the pricing formula starts from: 1.073 billion.
pub const VIRTUAL_TOKEN_RESERVES: u64 = 1_073_000_000_000_000;

/// Quote currency the pricing formula starts from: 30 units, nine decimals.
pub const VIRTUAL_SOL_RESERVES: u64 = 30_000_000_000;

/// Base tokens offered for sale on the curve: 793.1 million.
pub const REAL_TOKEN_RESERVES: u64 = 793_100_000_000_000;

/// Quote currency a new curve holds.
pub const REAL_SOL_RESERVES: u64 = 0;

/// The trading fee of the reference deployment, in basis points.
pub const FEE_BPS: u64 = 100;

/// Quote currency that stays with the migration authority to pay for the
/// creation of the pool.
pub const POOL_CREATION_RESERVE: u64 = 200_000_000;

/// The charges and tolerances of one deployment.
///
/// Graduation is not configurable: a curve completes when its real base
/// reserve is sold out, and by no other rule.
#[derive(Clone, Copy, Debug, PartialEq, Eq)]
pub struct CurveConfig {
    /// Fee on every trade, in basis points of the quote amount.
    pub fee_bps: u64,
    /// Slippage tolerance of a trade that names none, in basis points.
    pub default_slippage_bps: u64,
    /// Flat charge for creating a curve.
    pub initialisation_fee: u64,
    /// Flat charge taken from the reserves when a curve is migrated.
    pub migration_fee: u64,
}

} // verus!
