//! Slippage floors.

use vstd::prelude::*;
use crate::math::{lemma_div_upper, mul_div, BPS_DENOMINATOR};
use crate::model::slippage_floor;

verus! {

/// A slippage floor never lies above the amount it is taken from.
pub proof fn lemma_slippage_floor_within(amount: nat, basis_points: nat)
    requires
        basis_points <= 10_000,
    ensures
        slippage_floor(amount, basis_points) <= amount,
{
    let kept: nat = (10_000 - basis_points) as nat;
    assert(amount * kept <= amount * 10_000) by (nonlinear_arith)
        requires
            kept <= 10_000,
    ;
    lemma_div_upper(amount * kept, 10_000, amount);
}

/// The least number of base tokens a buy may hand out when `amount` is
/// expected and `basis_points` of deviation are tolerated:
/// `amount * (10000 - basis_points) / 10000`, rounded down.
pub fn calculate_min_tokens_with_slippage(amount: u64, basis_points: u64) -> (min: u64)
    requires
        basis_points <= 10_000,
    ensures
        min == slippage_floor(amount as nat, basis_points as nat),
        min <= amount,
{
    proof {
        lemma_slippage_floor_within(amount as nat, basis_points as nat);
    }
    match mul_div(amount, BPS_DENOMINATOR - basis_points, BPS_DENOMINATOR as u128) {
        Ok(min) => min,
        Err(_) => amount,
    }
}

/// The least quote amount a sale may pay out when `amount` is expected and
/// `basis_points` of deviation are tolerated:
/// `amount * (10000 - basis_points) / 10000`, rounded down.
pub fn calculate_min_sol_with_slippage(amount: u64, basis_points: u64) -> (min: u64)
    requires
        basis_points <= 10_000,
    ensures
        min == slippage_floor(amount as nat, basis_points as nat),
        min <= amount,
{
    proof {
        lemma_slippage_floor_within(amount as nat, basis_points as nat);
    }
    match mul_div(amount, BPS_DENOMINATOR - basis_points, BPS_DENOMINATOR as u128) {
        Ok(min) => min,
        Err(_) => amount,
    }
}

} // verus!
