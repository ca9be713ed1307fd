//! The record kept for each traded asset, and its pricing functions.

use vstd::prelude::*;
use crate::constants::{
    REAL_SOL_RESERVES, REAL_TOKEN_RESERVES, TOTAL_TOKEN_SUPPLY, VIRTUAL_SOL_RESERVES,
    VIRTUAL_TOKEN_RESERVES,
};
use crate::errors::Errors;
use crate::math::{lemma_ceil_complement, lemma_div_upper, mul_div, mul_div_ceil, BPS_DENOMINATOR};
use crate::model::CurveState;

verus! {

/// An opaque 32-byte identifier of an account. It is carried, never read.
#[derive(Clone, Copy, Debug, PartialEq, Eq)]
pub struct Address {
    pub bytes: [u8; 32],
}

/// Where a curve stands in its life. The order is the only one possible:
/// `Active`, then `Complete`, then `Migrated`.
#[derive(Clone, Copy, Debug, PartialEq, Eq, Structural)]
pub enum CurveStatus {
    /// Trading is open.
    Active,
    /// The real base reserve is sold out; the curve waits for migration.
    Complete,
    /// The liquidity has been moved to an external pool.
    Migrated,
}

/// The state of one curve.
#[derive(Clone, Copy, Debug, PartialEq, Eq)]
pub struct BondingCurve {
    pub creator: Address,
    pub mint: Address,
    pub authority: Address,
    /// Quote currency held for the curve.
    pub real_sol_reserves: u64,
    /// Base tokens still for sale.
    pub real_token_reserves: u64,
    /// Quote side of the pricing formula.
    pub virtual_sol_reserves: u64,
    /// Base side of the pricing formula.
    pub virtual_token_reserves: u64,
    pub total_token_supply: u64,
    pub status: CurveStatus,
}

impl View for BondingCurve {
    type V = CurveState;

    open spec fn view(&self) -> CurveState {
        CurveState {
            creator: self.creator,
            asset_id: self.mint,
            authority: self.authority,
            virtual_reserve_quote: self.virtual_sol_reserves as nat,
            virtual_reserve_base: self.virtual_token_reserves as nat,
            real_reserve_quote: self.real_sol_reserves as nat,
            real_reserve_base: self.real_token_reserves as nat,
            total_supply: self.total_token_supply as nat,
            status: self.status,
        }
    }
}

/// Every stored curve is within the range the model's laws ask for.
pub proof fn lemma_view_in_range(curve: BondingCurve)
    ensures
        curve@.in_range(),
{
}

/// Whether an executable result is the one the model gives.
pub open spec fn agrees(r: Result<u64, Errors>, m: Result<nat, Errors>) -> bool {
    match r {
        Ok(v) => m == Ok::<nat, Errors>(v as nat),
        Err(e) => m == Err::<nat, Errors>(e),
    }
}

impl BondingCurve {
    /// A curve as it is created: trading open, reserves at their initial
    /// values, nothing sold.
    pub fn new(creator: Address, mint: Address, authority: Address) -> (curve: BondingCurve)
        ensures
            curve@ == CurveState::initial(creator, mint, authority),
    {
        BondingCurve {
            creator,
            mint,
            authority,
            real_sol_reserves: REAL_SOL_RESERVES,
            real_token_reserves: REAL_TOKEN_RESERVES,
            virtual_sol_reserves: VIRTUAL_SOL_RESERVES,
            virtual_token_reserves: VIRTUAL_TOKEN_RESERVES,
            total_token_supply: TOTAL_TOKEN_SUPPLY,
            status: CurveStatus::Active,
        }
    }

    /// Whether trading is open.
    pub fn is_active(&self) -> (b: bool)
        ensures
            b == (self.status == CurveStatus::Active),
    {
        match self.status {
            CurveStatus::Active => true,
            _ => false,
        }
    }

    /// Whether trading has ended, migrated or not.
    pub fn is_bonding_curve_complete(&self) -> (b: bool)
        ensures
            b == (self.status != CurveStatus::Active),
    {
        !self.is_active()
    }

    /// Whether the liquidity has left for the external pool.
    pub fn has_curve_migrated(&self) -> (b: bool)
        ensures
            b == (self.status == CurveStatus::Migrated),
    {
        match self.status {
            CurveStatus::Migrated => true,
            _ => false,
        }
    }

    /// The base tokens that `amount` of quote currency, net of fee, buys.
    ///
    /// The curve keeps `ceil(k / (virtual quote + amount))` of its virtual
    /// base reserve, `k` being the product of the two virtual reserves, and
    /// hands out the rest, but never more than the real base reserve. Nothing
    /// buys nothing. Refused with `BondingCurveComplete` once trading has
    /// ended, and on no other ground.
    pub fn get_buy_price(&self, amount: u64) -> (r: Result<u64, Errors>)
        ensures
            agrees(r, self@.buy_price(amount as nat)),
    {
        if !self.is_active() {
            return Err(Errors::BondingCurveComplete);
        }
        if amount == 0 {
            return Ok(0);
        }
        let divisor: u128 = self.virtual_sol_reserves as u128 + amount as u128;
        proof {
            lemma_ceil_complement(
                self.virtual_sol_reserves as nat,
                self.virtual_token_reserves as nat,
                amount as nat,
            );
        }
        let kept: u64 = mul_div_ceil(
            self.virtual_sol_reserves,
            self.virtual_token_reserves,
            divisor,
        )?;
        let owed: u64 = self.virtual_token_reserves - kept;
        if owed <= self.real_token_reserves {
            Ok(owed)
        } else {
            Ok(self.real_token_reserves)
        }
    }

    /// The quote currency that selling `amount` base tokens returns after a
    /// fee of `fee_basis_points`: `amount * virtual quote / (virtual base +
    /// amount)`, rounded down, less the fee on it, rounded down. Refused with
    /// `BondingCurveComplete` once trading has ended and with `MathOverflow`
    /// when the fee exceeds the amount it is taken from.
    pub fn get_sell_price(&self, amount: u64, fee_basis_points: u64) -> (r: Result<u64, Errors>)
        ensures
            agrees(r, self@.sell_price(amount as nat, fee_basis_points as nat)),
    {
        if !self.is_active() {
            return Err(Errors::BondingCurveComplete);
        }
        if amount == 0 {
            return Ok(0);
        }
        let divisor: u128 = self.virtual_token_reserves as u128 + amount as u128;
        proof {
            let a: nat = amount as nat;
            let q: nat = self.virtual_sol_reserves as nat;
            let b: nat = self.virtual_token_reserves as nat;
            assert(a * q <= q * (b + a)) by (nonlinear_arith);
            lemma_div_upper(a * q, b + a, q);
        }
        let gross: u64 = mul_div(amount, self.virtual_sol_reserves, divisor)?;
        let fee: u64 = mul_div(gross, fee_basis_points, BPS_DENOMINATOR as u128)?;
        if fee > gross {
            Err(Errors::MathOverflow)
        } else {
            Ok(gross - fee)
        }
    }

    /// Whether the curve has graduated: trading has ended already, or the
    /// real base reserve is sold out. Always `Ok`.
    pub fn is_ready_for_graduation(&self) -> (r: Result<bool, Errors>)
        ensures
            r == Ok::<bool, Errors>(self@.is_graduated()),
    {
        if !self.is_active() {
            return Ok(true);
        }
        Ok(self.real_token_reserves == 0)
    }

    /// The price of one base token in quote currency, times `scale`:
    /// `virtual quote * scale / virtual base`, rounded down. Refused with
    /// `BondingCurveComplete` once trading has ended and with `MathOverflow`
    /// when the virtual base reserve is empty or the price leaves 64 bits.
    pub fn market_price(&self, scale: u64) -> (r: Result<u64, Errors>)
        ensures
            agrees(r, self@.market_price(scale as nat)),
    {
        if !self.is_active() {
            return Err(Errors::BondingCurveComplete);
        }
        mul_div(self.virtual_sol_reserves, scale, self.virtual_token_reserves as u128)
    }

    /// The value of the whole supply at the current price:
    /// `virtual quote * total supply / virtual base`, rounded down, at any
    /// status. Refused with `MathOverflow` when the virtual base reserve is
    /// empty or the value leaves 64 bits.
    pub fn market_cap(&self) -> (r: Result<u64, Errors>)
        ensures
            agrees(r, self@.market_cap()),
    {
        mul_div(
            self.virtual_sol_reserves,
            self.total_token_supply,
            self.virtual_token_reserves as u128,
        )
    }
}

} // verus!
