//! The launch of a token on a curve of its own parameters: a base price, a
//! fee and a supply chosen by the creator.

use vstd::prelude::*;
use crate::errors::Errors;
use crate::state::Address;

verus! {

/// The record kept for a token launched with its own parameters.
#[derive(Clone, Copy, Debug, PartialEq, Eq)]
pub struct BondingCurve {
    pub creator: Address,
    pub mint: Address,
    pub authority: Address,
    /// The account that holds the quote currency paid in.
    pub sol_reserve: Address,
    /// The account that holds the tokens for sale.
    pub token_vault: Address,
    pub sol_reserve_balance: u64,
    pub circulating_supply: u64,
    pub base_price: u64,
    pub is_bonding_curve_complete: bool,
    /// Fee on every trade, in basis points.
    pub fee_bps: u16,
    pub collected_fees: u64,
}

impl BondingCurve {
    /// The record of a launch that has not traded yet.
    pub open spec fn launched(
        ctx: InitializeToken,
        base_price: u64,
        fee_bps: u16,
        initial_supply: u64,
    ) -> BondingCurve {
        BondingCurve {
            creator: ctx.creator,
            mint: ctx.mint,
            authority: ctx.mint_authority,
            sol_reserve: ctx.sol_reserve,
            token_vault: ctx.token_vault,
            sol_reserve_balance: 0,
            circulating_supply: initial_supply,
            base_price,
            is_bonding_curve_complete: false,
            fee_bps,
            collected_fees: 0,
        }
    }
}

/// The accounts of a launch.
#[derive(Clone, Copy, Debug, PartialEq, Eq)]
pub struct InitializeToken {
    pub creator: Address,
    pub mint: Address,
    pub mint_authority: Address,
    pub sol_reserve: Address,
    pub token_vault: Address,
    /// The quote currency the creator holds.
    pub creator_lamports: u64,
    /// Flat charge for the launch.
    pub initialisation_fee: u64,
    pub bonding_curve: BondingCurve,
}

/// Launches a token: the caller mints `initial_supply` into the vault and
/// moves the initialisation fee from the creator to the fee sink.
///
/// Refused with `InsufficientFunds` when the creator holds less than the
/// fee, and on no other ground.
pub fn initialize_token_ix(
    ctx: &mut InitializeToken,
    base_price: u64,
    fee_bps: u16,
    initial_supply: u64,
) -> (result: Result<(), Errors>)
    ensures
        match result {
            Ok(_) => {
                &&& old(ctx).creator_lamports >= old(ctx).initialisation_fee
                &&& *final(ctx) == (InitializeToken {
                    bonding_curve: BondingCurve::launched(
                        *old(ctx),
                        base_price,
                        fee_bps,
                        initial_supply,
                    ),
                    ..*old(ctx)
                })
            },
            Err(e) => {
                &&& e == Errors::InsufficientFunds
                &&& old(ctx).creator_lamports < old(ctx).initialisation_fee
                &&& *final(ctx) == *old(ctx)
            },
        },
{
    if ctx.creator_lamports < ctx.initialisation_fee {
        return Err(Errors::InsufficientFunds);
    }
    ctx.bonding_curve = BondingCurve {
        creator: ctx.creator,
        mint: ctx.mint,
        authority: ctx.mint_authority,
        sol_reserve: ctx.sol_reserve,
        token_vault: ctx.token_vault,
        sol_reserve_balance: 0,
        circulating_supply: initial_supply,
        base_price,
        is_bonding_curve_complete: false,
        fee_bps,
        collected_fees: 0,
    };
    Ok(())
}

} // verus!
