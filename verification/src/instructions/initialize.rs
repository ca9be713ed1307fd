use vstd::prelude::*;
use crate::contexts::{Initialize, OnInitializeEvent};
use crate::errors::Errors;
use crate::model::CurveState;
use crate::state::BondingCurve;

verus! {

/// Creates the curve of a new token.
///
/// Refused with `InsufficientFunds` when the creator holds less than the
/// initialisation fee, and on no other ground. The curve starts `Active`
/// with the initial reserves, whatever `ctx.bonding_curve` held before.
pub fn initialize_ix(ctx: &mut Initialize, name: String, symbol: String, uri: String) -> (result:
    Result<OnInitializeEvent, Errors>)
    ensures
        match result {
            Ok(event) => {
                let created = CurveState::initial(
                    old(ctx).creator,
                    old(ctx).mint,
                    old(ctx).mint_authority,
                );
                &&& old(ctx).creator_lamports >= old(ctx).config.initialisation_fee
                &&& final(ctx).bonding_curve@ == created
                &&& created.wf()
                &&& event.records(*old(ctx), created, name@, symbol@, uri@)
                &&& *final(ctx) == (Initialize {
                    bonding_curve: final(ctx).bonding_curve,
                    ..*old(ctx)
                })
            },
            Err(e) => {
                &&& e == Errors::InsufficientFunds
                &&& old(ctx).creator_lamports < old(ctx).config.initialisation_fee
                &&& *final(ctx) == *old(ctx)
            },
        },
{
    if ctx.creator_lamports < ctx.config.initialisation_fee {
        return Err(Errors::InsufficientFunds);
    }
    ctx.bonding_curve = BondingCurve::new(ctx.creator, ctx.mint, ctx.mint_authority);
    Ok(
        OnInitializeEvent {
            creator: ctx.creator,
            mint: ctx.mint,
            bonding_curve: ctx.bonding_curve_address,
            associated_bonding_curve: ctx.associated_bonding_curve,
            name,
            symbol,
            uri,
            virtual_sol_reserves: ctx.bonding_curve.virtual_sol_reserves,
            virtual_token_reserves: ctx.bonding_curve.virtual_token_reserves,
            real_sol_reserves: ctx.bonding_curve.real_sol_reserves,
            real_token_reserves: ctx.bonding_curve.real_token_reserves,
            total_token_supply: ctx.bonding_curve.total_token_supply,
            fee_paid: ctx.config.initialisation_fee,
            timestamp: ctx.unix_timestamp,
        },
    )
}

} // verus!
