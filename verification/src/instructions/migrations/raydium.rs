use vstd::prelude::*;
use crate::constants::POOL_CREATION_RESERVE;
use crate::contexts::{InitializeRaydiumPool, RaydiumPoolInitialized};
use crate::errors::Errors;
use crate::model::MigrationResult;
use crate::state::CurveStatus;

verus! {

/// Creates the external pool from what the migration authority holds and
/// marks the curve `Migrated`.
///
/// Refused with `BondingCurveNotComplete` while the curve trades, with
/// `BondingCurveMigrated` when the pool has been created before, with
/// `InsufficientFunds` when the migration authority holds less than the
/// reserve for the pool's creation, and with `MathOverflow` when the clock
/// reads a time before the epoch, which no opening time can express. A
/// refused call leaves `ctx` as it was.
pub fn initialize_pool(ctx: &mut InitializeRaydiumPool) -> (result: Result<
    RaydiumPoolInitialized,
    Errors,
>)
    ensures
        match result {
            Ok(event) => {
                &&& old(ctx).outcome() matches Ok(step)
                &&& final(ctx).bonding_curve@ == step.state
                &&& old(ctx).bonding_curve@.wf() ==> final(ctx).bonding_curve@.wf()
                &&& event.records(*old(ctx), step)
                &&& *final(ctx) == (InitializeRaydiumPool {
                    bonding_curve: final(ctx).bonding_curve,
                    ..*old(ctx)
                })
            },
            Err(e) => {
                &&& old(ctx).outcome() == Err::<MigrationResult, Errors>(e)
                &&& *final(ctx) == *old(ctx)
            },
        },
{
    match ctx.bonding_curve.status {
        CurveStatus::Active => {
            return Err(Errors::BondingCurveNotComplete);
        },
        CurveStatus::Migrated => {
            return Err(Errors::BondingCurveMigrated);
        },
        CurveStatus::Complete => {},
    }
    if ctx.migration_authority_lamports < POOL_CREATION_RESERVE {
        return Err(Errors::InsufficientFunds);
    }
    let wrap_amount: u64 = ctx.migration_authority_lamports - POOL_CREATION_RESERVE;
    if ctx.unix_timestamp < 0 {
        return Err(Errors::MathOverflow);
    }
    let open_time: u64 = ctx.unix_timestamp as u64;
    ctx.bonding_curve.status = CurveStatus::Migrated;
    Ok(
        RaydiumPoolInitialized {
            mint_0: ctx.mint_0,
            mint_1: ctx.mint_1,
            pool_state: ctx.pool_state,
            lp_mint: ctx.lp_mint,
            migration_authority: ctx.migration_authority,
            bonding_curve: ctx.bonding_curve_address,
            initial_token_0_amount: wrap_amount,
            initial_token_1_amount: ctx.associated_migration_authority_amount,
            lp_tokens_minted: 0,
            open_time,
            timestamp: ctx.unix_timestamp,
        },
    )
}

} // verus!
