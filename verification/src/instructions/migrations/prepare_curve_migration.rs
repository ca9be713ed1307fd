use vstd::prelude::*;
use crate::contexts::{CurveMigrationPrepared, PrepareCurveMigration};
use crate::errors::Errors;
use crate::model::MigrationResult;
use crate::state::CurveStatus;

verus! {

/// Hands a completed curve's holdings to the migration authority: the whole
/// vault of base tokens and the real quote reserve less the migration fee,
/// which goes to the fee sink.
///
/// Refused with `BondingCurveNotComplete` while the curve trades, with
/// `BondingCurveMigrated` once it has been migrated, and with `MathOverflow`
/// when the real quote reserve does not cover the fee.
///
/// The curve is only read. Its status stays `Complete` and its reserves stay
/// as they were, so a second call on the same curve is accepted like the
/// first and reports the same amounts: the caller has to see to it that the
/// step is taken once.
pub fn prepare_curve_migration_ix(ctx: &PrepareCurveMigration) -> (result: Result<
    CurveMigrationPrepared,
    Errors,
>)
    ensures
        match result {
            Ok(event) => {
                &&& ctx.outcome() matches Ok(step)
                &&& event.records(*ctx, step)
            },
            Err(e) => ctx.outcome() == Err::<MigrationResult, Errors>(e),
        },
{
    match ctx.bonding_curve.status {
        CurveStatus::Active => {
            return Err(Errors::BondingCurveNotComplete);
        },
        CurveStatus::Migrated => {
            return Err(Errors::BondingCurveMigrated);
        },
        CurveStatus::Complete => {},
    }
    if ctx.bonding_curve.real_sol_reserves < ctx.config.migration_fee {
        return Err(Errors::MathOverflow);
    }
    let net_amount: u64 = ctx.bonding_curve.real_sol_reserves - ctx.config.migration_fee;
    Ok(
        CurveMigrationPrepared {
            mint: ctx.mint,
            bonding_curve: ctx.bonding_curve_address,
            migration_authority: ctx.migration_authority,
            token_amount: ctx.bonding_curve.real_token_reserves,
            sol_amount: ctx.bonding_curve.real_sol_reserves,
            tokens_moved: ctx.associated_bonding_curve_amount,
            net_sol_amount: net_amount,
            fee_paid: ctx.config.migration_fee,
            timestamp: ctx.unix_timestamp,
        },
    )
}

} // verus!
