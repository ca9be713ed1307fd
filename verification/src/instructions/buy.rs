use vstd::prelude::*;
use crate::contexts::{Buy, OnBuyEvent};
use crate::errors::Errors;
use crate::laws::law_buy_keeps_invariants;
use crate::math::{lemma_ceil_complement, mul_div, try_add, BPS_DENOMINATOR};
use crate::model::TradeResult;
use crate::state::CurveStatus;
use crate::utils::calculate_min_tokens_with_slippage;

verus! {

/// Buys base tokens for `amount_in_sol` of quote currency, fee included.
///
/// The fee is taken off first; what is left is priced, goes into the
/// reserves and decides how many tokens leave them. When the last real base
/// token is sold the curve completes. The outcome is that of the model, see
/// [`crate::model::CurveState::buy`], and a refused buy leaves `ctx` as it
/// was.
pub fn buy_ix(ctx: &mut Buy, amount_in_sol: u64, slippage_basis_points: Option<u64>) -> (result:
    Result<OnBuyEvent, Errors>)
    ensures
        match result {
            Ok(event) => {
                &&& old(ctx).outcome(amount_in_sol, slippage_basis_points) matches Ok(trade)
                &&& final(ctx).bonding_curve@ == trade.state
                &&& event.records(*old(ctx), trade)
                &&& *final(ctx) == (Buy { bonding_curve: final(ctx).bonding_curve, ..*old(ctx) })
                &&& old(ctx).bonding_curve@.wf() ==> final(ctx).bonding_curve@.wf()
            },
            Err(e) => {
                &&& old(ctx).outcome(amount_in_sol, slippage_basis_points) == Err::<
                    TradeResult,
                    Errors,
                >(e)
                &&& *final(ctx) == *old(ctx)
            },
        },
{
    let slippage_bps: u64 = match slippage_basis_points {
        Some(bps) => bps,
        None => ctx.config.default_slippage_bps,
    };
    if !ctx.bonding_curve.is_active() {
        return Err(Errors::BondingCurveComplete);
    }
    let fee: u64 = mul_div(amount_in_sol, ctx.config.fee_bps, BPS_DENOMINATOR as u128)?;
    if fee > amount_in_sol {
        return Err(Errors::MathOverflow);
    }
    let net_amount: u64 = amount_in_sol - fee;
    let tokens_to_receive: u64 = ctx.bonding_curve.get_buy_price(net_amount)?;
    if slippage_bps > BPS_DENOMINATOR {
        return Err(Errors::MathOverflow);
    }
    let min_tokens_expected: u64 = calculate_min_tokens_with_slippage(
        tokens_to_receive,
        slippage_bps,
    );
    if tokens_to_receive < min_tokens_expected {
        return Err(Errors::SlippageExceeded);
    }
    let virtual_sol_reserves: u64 = try_add(ctx.bonding_curve.virtual_sol_reserves, net_amount)?;
    let real_sol_reserves: u64 = try_add(ctx.bonding_curve.real_sol_reserves, net_amount)?;
    proof {
        if net_amount > 0 {
            lemma_ceil_complement(
                ctx.bonding_curve.virtual_sol_reserves as nat,
                ctx.bonding_curve.virtual_token_reserves as nat,
                net_amount as nat,
            );
        }
    }
    let prior = ctx.bonding_curve;
    proof {
        if prior@.wf() {
            law_buy_keeps_invariants(
                prior@,
                ctx.config.fee_bps as nat,
                amount_in_sol as nat,
                slippage_bps as nat,
            );
        }
    }
    let mut curve = prior;
    curve.virtual_sol_reserves = virtual_sol_reserves;
    curve.real_token_reserves = prior.real_token_reserves - tokens_to_receive;
    curve.virtual_token_reserves = prior.virtual_token_reserves - tokens_to_receive;
    curve.real_sol_reserves = real_sol_reserves;
    if curve.is_ready_for_graduation()? {
        curve.status = CurveStatus::Complete;
    }
    ctx.bonding_curve = curve;
    Ok(
        OnBuyEvent {
            buyer: ctx.buyer,
            mint: ctx.mint,
            sol_spent: amount_in_sol,
            tokens_received: tokens_to_receive,
            fee_paid: fee,
            prior_virtual_sol_reserves: prior.virtual_sol_reserves,
            prior_virtual_token_reserves: prior.virtual_token_reserves,
            prior_real_sol_reserves: prior.real_sol_reserves,
            prior_real_token_reserves: prior.real_token_reserves,
            virtual_sol_reserves: curve.virtual_sol_reserves,
            virtual_token_reserves: curve.virtual_token_reserves,
            real_sol_reserves: curve.real_sol_reserves,
            real_token_reserves: curve.real_token_reserves,
            is_bonding_curve_complete: curve.is_bonding_curve_complete(),
            timestamp: ctx.unix_timestamp,
        },
    )
}

} // verus!
