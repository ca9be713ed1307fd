use vstd::prelude::*;
use crate::contexts::{OnSellEvent, Sell};
use crate::errors::Errors;
use crate::laws::law_sell_keeps_invariants;
use crate::math::{lemma_div_lower, lemma_div_upper, mul_div, try_add, BPS_DENOMINATOR};
use crate::model::TradeResult;
use crate::utils::calculate_min_sol_with_slippage;

verus! {

/// Sells base tokens: `amount` of them, or `amount` basis points of what the
/// seller holds when `is_percentage` is set.
///
/// The tokens are priced and the fee is taken off the proceeds. The gross
/// amount that leaves the reserves is recovered from the net one as
/// `net * 10000 / (10000 - fee)`. The outcome is that of the model, see
/// [`crate::model::CurveState::sell`], and a refused sale leaves `ctx` as it
/// was. A sale never reopens a curve.
pub fn sell_ix(
    ctx: &mut Sell,
    amount: u64,
    is_percentage: bool,
    slippage_basis_points: Option<u64>,
) -> (result: Result<OnSellEvent, Errors>)
    ensures
        match result {
            Ok(event) => {
                &&& old(ctx).outcome(amount, is_percentage, slippage_basis_points) matches Ok(trade)
                &&& final(ctx).bonding_curve@ == trade.state
                &&& event.records(*old(ctx), trade)
                &&& *final(ctx) == (Sell { bonding_curve: final(ctx).bonding_curve, ..*old(ctx) })
                &&& old(ctx).bonding_curve@.wf() ==> final(ctx).bonding_curve@.wf()
            },
            Err(e) => {
                &&& old(ctx).outcome(amount, is_percentage, slippage_basis_points) == Err::<
                    TradeResult,
                    Errors,
                >(e)
                &&& *final(ctx) == *old(ctx)
            },
        },
{
    let slippage_bps: u64 = match slippage_basis_points {
        Some(bps) => bps,
        None => ctx.config.default_slippage_bps,
    };
    if !ctx.bonding_curve.is_active() {
        return Err(Errors::BondingCurveComplete);
    }
    let tokens_to_sell: u64 = if is_percentage {
        if amount > BPS_DENOMINATOR {
            return Err(Errors::InvalidPercentage);
        }
        proof {
            let held: nat = ctx.associated_user_amount as nat;
            assert(held * (amount as nat) <= held * 10_000) by (nonlinear_arith)
                requires
                    amount <= 10_000,
            ;
            lemma_div_upper(held * (amount as nat), 10_000, held);
        }
        mul_div(ctx.associated_user_amount, amount, BPS_DENOMINATOR as u128)?
    } else {
        amount
    };
    if ctx.associated_user_amount < tokens_to_sell {
        return Err(Errors::InsufficientTokenBalance);
    }
    if tokens_to_sell == 0 {
        return Err(Errors::InvalidAmount);
    }
    let sol_to_receive: u64 = ctx.bonding_curve.get_sell_price(tokens_to_sell, ctx.config.fee_bps)?;
    if slippage_bps > BPS_DENOMINATOR {
        return Err(Errors::MathOverflow);
    }
    let min_sol_expected: u64 = calculate_min_sol_with_slippage(sol_to_receive, slippage_bps);
    if sol_to_receive < min_sol_expected {
        return Err(Errors::SlippageExceeded);
    }
    if ctx.config.fee_bps >= BPS_DENOMINATOR {
        return Err(Errors::MathOverflow);
    }
    let kept_bps: u64 = BPS_DENOMINATOR - ctx.config.fee_bps;
    let gross_sol: u64 = mul_div(sol_to_receive, BPS_DENOMINATOR, kept_bps as u128)?;
    proof {
        let net: nat = sol_to_receive as nat;
        assert(net * (kept_bps as nat) <= net * 10_000) by (nonlinear_arith)
            requires
                kept_bps <= 10_000,
        ;
        lemma_div_lower(net * 10_000, kept_bps as nat, net);
    }
    let fee: u64 = gross_sol - sol_to_receive;
    if ctx.bonding_curve.real_sol_reserves < gross_sol {
        return Err(Errors::InsufficientReserves);
    }
    let virtual_token_reserves: u64 = try_add(
        ctx.bonding_curve.virtual_token_reserves,
        tokens_to_sell,
    )?;
    let real_token_reserves: u64 = try_add(ctx.bonding_curve.real_token_reserves, tokens_to_sell)?;
    if ctx.bonding_curve.virtual_sol_reserves < gross_sol {
        return Err(Errors::MathOverflow);
    }
    let prior = ctx.bonding_curve;
    proof {
        if prior@.wf() {
            law_sell_keeps_invariants(
                prior@,
                ctx.config.fee_bps as nat,
                ctx.associated_user_amount as nat,
                amount as nat,
                is_percentage,
                slippage_bps as nat,
            );
        }
    }
    let mut curve = prior;
    curve.virtual_token_reserves = virtual_token_reserves;
    curve.real_token_reserves = real_token_reserves;
    curve.virtual_sol_reserves = prior.virtual_sol_reserves - gross_sol;
    curve.real_sol_reserves = prior.real_sol_reserves - gross_sol;
    ctx.bonding_curve = curve;
    Ok(
        OnSellEvent {
            seller: ctx.seller,
            mint: ctx.mint,
            tokens_sold: tokens_to_sell,
            sol_received: sol_to_receive,
            fee_paid: fee,
            prior_virtual_sol_reserves: prior.virtual_sol_reserves,
            prior_virtual_token_reserves: prior.virtual_token_reserves,
            prior_real_sol_reserves: prior.real_sol_reserves,
            prior_real_token_reserves: prior.real_token_reserves,
            virtual_sol_reserves: curve.virtual_sol_reserves,
            virtual_token_reserves: curve.virtual_token_reserves,
            real_sol_reserves: curve.real_sol_reserves,
            real_token_reserves: curve.real_token_reserves,
            timestamp: ctx.unix_timestamp,
        },
    )
}

} // verus!
