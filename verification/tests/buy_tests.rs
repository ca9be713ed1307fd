use rekthub::constants::{CurveConfig, FEE_BPS};
use rekthub::contexts::Buy;
use rekthub::errors::Errors;
use rekthub::instructions::buy::buy_ix;
use rekthub::state::{Address, BondingCurve, CurveStatus};

fn address(tag: u8) -> Address {
    Address { bytes: [tag; 32] }
}

fn config() -> CurveConfig {
    CurveConfig {
        fee_bps: FEE_BPS,
        default_slippage_bps: 500,
        initialisation_fee: 20_000_000,
        migration_fee: 500_000_000,
    }
}

fn fresh_buy() -> Buy {
    Buy {
        buyer: address(9),
        mint: address(2),
        bonding_curve: BondingCurve::new(address(1), address(2), address(3)),
        config: config(),
        unix_timestamp: 1_700_000_000,
    }
}

#[test]
fn reference_fee_is_one_percent() {
    assert_eq!(FEE_BPS, 100);
}

#[test]
fn reference_purchase_on_a_new_curve() {
    let mut ctx = fresh_buy();
    let event = buy_ix(&mut ctx, 1_000_000_000, None).unwrap();
    assert_eq!(event.fee_paid, 10_000_000);
    assert_eq!(event.sol_spent - event.fee_paid, 990_000_000);
    assert_eq!(event.tokens_received, 34_277_831_558_567);
    assert_eq!(ctx.bonding_curve.virtual_sol_reserves, 30_990_000_000);
    assert_eq!(ctx.bonding_curve.virtual_token_reserves, 1_038_722_168_441_433);
    assert_eq!(ctx.bonding_curve.real_sol_reserves, 990_000_000);
    assert_eq!(ctx.bonding_curve.real_token_reserves, 758_822_168_441_433);
    assert_eq!(ctx.bonding_curve.total_token_supply, 1_000_000_000_000_000);
    assert_eq!(ctx.bonding_curve.status, CurveStatus::Active);
}

#[test]
fn buy_event_records_the_trade() {
    let mut ctx = fresh_buy();
    let event = buy_ix(&mut ctx, 1_000_000_000, Some(0)).unwrap();
    assert_eq!(event.buyer, address(9));
    assert_eq!(event.mint, address(2));
    assert_eq!(event.sol_spent, 1_000_000_000);
    assert_eq!(event.tokens_received, 34_277_831_558_567);
    assert_eq!(event.fee_paid, 10_000_000);
    assert_eq!(event.prior_virtual_sol_reserves, 30_000_000_000);
    assert_eq!(event.prior_virtual_token_reserves, 1_073_000_000_000_000);
    assert_eq!(event.prior_real_sol_reserves, 0);
    assert_eq!(event.prior_real_token_reserves, 793_100_000_000_000);
    assert_eq!(event.virtual_sol_reserves, 30_990_000_000);
    assert_eq!(event.virtual_token_reserves, 1_038_722_168_441_433);
    assert_eq!(event.real_sol_reserves, 990_000_000);
    assert_eq!(event.real_token_reserves, 758_822_168_441_433);
    assert!(!event.is_bonding_curve_complete);
    assert_eq!(event.timestamp, 1_700_000_000);
}

#[test]
fn buy_leaves_the_rest_of_the_context_alone() {
    let mut ctx = fresh_buy();
    let before = ctx;
    buy_ix(&mut ctx, 1_000_000_000, None).unwrap();
    assert_eq!(ctx.buyer, before.buyer);
    assert_eq!(ctx.mint, before.mint);
    assert_eq!(ctx.config, before.config);
    assert_eq!(ctx.unix_timestamp, before.unix_timestamp);
    assert_eq!(ctx.bonding_curve.creator, before.bonding_curve.creator);
    assert_eq!(ctx.bonding_curve.mint, before.bonding_curve.mint);
    assert_eq!(ctx.bonding_curve.authority, before.bonding_curve.authority);
}

#[test]
fn a_second_purchase_is_priced_on_the_moved_curve() {
    let mut ctx = fresh_buy();
    buy_ix(&mut ctx, 1_000_000_000, None).unwrap();
    let event = buy_ix(&mut ctx, 2_500_000_000, None).unwrap();
    assert_eq!(event.fee_paid, 25_000_000);
    assert_eq!(event.tokens_received, 76_821_675_388_989);
    assert_eq!(event.prior_virtual_sol_reserves, 30_990_000_000);
    assert_eq!(ctx.bonding_curve.virtual_sol_reserves, 33_465_000_000);
    assert_eq!(ctx.bonding_curve.virtual_token_reserves, 961_900_493_052_444);
    assert_eq!(ctx.bonding_curve.real_sol_reserves, 3_465_000_000);
    assert_eq!(ctx.bonding_curve.real_token_reserves, 682_000_493_052_444);
}

#[test]
fn buy_never_lowers_the_product_of_the_virtual_reserves() {
    let amounts: [u64; 6] = [1, 12, 1_000, 1_000_000_000, 40_000_000_000, 85_000_000_000];
    let mut ctx = fresh_buy();
    for amount in amounts {
        let before = ctx.bonding_curve;
        let event = buy_ix(&mut ctx, amount, None).unwrap();
        let k_before =
            (before.virtual_sol_reserves as u128) * (before.virtual_token_reserves as u128);
        let k_after = (ctx.bonding_curve.virtual_sol_reserves as u128)
            * (ctx.bonding_curve.virtual_token_reserves as u128);
        assert!(k_after >= k_before);
        assert_eq!(
            ctx.bonding_curve.virtual_token_reserves,
            before.virtual_token_reserves - event.tokens_received
        );
        if event.tokens_received > 0 {
            assert!(ctx.bonding_curve.virtual_token_reserves < before.virtual_token_reserves);
        }
    }
}

#[test]
fn product_after_the_reference_purchase() {
    let mut ctx = fresh_buy();
    buy_ix(&mut ctx, 1_000_000_000, None).unwrap();
    let k_after = (ctx.bonding_curve.virtual_sol_reserves as u128)
        * (ctx.bonding_curve.virtual_token_reserves as u128);
    assert_eq!(k_after, 32_190_000_000_000_008_670_000_000);
    assert!(k_after >= 32_190_000_000_000_000_000_000_000);
}

#[test]
fn buy_for_nothing_changes_nothing() {
    let mut ctx = fresh_buy();
    let before = ctx;
    let event = buy_ix(&mut ctx, 0, None).unwrap();
    assert_eq!(event.tokens_received, 0);
    assert_eq!(event.fee_paid, 0);
    assert_eq!(event.sol_spent, 0);
    assert!(!event.is_bonding_curve_complete);
    assert_eq!(ctx, before);
}

#[test]
fn buy_below_one_tokens_worth_hands_out_nothing() {
    let mut ctx = fresh_buy();
    ctx.bonding_curve.virtual_sol_reserves = 1_000;
    ctx.bonding_curve.virtual_token_reserves = 100;
    ctx.bonding_curve.real_token_reserves = 100;
    ctx.config.fee_bps = 0;
    let event = buy_ix(&mut ctx, 10, None).unwrap();
    assert_eq!(event.tokens_received, 0);
    assert_eq!(ctx.bonding_curve.virtual_token_reserves, 100);
    assert_eq!(ctx.bonding_curve.virtual_sol_reserves, 1_010);
    assert_eq!(ctx.bonding_curve.real_sol_reserves, 10);
}

#[test]
fn buying_the_last_token_completes_the_curve() {
    let mut ctx = fresh_buy();
    let event = buy_ix(&mut ctx, 87_000_000_000, None).unwrap();
    assert_eq!(event.fee_paid, 870_000_000);
    assert_eq!(event.tokens_received, 793_100_000_000_000);
    assert!(event.is_bonding_curve_complete);
    assert_eq!(event.real_token_reserves, 0);
    assert_eq!(ctx.bonding_curve.status, CurveStatus::Complete);
    assert_eq!(ctx.bonding_curve.real_token_reserves, 0);
    assert_eq!(ctx.bonding_curve.virtual_token_reserves, 279_900_000_000_000);
    assert_eq!(ctx.bonding_curve.virtual_sol_reserves, 116_130_000_000);
    assert_eq!(ctx.bonding_curve.real_sol_reserves, 86_130_000_000);
}

#[test]
fn buying_almost_everything_leaves_the_curve_open() {
    let mut ctx = fresh_buy();
    let event = buy_ix(&mut ctx, 85_000_000_000, None).unwrap();
    assert_eq!(event.tokens_received, 791_002_628_120_893);
    assert!(!event.is_bonding_curve_complete);
    assert_eq!(ctx.bonding_curve.real_token_reserves, 2_097_371_879_107);
    assert_eq!(ctx.bonding_curve.status, CurveStatus::Active);
}

#[test]
fn buy_is_refused_once_trading_has_ended() {
    let amounts: [u64; 4] = [0, 1, 1_000_000_000, u64::MAX];
    let tolerances: [Option<u64>; 4] = [None, Some(0), Some(10_000), Some(u64::MAX)];
    for status in [CurveStatus::Complete, CurveStatus::Migrated] {
        for amount in amounts {
            for tolerance in tolerances {
                let mut ctx = fresh_buy();
                ctx.bonding_curve.status = status;
                let before = ctx;
                assert_eq!(buy_ix(&mut ctx, amount, tolerance), Err(Errors::BondingCurveComplete));
                assert_eq!(ctx, before);
            }
        }
    }
}

#[test]
fn buy_after_graduation_is_refused() {
    let mut ctx = fresh_buy();
    buy_ix(&mut ctx, 87_000_000_000, None).unwrap();
    let before = ctx;
    assert_eq!(buy_ix(&mut ctx, 1_000_000_000, None), Err(Errors::BondingCurveComplete));
    assert_eq!(ctx, before);
}

#[test]
fn buy_reports_a_tolerance_above_one_hundred_percent() {
    let mut ctx = fresh_buy();
    let before = ctx;
    assert_eq!(buy_ix(&mut ctx, 1_000_000_000, Some(10_001)), Err(Errors::MathOverflow));
    assert_eq!(ctx, before);
    ctx.config.default_slippage_bps = 20_000;
    assert_eq!(buy_ix(&mut ctx, 1_000_000_000, None), Err(Errors::MathOverflow));
}

#[test]
fn buy_reports_a_fee_above_the_amount() {
    let mut ctx = fresh_buy();
    ctx.config.fee_bps = 10_001;
    let before = ctx;
    assert_eq!(buy_ix(&mut ctx, 1_000_000_000, None), Err(Errors::MathOverflow));
    assert_eq!(ctx, before);
    ctx.config.fee_bps = u64::MAX;
    assert_eq!(buy_ix(&mut ctx, u64::MAX, None), Err(Errors::MathOverflow));
}

#[test]
fn buy_at_a_fee_of_one_hundred_percent_buys_nothing() {
    let mut ctx = fresh_buy();
    ctx.config.fee_bps = 10_000;
    let before = ctx;
    let event = buy_ix(&mut ctx, 1_000_000_000, None).unwrap();
    assert_eq!(event.fee_paid, 1_000_000_000);
    assert_eq!(event.tokens_received, 0);
    assert_eq!(ctx, before);
}

#[test]
fn buy_reports_a_quote_reserve_beyond_64_bits() {
    let mut ctx = fresh_buy();
    ctx.config.fee_bps = 0;
    let before = ctx;
    assert_eq!(buy_ix(&mut ctx, u64::MAX, None), Err(Errors::MathOverflow));
    assert_eq!(ctx, before);

    let mut ctx = fresh_buy();
    ctx.config.fee_bps = 0;
    ctx.bonding_curve.virtual_sol_reserves = 5;
    ctx.bonding_curve.real_sol_reserves = u64::MAX - 9;
    let before = ctx;
    assert_eq!(buy_ix(&mut ctx, 10, None), Err(Errors::MathOverflow));
    assert_eq!(ctx, before);
    assert_eq!(buy_ix(&mut ctx, 9, None).unwrap().real_sol_reserves, u64::MAX);
}

#[test]
fn buy_is_never_refused_for_slippage() {
    let amounts: [u64; 5] = [0, 1, 999, 1_000_000_000, 50_000_000_000];
    let tolerances: [u64; 5] = [0, 1, 500, 9_999, 10_000];
    for amount in amounts {
        for tolerance in tolerances {
            let mut ctx = fresh_buy();
            assert!(buy_ix(&mut ctx, amount, Some(tolerance)).is_ok());
        }
    }
}

#[test]
fn buy_uses_the_default_tolerance_when_none_is_named() {
    let mut named = fresh_buy();
    let mut unnamed = fresh_buy();
    let a = buy_ix(&mut named, 1_000_000_000, Some(500)).unwrap();
    let b = buy_ix(&mut unnamed, 1_000_000_000, None).unwrap();
    assert_eq!(a, b);
    assert_eq!(named, unnamed);
}
