use rekthub::constants::{
    REAL_SOL_RESERVES, REAL_TOKEN_RESERVES, TOTAL_TOKEN_SUPPLY, VIRTUAL_SOL_RESERVES,
    VIRTUAL_TOKEN_RESERVES,
};
use rekthub::errors::Errors;
use rekthub::state::{Address, BondingCurve, CurveStatus};

fn address(tag: u8) -> Address {
    Address { bytes: [tag; 32] }
}

fn fresh_curve() -> BondingCurve {
    BondingCurve::new(address(1), address(2), address(3))
}

fn small_curve(virtual_sol: u64, virtual_token: u64, real_token: u64) -> BondingCurve {
    BondingCurve {
        creator: address(1),
        mint: address(2),
        authority: address(3),
        real_sol_reserves: 0,
        real_token_reserves: real_token,
        virtual_sol_reserves: virtual_sol,
        virtual_token_reserves: virtual_token,
        total_token_supply: virtual_token,
        status: CurveStatus::Active,
    }
}

#[test]
fn initial_reserves_are_the_deployed_ones() {
    assert_eq!(VIRTUAL_SOL_RESERVES, 30_000_000_000);
    assert_eq!(VIRTUAL_TOKEN_RESERVES, 1_073_000_000_000_000);
    assert_eq!(REAL_TOKEN_RESERVES, 793_100_000_000_000);
    assert_eq!(REAL_SOL_RESERVES, 0);
    assert_eq!(TOTAL_TOKEN_SUPPLY, 1_000_000_000_000_000);
}

#[test]
fn a_new_curve_is_open_with_the_initial_reserves() {
    let curve = fresh_curve();
    assert_eq!(curve.creator, address(1));
    assert_eq!(curve.mint, address(2));
    assert_eq!(curve.authority, address(3));
    assert_eq!(curve.virtual_sol_reserves, 30_000_000_000);
    assert_eq!(curve.virtual_token_reserves, 1_073_000_000_000_000);
    assert_eq!(curve.real_sol_reserves, 0);
    assert_eq!(curve.real_token_reserves, 793_100_000_000_000);
    assert_eq!(curve.total_token_supply, 1_000_000_000_000_000);
    assert_eq!(curve.status, CurveStatus::Active);
    assert!(curve.is_active());
    assert!(!curve.is_bonding_curve_complete());
    assert!(!curve.has_curve_migrated());
}

#[test]
fn status_queries_follow_the_status() {
    let mut curve = fresh_curve();
    curve.status = CurveStatus::Complete;
    assert!(!curve.is_active());
    assert!(curve.is_bonding_curve_complete());
    assert!(!curve.has_curve_migrated());
    curve.status = CurveStatus::Migrated;
    assert!(!curve.is_active());
    assert!(curve.is_bonding_curve_complete());
    assert!(curve.has_curve_migrated());
}

#[test]
fn buy_price_of_the_reference_purchase() {
    // 1_073_000_000_000_000 - ceil(30_000_000_000 * 1_073_000_000_000_000 / 30_990_000_000)
    assert_eq!(fresh_curve().get_buy_price(990_000_000), Ok(34_277_831_558_567));
}

#[test]
fn buy_price_of_nothing_is_nothing() {
    assert_eq!(fresh_curve().get_buy_price(0), Ok(0));
    assert_eq!(small_curve(0, 100, 100).get_buy_price(0), Ok(0));
}

#[test]
fn buy_price_rounds_the_kept_reserve_up() {
    // 700 / 10 is exact: the curve keeps 70 and hands out 30.
    assert_eq!(small_curve(7, 100, 100).get_buy_price(3), Ok(30));
    // 1000 / 20 is exact: the curve keeps 50 and hands out 50.
    assert_eq!(small_curve(10, 100, 100).get_buy_price(10), Ok(50));
    // 1000 / 11 is 90.9..: the curve keeps 91 and hands out 9.
    assert_eq!(small_curve(10, 100, 100).get_buy_price(1), Ok(9));
}

#[test]
fn buy_price_is_capped_by_the_real_reserve() {
    assert_eq!(small_curve(10, 100, 30).get_buy_price(10), Ok(30));
    assert_eq!(small_curve(10, 100, 0).get_buy_price(10), Ok(0));
    assert_eq!(fresh_curve().get_buy_price(u64::MAX), Ok(793_100_000_000_000));
}

#[test]
fn buy_price_of_too_little_is_nothing() {
    // 100 * 1 < 1000 + 1: not one token's worth.
    assert_eq!(small_curve(1_000, 100, 100).get_buy_price(1), Ok(0));
    // The least amount that buys a token on this curve.
    assert_eq!(small_curve(1_000, 100, 100).get_buy_price(10), Ok(0));
    assert_eq!(small_curve(1_000, 100, 100).get_buy_price(11), Ok(1));
}

#[test]
fn buy_price_of_the_smallest_amount_on_a_new_curve() {
    assert_eq!(fresh_curve().get_buy_price(1), Ok(35_766));
}

#[test]
fn buy_price_with_an_empty_quote_reserve() {
    // Nothing is kept back when the virtual quote reserve is empty.
    assert_eq!(small_curve(0, 100, 100).get_buy_price(5), Ok(100));
}

#[test]
fn buy_price_is_refused_once_trading_has_ended() {
    let mut curve = fresh_curve();
    curve.status = CurveStatus::Complete;
    assert_eq!(curve.get_buy_price(990_000_000), Err(Errors::BondingCurveComplete));
    assert_eq!(curve.get_buy_price(0), Err(Errors::BondingCurveComplete));
    curve.status = CurveStatus::Migrated;
    assert_eq!(curve.get_buy_price(1), Err(Errors::BondingCurveComplete));
}

#[test]
fn sell_price_takes_the_fee_off_the_gross_amount() {
    let mut curve = fresh_curve();
    curve.virtual_sol_reserves = 30_990_000_000;
    curve.virtual_token_reserves = 1_038_722_168_441_433;
    curve.real_sol_reserves = 990_000_000;
    curve.real_token_reserves = 758_822_168_441_433;
    // gross 989_999_999, fee 9_899_999
    assert_eq!(curve.get_sell_price(34_277_831_558_567, 100), Ok(980_100_000));
    assert_eq!(curve.get_sell_price(34_277_831_558_567, 0), Ok(989_999_999));
}

#[test]
fn sell_price_rounds_down() {
    // 20 * 10 / 120 = 1.66..
    assert_eq!(small_curve(10, 100, 100).get_sell_price(20, 0), Ok(1));
    // 100 * 10 / 200 = 5, fee 5 * 2500 / 10000 = 1.25 -> 1
    assert_eq!(small_curve(10, 100, 100).get_sell_price(100, 2_500), Ok(4));
}

#[test]
fn sell_price_of_nothing_is_nothing() {
    assert_eq!(fresh_curve().get_sell_price(0, 100), Ok(0));
    assert_eq!(fresh_curve().get_sell_price(0, u64::MAX), Ok(0));
}

#[test]
fn sell_price_at_a_fee_of_one_hundred_percent() {
    assert_eq!(small_curve(10, 100, 100).get_sell_price(100, 10_000), Ok(0));
}

#[test]
fn sell_price_reports_a_fee_above_the_proceeds() {
    // gross 5, fee 5 * 20000 / 10000 = 10
    assert_eq!(small_curve(10, 100, 100).get_sell_price(100, 20_000), Err(Errors::MathOverflow));
    assert_eq!(fresh_curve().get_sell_price(1_000_000_000, u64::MAX), Err(Errors::MathOverflow));
}

#[test]
fn sell_price_is_refused_once_trading_has_ended() {
    let mut curve = fresh_curve();
    curve.status = CurveStatus::Complete;
    assert_eq!(curve.get_sell_price(1_000, 100), Err(Errors::BondingCurveComplete));
    assert_eq!(curve.get_sell_price(0, 100), Err(Errors::BondingCurveComplete));
    curve.status = CurveStatus::Migrated;
    assert_eq!(curve.get_sell_price(1_000, 100), Err(Errors::BondingCurveComplete));
}

#[test]
fn graduation_is_the_exhaustion_of_the_real_reserve() {
    let mut curve = fresh_curve();
    assert_eq!(curve.is_ready_for_graduation(), Ok(false));
    curve.real_token_reserves = 1;
    assert_eq!(curve.is_ready_for_graduation(), Ok(false));
    curve.real_token_reserves = 0;
    assert_eq!(curve.is_ready_for_graduation(), Ok(true));
}

#[test]
fn a_curve_that_has_ended_stays_graduated() {
    let mut curve = fresh_curve();
    curve.status = CurveStatus::Complete;
    assert_eq!(curve.is_ready_for_graduation(), Ok(true));
    curve.status = CurveStatus::Migrated;
    assert_eq!(curve.is_ready_for_graduation(), Ok(true));
}

#[test]
fn market_price_of_a_new_curve() {
    // 30_000_000_000 * 1_000_000_000 / 1_073_000_000_000_000
    assert_eq!(fresh_curve().market_price(1_000_000_000), Ok(27_958));
    assert_eq!(fresh_curve().market_price(0), Ok(0));
}

#[test]
fn market_price_failures() {
    let mut curve = small_curve(10, 0, 0);
    assert_eq!(curve.market_price(1_000), Err(Errors::MathOverflow));
    curve = small_curve(u64::MAX, 1, 1);
    assert_eq!(curve.market_price(2), Err(Errors::MathOverflow));
    curve = fresh_curve();
    curve.status = CurveStatus::Complete;
    assert_eq!(curve.market_price(1_000_000_000), Err(Errors::BondingCurveComplete));
}

#[test]
fn market_cap_of_a_new_curve() {
    // 30_000_000_000 * 1_000_000_000_000_000 / 1_073_000_000_000_000
    assert_eq!(fresh_curve().market_cap(), Ok(27_958_993_476));
}

#[test]
fn market_cap_does_not_depend_on_the_status() {
    let mut curve = fresh_curve();
    curve.status = CurveStatus::Complete;
    assert_eq!(curve.market_cap(), Ok(27_958_993_476));
    curve.status = CurveStatus::Migrated;
    assert_eq!(curve.market_cap(), Ok(27_958_993_476));
}

#[test]
fn market_cap_failures() {
    assert_eq!(small_curve(10, 0, 0).market_cap(), Err(Errors::MathOverflow));
    let mut curve = small_curve(u64::MAX, 2, 2);
    curve.total_token_supply = 3;
    assert_eq!(curve.market_cap(), Err(Errors::MathOverflow));
}
