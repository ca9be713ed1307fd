//! What holds of the curve whatever the inputs: the rounding favours the
//! reserves, a round trip never pays, the life of a curve runs one way.

use vstd::prelude::*;
use crate::errors::Errors;
use crate::math::{
    ceil_div, lemma_ceil_complement, lemma_ceil_div_brackets, lemma_div_brackets, lemma_div_lower,
    lemma_div_upper,
};
use crate::model::{fee_on, CurveState, MigrationResult, TradeResult};
use crate::state::CurveStatus;
use crate::utils::lemma_slippage_floor_within;

verus! {

/// The place of a status in the life of a curve.
pub open spec fn stage(status: CurveStatus) -> nat {
    match status {
        CurveStatus::Active => 0,
        CurveStatus::Complete => 1,
        CurveStatus::Migrated => 2,
    }
}

/// Whether `quote_in`, net of fee, is enough to buy at least one base token
/// at the curve's price.
pub open spec fn buys_a_token(s: CurveState, quote_in: nat) -> bool {
    quote_in > 0 && s.virtual_reserve_base * quote_in >= s.virtual_reserve_quote + quote_in
}

/// The tokens handed out are the rounded-down share
/// `virtual base * quote / (virtual quote + quote)`, capped by the real base
/// reserve, and never more than either base reserve holds.
pub proof fn law_base_out_closed_form(s: CurveState, quote_in: nat)
    requires
        quote_in > 0,
    ensures
        s.base_out(quote_in) == vstd::math::min(
            ((s.virtual_reserve_base * quote_in) / (s.virtual_reserve_quote + quote_in)) as int,
            s.real_reserve_base as int,
        ),
        s.base_out(quote_in) <= s.virtual_reserve_base,
        s.base_out(quote_in) <= s.real_reserve_base,
        s.base_out(quote_in) > 0 <==> s.real_reserve_base > 0 && buys_a_token(s, quote_in),
{
    let d: nat = s.virtual_reserve_quote + quote_in;
    let n: nat = s.virtual_reserve_base * quote_in;
    lemma_ceil_complement(s.virtual_reserve_quote, s.virtual_reserve_base, quote_in);
    lemma_div_brackets(n, d);
    if n >= d {
        lemma_div_lower(n, d, 1);
    } else {
        let q: nat = n / d;
        assert(q == 0) by (nonlinear_arith)
            requires
                d * q <= n,
                n < d,
        ;
    }
}

/// A buy never lowers the product of the virtual reserves: the rounding is
/// in favour of the curve. It lowers the virtual base reserve by what it
/// hands out, which is more than nothing exactly when real base tokens are
/// left and the net amount buys at least one.
pub proof fn law_buy_favours_curve(s: CurveState, fee_bps: nat, quote_in_gross: nat, slippage_bps: nat)
    requires
        s.buy(fee_bps, quote_in_gross, slippage_bps) is Ok,
    ensures
        ({
            let t: TradeResult = s.buy(fee_bps, quote_in_gross, slippage_bps)->Ok_0;
            &&& t.state.k() >= s.k()
            &&& t.quote_amount + t.fee == quote_in_gross
            &&& t.state.virtual_reserve_quote == s.virtual_reserve_quote + t.quote_amount
            &&& t.state.virtual_reserve_base == s.virtual_reserve_base - t.base_amount
            &&& (t.base_amount > 0 <==> s.real_reserve_base > 0 && buys_a_token(s, t.quote_amount))
            &&& (s.real_reserve_base > 0 && buys_a_token(s, t.quote_amount)
                ==> t.state.virtual_reserve_base < s.virtual_reserve_base)
        }),
{
    let t: TradeResult = s.buy(fee_bps, quote_in_gross, slippage_bps)->Ok_0;
    let net: nat = t.quote_amount;
    let base: nat = t.base_amount;
    if net > 0 {
        law_base_out_closed_form(s, net);
        let d: nat = s.virtual_reserve_quote + net;
        let kept: nat = ceil_div(s.k(), d);
        lemma_ceil_complement(s.virtual_reserve_quote, s.virtual_reserve_base, net);
        lemma_ceil_div_brackets(s.k(), d);
        let left: nat = (s.virtual_reserve_base - base) as nat;
        assert(d * left >= d * kept) by (nonlinear_arith)
            requires
                left >= kept,
        ;
        assert(t.state.k() == d * left);
    }
}

/// The price of a sale never lowers the product of the virtual reserves
/// either, and never exceeds the virtual quote reserve.
pub proof fn law_sell_price_favours_curve(s: CurveState, base_in: nat)
    ensures
        s.quote_out(base_in) <= s.virtual_reserve_quote,
        (s.virtual_reserve_quote - s.quote_out(base_in)) * (s.virtual_reserve_base + base_in)
            >= s.k(),
{
    let a: nat = s.virtual_reserve_quote;
    let b: nat = s.virtual_reserve_base;
    if base_in > 0 {
        let d: nat = b + base_in;
        let out: nat = (base_in * a) / d;
        lemma_div_brackets(base_in * a, d);
        assert(base_in * a <= a * d) by (nonlinear_arith)
            requires
                d == b + base_in,
        ;
        lemma_div_upper(base_in * a, d, a);
        assert((a - out) * d >= a * b) by (nonlinear_arith)
            requires
                d * out <= base_in * a,
                d == b + base_in,
                out <= a,
        ;
    } else {
        assert((a - 0) * (b + 0) == a * b) by (nonlinear_arith);
    }
}

/// What an accepted sale moves: the seller receives the price less the
/// fee, and the reserves pay the least amount of which that is what the
/// fee leaves, which by rounding may be more than the price but never less
/// than what the seller receives. At no fee the reserves pay the price
/// itself, and the product of the virtual reserves does not fall.
pub proof fn law_sell_amounts(
    s: CurveState,
    fee_bps: nat,
    balance: nat,
    amount: nat,
    is_percentage: bool,
    slippage_bps: nat,
)
    requires
        s.sell(fee_bps, balance, amount, is_percentage, slippage_bps) is Ok,
    ensures
        ({
            let t: TradeResult = s.sell(fee_bps, balance, amount, is_percentage, slippage_bps)->Ok_0;
            let price: nat = s.quote_out(t.base_amount);
            &&& t.base_amount == CurveState::tokens_to_sell(balance, amount, is_percentage)
            &&& t.fee <= t.quote_amount
            &&& t.quote_amount - t.fee == price - fee_on(price, fee_bps)
            &&& t.quote_amount - t.fee <= price
            &&& t.quote_amount * (10_000 - fee_bps) <= (t.quote_amount - t.fee) * 10_000
            &&& (t.quote_amount - t.fee) * 10_000 < (t.quote_amount + 1) * (10_000 - fee_bps)
            &&& (fee_bps == 0 ==> t.fee == 0 && t.quote_amount == price && t.state.k() >= s.k())
        }),
{
    let t: TradeResult = s.sell(fee_bps, balance, amount, is_percentage, slippage_bps)->Ok_0;
    let tokens: nat = t.base_amount;
    let price: nat = s.quote_out(tokens);
    let net: nat = s.sell_price(tokens, fee_bps)->Ok_0;
    let kept: nat = (10_000 - fee_bps) as nat;
    lemma_recovered_gross_covers_net(net, fee_bps);
    lemma_div_brackets(net * 10_000, kept);
    assert(kept * t.quote_amount == t.quote_amount * (10_000 - fee_bps)) by (nonlinear_arith)
        requires
            kept == 10_000 - fee_bps,
    ;
    assert(kept * t.quote_amount + kept == (t.quote_amount + 1) * (10_000 - fee_bps))
        by (nonlinear_arith)
        requires
            kept == 10_000 - fee_bps,
    ;
    if fee_bps == 0 {
        assert(price * 0 == 0) by (nonlinear_arith);
        assert(fee_on(price, 0) == 0);
        assert(net == price);
        let recovered: nat = (net * 10_000) / kept;
        assert(recovered == net) by (nonlinear_arith)
            requires
                kept == 10_000,
                kept * recovered <= net * 10_000,
                net * 10_000 < kept * recovered + kept,
        ;
        assert(t.quote_amount == price);
        law_sell_price_favours_curve(s, tokens);
        assert(t.state.virtual_reserve_quote == s.virtual_reserve_quote - price);
        assert(t.state.virtual_reserve_base == s.virtual_reserve_base + tokens);
        assert(t.state.k() == (s.virtual_reserve_quote - price) * (s.virtual_reserve_base
            + tokens)) by (nonlinear_arith)
            requires
                t.state.k() == t.state.virtual_reserve_quote * t.state.virtual_reserve_base,
                t.state.virtual_reserve_quote == s.virtual_reserve_quote - price,
                t.state.virtual_reserve_base == s.virtual_reserve_base + tokens,
        ;
    }
}

/// Tokens sold back straight after they were bought fetch, before any fee,
/// at most the quote currency that bought them.
pub proof fn lemma_sell_back_bounded(s: CurveState, quote_in: nat, base_in: nat)
    requires
        base_in <= s.base_out(quote_in),
    ensures
        s.after_buy(quote_in, s.base_out(quote_in)).quote_out(base_in) <= quote_in,
{
    let bought: nat = s.base_out(quote_in);
    if base_in > 0 {
        law_base_out_closed_form(s, quote_in);
        let a: nat = s.virtual_reserve_quote;
        let b: nat = s.virtual_reserve_base;
        let d: nat = a + quote_in;
        let share: nat = (b * quote_in) / d;
        lemma_div_brackets(b * quote_in, d);
        let left: nat = (b - bought) as nat;
        assert(base_in * d <= quote_in * (left + base_in)) by (nonlinear_arith)
            requires
                base_in <= bought,
                bought <= share,
                d * share <= b * quote_in,
                d == a + quote_in,
                left == b - bought,
                bought <= b,
        ;
        lemma_div_upper(base_in * d, left + base_in, quote_in);
    }
}

/// A round trip never pays: whoever buys and at once sells what they
/// bought, or a part of it, receives at most what the purchase cost net of
/// its fee, at any fee and so at none. No later trade is needed for this:
/// it holds of the state the buy left.
pub proof fn law_round_trip_never_profits(
    s: CurveState,
    buy_fee_bps: nat,
    quote_in_gross: nat,
    buy_slippage_bps: nat,
    sell_fee_bps: nat,
    balance: nat,
    amount: nat,
    is_percentage: bool,
    sell_slippage_bps: nat,
)
    requires
        s.buy(buy_fee_bps, quote_in_gross, buy_slippage_bps) is Ok,
        s.buy(buy_fee_bps, quote_in_gross, buy_slippage_bps)->Ok_0.state.sell(
            sell_fee_bps,
            balance,
            amount,
            is_percentage,
            sell_slippage_bps,
        ) is Ok,
        CurveState::tokens_to_sell(balance, amount, is_percentage) <= s.buy(
            buy_fee_bps,
            quote_in_gross,
            buy_slippage_bps,
        )->Ok_0.base_amount,
    ensures
        ({
            let bought: TradeResult = s.buy(buy_fee_bps, quote_in_gross, buy_slippage_bps)->Ok_0;
            let sold: TradeResult = bought.state.sell(
                sell_fee_bps,
                balance,
                amount,
                is_percentage,
                sell_slippage_bps,
            )->Ok_0;
            &&& sold.fee <= sold.quote_amount
            &&& sold.quote_amount - sold.fee <= bought.quote_amount
            &&& sold.quote_amount - sold.fee <= quote_in_gross
        }),
{
    let bought: TradeResult = s.buy(buy_fee_bps, quote_in_gross, buy_slippage_bps)->Ok_0;
    let tokens: nat = CurveState::tokens_to_sell(balance, amount, is_percentage);
    lemma_sell_back_bounded(s, bought.quote_amount, tokens);
    let net: nat = bought.state.sell_price(tokens, sell_fee_bps)->Ok_0;
    lemma_recovered_gross_covers_net(net, sell_fee_bps);
}

/// The gross amount recovered from a net one is at least the net one.
pub proof fn lemma_recovered_gross_covers_net(net: nat, fee_bps: nat)
    requires
        fee_bps < 10_000,
    ensures
        ((net * 10_000) as int) / (10_000 - fee_bps) >= net,
{
    let kept: nat = (10_000 - fee_bps) as nat;
    assert(net * kept <= net * 10_000) by (nonlinear_arith)
        requires
            kept <= 10_000,
    ;
    lemma_div_lower(net * 10_000, kept, net);
}

/// A sale of nothing is refused with `InvalidAmount` on every open curve,
/// whether nothing is named as an amount or as a percentage.
pub proof fn law_sale_of_nothing_is_refused(
    s: CurveState,
    fee_bps: nat,
    balance: nat,
    is_percentage: bool,
    slippage_bps: nat,
)
    requires
        s.status == CurveStatus::Active,
    ensures
        s.sell(fee_bps, balance, 0, is_percentage, slippage_bps) == Err::<TradeResult, Errors>(
            Errors::InvalidAmount,
        ),
{
    assert(balance * 0 == 0) by (nonlinear_arith);
}

/// A buy for nothing is accepted, hands out nothing, charges nothing and
/// leaves the curve as it was.
pub proof fn law_buy_for_nothing_changes_nothing(s: CurveState, fee_bps: nat, slippage_bps: nat)
    requires
        s.wf(),
        s.in_range(),
        s.status == CurveStatus::Active,
        slippage_bps <= 10_000,
    ensures
        s.buy(fee_bps, 0, slippage_bps) == Ok::<TradeResult, Errors>(
            TradeResult { quote_amount: 0, base_amount: 0, fee: 0, state: s },
        ),
{
    assert(0 * fee_bps == 0) by (nonlinear_arith);
    assert(fee_on(0, fee_bps) == 0);
    lemma_slippage_floor_within(0, slippage_bps);
    assert(s.after_buy(0, 0) == s);
}

/// Once trading has ended every buy and every sale is refused with
/// `BondingCurveComplete`, whatever the inputs, and so is every request for
/// a price.
pub proof fn law_no_trade_after_completion(
    s: CurveState,
    fee_bps: nat,
    quote_in_gross: nat,
    balance: nat,
    amount: nat,
    is_percentage: bool,
    slippage_bps: nat,
)
    requires
        s.status != CurveStatus::Active,
    ensures
        s.buy(fee_bps, quote_in_gross, slippage_bps) == Err::<TradeResult, Errors>(
            Errors::BondingCurveComplete,
        ),
        s.sell(fee_bps, balance, amount, is_percentage, slippage_bps) == Err::<TradeResult, Errors>(
            Errors::BondingCurveComplete,
        ),
        s.buy_price(quote_in_gross) == Err::<nat, Errors>(Errors::BondingCurveComplete),
        s.sell_price(amount, fee_bps) == Err::<nat, Errors>(Errors::BondingCurveComplete),
{
}

/// No trade is ever refused for slippage: the floor is taken from the very
/// amount it is held against, so it cannot lie above it.
pub proof fn law_slippage_never_exceeded(
    s: CurveState,
    fee_bps: nat,
    quote_in_gross: nat,
    balance: nat,
    amount: nat,
    is_percentage: bool,
    slippage_bps: nat,
)
    ensures
        s.buy(fee_bps, quote_in_gross, slippage_bps) != Err::<TradeResult, Errors>(
            Errors::SlippageExceeded,
        ),
        s.sell(fee_bps, balance, amount, is_percentage, slippage_bps) != Err::<TradeResult, Errors>(
            Errors::SlippageExceeded,
        ),
{
    if slippage_bps <= 10_000 {
        let net_in: nat = (quote_in_gross - fee_on(quote_in_gross, fee_bps)) as nat;
        lemma_slippage_floor_within(s.base_out(net_in), slippage_bps);
        let tokens: nat = CurveState::tokens_to_sell(balance, amount, is_percentage);
        if s.sell_price(tokens, fee_bps) is Ok {
            lemma_slippage_floor_within(s.sell_price(tokens, fee_bps)->Ok_0, slippage_bps);
        }
    }
}

/// An accepted buy keeps a well-formed curve well-formed and within range,
/// keeps the distance between each virtual reserve and its real one, and
/// ends trading exactly when it takes the last real base token.
pub proof fn law_buy_keeps_invariants(s: CurveState, fee_bps: nat, quote_in_gross: nat, slippage_bps: nat)
    requires
        s.wf(),
        s.in_range(),
        s.buy(fee_bps, quote_in_gross, slippage_bps) is Ok,
    ensures
        ({
            let t: TradeResult = s.buy(fee_bps, quote_in_gross, slippage_bps)->Ok_0;
            &&& t.state.wf()
            &&& t.state.in_range()
            &&& t.state.virtual_reserve_quote - t.state.real_reserve_quote
                == s.virtual_reserve_quote - s.real_reserve_quote
            &&& t.state.virtual_reserve_base - t.state.real_reserve_base == s.virtual_reserve_base
                - s.real_reserve_base
            &&& t.state.total_supply == s.total_supply
            &&& (t.state.status == CurveStatus::Complete) == (t.base_amount == s.real_reserve_base)
            &&& (t.state.status == CurveStatus::Active) == (t.base_amount < s.real_reserve_base)
        }),
{
    let t: TradeResult = s.buy(fee_bps, quote_in_gross, slippage_bps)->Ok_0;
    if t.quote_amount > 0 {
        law_base_out_closed_form(s, t.quote_amount);
    }
}

/// An accepted sale keeps a well-formed curve well-formed and within range,
/// keeps the distance between each virtual reserve and its real one, and
/// leaves the curve open.
pub proof fn law_sell_keeps_invariants(
    s: CurveState,
    fee_bps: nat,
    balance: nat,
    amount: nat,
    is_percentage: bool,
    slippage_bps: nat,
)
    requires
        s.wf(),
        s.in_range(),
        s.sell(fee_bps, balance, amount, is_percentage, slippage_bps) is Ok,
    ensures
        ({
            let t: TradeResult = s.sell(fee_bps, balance, amount, is_percentage, slippage_bps)->Ok_0;
            &&& t.state.wf()
            &&& t.state.in_range()
            &&& t.state.virtual_reserve_quote - t.state.real_reserve_quote
                == s.virtual_reserve_quote - s.real_reserve_quote
            &&& t.state.virtual_reserve_base - t.state.real_reserve_base == s.virtual_reserve_base
                - s.real_reserve_base
            &&& t.state.total_supply == s.total_supply
            &&& t.state.status == CurveStatus::Active
            &&& 0 < t.base_amount <= balance
            &&& t.fee <= t.quote_amount <= s.real_reserve_quote
        }),
{
    let tokens: nat = CurveState::tokens_to_sell(balance, amount, is_percentage);
    let net: nat = s.sell_price(tokens, fee_bps)->Ok_0;
    lemma_recovered_gross_covers_net(net, fee_bps);
}

/// The life of a curve runs one way. A trade moves it from `Active` to
/// `Complete` or not at all, the first step of a migration does not move
/// it, the second moves it from `Complete` to `Migrated`, and nothing moves
/// it back.
pub proof fn law_status_never_goes_back(
    s: CurveState,
    fee_bps: nat,
    quote_in_gross: nat,
    balance: nat,
    amount: nat,
    is_percentage: bool,
    slippage_bps: nat,
    migration_fee: nat,
    held_quote: nat,
    now: int,
)
    ensures
        s.buy(fee_bps, quote_in_gross, slippage_bps) matches Ok(t) ==> stage(s.status) == 0 && stage(
            t.state.status,
        ) <= 1,
        s.sell(fee_bps, balance, amount, is_percentage, slippage_bps) matches Ok(t) ==> stage(
            s.status,
        ) == 0 && t.state.status == s.status,
        s.prepare_migration(migration_fee) matches Ok(m) ==> stage(s.status) == 1 && m.state == s,
        s.execute_migration(held_quote, now) matches Ok(m) ==> stage(s.status) == 1 && stage(
            m.state.status,
        ) == 2,
{
}

/// Migration happens once. On a completed curve the first step changes
/// nothing, the second one, where it is accepted, leaves the curve
/// `Migrated` with its reserves as they were, and from then on either step
/// is refused with `BondingCurveMigrated`, whatever it is called with.
pub proof fn law_migration_happens_once(
    s: CurveState,
    migration_fee: nat,
    held_quote: nat,
    now: int,
    later_fee: nat,
    later_held_quote: nat,
    later: int,
)
    requires
        s.status == CurveStatus::Complete,
        s.prepare_migration(migration_fee) is Ok,
        s.prepare_migration(migration_fee)->Ok_0.state.execute_migration(held_quote, now) is Ok,
    ensures
        ({
            let prepared: MigrationResult = s.prepare_migration(migration_fee)->Ok_0;
            let migrated: MigrationResult = prepared.state.execute_migration(held_quote, now)->Ok_0;
            &&& prepared.state == s
            &&& prepared.quote_amount + prepared.withheld == s.real_reserve_quote
            &&& migrated.state == CurveState { status: CurveStatus::Migrated, ..s }
            &&& migrated.quote_amount + migrated.withheld == held_quote
            &&& migrated.state.execute_migration(later_held_quote, later) == Err::<
                MigrationResult,
                Errors,
            >(Errors::BondingCurveMigrated)
            &&& migrated.state.prepare_migration(later_fee) == Err::<MigrationResult, Errors>(
                Errors::BondingCurveMigrated,
            )
            &&& (s.wf() ==> migrated.state.wf())
        }),
{
}

/// The second step of a migration is owed on every completed curve whose
/// migration authority holds the reserve for the pool's creation, at any
/// time from the epoch on.
pub proof fn law_migration_is_owed(s: CurveState, held_quote: nat, now: int)
    requires
        s.status == CurveStatus::Complete,
        held_quote >= crate::constants::POOL_CREATION_RESERVE,
        now >= 0,
    ensures
        s.execute_migration(held_quote, now) is Ok,
{
}

} // verus!
