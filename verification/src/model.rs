//! The curve as mathematics: reserves are natural numbers, and every
//! operation is a function from a state and its inputs to a result.

use vstd::prelude::*;
use crate::constants::{
    POOL_CREATION_RESERVE, REAL_SOL_RESERVES, REAL_TOKEN_RESERVES, TOTAL_TOKEN_SUPPLY,
    VIRTUAL_SOL_RESERVES, VIRTUAL_TOKEN_RESERVES,
};
use crate::errors::Errors;
use crate::math::ceil_div;
use crate::state::{Address, CurveStatus};

verus! {

/// The fee on `amount` at `fee_bps` basis points, rounded down.
pub open spec fn fee_on(amount: nat, fee_bps: nat) -> nat {
    (amount * fee_bps) / 10_000
}

/// The least amount a trade may return when `amount` is expected and
/// `slippage_bps` basis points of deviation are tolerated.
pub open spec fn slippage_floor(amount: nat, slippage_bps: nat) -> nat
    recommends
        slippage_bps <= 10_000,
{
    ((amount * (10_000 - slippage_bps)) / 10_000) as nat
}

/// The state of one curve.
pub struct CurveState {
    pub creator: Address,
    pub asset_id: Address,
    pub authority: Address,
    pub virtual_reserve_quote: nat,
    pub virtual_reserve_base: nat,
    pub real_reserve_quote: nat,
    pub real_reserve_base: nat,
    pub total_supply: nat,
    pub status: CurveStatus,
}

/// What an accepted trade did.
pub struct TradeResult {
    /// Quote currency that entered (buy) or left (sell) the reserves.
    pub quote_amount: nat,
    /// Base tokens that left (buy) or entered (sell) the reserves.
    pub base_amount: nat,
    /// Quote currency owed to the fee sink: on top of `quote_amount` for a
    /// buy, out of it for a sell.
    pub fee: nat,
    /// The curve after the trade.
    pub state: CurveState,
}

/// What an accepted migration step moves.
pub struct MigrationResult {
    /// Quote currency handed on.
    pub quote_amount: nat,
    /// Quote currency kept back: the fee of the first step, the reserve for
    /// the pool's creation in the second.
    pub withheld: nat,
    /// The curve after the step.
    pub state: CurveState,
}

impl CurveState {
    /// A curve as it is created.
    pub open spec fn initial(creator: Address, asset_id: Address, authority: Address) -> CurveState {
        CurveState {
            creator,
            asset_id,
            authority,
            virtual_reserve_quote: VIRTUAL_SOL_RESERVES as nat,
            virtual_reserve_base: VIRTUAL_TOKEN_RESERVES as nat,
            real_reserve_quote: REAL_SOL_RESERVES as nat,
            real_reserve_base: REAL_TOKEN_RESERVES as nat,
            total_supply: TOTAL_TOKEN_SUPPLY as nat,
            status: CurveStatus::Active,
        }
    }

    /// What holds of a curve at every moment of its life: the real base
    /// reserve is part of the virtual one, and trading is open exactly as
    /// long as some of it is left.
    pub open spec fn wf(self) -> bool {
        &&& self.real_reserve_base <= self.virtual_reserve_base
        &&& (self.status == CurveStatus::Active) == (self.real_reserve_base > 0)
    }

    /// The product of the virtual reserves.
    pub open spec fn k(self) -> nat {
        self.virtual_reserve_quote * self.virtual_reserve_base
    }

    /// The base tokens handed out for `quote_in`, whatever the status.
    pub open spec fn base_out(self, quote_in: nat) -> nat {
        if quote_in == 0 {
            0
        } else {
            let kept: nat = ceil_div(self.k(), self.virtual_reserve_quote + quote_in);
            let owed: nat = (self.virtual_reserve_base - kept) as nat;
            if owed <= self.real_reserve_base {
                owed
            } else {
                self.real_reserve_base
            }
        }
    }

    /// The base tokens that `quote_in`, net of fee, buys.
    pub open spec fn buy_price(self, quote_in: nat) -> Result<nat, Errors> {
        if self.status != CurveStatus::Active {
            Err(Errors::BondingCurveComplete)
        } else {
            Ok(self.base_out(quote_in))
        }
    }

    /// The quote currency paid out for `base_in` before the fee, whatever
    /// the status.
    pub open spec fn quote_out(self, base_in: nat) -> nat {
        if base_in == 0 {
            0
        } else {
            (base_in * self.virtual_reserve_quote) / (self.virtual_reserve_base + base_in)
        }
    }

    /// The quote currency that selling `base_in` returns after the fee.
    pub open spec fn sell_price(self, base_in: nat, fee_bps: nat) -> Result<nat, Errors> {
        if self.status != CurveStatus::Active {
            Err(Errors::BondingCurveComplete)
        } else {
            let gross: nat = self.quote_out(base_in);
            let fee: nat = fee_on(gross, fee_bps);
            if fee > gross {
                Err(Errors::MathOverflow)
            } else {
                Ok((gross - fee) as nat)
            }
        }
    }

    /// The price of one base token, times `scale`.
    pub open spec fn market_price(self, scale: nat) -> Result<nat, Errors> {
        let price: nat = (self.virtual_reserve_quote * scale) / self.virtual_reserve_base;
        if self.status != CurveStatus::Active {
            Err(Errors::BondingCurveComplete)
        } else if self.virtual_reserve_base == 0 || price > u64::MAX {
            Err(Errors::MathOverflow)
        } else {
            Ok(price)
        }
    }

    /// The value of the whole supply at the current price.
    pub open spec fn market_cap(self) -> Result<nat, Errors> {
        let cap: nat = (self.virtual_reserve_quote * self.total_supply) / self.virtual_reserve_base;
        if self.virtual_reserve_base == 0 || cap > u64::MAX {
            Err(Errors::MathOverflow)
        } else {
            Ok(cap)
        }
    }

    /// Whether trading has ended or has to end now.
    pub open spec fn is_graduated(self) -> bool {
        self.status != CurveStatus::Active || self.real_reserve_base == 0
    }

    /// Whether every quantity of the state fits 64 bits, as it does in every
    /// state that is a view of a stored curve.
    pub open spec fn in_range(self) -> bool {
        &&& self.virtual_reserve_quote <= u64::MAX
        &&& self.virtual_reserve_base <= u64::MAX
        &&& self.real_reserve_quote <= u64::MAX
        &&& self.real_reserve_base <= u64::MAX
        &&& self.total_supply <= u64::MAX
    }

    /// The curve after `quote_in` has come in and `base_out` has gone out.
    /// Trading ends with the last real base token.
    pub open spec fn after_buy(self, quote_in: nat, base_out: nat) -> CurveState {
        CurveState {
            virtual_reserve_quote: self.virtual_reserve_quote + quote_in,
            virtual_reserve_base: (self.virtual_reserve_base - base_out) as nat,
            real_reserve_quote: self.real_reserve_quote + quote_in,
            real_reserve_base: (self.real_reserve_base - base_out) as nat,
            status: if self.real_reserve_base <= base_out {
                CurveStatus::Complete
            } else {
                self.status
            },
            ..self
        }
    }

    /// The curve after `base_in` has come in and `quote_out` has gone out.
    pub open spec fn after_sell(self, base_in: nat, quote_out: nat) -> CurveState {
        CurveState {
            virtual_reserve_quote: (self.virtual_reserve_quote - quote_out) as nat,
            virtual_reserve_base: self.virtual_reserve_base + base_in,
            real_reserve_quote: (self.real_reserve_quote - quote_out) as nat,
            real_reserve_base: self.real_reserve_base + base_in,
            ..self
        }
    }

    /// A buy of `quote_in_gross`, fee included.
    ///
    /// The fee is taken first and the rest is priced. The result is refused
    /// with `BondingCurveComplete` when trading has ended, with
    /// `SlippageExceeded` when the tokens bought fall short of their own
    /// slippage floor, and with `MathOverflow` when the fee exceeds the
    /// amount, the tolerance exceeds one hundred percent, or a quote reserve
    /// would leave 64 bits.
    pub open spec fn buy(self, fee_bps: nat, quote_in_gross: nat, slippage_bps: nat) -> Result<
        TradeResult,
        Errors,
    > {
        let fee: nat = fee_on(quote_in_gross, fee_bps);
        let net: nat = (quote_in_gross - fee) as nat;
        let base: nat = self.base_out(net);
        if self.status != CurveStatus::Active {
            Err(Errors::BondingCurveComplete)
        } else if fee > quote_in_gross || slippage_bps > 10_000 {
            Err(Errors::MathOverflow)
        } else if base < slippage_floor(base, slippage_bps) {
            Err(Errors::SlippageExceeded)
        } else if self.virtual_reserve_quote + net > u64::MAX || self.real_reserve_quote + net
            > u64::MAX {
            Err(Errors::MathOverflow)
        } else {
            Ok(TradeResult { quote_amount: net, base_amount: base, fee, state: self.after_buy(net, base) })
        }
    }

    /// The base tokens a sale is about: `amount` itself, or `amount` basis
    /// points of `balance`, rounded down.
    pub open spec fn tokens_to_sell(balance: nat, amount: nat, is_percentage: bool) -> nat {
        if is_percentage {
            (balance * amount) / 10_000
        } else {
            amount
        }
    }

    /// A sale by a holder of `balance` base tokens.
    ///
    /// The checks come in this order: trading open (`BondingCurveComplete`),
    /// a percentage of at most 10000 (`InvalidPercentage`), enough tokens
    /// held (`InsufficientTokenBalance`), a sale of more than nothing
    /// (`InvalidAmount`), the pricing with its fee and the tolerance
    /// (`MathOverflow`), the slippage floor (`SlippageExceeded`), the gross
    /// amount recovered from the net one (`MathOverflow`), enough quote
    /// currency held (`InsufficientReserves`), and the four reserves staying
    /// within 64 bits (`MathOverflow`).
    pub open spec fn sell(
        self,
        fee_bps: nat,
        balance: nat,
        amount: nat,
        is_percentage: bool,
        slippage_bps: nat,
    ) -> Result<TradeResult, Errors> {
        let tokens: nat = Self::tokens_to_sell(balance, amount, is_percentage);
        if self.status != CurveStatus::Active {
            Err(Errors::BondingCurveComplete)
        } else if is_percentage && amount > 10_000 {
            Err(Errors::InvalidPercentage)
        } else if tokens > balance {
            Err(Errors::InsufficientTokenBalance)
        } else if tokens == 0 {
            Err(Errors::InvalidAmount)
        } else {
            match self.sell_price(tokens, fee_bps) {
                Err(e) => Err(e),
                Ok(net) => {
                    let gross: nat = (((net * 10_000) as int) / (10_000 - fee_bps)) as nat;
                    if slippage_bps > 10_000 {
                        Err(Errors::MathOverflow)
                    } else if net < slippage_floor(net, slippage_bps) {
                        Err(Errors::SlippageExceeded)
                    } else if fee_bps >= 10_000 || gross > u64::MAX {
                        Err(Errors::MathOverflow)
                    } else if self.real_reserve_quote < gross {
                        Err(Errors::InsufficientReserves)
                    } else if self.virtual_reserve_base + tokens > u64::MAX
                        || self.real_reserve_base + tokens > u64::MAX
                        || self.virtual_reserve_quote < gross {
                        Err(Errors::MathOverflow)
                    } else {
                        Ok(
                            TradeResult {
                                quote_amount: gross,
                                base_amount: tokens,
                                fee: (gross - net) as nat,
                                state: self.after_sell(tokens, gross),
                            },
                        )
                    }
                },
            }
        }
    }

    /// The first step of a migration: the reserves, less `migration_fee`,
    /// are handed to the migration authority. The curve itself is left as it
    /// is, so nothing in the state tells that the step has been taken.
    pub open spec fn prepare_migration(self, migration_fee: nat) -> Result<MigrationResult, Errors> {
        match self.status {
            CurveStatus::Active => Err(Errors::BondingCurveNotComplete),
            CurveStatus::Migrated => Err(Errors::BondingCurveMigrated),
            CurveStatus::Complete => if self.real_reserve_quote < migration_fee {
                Err(Errors::MathOverflow)
            } else {
                Ok(
                    MigrationResult {
                        quote_amount: (self.real_reserve_quote - migration_fee) as nat,
                        withheld: migration_fee,
                        state: self,
                    },
                )
            },
        }
    }

    /// The second step of a migration: of the `held_quote` that the
    /// migration authority holds, all but the reserve for the pool's
    /// creation goes into the pool, which opens at `now`. The curve becomes
    /// `Migrated`, once and for all.
    pub open spec fn execute_migration(self, held_quote: nat, now: int) -> Result<
        MigrationResult,
        Errors,
    > {
        match self.status {
            CurveStatus::Active => Err(Errors::BondingCurveNotComplete),
            CurveStatus::Migrated => Err(Errors::BondingCurveMigrated),
            CurveStatus::Complete => if held_quote < POOL_CREATION_RESERVE {
                Err(Errors::InsufficientFunds)
            } else if now < 0 {
                Err(Errors::MathOverflow)
            } else {
                Ok(
                    MigrationResult {
                        quote_amount: (held_quote - POOL_CREATION_RESERVE) as nat,
                        withheld: POOL_CREATION_RESERVE as nat,
                        state: CurveState { status: CurveStatus::Migrated, ..self },
                    },
                )
            },
        }
    }
}

} // verus!
