//! What each instruction reads, and the record it leaves.
//!
//! A context holds, as plain values, the accounts an instruction works on:
//! their addresses, the balances the instruction looks at, the curve, the
//! deployment's configuration and the clock.

use vstd::prelude::*;
use crate::constants::CurveConfig;
use crate::errors::Errors;
use crate::model::{CurveState, MigrationResult, TradeResult};
use crate::state::{Address, BondingCurve, CurveStatus};

verus! {

/// The tolerance a trade runs with: the one it names, or the default.
pub open spec fn tolerance(config: CurveConfig, requested: Option<u64>) -> nat {
    match requested {
        Some(bps) => bps as nat,
        None => config.default_slippage_bps as nat,
    }
}

/// The accounts of a buy.
#[derive(Clone, Copy, Debug, PartialEq, Eq)]
pub struct Buy {
    pub buyer: Address,
    pub mint: Address,
    pub bonding_curve: BondingCurve,
    pub config: CurveConfig,
    /// The clock's reading, in seconds.
    pub unix_timestamp: i64,
}

impl Buy {
    /// What the model makes of a buy in this context.
    pub open spec fn outcome(self, amount_in_sol: u64, slippage_basis_points: Option<u64>) -> Result<
        TradeResult,
        Errors,
    > {
        self.bonding_curve@.buy(
            self.config.fee_bps as nat,
            amount_in_sol as nat,
            tolerance(self.config, slippage_basis_points),
        )
    }
}

/// The record of an accepted buy. The buyer pays `sol_spent`, of which
/// `fee_paid` goes to the fee sink and the rest to the curve, and receives
/// `tokens_received`.
#[derive(Clone, Copy, Debug, PartialEq, Eq)]
pub struct OnBuyEvent {
    pub buyer: Address,
    pub mint: Address,
    pub sol_spent: u64,
    pub tokens_received: u64,
    pub fee_paid: u64,
    /// The reserves before the trade.
    pub prior_virtual_sol_reserves: u64,
    pub prior_virtual_token_reserves: u64,
    pub prior_real_sol_reserves: u64,
    pub prior_real_token_reserves: u64,
    /// The reserves after the trade.
    pub virtual_sol_reserves: u64,
    pub virtual_token_reserves: u64,
    pub real_sol_reserves: u64,
    pub real_token_reserves: u64,
    pub is_bonding_curve_complete: bool,
    pub timestamp: i64,
}

/// Whether four recorded reserves are those of `state`.
pub open spec fn reserves_are(
    virtual_sol: u64,
    virtual_token: u64,
    real_sol: u64,
    real_token: u64,
    state: CurveState,
) -> bool {
    &&& virtual_sol == state.virtual_reserve_quote
    &&& virtual_token == state.virtual_reserve_base
    &&& real_sol == state.real_reserve_quote
    &&& real_token == state.real_reserve_base
}

impl OnBuyEvent {
    /// Whether this is the record of `trade`, made in `ctx`.
    pub open spec fn records(self, ctx: Buy, trade: TradeResult) -> bool {
        &&& self.buyer == ctx.buyer
        &&& self.mint == ctx.mint
        &&& self.sol_spent == trade.quote_amount + trade.fee
        &&& self.tokens_received == trade.base_amount
        &&& self.fee_paid == trade.fee
        &&& reserves_are(
            self.prior_virtual_sol_reserves,
            self.prior_virtual_token_reserves,
            self.prior_real_sol_reserves,
            self.prior_real_token_reserves,
            ctx.bonding_curve@,
        )
        &&& reserves_are(
            self.virtual_sol_reserves,
            self.virtual_token_reserves,
            self.real_sol_reserves,
            self.real_token_reserves,
            trade.state,
        )
        &&& self.is_bonding_curve_complete == (trade.state.status != CurveStatus::Active)
        &&& self.timestamp == ctx.unix_timestamp
    }
}

/// The accounts of a sale.
#[derive(Clone, Copy, Debug, PartialEq, Eq)]
pub struct Sell {
    pub seller: Address,
    pub mint: Address,
    /// The base tokens the seller holds.
    pub associated_user_amount: u64,
    pub bonding_curve: BondingCurve,
    pub config: CurveConfig,
    /// The clock's reading, in seconds.
    pub unix_timestamp: i64,
}

impl Sell {
    /// What the model makes of a sale in this context.
    pub open spec fn outcome(
        self,
        amount: u64,
        is_percentage: bool,
        slippage_basis_points: Option<u64>,
    ) -> Result<TradeResult, Errors> {
        self.bonding_curve@.sell(
            self.config.fee_bps as nat,
            self.associated_user_amount as nat,
            amount as nat,
            is_percentage,
            tolerance(self.config, slippage_basis_points),
        )
    }
}

/// The record of an accepted sale. The seller hands in `tokens_sold` and
/// receives `sol_received`; the curve pays that and `fee_paid` to the fee
/// sink.
#[derive(Clone, Copy, Debug, PartialEq, Eq)]
pub struct OnSellEvent {
    pub seller: Address,
    pub mint: Address,
    pub tokens_sold: u64,
    pub sol_received: u64,
    pub fee_paid: u64,
    /// The reserves before the trade.
    pub prior_virtual_sol_reserves: u64,
    pub prior_virtual_token_reserves: u64,
    pub prior_real_sol_reserves: u64,
    pub prior_real_token_reserves: u64,
    /// The reserves after the trade.
    pub virtual_sol_reserves: u64,
    pub virtual_token_reserves: u64,
    pub real_sol_reserves: u64,
    pub real_token_reserves: u64,
    pub timestamp: i64,
}

impl OnSellEvent {
    /// Whether this is the record of `trade`, made in `ctx`.
    pub open spec fn records(self, ctx: Sell, trade: TradeResult) -> bool {
        &&& self.seller == ctx.seller
        &&& self.mint == ctx.mint
        &&& self.tokens_sold == trade.base_amount
        &&& self.sol_received == trade.quote_amount - trade.fee
        &&& self.fee_paid == trade.fee
        &&& reserves_are(
            self.prior_virtual_sol_reserves,
            self.prior_virtual_token_reserves,
            self.prior_real_sol_reserves,
            self.prior_real_token_reserves,
            ctx.bonding_curve@,
        )
        &&& reserves_are(
            self.virtual_sol_reserves,
            self.virtual_token_reserves,
            self.real_sol_reserves,
            self.real_token_reserves,
            trade.state,
        )
        &&& self.timestamp == ctx.unix_timestamp
    }
}

/// The accounts of the creation of a curve.
#[derive(Clone, Copy, Debug, PartialEq, Eq)]
pub struct Initialize {
    pub creator: Address,
    pub mint: Address,
    pub mint_authority: Address,
    /// Where the curve is stored.
    pub bonding_curve_address: Address,
    /// The vault that receives the minted supply.
    pub associated_bonding_curve: Address,
    /// The quote currency the creator holds.
    pub creator_lamports: u64,
    pub bonding_curve: BondingCurve,
    pub config: CurveConfig,
    /// The clock's reading, in seconds.
    pub unix_timestamp: i64,
}

/// One creator named in a token's metadata.
#[derive(Clone, Copy, Debug, PartialEq, Eq)]
pub struct MetadataCreator {
    pub address: Address,
    pub verified: bool,
    /// The creator's share of royalties, in percent.
    pub share: u8,
}

/// What is registered as the metadata of a new token.
#[derive(Clone, Debug, PartialEq, Eq)]
pub struct TokenMetadata {
    pub name: String,
    pub symbol: String,
    pub uri: String,
    pub seller_fee_basis_points: u16,
    pub creators: Vec<MetadataCreator>,
    /// Who may change the metadata later, if anyone may.
    pub update_authority: Address,
    pub is_mutable: bool,
}

/// The record of a created curve. The caller registers [`Self::metadata`],
/// mints `total_token_supply` into the vault and moves `fee_paid` from the
/// creator to the fee sink.
#[derive(Clone, Debug, PartialEq, Eq)]
pub struct OnInitializeEvent {
    pub creator: Address,
    pub mint: Address,
    pub bonding_curve: Address,
    pub associated_bonding_curve: Address,
    pub name: String,
    pub symbol: String,
    pub uri: String,
    pub virtual_sol_reserves: u64,
    pub virtual_token_reserves: u64,
    pub real_sol_reserves: u64,
    pub real_token_reserves: u64,
    pub total_token_supply: u64,
    pub fee_paid: u64,
    pub timestamp: i64,
}

impl OnInitializeEvent {
    /// Whether this is the record of the creation in `ctx` of a curve in
    /// the state `created`, under the given name, symbol and address of its
    /// description.
    pub open spec fn records(
        self,
        ctx: Initialize,
        created: CurveState,
        name: Seq<char>,
        symbol: Seq<char>,
        uri: Seq<char>,
    ) -> bool {
        &&& self.creator == ctx.creator
        &&& self.mint == ctx.mint
        &&& self.bonding_curve == ctx.bonding_curve_address
        &&& self.associated_bonding_curve == ctx.associated_bonding_curve
        &&& self.name@ == name
        &&& self.symbol@ == symbol
        &&& self.uri@ == uri
        &&& reserves_are(
            self.virtual_sol_reserves,
            self.virtual_token_reserves,
            self.real_sol_reserves,
            self.real_token_reserves,
            created,
        )
        &&& self.total_token_supply == created.total_supply
        &&& self.fee_paid == ctx.config.initialisation_fee
        &&& self.timestamp == ctx.unix_timestamp
    }

    /// The metadata of the new token: no royalties, the creator as the only
    /// and verified creator with the whole share, and never to be changed.
    pub fn metadata(&self) -> (data: TokenMetadata)
        ensures
            data.name@ == self.name@,
            data.symbol@ == self.symbol@,
            data.uri@ == self.uri@,
            data.seller_fee_basis_points == 0,
            data.creators@ == seq![
                MetadataCreator { address: self.creator, verified: true, share: 100 },
            ],
            data.update_authority == self.creator,
            !data.is_mutable,
    {
        let mut creators: Vec<MetadataCreator> = Vec::new();
        creators.push(MetadataCreator { address: self.creator, verified: true, share: 100 });
        TokenMetadata {
            name: self.name.clone(),
            symbol: self.symbol.clone(),
            uri: self.uri.clone(),
            seller_fee_basis_points: 0,
            creators,
            update_authority: self.creator,
            is_mutable: false,
        }
    }
}

/// The accounts of the first step of a migration.
#[derive(Clone, Copy, Debug, PartialEq, Eq)]
pub struct PrepareCurveMigration {
    pub mint: Address,
    /// Where the curve is stored.
    pub bonding_curve_address: Address,
    pub migration_authority: Address,
    /// The base tokens in the curve's vault.
    pub associated_bonding_curve_amount: u64,
    pub bonding_curve: BondingCurve,
    pub config: CurveConfig,
    /// The clock's reading, in seconds.
    pub unix_timestamp: i64,
}

impl PrepareCurveMigration {
    /// What the model makes of the step in this context.
    pub open spec fn outcome(self) -> Result<MigrationResult, Errors> {
        self.bonding_curve@.prepare_migration(self.config.migration_fee as nat)
    }
}

/// The record of a prepared migration. The caller moves `tokens_moved` base
/// tokens and `net_sol_amount` of quote currency from the curve to the
/// migration authority, and `fee_paid` from the curve to the fee sink.
#[derive(Clone, Copy, Debug, PartialEq, Eq)]
pub struct CurveMigrationPrepared {
    pub mint: Address,
    pub bonding_curve: Address,
    pub migration_authority: Address,
    /// The real base reserve of the curve.
    pub token_amount: u64,
    /// The real quote reserve of the curve, fee included.
    pub sol_amount: u64,
    /// The whole content of the curve's vault.
    pub tokens_moved: u64,
    pub net_sol_amount: u64,
    pub fee_paid: u64,
    pub timestamp: i64,
}

impl CurveMigrationPrepared {
    /// Whether this is the record of `step`, taken in `ctx`.
    pub open spec fn records(self, ctx: PrepareCurveMigration, step: MigrationResult) -> bool {
        &&& self.mint == ctx.mint
        &&& self.bonding_curve == ctx.bonding_curve_address
        &&& self.migration_authority == ctx.migration_authority
        &&& self.token_amount == step.state.real_reserve_base
        &&& self.sol_amount == step.quote_amount + step.withheld
        &&& self.tokens_moved == ctx.associated_bonding_curve_amount
        &&& self.net_sol_amount == step.quote_amount
        &&& self.fee_paid == step.withheld
        &&& self.timestamp == ctx.unix_timestamp
    }
}

/// The accounts of the second step of a migration. `mint_0` is the wrapped
/// quote currency, `mint_1` the curve's token.
#[derive(Clone, Copy, Debug, PartialEq, Eq)]
pub struct InitializeRaydiumPool {
    pub mint_0: Address,
    pub mint_1: Address,
    pub pool_state: Address,
    pub lp_mint: Address,
    pub migration_authority: Address,
    /// Where the curve is stored.
    pub bonding_curve_address: Address,
    /// The quote currency the migration authority holds.
    pub migration_authority_lamports: u64,
    /// The base tokens the migration authority holds.
    pub associated_migration_authority_amount: u64,
    pub bonding_curve: BondingCurve,
    /// The clock's reading, in seconds.
    pub unix_timestamp: i64,
}

impl InitializeRaydiumPool {
    /// What the model makes of the step in this context.
    pub open spec fn outcome(self) -> Result<MigrationResult, Errors> {
        self.bonding_curve@.execute_migration(
            self.migration_authority_lamports as nat,
            self.unix_timestamp as int,
        )
    }
}

/// The record of a created pool. The caller wraps `initial_token_0_amount`
/// of the migration authority's quote currency, creates the pool with it
/// and with `initial_token_1_amount` base tokens, to open at `open_time`,
/// and sweeps what the migration authority has left to the operator.
#[derive(Clone, Copy, Debug, PartialEq, Eq)]
pub struct RaydiumPoolInitialized {
    pub mint_0: Address,
    pub mint_1: Address,
    pub pool_state: Address,
    pub lp_mint: Address,
    pub migration_authority: Address,
    pub bonding_curve: Address,
    pub initial_token_0_amount: u64,
    pub initial_token_1_amount: u64,
    /// Not known when the record is made: always zero.
    pub lp_tokens_minted: u64,
    pub open_time: u64,
    pub timestamp: i64,
}

impl RaydiumPoolInitialized {
    /// Whether this is the record of `step`, taken in `ctx`.
    pub open spec fn records(self, ctx: InitializeRaydiumPool, step: MigrationResult) -> bool {
        &&& self.mint_0 == ctx.mint_0
        &&& self.mint_1 == ctx.mint_1
        &&& self.pool_state == ctx.pool_state
        &&& self.lp_mint == ctx.lp_mint
        &&& self.migration_authority == ctx.migration_authority
        &&& self.bonding_curve == ctx.bonding_curve_address
        &&& self.initial_token_0_amount == step.quote_amount
        &&& self.initial_token_1_amount == ctx.associated_migration_authority_amount
        &&& self.lp_tokens_minted == 0
        &&& self.open_time == ctx.unix_timestamp
        &&& self.timestamp == ctx.unix_timestamp
    }
}

} // verus!
