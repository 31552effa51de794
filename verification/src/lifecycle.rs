//! Fund construction and the lifecycle stage machine.
//!
//! A fund is built in three phases (base record, share asset, vault
//! accounts), each of which checks that the previous phase completed.
//! The stage machine then drives the fund forward through Open, Trading,
//! Settlement and Closed; every transition is guarded by the externally
//! supplied clock and no transition ever goes backwards.

use crate::errors::FundError;
use crate::state::{bps_fee, stage_step, FundStage, FundState, ProtocolConfig};
use vstd::prelude::*;

verus! {

/// Creates the protocol configuration with its default caps: 3% on
/// deposit fees and 30% on performance fees.  The remaining caps and the
/// default epoch interval start at zero until the admin raises them.
pub fn initialize_protocol(admin: u64, allowed_trade_venue: u64, usdc_mint: u64) -> (config:
    ProtocolConfig)
    ensures
        config == (ProtocolConfig {
            admin,
            max_deposit_fee_bps: 300,
            max_perf_fee_bps: 3000,
            max_early_exit_fee_bps: 0,
            min_buffer_bps: 0,
            default_epoch_interval_secs: 0,
            allowed_trade_venue,
            usdc_mint,
            protocol_fee_recipient: admin,
        }),
        config.wf(),
{
    ProtocolConfig {
        admin,
        max_deposit_fee_bps: 300,
        max_perf_fee_bps: 3000,
        max_early_exit_fee_bps: 0,
        min_buffer_bps: 0,
        default_epoch_interval_secs: 0,
        allowed_trade_venue,
        usdc_mint,
        protocol_fee_recipient: admin,
    }
}

/// The first guard of `create_fund` that fails, if any, in the order the
/// guards are checked.
pub open spec fn create_fund_err(
    config: ProtocolConfig,
    name: Seq<u8>,
    symbol: Seq<u8>,
    deposit_fee_bps: u16,
    perf_fee_bps: u16,
    trading_start_ts: i64,
    trading_end_ts: i64,
    now: i64,
) -> Option<FundError> {
    if name.len() == 0 {
        Some(FundError::NameEmpty)
    } else if name.len() > 32 {
        Some(FundError::NameTooLong)
    } else if symbol.len() == 0 {
        Some(FundError::SymbolEmpty)
    } else if symbol.len() > 8 {
        Some(FundError::SymbolTooLong)
    } else if deposit_fee_bps > config.max_deposit_fee_bps {
        Some(FundError::DepositFeeExceedsMax)
    } else if perf_fee_bps > config.max_perf_fee_bps {
        Some(FundError::PerfFeeExceedsMax)
    } else if trading_start_ts <= now {
        Some(FundError::TradingStartInPast)
    } else if trading_end_ts <= trading_start_ts {
        Some(FundError::InvalidTradingPeriod)
    } else {
        None
    }
}

/// Creates the base fund record (phase one of three).
///
/// The name and symbol must be non-empty and bounded, the fee rates must
/// respect the protocol caps, and the trading window must start after
/// `now` and end after it starts.  The new fund is Open, holds no shares,
/// carries the default early exit fee, liquidity buffer and epoch
/// interval, and has no share asset or vault accounts yet.
pub fn create_fund(
    config: &ProtocolConfig,
    fund_id: u64,
    manager: u64,
    name: Vec<u8>,
    symbol: Vec<u8>,
    deposit_fee_bps: u16,
    perf_fee_bps: u16,
    trading_start_ts: i64,
    trading_end_ts: i64,
    now: i64,
) -> (r: Result<FundState, FundError>)
    requires
        config.wf(),
    ensures
        (match create_fund_err(
            *config,
            name@,
            symbol@,
            deposit_fee_bps,
            perf_fee_bps,
            trading_start_ts,
            trading_end_ts,
            now,
        ) {
            Some(e) => r == Result::<FundState, FundError>::Err(e),
            None => {
                &&& r matches Ok(fund)
                &&& fund.fund_id == fund_id
                &&& fund.manager == manager
                &&& fund.name@ == name@
                &&& fund.symbol@ == symbol@
                &&& fund.deposit_fee_bps == deposit_fee_bps
                &&& fund.perf_fee_bps == perf_fee_bps
                &&& fund.early_exit_fee_bps == 500
                &&& fund.liquidity_buffer_bps == 1000
                &&& fund.trading_start_ts == trading_start_ts
                &&& fund.trading_end_ts == trading_end_ts
                &&& fund.stage == FundStage::Open
                &&& fund.pending_withdrawal_shares == 0
                &&& fund.last_epoch_ts == 0
                &&& fund.epoch_interval_secs == 86400
                &&& fund.pending_request_count == 0
                &&& fund.initial_aum_usdc == 0
                &&& fund.perf_fee_due_usdc == 0
                &&& fund.perf_fee_paid == false
                &&& fund.total_deposited == 0
                &&& fund.share_mint == 0
                &&& fund.vault_authority == 0
                &&& fund.vault_usdc_ata == 0
                &&& fund.manager_fee_ata == 0
                &&& fund.usdc_mint == config.usdc_mint
                &&& fund.total_shares == 0
                &&& fund.wf()
            },
        }),
{
    if name.len() == 0 {
        return Err(FundError::NameEmpty);
    }
    if name.len() > 32 {
        return Err(FundError::NameTooLong);
    }
    if symbol.len() == 0 {
        return Err(FundError::SymbolEmpty);
    }
    if symbol.len() > 8 {
        return Err(FundError::SymbolTooLong);
    }
    if deposit_fee_bps > config.max_deposit_fee_bps {
        return Err(FundError::DepositFeeExceedsMax);
    }
    if perf_fee_bps > config.max_perf_fee_bps {
        return Err(FundError::PerfFeeExceedsMax);
    }
    if trading_start_ts <= now {
        return Err(FundError::TradingStartInPast);
    }
    if trading_end_ts <= trading_start_ts {
        return Err(FundError::InvalidTradingPeriod);
    }
    Ok(
        FundState {
            fund_id,
            manager,
            name,
            symbol,
            deposit_fee_bps,
            perf_fee_bps,
            early_exit_fee_bps: 500,
            liquidity_buffer_bps: 1000,
            trading_start_ts,
            trading_end_ts,
            stage: FundStage::Open,
            pending_withdrawal_shares: 0,
            last_epoch_ts: 0,
            epoch_interval_secs: 86400,
            pending_request_count: 0,
            initial_aum_usdc: 0,
            perf_fee_due_usdc: 0,
            perf_fee_paid: false,
            total_deposited: 0,
            share_mint: 0,
            vault_authority: 0,
            vault_usdc_ata: 0,
            manager_fee_ata: 0,
            usdc_mint: config.usdc_mint,
            total_shares: 0,
        },
    )
}

/// The first guard of `initialize_share_mint` that fails, if any.
pub open spec fn initialize_share_mint_err(fund: FundState, manager: u64) -> Option<FundError> {
    if manager != fund.manager {
        Some(FundError::UnauthorizedManager)
    } else if fund.stage != FundStage::Open {
        Some(FundError::InvalidStage)
    } else if fund.share_mint != 0 {
        Some(FundError::InvalidStage)
    } else {
        None
    }
}

/// Records the share asset and the vault authority (phase two of three).
///
/// Only the manager may run it, only while the fund is Open, and only
/// once: a fund whose share asset is already set is past this phase.
pub fn initialize_share_mint(
    fund: &mut FundState,
    manager: u64,
    share_mint: u64,
    vault_authority: u64,
) -> (r: Result<(), FundError>)
    requires
        share_mint != 0,
        vault_authority != 0,
    ensures
        (match initialize_share_mint_err(*old(fund), manager) {
            Some(e) => r == Result::<(), FundError>::Err(e) && *final(fund) == *old(fund),
            None => r == Result::<(), FundError>::Ok(()) && *final(fund) == (FundState {
                share_mint,
                vault_authority,
                ..*old(fund)
            }),
        }),
{
    if manager != fund.manager {
        return Err(FundError::UnauthorizedManager);
    }
    if fund.stage != FundStage::Open {
        return Err(FundError::InvalidStage);
    }
    if fund.share_mint != 0 {
        return Err(FundError::InvalidStage);
    }
    fund.share_mint = share_mint;
    fund.vault_authority = vault_authority;
    Ok(())
}

/// The first guard of `initialize_vault_accounts` that fails, if any.
pub open spec fn initialize_vault_accounts_err(fund: FundState, manager: u64) -> Option<
    FundError,
> {
    if manager != fund.manager {
        Some(FundError::UnauthorizedManager)
    } else if fund.stage != FundStage::Open {
        Some(FundError::InvalidStage)
    } else if fund.share_mint == 0 {
        Some(FundError::InvalidStage)
    } else if fund.vault_usdc_ata != 0 {
        Some(FundError::InvalidStage)
    } else {
        None
    }
}

/// Records the vault's asset account and the manager's fee account
/// (phase three of three).
///
/// Only the manager may run it, only while the fund is Open, only after
/// the share asset exists, and only once.
pub fn initialize_vault_accounts(
    fund: &mut FundState,
    manager: u64,
    vault_usdc_ata: u64,
    manager_fee_ata: u64,
) -> (r: Result<(), FundError>)
    requires
        vault_usdc_ata != 0,
    ensures
        (match initialize_vault_accounts_err(*old(fund), manager) {
            Some(e) => r == Result::<(), FundError>::Err(e) && *final(fund) == *old(fund),
            None => r == Result::<(), FundError>::Ok(()) && *final(fund) == (FundState {
                vault_usdc_ata,
                manager_fee_ata,
                ..*old(fund)
            }),
        }),
{
    if manager != fund.manager {
        return Err(FundError::UnauthorizedManager);
    }
    if fund.stage != FundStage::Open {
        return Err(FundError::InvalidStage);
    }
    if fund.share_mint == 0 {
        return Err(FundError::InvalidStage);
    }
    if fund.vault_usdc_ata != 0 {
        return Err(FundError::InvalidStage);
    }
    fund.vault_usdc_ata = vault_usdc_ata;
    fund.manager_fee_ata = manager_fee_ata;
    Ok(())
}

/// The first guard of `start_trading` that fails, if any.
pub open spec fn start_trading_err(fund: FundState, now: i64) -> Option<FundError> {
    if fund.stage != FundStage::Open {
        Some(FundError::InvalidStage)
    } else if now < fund.trading_start_ts {
        Some(FundError::TradingNotStarted)
    } else {
        None
    }
}

/// Moves an Open fund into Trading once the trading window has opened,
/// snapshotting the vault balance as the initial assets under management
/// for the later performance fee.
pub fn start_trading(fund: &mut FundState, vault_balance: u64, now: i64) -> (r: Result<
    (),
    FundError,
>)
    ensures
        (match start_trading_err(*old(fund), now) {
            Some(e) => r == Result::<(), FundError>::Err(e) && *final(fund) == *old(fund),
            None => r == Result::<(), FundError>::Ok(()) && *final(fund) == (FundState {
                stage: FundStage::Trading,
                initial_aum_usdc: vault_balance,
                ..*old(fund)
            }) && stage_step(old(fund).stage, final(fund).stage),
        }),
{
    if fund.stage != FundStage::Open {
        return Err(FundError::InvalidStage);
    }
    if now < fund.trading_start_ts {
        return Err(FundError::TradingNotStarted);
    }
    fund.initial_aum_usdc = vault_balance;
    fund.stage = FundStage::Trading;
    Ok(())
}

/// The first guard of `end_trading` that fails, if any.
pub open spec fn end_trading_err(fund: FundState, now: i64) -> Option<FundError> {
    if fund.stage != FundStage::Trading {
        Some(FundError::InvalidStage)
    } else if now < fund.trading_end_ts {
        Some(FundError::TradingNotEnded)
    } else {
        None
    }
}

/// Moves a Trading fund into Settlement once the trading window has
/// closed.  No new trades are legal afterwards; the manager must close
/// external positions before finalization.
pub fn end_trading(fund: &mut FundState, now: i64) -> (r: Result<(), FundError>)
    ensures
        (match end_trading_err(*old(fund), now) {
            Some(e) => r == Result::<(), FundError>::Err(e) && *final(fund) == *old(fund),
            None => r == Result::<(), FundError>::Ok(()) && *final(fund) == (FundState {
                stage: FundStage::Settlement,
                ..*old(fund)
            }) && stage_step(old(fund).stage, final(fund).stage),
        }),
{
    if fund.stage != FundStage::Trading {
        return Err(FundError::InvalidStage);
    }
    if now < fund.trading_end_ts {
        return Err(FundError::TradingNotEnded);
    }
    fund.stage = FundStage::Settlement;
    Ok(())
}

/// The profit realized over the trading window: the excess of the final
/// vault balance over the initial assets under management, or zero.
pub open spec fn profit_spec(initial_aum: int, final_balance: int) -> int {
    if final_balance > initial_aum {
        final_balance - initial_aum
    } else {
        0
    }
}

/// Moves a Settlement fund into Closed (the terminal stage), computing
/// the performance fee on the profit over the trading window.  The fee is
/// recorded as due and paid lazily by the first redemption.
///
/// The caller must have closed every external position first, so that the
/// vault holds only the denomination asset; this engine takes that as a
/// precondition of its collaborators and does not check it.
pub fn finalize_close(fund: &mut FundState, vault_balance: u64) -> (r: Result<(), FundError>)
    requires
        old(fund).wf(),
    ensures
        (match (if old(fund).stage != FundStage::Settlement {
            Some(FundError::InvalidStage)
        } else {
            None::<FundError>
        }) {
            Some(e) => r == Result::<(), FundError>::Err(e) && *final(fund) == *old(fund),
            None => r == Result::<(), FundError>::Ok(()) && *final(fund) == (FundState {
                stage: FundStage::Closed,
                perf_fee_due_usdc: bps_fee(
                    profit_spec(old(fund).initial_aum_usdc as int, vault_balance as int),
                    old(fund).perf_fee_bps as int,
                ) as u64,
                perf_fee_paid: false,
                ..*old(fund)
            }) && stage_step(old(fund).stage, final(fund).stage),
        }),
        final(fund).wf(),
{
    if fund.stage != FundStage::Settlement {
        return Err(FundError::InvalidStage);
    }
    let profit: u64 = if vault_balance > fund.initial_aum_usdc {
        vault_balance - fund.initial_aum_usdc
    } else {
        0
    };
    let perf_fee: u64 = fund.calculate_perf_fee(profit);
    fund.perf_fee_due_usdc = perf_fee;
    fund.perf_fee_paid = false;
    fund.stage = FundStage::Closed;
    Ok(())
}

/// The intent of one trade against the external venue.  This engine
/// validates and accepts the intent; routing it to the venue is the
/// caller's trade-execution collaborator, which moves no funds here.
#[derive(Debug)]
pub struct TradeParams {
    /// Venue-specific market identifier.
    pub market_id: String,
    /// Which outcome side is traded.
    pub side: String,
    /// Whether the position is bought or sold.
    pub direction: String,
    /// Amount committed, in denomination-asset units.
    pub amount: u64,
    /// Slippage tolerance in basis points.
    pub slippage_bps: u16,
}

/// The first guard of `execute_trade` that fails, if any.
pub open spec fn execute_trade_err(fund: FundState, caller: u64, amount: u64) -> Option<
    FundError,
> {
    if caller != fund.manager {
        Some(FundError::UnauthorizedManager)
    } else if fund.stage != FundStage::Trading {
        Some(FundError::TradingNotAllowed)
    } else if amount == 0 {
        Some(FundError::ZeroDeposit)
    } else {
        None
    }
}

/// Accepts a trade intent from the manager during the Trading stage.
///
/// The trade itself is a pluggable external capability; this call only
/// enforces who may trade, when, and that the committed amount is
/// positive.  It mutates nothing.
pub fn execute_trade(
    fund: &FundState,
    config: &ProtocolConfig,
    caller: u64,
    params: &TradeParams,
) -> (r: Result<(), FundError>)
    ensures
        (match execute_trade_err(*fund, caller, params.amount) {
            Some(e) => r == Result::<(), FundError>::Err(e),
            None => r == Result::<(), FundError>::Ok(()),
        }),
{
    if caller != fund.manager {
        return Err(FundError::UnauthorizedManager);
    }
    if fund.stage != FundStage::Trading {
        return Err(FundError::TradingNotAllowed);
    }
    if params.amount == 0 {
        return Err(FundError::ZeroDeposit);
    }
    let _ = config;
    Ok(())
}

} // verus!
