//! Persistent state of the fund engine: the protocol configuration, the
//! per-fund record with its lifecycle stage and accounting counters, and
//! the queued withdrawal requests.
//!
//! Identities (managers, investors, asset mints, token accounts) are
//! plain 64-bit keys handed out by the caller's storage collaborator; `0`
//! stands for an identity not assigned yet.  All amounts are integral
//! units of the denomination asset or of the share asset.  Fee rates are
//! basis points (1/10000).

use crate::math::{
    lemma_mul_div_le_factor, lemma_mul_div_le_total, mul_div, sat_sub,
};
use vstd::prelude::*;

verus! {

/// One basis point is 1/10000.
pub const BPS_DENOMINATOR: u64 = 10_000;

/// The locked withdrawal rate carries six decimal places.
pub const NAV_SCALE: u64 = 1_000_000;

/// Liquidity buffer applied to new funds, in basis points.
pub const DEFAULT_BUFFER_BPS: u16 = 1000;

/// Early exit fee applied to new funds, in basis points.
pub const DEFAULT_EARLY_EXIT_FEE_BPS: u16 = 500;

/// Queue processing interval applied to new funds, in seconds.
pub const DEFAULT_EPOCH_INTERVAL_SECS: i64 = 86400;

/// The lifecycle stage of a fund.  Stages only ever advance, in this
/// order, and each operation of the engine is legal in specific stages
/// only.
#[derive(Clone, Copy, Debug, PartialEq, Eq, Structural)]
pub enum FundStage {
    /// Deposits and full-value withdrawals permitted; no trading.
    Open,
    /// Deposits locked; the manager trades; early exit and queued
    /// withdrawals permitted.
    Trading,
    /// No new trades; the manager closes positions; the queue drains.
    Settlement,
    /// Terminal; only redemption remains.
    Closed,
}

/// The position of a stage in the fixed forward order of the lifecycle.
pub open spec fn stage_rank(stage: FundStage) -> int {
    match stage {
        FundStage::Open => 0,
        FundStage::Trading => 1,
        FundStage::Settlement => 2,
        FundStage::Closed => 3,
    }
}

/// The three legal stage transitions; everything else is refused.  Each
/// of the transition operations moves a fund along exactly one of these
/// edges and every other operation leaves the stage untouched.
pub open spec fn stage_step(pre: FundStage, post: FundStage) -> bool {
    ||| (pre == FundStage::Open && post == FundStage::Trading)
    ||| (pre == FundStage::Trading && post == FundStage::Settlement)
    ||| (pre == FundStage::Settlement && post == FundStage::Closed)
}

impl Default for FundStage {
    /// A fund starts its life in the Open stage.
    fn default() -> (r: Self)
        ensures
            r == FundStage::Open,
    {
        FundStage::Open
    }
}

/// The status of a queued withdrawal request.  It only moves forward:
/// Pending to PartiallyFilled to Completed, or Pending to Cancelled.
#[derive(Clone, Copy, Debug, PartialEq, Eq, Structural)]
pub enum RequestStatus {
    /// Created and not yet touched by a processing round.
    Pending,
    /// Some, but not all, requested shares have been paid out.
    PartiallyFilled,
    /// Every requested share has been paid out.
    Completed,
    /// Withdrawn by the investor before any fill.
    Cancelled,
}

/// How far along its life a request status is; cancellation is a
/// terminal branch of its own.
pub open spec fn status_rank(status: RequestStatus) -> int {
    match status {
        RequestStatus::Pending => 0,
        RequestStatus::PartiallyFilled => 1,
        RequestStatus::Completed => 2,
        RequestStatus::Cancelled => 1,
    }
}

/// The forward order of request statuses: a pending request may advance
/// to any later status, a partial fill may only grow into a completed
/// one, and the two terminal statuses never change again.  Every
/// queue operation keeps the status within this relation.
pub open spec fn status_progresses(pre: RequestStatus, post: RequestStatus) -> bool {
    match pre {
        RequestStatus::Pending => true,
        RequestStatus::PartiallyFilled => post == RequestStatus::PartiallyFilled || post
            == RequestStatus::Completed,
        RequestStatus::Completed => post == RequestStatus::Completed,
        RequestStatus::Cancelled => post == RequestStatus::Cancelled,
    }
}

impl Default for RequestStatus {
    /// A request starts out pending.
    fn default() -> (r: Self)
        ensures
            r == RequestStatus::Pending,
    {
        RequestStatus::Pending
    }
}

/// Global configuration, created once by an admin and read by every fund
/// operation.  All basis-point caps stay at or below 10000.
#[derive(Debug)]
pub struct ProtocolConfig {
    /// The admin who may update the configuration.
    pub admin: u64,
    /// Cap on a fund's deposit fee, in basis points.
    pub max_deposit_fee_bps: u16,
    /// Cap on a fund's performance fee, in basis points.
    pub max_perf_fee_bps: u16,
    /// Cap on a fund's early exit fee, in basis points.
    pub max_early_exit_fee_bps: u16,
    /// Floor on a fund's liquidity buffer, in basis points.
    pub min_buffer_bps: u16,
    /// Queue processing interval given to new funds, in seconds.
    pub default_epoch_interval_secs: i64,
    /// The whitelisted trade venue.
    pub allowed_trade_venue: u64,
    /// The denomination asset.
    pub usdc_mint: u64,
    /// Recipient of protocol-level fees.
    pub protocol_fee_recipient: u64,
}

impl ProtocolConfig {
    /// Every basis-point cap is a valid rate.
    pub open spec fn wf(self) -> bool {
        &&& self.max_deposit_fee_bps <= 10_000
        &&& self.max_perf_fee_bps <= 10_000
        &&& self.max_early_exit_fee_bps <= 10_000
        &&& self.min_buffer_bps <= 10_000
    }
}

/// A fee of `bps` basis points on `amount`, floored.
pub open spec fn bps_fee(amount: int, bps: int) -> int {
    amount * bps / 10_000
}

/// Shares minted for a net deposit: one-for-one while no shares exist,
/// otherwise proportional to the vault balance before the deposit lands.
pub open spec fn shares_for_deposit_spec(total_shares: int, net_amount: int, vault_balance: int) -> int {
    if total_shares == 0 {
        net_amount
    } else {
        net_amount * total_shares / vault_balance
    }
}

/// Asset units owed for burning shares: zero while no shares exist,
/// otherwise the proportional part of the vault balance, floored.
pub open spec fn usdc_for_shares_spec(total_shares: int, shares: int, vault_balance: int) -> int {
    if total_shares == 0 {
        0
    } else {
        shares * vault_balance / total_shares
    }
}

/// The per-share rate locked into a withdrawal request, scaled by
/// `NAV_SCALE`; one asset unit per share while no shares exist.
pub open spec fn nav_per_share_spec(total_shares: int, vault_balance: int) -> int {
    if total_shares > 0 {
        vault_balance * 1_000_000 / total_shares
    } else {
        1_000_000
    }
}

/// The minimum reserve the vault must retain, as a fraction of the
/// post-withdrawal balance.
pub open spec fn min_buffer_spec(nav: int, buffer_bps: int) -> int {
    nav * buffer_bps / 10_000
}

/// The record of one fund: configuration fixed at creation, the lifecycle
/// stage, the withdrawal queue counters, and the share accounting.
#[derive(Debug)]
pub struct FundState {
    /// Unique fund identifier.
    pub fund_id: u64,
    /// The manager who created the fund.
    pub manager: u64,
    /// Fund name, at most 32 bytes.
    pub name: Vec<u8>,
    /// Fund symbol, at most 8 bytes.
    pub symbol: Vec<u8>,
    /// Deposit fee in basis points, fixed at creation.
    pub deposit_fee_bps: u16,
    /// Performance fee in basis points, fixed at creation.
    pub perf_fee_bps: u16,
    /// Early exit fee in basis points.
    pub early_exit_fee_bps: u16,
    /// Liquidity buffer in basis points.
    pub liquidity_buffer_bps: u16,
    /// Unix time from which trading may start.
    pub trading_start_ts: i64,
    /// Unix time from which trading must end.
    pub trading_end_ts: i64,
    /// Current lifecycle stage.
    pub stage: FundStage,
    /// Shares reserved across pending withdrawal requests.
    pub pending_withdrawal_shares: u64,
    /// Unix time of the last queue processing round.
    pub last_epoch_ts: i64,
    /// Minimum seconds between queue processing rounds.
    pub epoch_interval_secs: i64,
    /// Ever-incremented count of withdrawal requests, also the next
    /// request index; indices are never reused.
    pub pending_request_count: u32,
    /// Vault balance snapshotted when trading started.
    pub initial_aum_usdc: u64,
    /// Performance fee computed at finalization.
    pub perf_fee_due_usdc: u64,
    /// Whether the performance fee has been paid out.
    pub perf_fee_paid: bool,
    /// Gross asset units ever deposited, before fees.
    pub total_deposited: u64,
    /// The share asset, or 0 before it is initialized.
    pub share_mint: u64,
    /// The vault's authority, or 0 before it is initialized.
    pub vault_authority: u64,
    /// The vault's asset account, or 0 before it is initialized.
    pub vault_usdc_ata: u64,
    /// The manager's fee-receiving account, or 0 before it is initialized.
    pub manager_fee_ata: u64,
    /// The denomination asset.
    pub usdc_mint: u64,
    /// Shares outstanding.
    pub total_shares: u64,
}

impl FundState {
    /// The structural invariant every operation preserves: all rates are
    /// valid basis points, the texts are bounded, and the epoch interval
    /// is non-negative.
    pub open spec fn wf(self) -> bool {
        &&& self.deposit_fee_bps <= 10_000
        &&& self.perf_fee_bps <= 10_000
        &&& self.early_exit_fee_bps <= 10_000
        &&& self.liquidity_buffer_bps <= 10_000
        &&& self.name@.len() <= 32
        &&& self.symbol@.len() <= 8
        &&& 0 <= self.epoch_interval_secs
    }

    /// Shares to mint for a net deposit, converted at the vault balance
    /// from before the deposit lands.
    pub fn shares_for_deposit(&self, net_amount: u64, vault_balance: u64) -> (r: u64)
        requires
            self.total_shares > 0 ==> vault_balance > 0,
            shares_for_deposit_spec(self.total_shares as int, net_amount as int, vault_balance as int)
                <= u64::MAX,
        ensures
            r == shares_for_deposit_spec(
                self.total_shares as int,
                net_amount as int,
                vault_balance as int,
            ),
    {
        if self.total_shares == 0 {
            net_amount
        } else {
            mul_div(net_amount, self.total_shares, vault_balance)
        }
    }

    /// Asset units to pay for burning `shares` at the current vault
    /// balance.  Never exceeds the vault balance when the shares burned
    /// are at most the shares outstanding.
    pub fn usdc_for_shares(&self, shares: u64, vault_balance: u64) -> (r: u64)
        requires
            shares <= self.total_shares,
        ensures
            r == usdc_for_shares_spec(self.total_shares as int, shares as int, vault_balance as int),
            r <= vault_balance,
    {
        if self.total_shares == 0 {
            0
        } else {
            proof {
                lemma_mul_div_le_factor(shares as int, vault_balance as int, self.total_shares as int);
            }
            mul_div(shares, vault_balance, self.total_shares)
        }
    }

    /// The deposit fee charged on a gross deposit.  At most the amount.
    pub fn calculate_deposit_fee(&self, amount: u64) -> (r: u64)
        requires
            self.deposit_fee_bps <= 10_000,
        ensures
            r == bps_fee(amount as int, self.deposit_fee_bps as int),
            r <= amount,
    {
        proof {
            lemma_mul_div_le_total(amount as int, self.deposit_fee_bps as int, 10_000);
        }
        mul_div(amount, self.deposit_fee_bps as u64, BPS_DENOMINATOR)
    }

    /// The performance fee charged on a profit.  At most the profit.
    pub fn calculate_perf_fee(&self, profit: u64) -> (r: u64)
        requires
            self.perf_fee_bps <= 10_000,
        ensures
            r == bps_fee(profit as int, self.perf_fee_bps as int),
            r <= profit,
    {
        proof {
            lemma_mul_div_le_total(profit as int, self.perf_fee_bps as int, 10_000);
        }
        mul_div(profit, self.perf_fee_bps as u64, BPS_DENOMINATOR)
    }

    /// The early exit fee charged on a gross share value.  At most the
    /// value.
    pub fn calculate_early_exit_fee(&self, amount: u64) -> (r: u64)
        requires
            self.early_exit_fee_bps <= 10_000,
        ensures
            r == bps_fee(amount as int, self.early_exit_fee_bps as int),
            r <= amount,
    {
        proof {
            lemma_mul_div_le_total(amount as int, self.early_exit_fee_bps as int, 10_000);
        }
        mul_div(amount, self.early_exit_fee_bps as u64, BPS_DENOMINATOR)
    }

    /// The minimum reserve for a given post-withdrawal balance.  At most
    /// that balance.
    pub fn min_buffer_amount(&self, nav: u64) -> (r: u64)
        requires
            self.liquidity_buffer_bps <= 10_000,
        ensures
            r == min_buffer_spec(nav as int, self.liquidity_buffer_bps as int),
            r <= nav,
    {
        proof {
            lemma_mul_div_le_total(nav as int, self.liquidity_buffer_bps as int, 10_000);
        }
        mul_div(nav, self.liquidity_buffer_bps as u64, BPS_DENOMINATOR)
    }

    /// Whether paying `withdrawal_amount` still leaves the vault with the
    /// minimum reserve for the remaining balance `nav`.
    pub fn buffer_sufficient(&self, vault_usdc: u64, nav: u64, withdrawal_amount: u64) -> (r: bool)
        requires
            self.liquidity_buffer_bps <= 10_000,
            withdrawal_amount + min_buffer_spec(nav as int, self.liquidity_buffer_bps as int)
                <= u64::MAX,
        ensures
            r == (vault_usdc >= withdrawal_amount + min_buffer_spec(
                nav as int,
                self.liquidity_buffer_bps as int,
            )),
    {
        let min_buffer: u64 = self.min_buffer_amount(nav);
        vault_usdc >= withdrawal_amount + min_buffer
    }
}

/// One queued withdrawal, keyed by fund, investor and an ever-increasing
/// per-fund index.  The conversion rate is locked at request time and
/// never changes afterwards.
#[derive(Clone, Copy, Debug, PartialEq, Eq, Structural)]
pub struct WithdrawalRequest {
    /// The fund this request belongs to.
    pub fund: u64,
    /// The investor who requested the withdrawal.
    pub investor: u64,
    /// Shares the investor asked to withdraw.
    pub shares_requested: u64,
    /// Shares already paid out against this request.
    pub shares_filled: u64,
    /// Asset units already paid out against this request.
    pub usdc_received: u64,
    /// Per-share rate locked at request time, scaled by `NAV_SCALE`.
    pub nav_per_share_at_request: u64,
    /// Unix time of the request.
    pub requested_at: i64,
    /// Current status.
    pub status: RequestStatus,
}

impl WithdrawalRequest {
    /// The structural invariant: a request asks for at least one share,
    /// never fills beyond what was asked, and its status agrees with its
    /// fill level.
    pub open spec fn wf(self) -> bool {
        &&& 0 < self.shares_requested
        &&& self.shares_filled <= self.shares_requested
        &&& (self.status == RequestStatus::Pending ==> self.shares_filled == 0)
        &&& (self.status == RequestStatus::PartiallyFilled ==> 0 < self.shares_filled
            < self.shares_requested)
        &&& (self.status == RequestStatus::Completed ==> self.shares_filled
            == self.shares_requested)
        &&& (self.status == RequestStatus::Cancelled ==> self.shares_filled == 0)
    }

    /// Shares still owed on this request, clipped at zero.
    pub fn shares_remaining(&self) -> (r: u64)
        ensures
            r == sat_sub(self.shares_requested as int, self.shares_filled as int),
    {
        if self.shares_requested >= self.shares_filled {
            self.shares_requested - self.shares_filled
        } else {
            0
        }
    }
}

} // verus!
