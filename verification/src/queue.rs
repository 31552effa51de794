//! The withdrawal request queue: creation with a locked conversion rate,
//! cancellation before any fill, crank-driven fulfilment bounded by the
//! vault's liquidity, and the bare epoch trigger.
//!
//! A request locks the per-share rate at creation; every later fill pays
//! at that rate no matter how the vault balance moves.  Fulfilment pays
//! as much as the vault can cover, back-converts the payout into the
//! shares it settles, and only then retires those shares — so a request
//! can be filled across many rounds without ever paying more than the
//! locked rate implies.  Processing is gated by the epoch interval,
//! except during Settlement when the queue may always drain.

use crate::errors::FundError;
use crate::math::{checked_mul_div, lemma_inverse_conversion_le, min_int, mul_div, sat_sub};
use crate::state::{
    nav_per_share_spec, status_progresses, FundStage, FundState, RequestStatus, WithdrawalRequest,
    NAV_SCALE,
};
use vstd::prelude::*;

verus! {

/// The first guard of `request_withdrawal` that fails, if any.
pub open spec fn request_withdrawal_err(
    fund: FundState,
    shares: u64,
    investor_shares: u64,
    vault_balance: u64,
) -> Option<FundError> {
    if fund.stage != FundStage::Trading {
        Some(FundError::InvalidStage)
    } else if shares == 0 {
        Some(FundError::ZeroWithdrawal)
    } else if investor_shares < shares {
        Some(FundError::InsufficientShares)
    } else if nav_per_share_spec(fund.total_shares as int, vault_balance as int) > u64::MAX {
        Some(FundError::MathOverflow)
    } else if fund.pending_withdrawal_shares + shares > u64::MAX {
        Some(FundError::MathOverflow)
    } else if fund.pending_request_count + 1 > u32::MAX {
        Some(FundError::MathOverflow)
    } else {
        None
    }
}

/// Queues a withdrawal during Trading, locking the current per-share
/// rate into the request.
///
/// The investor must hold the requested shares.  The new request is
/// Pending and completely unfilled; the fund's pending share reserve
/// grows by the requested shares and the ever-increasing request counter
/// advances, returning the index under which the caller must store the
/// request.  Indices are never reused, so a cancelled request's index
/// never collides with a later one.
pub fn request_withdrawal(
    fund: &mut FundState,
    investor: u64,
    shares: u64,
    investor_shares: u64,
    vault_balance: u64,
    now: i64,
) -> (r: Result<(WithdrawalRequest, u32), FundError>)
    requires
        old(fund).wf(),
    ensures
        final(fund).wf(),
        (match request_withdrawal_err(*old(fund), shares, investor_shares, vault_balance) {
            Some(e) => r == Result::<(WithdrawalRequest, u32), FundError>::Err(e) && *final(fund)
                == *old(fund),
            None => {
                &&& r matches Ok((request, index))
                &&& request == (WithdrawalRequest {
                    fund: old(fund).fund_id,
                    investor,
                    shares_requested: shares,
                    shares_filled: 0,
                    usdc_received: 0,
                    nav_per_share_at_request: nav_per_share_spec(
                        old(fund).total_shares as int,
                        vault_balance as int,
                    ) as u64,
                    requested_at: now,
                    status: RequestStatus::Pending,
                })
                &&& request.wf()
                &&& index == old(fund).pending_request_count
                &&& *final(fund) == (FundState {
                    pending_withdrawal_shares: (old(fund).pending_withdrawal_shares
                        + shares) as u64,
                    pending_request_count: (old(fund).pending_request_count + 1) as u32,
                    ..*old(fund)
                })
            },
        }),
{
    if fund.stage != FundStage::Trading {
        return Err(FundError::InvalidStage);
    }
    if shares == 0 {
        return Err(FundError::ZeroWithdrawal);
    }
    if investor_shares < shares {
        return Err(FundError::InsufficientShares);
    }
    let nav_per_share: u64 = if fund.total_shares > 0 {
        match checked_mul_div(vault_balance, NAV_SCALE, fund.total_shares) {
            Some(nav) => nav,
            None => {
                return Err(FundError::MathOverflow);
            },
        }
    } else {
        NAV_SCALE
    };
    let pending: u64 = match fund.pending_withdrawal_shares.checked_add(shares) {
        Some(p) => p,
        None => {
            return Err(FundError::MathOverflow);
        },
    };
    let count: u32 = match fund.pending_request_count.checked_add(1) {
        Some(c) => c,
        None => {
            return Err(FundError::MathOverflow);
        },
    };
    let index: u32 = fund.pending_request_count;
    let request = WithdrawalRequest {
        fund: fund.fund_id,
        investor,
        shares_requested: shares,
        shares_filled: 0,
        usdc_received: 0,
        nav_per_share_at_request: nav_per_share,
        requested_at: now,
        status: RequestStatus::Pending,
    };
    fund.pending_withdrawal_shares = pending;
    fund.pending_request_count = count;
    Ok((request, index))
}

/// The first guard of `cancel_withdrawal` that fails, if any.
pub open spec fn cancel_withdrawal_err(request: WithdrawalRequest, investor: u64) -> Option<
    FundError,
> {
    if investor != request.investor {
        Some(FundError::UnauthorizedManager)
    } else if request.status == RequestStatus::Completed || request.status
        == RequestStatus::Cancelled {
        Some(FundError::WithdrawalRequestInactive)
    } else if request.shares_filled > 0 {
        Some(FundError::CannotCancelPartialWithdrawal)
    } else {
        None
    }
}

/// Cancels a still-untouched withdrawal request, returning its reserved
/// shares to the available pool.
///
/// Only the request's owner may cancel, a finished or already cancelled
/// request cannot be cancelled again, and a request with any fill cannot
/// be unwound — the asset already paid against it is gone.  On success
/// the request becomes Cancelled (terminal) and the caller destroys the
/// stored record.
pub fn cancel_withdrawal(
    fund: &mut FundState,
    request: &mut WithdrawalRequest,
    investor: u64,
) -> (r: Result<(), FundError>)
    requires
        old(fund).wf(),
        old(request).wf(),
        old(request).fund == old(fund).fund_id,
    ensures
        final(fund).wf(),
        final(request).wf(),
        status_progresses(old(request).status, final(request).status),
        (match cancel_withdrawal_err(*old(request), investor) {
            Some(e) => r == Result::<(), FundError>::Err(e) && *final(fund) == *old(fund)
                && *final(request) == *old(request),
            None => {
                &&& r == Result::<(), FundError>::Ok(())
                &&& *final(request) == (WithdrawalRequest {
                    status: RequestStatus::Cancelled,
                    ..*old(request)
                })
                &&& *final(fund) == (FundState {
                    pending_withdrawal_shares: sat_sub(
                        old(fund).pending_withdrawal_shares as int,
                        old(request).shares_requested as int,
                    ) as u64,
                    ..*old(fund)
                })
            },
        }),
{
    if investor != request.investor {
        return Err(FundError::UnauthorizedManager);
    }
    if request.status == RequestStatus::Completed || request.status == RequestStatus::Cancelled {
        return Err(FundError::WithdrawalRequestInactive);
    }
    if request.shares_filled > 0 {
        return Err(FundError::CannotCancelPartialWithdrawal);
    }
    let shares_to_return: u64 = request.shares_requested;
    fund.pending_withdrawal_shares = if fund.pending_withdrawal_shares >= shares_to_return {
        fund.pending_withdrawal_shares - shares_to_return
    } else {
        0
    };
    request.status = RequestStatus::Cancelled;
    Ok(())
}

/// What one fulfilment crank did.
#[derive(Clone, Copy, Debug, PartialEq, Eq, Structural)]
pub enum ProcessOutcome {
    /// The vault had no liquidity to settle even a single share at the
    /// locked rate; nothing changed, and the crank may be retried later.
    NoLiquidity,
    /// Shares were settled: the caller transfers `payout` from the vault
    /// to the investor and burns `shares_processed` of the investor's
    /// shares.
    Paid {
        /// Asset units paid to the investor by this round.
        payout: u64,
        /// Shares settled and retired by this round.
        shares_processed: u64,
    },
}

/// The asset amount one crank pays: everything still owed at the locked
/// rate, clipped to the vault balance.
pub open spec fn process_payout_spec(request: WithdrawalRequest, vault_balance: u64) -> int {
    min_int(
        sat_sub(request.shares_requested as int, request.shares_filled as int)
            * request.nav_per_share_at_request / 1_000_000,
        vault_balance as int,
    )
}

/// The shares one crank settles: the payout back-converted at the locked
/// rate, so partial liquidity retires proportionally fewer shares.
pub open spec fn process_shares_spec(request: WithdrawalRequest, vault_balance: u64) -> int {
    if request.nav_per_share_at_request > 0 {
        process_payout_spec(request, vault_balance) * 1_000_000
            / (request.nav_per_share_at_request as int)
    } else {
        0
    }
}

/// The first guard of `process_single_withdrawal` that fails, if any.
pub open spec fn process_single_withdrawal_err(
    fund: FundState,
    request: WithdrawalRequest,
    vault_balance: u64,
    now: i64,
) -> Option<FundError> {
    if fund.stage != FundStage::Trading && fund.stage != FundStage::Settlement {
        Some(FundError::InvalidStage)
    } else if request.status == RequestStatus::Completed || request.status
        == RequestStatus::Cancelled {
        Some(FundError::WithdrawalRequestInactive)
    } else if now < fund.last_epoch_ts + fund.epoch_interval_secs && fund.stage
        != FundStage::Settlement {
        Some(FundError::EpochNotReady)
    } else if request.shares_filled >= request.shares_requested {
        Some(FundError::WithdrawalRequestInactive)
    } else if process_payout_spec(request, vault_balance) > 0 && process_shares_spec(
        request,
        vault_balance,
    ) > 0 && request.usdc_received + process_payout_spec(request, vault_balance) > u64::MAX {
        Some(FundError::MathOverflow)
    } else {
        None
    }
}

/// Fulfils one withdrawal request as far as current liquidity allows.
/// Anyone may crank this; it is gated by the epoch interval except
/// during Settlement, when the queue may always drain.
///
/// The amount owed is the remaining shares at the locked rate; the
/// payout is that amount clipped to the vault balance, and the shares
/// actually settled are the payout back-converted at the same locked
/// rate — never more than remain.  If nothing can be settled the call
/// succeeds without changing any state.  Otherwise the request's fill
/// and received totals grow, its status advances to Completed exactly
/// when every requested share is filled (PartiallyFilled otherwise), the
/// fund retires the settled shares from both the outstanding and the
/// pending totals, and the epoch clock restarts at `now`.
pub fn process_single_withdrawal(
    fund: &mut FundState,
    request: &mut WithdrawalRequest,
    vault_balance: u64,
    now: i64,
) -> (r: Result<ProcessOutcome, FundError>)
    requires
        old(fund).wf(),
        old(request).wf(),
        old(request).fund == old(fund).fund_id,
        old(fund).last_epoch_ts + old(fund).epoch_interval_secs <= i64::MAX,
    ensures
        final(fund).wf(),
        final(request).wf(),
        status_progresses(old(request).status, final(request).status),
        final(request).shares_filled >= old(request).shares_filled,
        (match process_single_withdrawal_err(*old(fund), *old(request), vault_balance, now) {
            Some(e) => r == Result::<ProcessOutcome, FundError>::Err(e) && *final(fund) == *old(
                fund,
            ) && *final(request) == *old(request),
            None => {
                let payout = process_payout_spec(*old(request), vault_balance);
                let shares_processed = process_shares_spec(*old(request), vault_balance);
                if payout == 0 || shares_processed == 0 {
                    &&& r == Result::<ProcessOutcome, FundError>::Ok(ProcessOutcome::NoLiquidity)
                    &&& *final(fund) == *old(fund)
                    &&& *final(request) == *old(request)
                } else {
                    &&& r == Result::<ProcessOutcome, FundError>::Ok(
                        (ProcessOutcome::Paid {
                            payout: payout as u64,
                            shares_processed: shares_processed as u64,
                        }),
                    )
                    &&& payout <= vault_balance
                    &&& shares_processed <= sat_sub(
                        old(request).shares_requested as int,
                        old(request).shares_filled as int,
                    )
                    &&& *final(request) == (WithdrawalRequest {
                        shares_filled: (old(request).shares_filled + shares_processed) as u64,
                        usdc_received: (old(request).usdc_received + payout) as u64,
                        status: (if old(request).shares_filled + shares_processed >= old(
                            request,
                        ).shares_requested {
                            RequestStatus::Completed
                        } else {
                            RequestStatus::PartiallyFilled
                        }),
                        ..*old(request)
                    })
                    &&& *final(fund) == (FundState {
                        total_shares: sat_sub(
                            old(fund).total_shares as int,
                            shares_processed,
                        ) as u64,
                        pending_withdrawal_shares: sat_sub(
                            old(fund).pending_withdrawal_shares as int,
                            shares_processed,
                        ) as u64,
                        last_epoch_ts: now,
                        ..*old(fund)
                    })
                }
            },
        }),
{
    if fund.stage != FundStage::Trading && fund.stage != FundStage::Settlement {
        return Err(FundError::InvalidStage);
    }
    if request.status == RequestStatus::Completed || request.status == RequestStatus::Cancelled {
        return Err(FundError::WithdrawalRequestInactive);
    }
    let epoch_ready: bool = now >= fund.last_epoch_ts + fund.epoch_interval_secs;
    if !epoch_ready && fund.stage != FundStage::Settlement {
        return Err(FundError::EpochNotReady);
    }
    let shares_remaining: u64 = request.shares_remaining();
    if shares_remaining == 0 {
        return Err(FundError::WithdrawalRequestInactive);
    }
    let usdc_per_share: u64 = request.nav_per_share_at_request;

    // Everything still owed at the locked rate, clipped to the vault.
    proof {
        crate::math::lemma_u64_mul_fits_u128(shares_remaining, usdc_per_share);
    }
    let max_usdc_owed: u128 = (shares_remaining as u128) * (usdc_per_share as u128) / (
    NAV_SCALE as u128);
    let payout: u64 = if max_usdc_owed <= vault_balance as u128 {
        max_usdc_owed as u64
    } else {
        vault_balance
    };
    let shares_to_process: u64 = if usdc_per_share > 0 {
        proof {
            lemma_inverse_conversion_le(
                payout as int,
                shares_remaining as int,
                usdc_per_share as int,
                1_000_000,
            );
        }
        mul_div(payout, NAV_SCALE, usdc_per_share)
    } else {
        0
    };

    if payout == 0 || shares_to_process == 0 {
        return Ok(ProcessOutcome::NoLiquidity);
    }

    let usdc_received: u64 = match request.usdc_received.checked_add(payout) {
        Some(total) => total,
        None => {
            return Err(FundError::MathOverflow);
        },
    };
    request.shares_filled = request.shares_filled + shares_to_process;
    request.usdc_received = usdc_received;
    request.status = if request.shares_filled >= request.shares_requested {
        RequestStatus::Completed
    } else {
        RequestStatus::PartiallyFilled
    };

    fund.total_shares = if fund.total_shares >= shares_to_process {
        fund.total_shares - shares_to_process
    } else {
        0
    };
    fund.pending_withdrawal_shares = if fund.pending_withdrawal_shares >= shares_to_process {
        fund.pending_withdrawal_shares - shares_to_process
    } else {
        0
    };
    fund.last_epoch_ts = now;

    Ok(ProcessOutcome::Paid { payout, shares_processed: shares_to_process })
}

/// The first guard of `process_epoch` that fails, if any.
pub open spec fn process_epoch_err(fund: FundState, now: i64) -> Option<FundError> {
    if fund.stage != FundStage::Trading && fund.stage != FundStage::Settlement {
        Some(FundError::InvalidStage)
    } else if now < fund.last_epoch_ts + fund.epoch_interval_secs {
        Some(FundError::EpochNotReady)
    } else {
        None
    }
}

/// Advances the epoch clock without settling any request, so the next
/// interval starts counting even when no liquidity is available.
pub fn process_epoch(fund: &mut FundState, now: i64) -> (r: Result<(), FundError>)
    requires
        old(fund).wf(),
        old(fund).last_epoch_ts + old(fund).epoch_interval_secs <= i64::MAX,
    ensures
        final(fund).wf(),
        (match process_epoch_err(*old(fund), now) {
            Some(e) => r == Result::<(), FundError>::Err(e) && *final(fund) == *old(fund),
            None => r == Result::<(), FundError>::Ok(()) && *final(fund) == (FundState {
                last_epoch_ts: now,
                ..*old(fund)
            }),
        }),
{
    if fund.stage != FundStage::Trading && fund.stage != FundStage::Settlement {
        return Err(FundError::InvalidStage);
    }
    if now < fund.last_epoch_ts + fund.epoch_interval_secs {
        return Err(FundError::EpochNotReady);
    }
    fund.last_epoch_ts = now;
    Ok(())
}

} // verus!
