use vaults::errors::FundError;
use vaults::queue::{
    cancel_withdrawal, process_epoch, process_single_withdrawal, request_withdrawal,
    ProcessOutcome,
};
use vaults::state::{FundStage, FundState, RequestStatus};

fn trading_fund() -> FundState {
    FundState {
        fund_id: 1,
        manager: 100,
        name: vec![b'F', b'u', b'n', b'd'],
        symbol: vec![b'F', b'N', b'D'],
        deposit_fee_bps: 0,
        perf_fee_bps: 0,
        early_exit_fee_bps: 500,
        liquidity_buffer_bps: 1000,
        trading_start_ts: 1_000,
        trading_end_ts: 2_000,
        stage: FundStage::Trading,
        pending_withdrawal_shares: 0,
        last_epoch_ts: 0,
        epoch_interval_secs: 86_400,
        pending_request_count: 0,
        initial_aum_usdc: 1_000_000,
        perf_fee_due_usdc: 0,
        perf_fee_paid: false,
        total_deposited: 1_000_000,
        share_mint: 5,
        vault_authority: 6,
        vault_usdc_ata: 7,
        manager_fee_ata: 8,
        usdc_mint: 3,
        total_shares: 1_000_000,
    }
}

#[test]
fn request_locks_current_rate() {
    let mut fund = trading_fund();
    // 1_200_000 in the vault against 1_000_000 shares: 1.2 units per
    // share, scaled by a million.
    let (request, index) = request_withdrawal(&mut fund, 42, 500, 600, 1_200_000, 1_500).unwrap();
    assert_eq!(index, 0);
    assert_eq!(request.fund, 1);
    assert_eq!(request.investor, 42);
    assert_eq!(request.shares_requested, 500);
    assert_eq!(request.shares_filled, 0);
    assert_eq!(request.usdc_received, 0);
    assert_eq!(request.nav_per_share_at_request, 1_200_000);
    assert_eq!(request.requested_at, 1_500);
    assert_eq!(request.status, RequestStatus::Pending);
    assert_eq!(fund.pending_withdrawal_shares, 500);
    assert_eq!(fund.pending_request_count, 1);
}

#[test]
fn request_defaults_to_unit_rate_without_shares() {
    let mut fund = trading_fund();
    fund.total_shares = 0;
    let (request, _index) = request_withdrawal(&mut fund, 42, 500, 600, 999, 1_500).unwrap();
    assert_eq!(request.nav_per_share_at_request, 1_000_000);
}

#[test]
fn request_indices_are_never_reused() {
    let mut fund = trading_fund();
    let (mut first, index0) = request_withdrawal(&mut fund, 42, 500, 600, 0, 1_500).unwrap();
    cancel_withdrawal(&mut fund, &mut first, 42).unwrap();
    // The cancelled request's index is not handed out again.
    let (_second, index1) = request_withdrawal(&mut fund, 42, 100, 600, 0, 1_600).unwrap();
    assert_eq!(index0, 0);
    assert_eq!(index1, 1);
    assert_eq!(fund.pending_request_count, 2);
}

#[test]
fn request_guards() {
    let mut fund = trading_fund();
    fund.stage = FundStage::Open;
    assert_eq!(
        request_withdrawal(&mut fund, 42, 500, 600, 0, 1_500),
        Err(FundError::InvalidStage)
    );
    fund.stage = FundStage::Trading;
    assert_eq!(
        request_withdrawal(&mut fund, 42, 0, 600, 0, 1_500),
        Err(FundError::ZeroWithdrawal)
    );
    assert_eq!(
        request_withdrawal(&mut fund, 42, 700, 600, 0, 1_500),
        Err(FundError::InsufficientShares)
    );
}

#[test]
fn cancel_returns_reserved_shares() {
    let mut fund = trading_fund();
    let (mut request, _index) = request_withdrawal(&mut fund, 42, 500, 600, 0, 1_500).unwrap();
    assert_eq!(fund.pending_withdrawal_shares, 500);
    assert_eq!(cancel_withdrawal(&mut fund, &mut request, 42), Ok(()));
    assert_eq!(request.status, RequestStatus::Cancelled);
    assert_eq!(fund.pending_withdrawal_shares, 0);
}

#[test]
fn cancel_requires_the_owner() {
    let mut fund = trading_fund();
    let (mut request, _index) = request_withdrawal(&mut fund, 42, 500, 600, 0, 1_500).unwrap();
    assert_eq!(
        cancel_withdrawal(&mut fund, &mut request, 43),
        Err(FundError::UnauthorizedManager)
    );
}

#[test]
fn cancel_rejects_partial_fill() {
    let mut fund = trading_fund();
    // Locked at one unit per share; only 10 units of liquidity, so the
    // first crank fills 10 of the 500 shares.
    let (mut request, _index) = request_withdrawal(&mut fund, 42, 500, 600, 1_000_000, 1_500)
        .unwrap();
    let out = process_single_withdrawal(&mut fund, &mut request, 10, 90_000).unwrap();
    assert_eq!(out, ProcessOutcome::Paid { payout: 10, shares_processed: 10 });
    assert_eq!(request.shares_filled, 10);
    assert_eq!(request.status, RequestStatus::PartiallyFilled);
    assert_eq!(
        cancel_withdrawal(&mut fund, &mut request, 42),
        Err(FundError::CannotCancelPartialWithdrawal)
    );
}

#[test]
fn cancel_rejects_terminal_requests() {
    let mut fund = trading_fund();
    let (mut request, _index) = request_withdrawal(&mut fund, 42, 500, 600, 1_000_000, 1_500)
        .unwrap();
    let mut cancelled = request;
    cancel_withdrawal(&mut fund, &mut cancelled, 42).unwrap();
    assert_eq!(
        cancel_withdrawal(&mut fund, &mut cancelled, 42),
        Err(FundError::WithdrawalRequestInactive)
    );
    // Fully fill the other copy of the request, then try to cancel it.
    let out = process_single_withdrawal(&mut fund, &mut request, 1_000_000, 90_000).unwrap();
    assert_eq!(out, ProcessOutcome::Paid { payout: 500, shares_processed: 500 });
    assert_eq!(request.status, RequestStatus::Completed);
    assert_eq!(
        cancel_withdrawal(&mut fund, &mut request, 42),
        Err(FundError::WithdrawalRequestInactive)
    );
}

#[test]
fn processing_waits_for_the_epoch() {
    let mut fund = trading_fund();
    fund.last_epoch_ts = 1_000;
    let (mut request, _index) = request_withdrawal(&mut fund, 42, 500, 600, 1_000_000, 1_500)
        .unwrap();
    // 1_000 + 86_400 has not elapsed yet.
    assert_eq!(
        process_single_withdrawal(&mut fund, &mut request, 1_000_000, 87_399),
        Err(FundError::EpochNotReady)
    );
    let out = process_single_withdrawal(&mut fund, &mut request, 1_000_000, 87_400).unwrap();
    assert_eq!(out, ProcessOutcome::Paid { payout: 500, shares_processed: 500 });
}

#[test]
fn settlement_always_allows_processing() {
    let mut fund = trading_fund();
    fund.last_epoch_ts = 1_000;
    let (mut request, _index) = request_withdrawal(&mut fund, 42, 500, 600, 1_000_000, 1_500)
        .unwrap();
    fund.stage = FundStage::Settlement;
    // The interval has not elapsed, but Settlement drains the queue.
    let out = process_single_withdrawal(&mut fund, &mut request, 1_000_000, 2_000).unwrap();
    assert_eq!(out, ProcessOutcome::Paid { payout: 500, shares_processed: 500 });
    assert_eq!(fund.last_epoch_ts, 2_000);
}

#[test]
fn processing_settles_at_the_locked_rate() {
    let mut fund = trading_fund();
    // Locked at 1.2 units per share.
    let (mut request, _index) = request_withdrawal(&mut fund, 42, 500, 600, 1_200_000, 1_500)
        .unwrap();
    // The vault balance has risen since; the request still settles at
    // the locked rate: 500 * 1.2 = 600 units.
    let out = process_single_withdrawal(&mut fund, &mut request, 5_000_000, 90_000).unwrap();
    assert_eq!(out, ProcessOutcome::Paid { payout: 600, shares_processed: 500 });
    assert_eq!(request.usdc_received, 600);
    assert_eq!(request.status, RequestStatus::Completed);
    assert_eq!(fund.total_shares, 999_500);
    assert_eq!(fund.pending_withdrawal_shares, 0);
}

#[test]
fn partial_liquidity_fills_partially_and_finishes_later() {
    let mut fund = trading_fund();
    // Locked at 2 units per share: 500 shares are worth 1_000 units.
    let (mut request, _index) = request_withdrawal(&mut fund, 42, 500, 600, 2_000_000, 1_500)
        .unwrap();
    // Only 250 units available: pays 250, settling 125 shares.
    let out = process_single_withdrawal(&mut fund, &mut request, 250, 90_000).unwrap();
    assert_eq!(out, ProcessOutcome::Paid { payout: 250, shares_processed: 125 });
    assert_eq!(request.shares_filled, 125);
    assert_eq!(request.usdc_received, 250);
    assert_eq!(request.status, RequestStatus::PartiallyFilled);
    assert_eq!(fund.pending_withdrawal_shares, 375);
    // A later round with full liquidity settles the remaining 375
    // shares at the same locked rate.
    let out = process_single_withdrawal(&mut fund, &mut request, 1_000_000, 180_000).unwrap();
    assert_eq!(out, ProcessOutcome::Paid { payout: 750, shares_processed: 375 });
    assert_eq!(request.shares_filled, 500);
    assert_eq!(request.usdc_received, 1_000);
    assert_eq!(request.status, RequestStatus::Completed);
    assert_eq!(fund.pending_withdrawal_shares, 0);
    assert_eq!(fund.total_shares, 999_500);
}

#[test]
fn empty_vault_is_a_no_op_not_an_error() {
    let mut fund = trading_fund();
    let (mut request, _index) = request_withdrawal(&mut fund, 42, 500, 600, 1_000_000, 1_500)
        .unwrap();
    let out = process_single_withdrawal(&mut fund, &mut request, 0, 90_000).unwrap();
    assert_eq!(out, ProcessOutcome::NoLiquidity);
    assert_eq!(request.shares_filled, 0);
    assert_eq!(request.status, RequestStatus::Pending);
    // Nothing was processed, so the epoch clock did not restart.
    assert_eq!(fund.last_epoch_ts, 0);
}

#[test]
fn processing_guards() {
    let mut fund = trading_fund();
    let (mut request, _index) = request_withdrawal(&mut fund, 42, 500, 600, 1_000_000, 1_500)
        .unwrap();
    fund.stage = FundStage::Open;
    assert_eq!(
        process_single_withdrawal(&mut fund, &mut request, 1_000, 90_000),
        Err(FundError::InvalidStage)
    );
    fund.stage = FundStage::Trading;
    let mut cancelled = request;
    cancel_withdrawal(&mut fund, &mut cancelled, 42).unwrap();
    assert_eq!(
        process_single_withdrawal(&mut fund, &mut cancelled, 1_000, 90_000),
        Err(FundError::WithdrawalRequestInactive)
    );
}

#[test]
fn epoch_trigger_advances_the_clock() {
    let mut fund = trading_fund();
    fund.last_epoch_ts = 1_000;
    assert_eq!(process_epoch(&mut fund, 87_399), Err(FundError::EpochNotReady));
    assert_eq!(process_epoch(&mut fund, 87_400), Ok(()));
    assert_eq!(fund.last_epoch_ts, 87_400);
    fund.stage = FundStage::Open;
    assert_eq!(process_epoch(&mut fund, 500_000), Err(FundError::InvalidStage));
}

#[test]
fn request_rate_overflow_fails_loudly() {
    let mut fund = trading_fund();
    // One share outstanding against an enormous vault: the scaled rate
    // no longer fits, and the engine refuses rather than truncates.
    fund.total_shares = 1;
    assert_eq!(
        request_withdrawal(&mut fund, 42, 1, 1, u64::MAX, 1_500),
        Err(FundError::MathOverflow)
    );
    assert_eq!(fund.pending_request_count, 0);
}

#[test]
fn request_reserve_overflow_fails_loudly() {
    let mut fund = trading_fund();
    fund.pending_withdrawal_shares = u64::MAX;
    assert_eq!(
        request_withdrawal(&mut fund, 42, 500, 600, 1_000_000, 1_500),
        Err(FundError::MathOverflow)
    );
}
