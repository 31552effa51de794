//! System-wide properties of the engine, stated and proved over the same
//! spec functions the operation contracts use.
//!
//! Each lemma here is a public statement of a guarantee that spans
//! several operations or arbitrarily long histories: share conservation,
//! the direction of conversion rounding, the forward-only stage and
//! status machines, and the pay-at-most-once discipline of the
//! performance fee.

use crate::investor::{perf_fee_paid_after, redeem_fee_payment};
use crate::math::lemma_round_trip_le;
use crate::state::{
    shares_for_deposit_spec, stage_rank, stage_step, status_progresses, usdc_for_shares_spec,
    FundStage, RequestStatus,
};
use vstd::prelude::*;

verus! {

/// One change to the shares outstanding of a fund.  Deposits mint;
/// withdrawals, redemptions and queue fulfilment burn.
pub enum ShareEvent {
    /// Shares created for a depositor.
    Mint(u64),
    /// Shares retired from an investor.
    Burn(u64),
}

/// The sum of all shares minted across a history.
pub open spec fn minted_total(events: Seq<ShareEvent>) -> int
    decreases events.len(),
{
    if events.len() == 0 {
        0
    } else {
        minted_total(events.drop_last()) + (match events.last() {
            ShareEvent::Mint(amount) => amount as int,
            ShareEvent::Burn(_) => 0,
        })
    }
}

/// The sum of all shares burned across a history.
pub open spec fn burned_total(events: Seq<ShareEvent>) -> int
    decreases events.len(),
{
    if events.len() == 0 {
        0
    } else {
        burned_total(events.drop_last()) + (match events.last() {
            ShareEvent::Mint(_) => 0,
            ShareEvent::Burn(amount) => amount as int,
        })
    }
}

/// The shares outstanding after applying a history to an initial total.
pub open spec fn shares_after(initial: u64, events: Seq<ShareEvent>) -> int
    decreases events.len(),
{
    if events.len() == 0 {
        initial as int
    } else {
        match events.last() {
            ShareEvent::Mint(amount) => shares_after(initial, events.drop_last()) + amount,
            ShareEvent::Burn(amount) => shares_after(initial, events.drop_last()) - amount,
        }
    }
}

/// A history the operations can actually produce: every mint keeps the
/// total within the counter's range, and every burn retires no more than
/// is outstanding — each operation's contract checks exactly this before
/// it changes the total.
pub open spec fn events_valid(initial: u64, events: Seq<ShareEvent>) -> bool
    decreases events.len(),
{
    if events.len() == 0 {
        true
    } else {
        events_valid(initial, events.drop_last()) && (match events.last() {
            ShareEvent::Mint(amount) => shares_after(initial, events.drop_last()) + amount
                <= u64::MAX,
            ShareEvent::Burn(amount) => amount <= shares_after(initial, events.drop_last()),
        })
    }
}

/// Share conservation: across any history of deposits, withdrawals and
/// redemptions, the shares outstanding equal the initial total plus all
/// shares minted minus all shares burned, and the total never leaves the
/// range of the counter — in particular it is never negative.
pub proof fn lemma_share_conservation(initial: u64, events: Seq<ShareEvent>)
    requires
        events_valid(initial, events),
    ensures
        shares_after(initial, events) == initial + minted_total(events) - burned_total(events),
        0 <= shares_after(initial, events) <= u64::MAX,
    decreases events.len(),
{
    if events.len() > 0 {
        lemma_share_conservation(initial, events.drop_last());
    }
}

/// Conversion rounding loses value toward the vault, never creates it:
/// converting an amount into shares at a vault balance and those shares
/// straight back yields at most the original amount, whatever the
/// current total of shares outstanding.
pub proof fn lemma_nav_round_trip(amount: u64, vault_balance: u64, total_shares: u64)
    requires
        0 < amount,
        0 < vault_balance,
    ensures
        usdc_for_shares_spec(
            total_shares as int,
            shares_for_deposit_spec(total_shares as int, amount as int, vault_balance as int),
            vault_balance as int,
        ) <= amount,
{
    if total_shares > 0 {
        lemma_round_trip_le(amount as int, total_shares as int, vault_balance as int);
    }
}

/// Every legal stage transition moves exactly one step forward in the
/// fixed order of the lifecycle.
pub proof fn lemma_stage_step_advances(pre: FundStage, post: FundStage)
    requires
        stage_step(pre, post),
    ensures
        stage_rank(post) == stage_rank(pre) + 1,
{
}

/// Stage monotonicity: along any chain of successful transitions the
/// stage advances by exactly one rank per step — stages are never
/// skipped and never revisited.
pub proof fn lemma_stage_chain_exact(stages: Seq<FundStage>, i: int, j: int)
    requires
        forall|k: int| 0 <= k < stages.len() - 1 ==> #[trigger] stage_step(stages[k], stages[k + 1]),
        0 <= i <= j < stages.len(),
    ensures
        stage_rank(stages[j]) - stage_rank(stages[i]) == j - i,
    decreases j - i,
{
    if i < j {
        lemma_stage_chain_exact(stages, i, j - 1);
        let k: int = j - 1;
        assert(stage_step(stages[k], stages[k + 1]));
    }
}

/// The request status order is transitive: whatever a chain of queue
/// operations does, the status seen later is always reachable forward
/// from the status seen earlier.
pub proof fn lemma_status_progress_trans(a: RequestStatus, b: RequestStatus, c: RequestStatus)
    requires
        status_progresses(a, b),
        status_progresses(b, c),
    ensures
        status_progresses(a, c),
{
}

/// Status monotonicity: across any chain of queue operations, each of
/// which keeps the status within the forward order, the final status is
/// reachable forward from the first — a request never regresses from
/// partially filled or completed back to pending, and a terminal status
/// never changes.
pub proof fn lemma_status_chain_progresses(statuses: Seq<RequestStatus>, i: int, j: int)
    requires
        forall|k: int| 0 <= k < statuses.len() - 1 ==> #[trigger] status_progresses(
            statuses[k],
            statuses[k + 1],
        ),
        0 <= i <= j < statuses.len(),
    ensures
        status_progresses(statuses[i], statuses[j]),
    decreases j - i,
{
    if i < j {
        lemma_status_chain_progresses(statuses, i, j - 1);
        let k: int = j - 1;
        assert(status_progresses(statuses[k], statuses[k + 1]));
    }
}

/// The total performance fee a history of redemptions pays, starting
/// from a given paid flag: each redemption pays `redeem_fee_payment` and
/// flips the flag to `perf_fee_paid_after`, exactly as `redeem` does.
pub open spec fn perf_fee_paid_total(perf_fee_due: u64, perf_fee_paid: bool, rounds: nat) -> int
    decreases rounds,
{
    if rounds == 0 {
        0
    } else {
        redeem_fee_payment(perf_fee_due, perf_fee_paid) + perf_fee_paid_total(
            perf_fee_due,
            perf_fee_paid_after(perf_fee_due, perf_fee_paid),
            (rounds - 1) as nat,
        )
    }
}

/// The performance fee is paid exactly once: across any number of
/// redemptions after finalization the manager receives the fee due
/// exactly once if it is positive and there is at least one redemption,
/// and nothing at all once the fee is already marked paid.
pub proof fn lemma_perf_fee_paid_once(perf_fee_due: u64, rounds: nat)
    ensures
        perf_fee_paid_total(perf_fee_due, false, rounds) == if perf_fee_due > 0 && rounds > 0 {
            perf_fee_due as int
        } else {
            0
        },
        perf_fee_paid_total(perf_fee_due, true, rounds) == 0,
    decreases rounds,
{
    if rounds > 0 {
        lemma_perf_fee_paid_once(perf_fee_due, (rounds - 1) as nat);
    }
}

} // verus!
