//! Investor-facing flows: depositing into an Open fund, withdrawing at
//! full value while Open, exiting early during Trading against the
//! liquidity buffer, and redeeming after the fund is Closed.
//!
//! Each operation takes the investor's share balance and the vault's
//! asset balance as the caller's ledger reports them, checks every guard
//! before touching the fund, and returns the transfers the caller must
//! perform.  Share conversions always use the vault balance from before
//! the operation's own transfers land, so existing holders' claims are
//! never diluted by the operation itself.

use crate::errors::FundError;
use crate::math::checked_mul_div;
use crate::state::{
    bps_fee, min_buffer_spec, shares_for_deposit_spec, usdc_for_shares_spec, FundStage, FundState,
};
use vstd::prelude::*;

verus! {

/// The transfers a successful deposit instructs the caller to perform:
/// the fee goes from the investor to the manager, the net amount from the
/// investor to the vault, and the shares are minted to the investor.
#[derive(Clone, Copy, Debug, PartialEq, Eq, Structural)]
pub struct DepositOutcome {
    /// Deposit fee owed to the manager.
    pub fee: u64,
    /// Net amount owed to the vault.
    pub net_amount: u64,
    /// Shares minted to the investor.
    pub shares_minted: u64,
}

/// The first guard of `deposit` that fails, if any.  `vault_balance` is
/// the vault's balance before the deposit lands.
pub open spec fn deposit_err(fund: FundState, amount: u64, vault_balance: u64) -> Option<
    FundError,
> {
    let net = amount - bps_fee(amount as int, fund.deposit_fee_bps as int);
    let shares = shares_for_deposit_spec(fund.total_shares as int, net, vault_balance as int);
    if fund.stage != FundStage::Open {
        Some(FundError::DepositsNotAllowed)
    } else if amount == 0 {
        Some(FundError::ZeroDeposit)
    } else if shares > u64::MAX {
        Some(FundError::MathOverflow)
    } else if fund.total_shares + shares > u64::MAX {
        Some(FundError::MathOverflow)
    } else if fund.total_deposited + amount > u64::MAX {
        Some(FundError::MathOverflow)
    } else {
        None
    }
}

/// Deposits `amount` gross asset units into an Open fund.
///
/// The deposit fee is taken off the top; the net remainder converts to
/// shares at the pre-deposit vault balance — one share per unit while no
/// shares exist (the bootstrap exchange rate), proportionally otherwise.
/// On success the shares outstanding grow by exactly the shares minted
/// and the gross total deposited grows by `amount`; a failed call leaves
/// the fund untouched.
pub fn deposit(fund: &mut FundState, amount: u64, vault_balance: u64) -> (r: Result<
    DepositOutcome,
    FundError,
>)
    requires
        old(fund).wf(),
        old(fund).total_shares > 0 ==> vault_balance > 0,
    ensures
        final(fund).wf(),
        (match deposit_err(*old(fund), amount, vault_balance) {
            Some(e) => r == Result::<DepositOutcome, FundError>::Err(e) && *final(fund) == *old(
                fund,
            ),
            None => {
                &&& r matches Ok(out)
                &&& out.fee == bps_fee(amount as int, old(fund).deposit_fee_bps as int)
                &&& out.net_amount == amount - out.fee
                &&& out.shares_minted == shares_for_deposit_spec(
                    old(fund).total_shares as int,
                    out.net_amount as int,
                    vault_balance as int,
                )
                &&& *final(fund) == (FundState {
                    total_shares: (old(fund).total_shares + out.shares_minted) as u64,
                    total_deposited: (old(fund).total_deposited + amount) as u64,
                    ..*old(fund)
                })
            },
        }),
{
    if fund.stage != FundStage::Open {
        return Err(FundError::DepositsNotAllowed);
    }
    if amount == 0 {
        return Err(FundError::ZeroDeposit);
    }
    let deposit_fee: u64 = fund.calculate_deposit_fee(amount);
    let net_amount: u64 = amount - deposit_fee;
    let shares_to_mint: u64 = if fund.total_shares == 0 {
        net_amount
    } else {
        match checked_mul_div(net_amount, fund.total_shares, vault_balance) {
            Some(shares) => shares,
            None => {
                return Err(FundError::MathOverflow);
            },
        }
    };
    let total_shares: u64 = match fund.total_shares.checked_add(shares_to_mint) {
        Some(t) => t,
        None => {
            return Err(FundError::MathOverflow);
        },
    };
    let total_deposited: u64 = match fund.total_deposited.checked_add(amount) {
        Some(t) => t,
        None => {
            return Err(FundError::MathOverflow);
        },
    };
    fund.total_shares = total_shares;
    fund.total_deposited = total_deposited;
    Ok(DepositOutcome { fee: deposit_fee, net_amount, shares_minted: shares_to_mint })
}

/// The first guard of `withdraw_open` that fails, if any.
pub open spec fn withdraw_open_err(
    fund: FundState,
    shares: u64,
    investor_shares: u64,
) -> Option<FundError> {
    if fund.stage != FundStage::Open {
        Some(FundError::WithdrawalsNotAllowed)
    } else if shares == 0 {
        Some(FundError::ZeroWithdrawal)
    } else if investor_shares < shares {
        Some(FundError::InsufficientShares)
    } else {
        None
    }
}

/// Withdraws at full value from an Open fund: burns `shares` from the
/// investor and pays out their proportional part of the vault balance,
/// floored.  `investor_shares` is the investor's share balance on the
/// caller's ledger, which can never exceed the shares outstanding.
///
/// On success the payout never exceeds the vault balance, and the shares
/// outstanding shrink by exactly the shares burned.
pub fn withdraw_open(
    fund: &mut FundState,
    shares: u64,
    investor_shares: u64,
    vault_balance: u64,
) -> (r: Result<u64, FundError>)
    requires
        old(fund).wf(),
        investor_shares <= old(fund).total_shares,
    ensures
        final(fund).wf(),
        (match withdraw_open_err(*old(fund), shares, investor_shares) {
            Some(e) => r == Result::<u64, FundError>::Err(e) && *final(fund) == *old(fund),
            None => {
                &&& r matches Ok(payout)
                &&& payout == usdc_for_shares_spec(
                    old(fund).total_shares as int,
                    shares as int,
                    vault_balance as int,
                )
                &&& payout <= vault_balance
                &&& *final(fund) == (FundState {
                    total_shares: (old(fund).total_shares - shares) as u64,
                    ..*old(fund)
                })
            },
        }),
{
    if fund.stage != FundStage::Open {
        return Err(FundError::WithdrawalsNotAllowed);
    }
    if shares == 0 {
        return Err(FundError::ZeroWithdrawal);
    }
    if investor_shares < shares {
        return Err(FundError::InsufficientShares);
    }
    let usdc_amount: u64 = fund.usdc_for_shares(shares, vault_balance);
    if vault_balance < usdc_amount {
        return Err(FundError::InsufficientVaultBalance);
    }
    fund.total_shares = fund.total_shares - shares;
    Ok(usdc_amount)
}

/// The transfers a successful early exit instructs the caller to
/// perform: the shares are burned and the payout, already net of the
/// exit fee, goes from the vault to the investor.  The fee simply stays
/// in the vault, accruing to the remaining holders.
#[derive(Clone, Copy, Debug, PartialEq, Eq, Structural)]
pub struct EarlyExitOutcome {
    /// Early exit fee withheld from the gross share value.
    pub exit_fee: u64,
    /// Net amount owed to the investor.
    pub payout: u64,
}

/// The first guard of `withdraw_early` that fails, if any.
pub open spec fn withdraw_early_err(
    fund: FundState,
    shares: u64,
    investor_shares: u64,
    vault_balance: u64,
) -> Option<FundError> {
    let share_value = usdc_for_shares_spec(
        fund.total_shares as int,
        shares as int,
        vault_balance as int,
    );
    let payout = share_value - bps_fee(share_value, fund.early_exit_fee_bps as int);
    if fund.stage != FundStage::Trading {
        Some(FundError::InvalidStage)
    } else if shares == 0 {
        Some(FundError::ZeroWithdrawal)
    } else if investor_shares < shares {
        Some(FundError::InsufficientShares)
    } else if vault_balance < payout + min_buffer_spec(
        vault_balance - payout,
        fund.liquidity_buffer_bps as int,
    ) {
        Some(FundError::InsufficientBuffer)
    } else {
        None
    }
}

/// Withdraws instantly during Trading, against the liquidity buffer.
///
/// The shares convert at the current vault balance, the early exit fee
/// is withheld, and the payout is allowed only if the vault still holds
/// the minimum reserve for the post-withdrawal balance.  On success the
/// shares outstanding shrink by exactly the shares burned.
pub fn withdraw_early(
    fund: &mut FundState,
    shares: u64,
    investor_shares: u64,
    vault_balance: u64,
) -> (r: Result<EarlyExitOutcome, FundError>)
    requires
        old(fund).wf(),
        investor_shares <= old(fund).total_shares,
    ensures
        final(fund).wf(),
        (match withdraw_early_err(*old(fund), shares, investor_shares, vault_balance) {
            Some(e) => r == Result::<EarlyExitOutcome, FundError>::Err(e) && *final(fund) == *old(
                fund,
            ),
            None => {
                &&& r matches Ok(out)
                &&& out.exit_fee == bps_fee(
                    usdc_for_shares_spec(
                        old(fund).total_shares as int,
                        shares as int,
                        vault_balance as int,
                    ),
                    old(fund).early_exit_fee_bps as int,
                )
                &&& out.payout == usdc_for_shares_spec(
                    old(fund).total_shares as int,
                    shares as int,
                    vault_balance as int,
                ) - out.exit_fee
                &&& out.payout <= vault_balance
                &&& *final(fund) == (FundState {
                    total_shares: (old(fund).total_shares - shares) as u64,
                    ..*old(fund)
                })
            },
        }),
{
    if fund.stage != FundStage::Trading {
        return Err(FundError::InvalidStage);
    }
    if shares == 0 {
        return Err(FundError::ZeroWithdrawal);
    }
    if investor_shares < shares {
        return Err(FundError::InsufficientShares);
    }
    let share_value: u64 = fund.usdc_for_shares(shares, vault_balance);
    let exit_fee: u64 = fund.calculate_early_exit_fee(share_value);
    let payout: u64 = share_value - exit_fee;
    let post_withdrawal_nav: u64 = vault_balance - payout;
    let min_buffer_needed: u64 = fund.min_buffer_amount(post_withdrawal_nav);
    if vault_balance < payout + min_buffer_needed {
        return Err(FundError::InsufficientBuffer);
    }
    fund.total_shares = fund.total_shares - shares;
    Ok(EarlyExitOutcome { exit_fee, payout })
}

/// The transfers a successful redemption instructs the caller to
/// perform: first the performance fee (if this is the redemption that
/// pays it) from the vault to the manager's fee account, then the payout
/// from the vault to the investor, with the shares burned.
#[derive(Clone, Copy, Debug, PartialEq, Eq, Structural)]
pub struct RedeemOutcome {
    /// Performance fee paid to the manager by this call; zero unless
    /// this is the first redemption after finalization of a fund with a
    /// fee due.
    pub perf_fee_payment: u64,
    /// Amount owed to the investor for the burned shares.
    pub payout: u64,
}

/// The performance fee transferred by one redemption: the full fee due
/// on the first redemption after finalization, nothing afterwards.
pub open spec fn redeem_fee_payment(perf_fee_due: u64, perf_fee_paid: bool) -> int {
    if perf_fee_due > 0 && !perf_fee_paid {
        perf_fee_due as int
    } else {
        0
    }
}

/// Whether the performance fee counts as paid after one redemption.
pub open spec fn perf_fee_paid_after(perf_fee_due: u64, perf_fee_paid: bool) -> bool {
    perf_fee_paid || perf_fee_due > 0
}

/// The first guard of `redeem` that fails, if any.
pub open spec fn redeem_err(fund: FundState, shares: u64, investor_shares: u64) -> Option<
    FundError,
> {
    if fund.stage != FundStage::Closed {
        Some(FundError::WithdrawalsNotAllowed)
    } else if shares == 0 {
        Some(FundError::ZeroWithdrawal)
    } else if investor_shares < shares {
        Some(FundError::InsufficientShares)
    } else {
        None
    }
}

/// Redeems shares of a Closed fund for their proportional part of the
/// final balance.
///
/// The first successful redemption after finalization pays the recorded
/// performance fee to the manager, and the redeeming investor's payout
/// is computed on the vault balance after that fee has left, so the fee
/// burdens all holders proportionally.  Later redemptions never pay the
/// fee again.  On success the shares outstanding shrink by exactly the
/// shares burned.
pub fn redeem(
    fund: &mut FundState,
    shares: u64,
    investor_shares: u64,
    vault_balance: u64,
) -> (r: Result<RedeemOutcome, FundError>)
    requires
        old(fund).wf(),
        investor_shares <= old(fund).total_shares,
        old(fund).perf_fee_due_usdc > 0 && !old(fund).perf_fee_paid ==> vault_balance >= old(
            fund,
        ).perf_fee_due_usdc,
    ensures
        final(fund).wf(),
        (match redeem_err(*old(fund), shares, investor_shares) {
            Some(e) => r == Result::<RedeemOutcome, FundError>::Err(e) && *final(fund) == *old(
                fund,
            ),
            None => {
                &&& r matches Ok(out)
                &&& out.perf_fee_payment == redeem_fee_payment(
                    old(fund).perf_fee_due_usdc,
                    old(fund).perf_fee_paid,
                )
                &&& out.payout == usdc_for_shares_spec(
                    old(fund).total_shares as int,
                    shares as int,
                    vault_balance - out.perf_fee_payment,
                )
                &&& out.payout + out.perf_fee_payment <= vault_balance
                &&& *final(fund) == (FundState {
                    total_shares: (old(fund).total_shares - shares) as u64,
                    perf_fee_paid: perf_fee_paid_after(
                        old(fund).perf_fee_due_usdc,
                        old(fund).perf_fee_paid,
                    ),
                    ..*old(fund)
                })
            },
        }),
{
    if fund.stage != FundStage::Closed {
        return Err(FundError::WithdrawalsNotAllowed);
    }
    if shares == 0 {
        return Err(FundError::ZeroWithdrawal);
    }
    if investor_shares < shares {
        return Err(FundError::InsufficientShares);
    }
    let perf_fee_payment: u64 = if fund.perf_fee_due_usdc > 0 && !fund.perf_fee_paid {
        fund.perf_fee_paid = true;
        fund.perf_fee_due_usdc
    } else {
        0
    };
    let balance_after_fee: u64 = vault_balance - perf_fee_payment;
    let usdc_amount: u64 = fund.usdc_for_shares(shares, balance_after_fee);
    fund.total_shares = fund.total_shares - shares;
    Ok(RedeemOutcome { perf_fee_payment, payout: usdc_amount })
}

} // verus!
