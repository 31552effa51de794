//! The error taxonomy of the fund engine.
//!
//! Every guard of every operation aborts with one of these kinds before
//! any state is mutated, so a failed call leaves the fund untouched.

use vstd::prelude::*;

verus! {

/// Why a fund operation was refused.
#[derive(Clone, Copy, Debug, PartialEq, Eq, Structural)]
pub enum FundError {
    /// The operation is not permitted in the fund's current stage.
    InvalidStage,
    /// Deposits are only allowed during the Open stage.
    DepositsNotAllowed,
    /// Withdrawals are only allowed during the Open or Closed stage.
    WithdrawalsNotAllowed,
    /// Trading is only allowed during the Trading stage.
    TradingNotAllowed,
    /// The requested deposit fee exceeds the protocol maximum.
    DepositFeeExceedsMax,
    /// The requested performance fee exceeds the protocol maximum.
    PerfFeeExceedsMax,
    /// The trading window has not opened yet.
    TradingNotStarted,
    /// The trading window has not closed yet.
    TradingNotEnded,
    /// The trading end time does not lie after the start time.
    InvalidTradingPeriod,
    /// The trading start time does not lie in the future.
    TradingStartInPast,
    /// The caller is not the fund's manager.
    UnauthorizedManager,
    /// The caller is not the protocol admin.
    UnauthorizedAdmin,
    /// The vault still holds assets other than the denomination asset.
    PositionsNotClosed,
    /// The named trade venue is not whitelisted.
    InvalidTradeVenue,
    /// A traded account is not owned by the vault authority.
    InvalidTradeAccountOwner,
    /// A deposit of zero was attempted.
    ZeroDeposit,
    /// A withdrawal of zero shares was attempted.
    ZeroWithdrawal,
    /// The investor does not hold the shares being withdrawn.
    InsufficientShares,
    /// The vault does not hold enough of the asset for the payout.
    InsufficientVaultBalance,
    /// A checked arithmetic operation overflowed.
    MathOverflow,
    /// A checked arithmetic operation underflowed.
    MathUnderflow,
    /// The fund name is longer than the stored bound.
    NameTooLong,
    /// The fund symbol is longer than the stored bound.
    SymbolTooLong,
    /// The fund name is empty.
    NameEmpty,
    /// The fund symbol is empty.
    SymbolEmpty,
    /// Paying out instantly would leave the vault under-reserved.
    InsufficientBuffer,
    /// The early exit fee exceeds the protocol maximum.
    EarlyExitFeeExceedsMax,
    /// The withdrawal request is already completed or cancelled.
    WithdrawalRequestInactive,
    /// A partially filled withdrawal request cannot be cancelled.
    CannotCancelPartialWithdrawal,
    /// The epoch interval has not elapsed since the last processing round.
    EpochNotReady,
}

} // verus!
