//! Accounting and lifecycle engine for a pooled-investment fund vault.
//!
//! Investors deposit a stable asset and receive proportional ownership
//! shares; a manager trades the pooled capital during a bounded window;
//! investors later redeem shares for their proportional part of the final
//! balance, net of fees.  This crate owns the fund accounting only: the
//! stage state machine, the net-asset-value share conversions, the fee
//! engine, the liquidity-buffer policy, and the withdrawal request queue
//! with rate locking and partial fulfilment.  Storage, authentication and
//! the actual asset transfers are the caller's collaborators: every
//! operation here is a pure state transition on plain values that tells
//! the caller which transfers to perform.

pub mod errors;
pub mod investor;
pub mod laws;
pub mod lifecycle;
pub mod math;
pub mod queue;
pub mod state;
