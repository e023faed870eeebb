//! The error taxonomy of the vault.
//!
//! Every operation either succeeds or aborts with exactly one of these
//! kinds, leaving all state unchanged.

use vstd::prelude::*;

verus! {

/// Why a vault operation was rejected. A failed operation mutates nothing.
#[derive(Clone, Copy, Debug, PartialEq, Eq, Structural)]
pub enum VaultError {
    /// A positive amount was required and zero was given.
    InvalidAmount,
    /// A deposit too small relative to the rate would mint zero shares.
    InsufficientShares,
    /// Checked arithmetic overflowed or underflowed.
    MathOverflow,
    /// A claim or time-gated epoch advance was attempted too early.
    EpochNotReached,
    /// The withdrawal request was already claimed.
    AlreadyClaimed,
    /// A non-administrator invoked an administrator-only operation.
    Unauthorized,
    /// A second withdrawal request while one is still pending.
    PendingWithdrawalExists,
}

} // verus!
