//! The vault ledger and the per-user withdrawal slot.

use vstd::prelude::*;

use crate::constants::RATE_PRECISION;

verus! {

/// Aggregate ledger of one vault.
///
/// `rate` is a stored value, not a derived one: deposits move the totals
/// proportionally without touching it, and only an explicit rate increase
/// recomputes it from the totals.
#[derive(Clone, Copy, Debug, PartialEq, Eq, Structural)]
pub struct Vault {
    /// Identity of the administrator who may inject yield and force
    /// epoch advances.
    pub authority: u64,
    /// Identity of the asset this vault pools.
    pub deposit_asset: u64,
    /// Asset units currently attributed to the vault.
    pub total_deposits: u64,
    /// Outstanding shares.
    pub total_shares: u64,
    /// Asset units per share, fixed-point scaled by `RATE_PRECISION`.
    pub rate: u64,
    /// Monotonic epoch counter.
    pub current_epoch: u64,
    /// Seconds each epoch lasts.
    pub epoch_duration: i64,
    /// Wall-clock time of the last epoch advance.
    pub last_epoch_timestamp: i64,
}

impl Vault {
    /// The stored rate equals the live ratio of deposits to shares,
    /// which holds immediately after every rate-increasing operation.
    pub open spec fn rate_matches_totals(self) -> bool {
        self.total_shares > 0 ==> self.rate
            == self.total_deposits * (RATE_PRECISION as int) / (self.total_shares as int)
    }

    /// This vault with its totals replaced and everything else unchanged.
    pub open spec fn with_totals(self, total_deposits: u64, total_shares: u64) -> Vault {
        Vault { total_deposits, total_shares, ..self }
    }

    /// This vault with its rate replaced and everything else unchanged.
    pub open spec fn with_rate(self, rate: u64) -> Vault {
        Vault { rate, ..self }
    }

    /// This vault with its epoch clock moved and everything else unchanged.
    pub open spec fn with_epoch(self, current_epoch: u64, last_epoch_timestamp: i64) -> Vault {
        Vault { current_epoch, last_epoch_timestamp, ..self }
    }
}

/// Lifecycle slot of one (vault, user) withdrawal.
///
/// The slot is never deleted: a claimed slot is reused in place by the
/// next request.
#[derive(Clone, Copy, Debug, PartialEq, Eq, Structural)]
pub struct WithdrawalRequest {
    /// Shares burned at request time; zero means no request was ever made.
    pub shares_amount: u64,
    /// Asset amount frozen at request time at the rate then in effect.
    pub tokens_to_receive: u64,
    /// Epoch in which the request was made.
    pub request_epoch: u64,
    /// First epoch at which the frozen amount becomes payable.
    pub claimable_epoch: u64,
    /// Whether the frozen amount was paid out.
    pub claimed: bool,
}

impl WithdrawalRequest {
    /// No request was ever made in this slot.
    pub open spec fn is_none(self) -> bool {
        self.shares_amount == 0
    }

    /// A request is live and waiting for its claimable epoch.
    pub open spec fn is_pending(self) -> bool {
        self.shares_amount > 0 && !self.claimed
    }

    /// The request was settled; the slot may be reused.
    pub open spec fn is_claimed(self) -> bool {
        self.shares_amount > 0 && self.claimed
    }

    /// A new request may be written only over a never-used or a
    /// settled slot, never over a pending one.
    pub open spec fn accepts_new_request(self) -> bool {
        self.shares_amount == 0 || self.claimed
    }

    /// A fresh slot that has never held a request.
    pub fn empty() -> (r: WithdrawalRequest)
        ensures
            r == (WithdrawalRequest {
                shares_amount: 0,
                tokens_to_receive: 0,
                request_epoch: 0,
                claimable_epoch: 0,
                claimed: false,
            }),
            r.is_none(),
    {
        WithdrawalRequest {
            shares_amount: 0,
            tokens_to_receive: 0,
            request_epoch: 0,
            claimable_epoch: 0,
            claimed: false,
        }
    }
}

} // verus!
