//! The public operations of the vault.
//!
//! Every operation is all-or-nothing: it either commits its whole effect
//! or returns one error and mutates nothing. The external asset ledger
//! (transfer-in, share mint, share burn, payout) is a collaborator of the
//! caller: each operation returns the quantity the ledger must move, so
//! the caller can perform the external step atomically with the commit
//! and abort the whole transaction if the ledger refuses.

use vstd::prelude::*;

use crate::constants::{INITIAL_RATE, RATE_PRECISION};
use crate::errors::VaultError;
use crate::rate::{
    amount_of_shares, calculate_amount_from_shares, calculate_shares_from_amount, shares_of_amount,
};
use crate::state::{Vault, WithdrawalRequest};

verus! {

/// Create a vault ledger with empty totals, a 1:1 rate, epoch zero, and
/// the epoch clock anchored at `now`. Validating `epoch_duration` is the
/// caller's concern.
pub fn initialize(authority: u64, deposit_asset: u64, epoch_duration: i64, now: i64) -> (v: Vault)
    ensures
        v == (Vault {
            authority: authority,
            deposit_asset: deposit_asset,
            total_deposits: 0,
            total_shares: 0,
            rate: INITIAL_RATE,
            current_epoch: 0,
            epoch_duration: epoch_duration,
            last_epoch_timestamp: now,
        }),
{
    Vault {
        authority: authority,
        deposit_asset: deposit_asset,
        total_deposits: 0,
        total_shares: 0,
        rate: INITIAL_RATE,
        current_epoch: 0,
        epoch_duration: epoch_duration,
        last_epoch_timestamp: now,
    }
}

/// Why a deposit of `amount` into `v` is rejected, or `None` when it is
/// owed success. The cases are tested in this order.
pub open spec fn deposit_error(v: Vault, amount: u64) -> Option<VaultError> {
    if amount == 0 {
        Some(VaultError::InvalidAmount)
    } else if v.rate == 0 || shares_of_amount(amount as nat, v.rate as nat) > u64::MAX {
        Some(VaultError::MathOverflow)
    } else if shares_of_amount(amount as nat, v.rate as nat) == 0 {
        Some(VaultError::InsufficientShares)
    } else if v.total_deposits + amount > u64::MAX
        || v.total_shares + shares_of_amount(amount as nat, v.rate as nat) > u64::MAX {
        Some(VaultError::MathOverflow)
    } else {
        None
    }
}

/// Deposit `amount` asset units and mint shares at the stored rate.
///
/// On success returns the shares minted: the caller's ledger must
/// transfer `amount` in and mint exactly that many shares. The rate is
/// read, never changed: a deposit moves both totals proportionally.
pub fn deposit(vault: &mut Vault, amount: u64) -> (r: Result<u64, VaultError>)
    ensures
        match r {
            Ok(shares) => {
                &&& deposit_error(*old(vault), amount) is None
                &&& shares == shares_of_amount(amount as nat, old(vault).rate as nat)
                &&& shares > 0
                &&& *final(vault) == old(vault).with_totals(
                    (old(vault).total_deposits + amount) as u64,
                    (old(vault).total_shares + shares) as u64,
                )
            },
            Err(e) => {
                &&& Some(e) == deposit_error(*old(vault), amount)
                &&& *final(vault) == *old(vault)
            },
        },
{
    if amount == 0 {
        return Err(VaultError::InvalidAmount);
    }
    let shares_to_mint = match calculate_shares_from_amount(amount, vault.rate) {
        Ok(s) => s,
        Err(e) => {
            return Err(e);
        },
    };
    if shares_to_mint == 0 {
        return Err(VaultError::InsufficientShares);
    }
    let total_deposits = match vault.total_deposits.checked_add(amount) {
        Some(t) => t,
        None => {
            return Err(VaultError::MathOverflow);
        },
    };
    let total_shares = match vault.total_shares.checked_add(shares_to_mint) {
        Some(t) => t,
        None => {
            return Err(VaultError::MathOverflow);
        },
    };
    vault.total_deposits = total_deposits;
    vault.total_shares = total_shares;
    Ok(shares_to_mint)
}

/// Why an injection of `additional_tokens` yield by `caller` is rejected,
/// or `None` when it is owed success. The cases are tested in this order.
pub open spec fn increase_rate_error(v: Vault, caller: u64, additional_tokens: u64) -> Option<
    VaultError,
> {
    if caller != v.authority {
        Some(VaultError::Unauthorized)
    } else if additional_tokens == 0 {
        Some(VaultError::InvalidAmount)
    } else if v.total_deposits + additional_tokens > u64::MAX {
        Some(VaultError::MathOverflow)
    } else if v.total_shares > 0 && (v.total_deposits + additional_tokens) * RATE_PRECISION
        > u64::MAX {
        Some(VaultError::MathOverflow)
    } else {
        None
    }
}

/// The vault after a successful yield injection: deposits grown by
/// `additional_tokens`, and the rate recomputed from the live totals
/// whenever any share is outstanding.
pub open spec fn increase_rate_post(v: Vault, additional_tokens: u64) -> Vault {
    let total_deposits = (v.total_deposits + additional_tokens) as u64;
    if v.total_shares > 0 {
        v.with_totals(total_deposits, v.total_shares).with_rate(
            (total_deposits * (RATE_PRECISION as int) / (v.total_shares as int)) as u64,
        )
    } else {
        v.with_totals(total_deposits, v.total_shares)
    }
}

/// Inject `additional_tokens` of yield, administrator only.
///
/// This is the sole operation that raises the share value; nothing lowers
/// it. On success the stored rate again equals
/// `floor(total_deposits * RATE_PRECISION / total_shares)` whenever
/// shares are outstanding.
pub fn increase_rate(vault: &mut Vault, caller: u64, additional_tokens: u64) -> (r: Result<
    (),
    VaultError,
>)
    ensures
        match r {
            Ok(_) => {
                &&& increase_rate_error(*old(vault), caller, additional_tokens) is None
                &&& *final(vault) == increase_rate_post(*old(vault), additional_tokens)
                &&& final(vault).rate_matches_totals()
            },
            Err(e) => {
                &&& Some(e) == increase_rate_error(*old(vault), caller, additional_tokens)
                &&& *final(vault) == *old(vault)
            },
        },
{
    if caller != vault.authority {
        return Err(VaultError::Unauthorized);
    }
    if additional_tokens == 0 {
        return Err(VaultError::InvalidAmount);
    }
    let total_deposits = match vault.total_deposits.checked_add(additional_tokens) {
        Some(t) => t,
        None => {
            return Err(VaultError::MathOverflow);
        },
    };
    if vault.total_shares > 0 {
        let scaled = match total_deposits.checked_mul(RATE_PRECISION) {
            Some(s) => s,
            None => {
                return Err(VaultError::MathOverflow);
            },
        };
        vault.rate = scaled / vault.total_shares;
    }
    vault.total_deposits = total_deposits;
    Ok(())
}

/// Why a request to withdraw `shares_amount` is rejected, or `None` when
/// it is owed success. The cases are tested in this order.
pub open spec fn request_withdrawal_error(
    v: Vault,
    req: WithdrawalRequest,
    shares_amount: u64,
) -> Option<VaultError> {
    if shares_amount == 0 {
        Some(VaultError::InvalidAmount)
    } else if !req.accepts_new_request() {
        Some(VaultError::PendingWithdrawalExists)
    } else if v.current_epoch == u64::MAX {
        Some(VaultError::MathOverflow)
    } else if amount_of_shares(shares_amount as nat, v.rate as nat) > u64::MAX {
        Some(VaultError::MathOverflow)
    } else if v.total_shares < shares_amount {
        Some(VaultError::MathOverflow)
    } else {
        None
    }
}

/// Burn `shares_amount` shares and freeze their value for a later claim.
///
/// The conversion snapshots the rate now in effect, insulating the
/// requester from rate movement during the settlement delay. On success
/// returns the frozen asset amount; the caller's ledger must burn exactly
/// `shares_amount` shares. The slot becomes pending and is claimable from
/// the next epoch on.
pub fn request_withdrawal(
    vault: &mut Vault,
    request: &mut WithdrawalRequest,
    shares_amount: u64,
) -> (r: Result<u64, VaultError>)
    ensures
        match r {
            Ok(tokens) => {
                &&& request_withdrawal_error(*old(vault), *old(request), shares_amount) is None
                &&& tokens == amount_of_shares(shares_amount as nat, old(vault).rate as nat)
                &&& *final(vault) == old(vault).with_totals(
                    old(vault).total_deposits,
                    (old(vault).total_shares - shares_amount) as u64,
                )
                &&& *final(request) == (WithdrawalRequest {
                    shares_amount: shares_amount,
                    tokens_to_receive: tokens,
                    request_epoch: old(vault).current_epoch,
                    claimable_epoch: (old(vault).current_epoch + 1) as u64,
                    claimed: false,
                })
                &&& final(request).is_pending()
            },
            Err(e) => {
                &&& Some(e) == request_withdrawal_error(*old(vault), *old(request), shares_amount)
                &&& *final(vault) == *old(vault)
                &&& *final(request) == *old(request)
            },
        },
{
    if shares_amount == 0 {
        return Err(VaultError::InvalidAmount);
    }
    if !(request.shares_amount == 0 || request.claimed) {
        return Err(VaultError::PendingWithdrawalExists);
    }
    let current_epoch = match calculate_current_epoch(vault) {
        Ok(e) => e,
        Err(e) => {
            return Err(e);
        },
    };
    let claimable_epoch = match current_epoch.checked_add(1) {
        Some(c) => c,
        None => {
            return Err(VaultError::MathOverflow);
        },
    };
    let tokens_to_receive = match calculate_amount_from_shares(shares_amount, vault.rate) {
        Ok(t) => t,
        Err(e) => {
            return Err(e);
        },
    };
    let total_shares = match vault.total_shares.checked_sub(shares_amount) {
        Some(t) => t,
        None => {
            return Err(VaultError::MathOverflow);
        },
    };
    vault.total_shares = total_shares;
    request.shares_amount = shares_amount;
    request.tokens_to_receive = tokens_to_receive;
    request.request_epoch = current_epoch;
    request.claimable_epoch = claimable_epoch;
    request.claimed = false;
    Ok(tokens_to_receive)
}

/// Why a claim against `req` is rejected, or `None` when it is owed
/// success. The cases are tested in this order.
pub open spec fn claim_withdrawal_error(v: Vault, req: WithdrawalRequest) -> Option<VaultError> {
    if req.claimed {
        Some(VaultError::AlreadyClaimed)
    } else if v.current_epoch < req.claimable_epoch {
        Some(VaultError::EpochNotReached)
    } else if v.total_deposits < req.tokens_to_receive {
        Some(VaultError::MathOverflow)
    } else {
        None
    }
}

/// Pay out a pending withdrawal once its claimable epoch is reached.
///
/// On success returns exactly the amount frozen at request time,
/// whatever the rate did in the interim; the caller's ledger must
/// transfer that amount out of the vault's holdings.
pub fn claim_withdrawal(vault: &mut Vault, request: &mut WithdrawalRequest) -> (r: Result<
    u64,
    VaultError,
>)
    ensures
        match r {
            Ok(tokens) => {
                &&& claim_withdrawal_error(*old(vault), *old(request)) is None
                &&& tokens == old(request).tokens_to_receive
                &&& *final(vault) == old(vault).with_totals(
                    (old(vault).total_deposits - tokens) as u64,
                    old(vault).total_shares,
                )
                &&& *final(request) == (WithdrawalRequest {
                    claimed: true,
                    ..*old(request)
                })
                &&& (old(request).is_pending() ==> final(request).is_claimed())
            },
            Err(e) => {
                &&& Some(e) == claim_withdrawal_error(*old(vault), *old(request))
                &&& *final(vault) == *old(vault)
                &&& *final(request) == *old(request)
            },
        },
{
    if request.claimed {
        return Err(VaultError::AlreadyClaimed);
    }
    let current_epoch = match calculate_current_epoch(vault) {
        Ok(e) => e,
        Err(e) => {
            return Err(e);
        },
    };
    if current_epoch < request.claimable_epoch {
        return Err(VaultError::EpochNotReached);
    }
    let tokens_to_transfer = request.tokens_to_receive;
    let total_deposits = match vault.total_deposits.checked_sub(tokens_to_transfer) {
        Some(t) => t,
        None => {
            return Err(VaultError::MathOverflow);
        },
    };
    vault.total_deposits = total_deposits;
    request.claimed = true;
    Ok(tokens_to_transfer)
}

/// Why a time-gated epoch advance at wall-clock time `now` is rejected,
/// or `None` when it is owed success. The cases are tested in this order.
pub open spec fn advance_epoch_error(v: Vault, now: i64) -> Option<VaultError> {
    if now - v.last_epoch_timestamp > i64::MAX || now - v.last_epoch_timestamp < i64::MIN {
        Some(VaultError::MathOverflow)
    } else if now - v.last_epoch_timestamp < v.epoch_duration {
        Some(VaultError::EpochNotReached)
    } else if v.current_epoch == u64::MAX {
        Some(VaultError::MathOverflow)
    } else {
        None
    }
}

/// The vault after a successful epoch advance at time `now`.
pub open spec fn advanced_epoch(v: Vault, now: i64) -> Vault {
    v.with_epoch((v.current_epoch + 1) as u64, now)
}

/// Advance the epoch counter once a full epoch duration has elapsed
/// since the last advance. Permissionless; the counter never decreases
/// and fails closed instead of wrapping.
pub fn advance_epoch(vault: &mut Vault, now: i64) -> (r: Result<(), VaultError>)
    ensures
        match r {
            Ok(_) => {
                &&& advance_epoch_error(*old(vault), now) is None
                &&& *final(vault) == advanced_epoch(*old(vault), now)
                &&& final(vault).current_epoch == old(vault).current_epoch + 1
            },
            Err(e) => {
                &&& Some(e) == advance_epoch_error(*old(vault), now)
                &&& *final(vault) == *old(vault)
            },
        },
{
    let elapsed = match now.checked_sub(vault.last_epoch_timestamp) {
        Some(d) => d,
        None => {
            return Err(VaultError::MathOverflow);
        },
    };
    if elapsed < vault.epoch_duration {
        return Err(VaultError::EpochNotReached);
    }
    let current_epoch = match vault.current_epoch.checked_add(1) {
        Some(e) => e,
        None => {
            return Err(VaultError::MathOverflow);
        },
    };
    vault.current_epoch = current_epoch;
    vault.last_epoch_timestamp = now;
    Ok(())
}

/// Why a forced epoch advance by `caller` is rejected, or `None` when it
/// is owed success.
pub open spec fn force_advance_epoch_error(v: Vault, caller: u64) -> Option<VaultError> {
    if caller != v.authority {
        Some(VaultError::Unauthorized)
    } else if v.current_epoch == u64::MAX {
        Some(VaultError::MathOverflow)
    } else {
        None
    }
}

/// Advance the epoch counter regardless of elapsed time, administrator
/// only. Unblocks settlement independent of real time.
pub fn force_advance_epoch(vault: &mut Vault, caller: u64, now: i64) -> (r: Result<
    (),
    VaultError,
>)
    ensures
        match r {
            Ok(_) => {
                &&& force_advance_epoch_error(*old(vault), caller) is None
                &&& *final(vault) == advanced_epoch(*old(vault), now)
                &&& final(vault).current_epoch == old(vault).current_epoch + 1
            },
            Err(e) => {
                &&& Some(e) == force_advance_epoch_error(*old(vault), caller)
                &&& *final(vault) == *old(vault)
            },
        },
{
    if caller != vault.authority {
        return Err(VaultError::Unauthorized);
    }
    let current_epoch = match vault.current_epoch.checked_add(1) {
        Some(e) => e,
        None => {
            return Err(VaultError::MathOverflow);
        },
    };
    vault.current_epoch = current_epoch;
    vault.last_epoch_timestamp = now;
    Ok(())
}

/// Current epoch of the vault's clock.
pub fn calculate_current_epoch(vault: &Vault) -> (r: Result<u64, VaultError>)
    ensures
        r == Ok::<u64, VaultError>(vault.current_epoch),
{
    Ok(vault.current_epoch)
}

/// Time gating of the epoch clock: immediately after a successful
/// `advance_epoch` at time `now`, every further `advance_epoch` before a
/// full epoch duration has elapsed again fails with `EpochNotReached`.
pub proof fn lemma_advance_epoch_time_gated(v: Vault, now: i64, later: i64)
    requires
        advance_epoch_error(v, now) is None,
        now <= later,
        later - now < v.epoch_duration,
    ensures
        advance_epoch_error(advanced_epoch(v, now), later) == Some(VaultError::EpochNotReached),
{
}

} // verus!
