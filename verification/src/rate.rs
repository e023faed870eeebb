//! Fixed-point conversion between asset amounts and shares.
//!
//! Both directions compute at 128-bit width, truncate toward zero, and
//! refuse a result that does not fit back into 64 bits. Truncation always
//! favors the vault: a holder never receives more shares or assets than
//! the exact ratio implies.

use vstd::prelude::*;

use vstd::arithmetic::div_mod::{
    lemma_div_is_ordered, lemma_div_multiples_vanish, lemma_fundamental_div_mod, lemma_mod_bound,
};
use vstd::arithmetic::mul::{lemma_mul_inequality, lemma_mul_is_commutative};

use crate::constants::RATE_PRECISION;
use crate::errors::VaultError;

verus! {

/// Shares that `amount` asset units buy at `rate`:
/// `floor(amount * RATE_PRECISION / rate)`. Meaningful only for `rate > 0`.
pub open spec fn shares_of_amount(amount: nat, rate: nat) -> nat {
    amount * (RATE_PRECISION as nat) / rate
}

/// Asset units that `shares` are worth at `rate`:
/// `floor(shares * rate / RATE_PRECISION)`.
pub open spec fn amount_of_shares(shares: nat, rate: nat) -> nat {
    shares * rate / (RATE_PRECISION as nat)
}

/// Convert a deposit amount to the shares it mints at `rate`.
///
/// Returns exactly `floor(amount * RATE_PRECISION / rate)`, and
/// `MathOverflow` precisely when `rate` is zero or that quotient does not
/// fit in 64 bits.
pub fn calculate_shares_from_amount(amount: u64, rate: u64) -> (r: Result<u64, VaultError>)
    ensures
        match r {
            Ok(shares) => {
                &&& rate > 0
                &&& shares_of_amount(amount as nat, rate as nat) <= u64::MAX
                &&& shares == shares_of_amount(amount as nat, rate as nat)
            },
            Err(e) => {
                &&& e == VaultError::MathOverflow
                &&& (rate == 0 || shares_of_amount(amount as nat, rate as nat) > u64::MAX)
            },
        },
{
    if rate == 0 {
        return Err(VaultError::MathOverflow);
    }
    proof {
        lemma_mul_inequality(amount as int, u64::MAX as int, RATE_PRECISION as int);
    }
    let wide: u128 = (amount as u128) * (RATE_PRECISION as u128);
    let shares: u128 = wide / (rate as u128);
    if shares > u64::MAX as u128 {
        return Err(VaultError::MathOverflow);
    }
    Ok(shares as u64)
}

/// Convert a share count to the asset amount it is worth at `rate`.
///
/// Returns exactly `floor(shares * rate / RATE_PRECISION)`, and
/// `MathOverflow` precisely when that quotient does not fit in 64 bits.
pub fn calculate_amount_from_shares(shares: u64, rate: u64) -> (r: Result<u64, VaultError>)
    ensures
        match r {
            Ok(amount) => {
                &&& amount_of_shares(shares as nat, rate as nat) <= u64::MAX
                &&& amount == amount_of_shares(shares as nat, rate as nat)
            },
            Err(e) => {
                &&& e == VaultError::MathOverflow
                &&& amount_of_shares(shares as nat, rate as nat) > u64::MAX
            },
        },
{
    proof {
        lemma_mul_inequality(shares as int, u64::MAX as int, rate as int);
        lemma_mul_inequality(rate as int, u64::MAX as int, u64::MAX as int);
        lemma_mul_is_commutative(rate as int, u64::MAX as int);
    }
    let wide: u128 = (shares as u128) * (rate as u128);
    let amount: u128 = wide / (RATE_PRECISION as u128);
    if amount > u64::MAX as u128 {
        return Err(VaultError::MathOverflow);
    }
    Ok(amount as u64)
}

/// Converting an amount to shares and the shares back to an amount never
/// creates value: the floor-floor composition can only lose to truncation.
pub proof fn lemma_round_trip_bound(amount: nat, rate: nat)
    requires
        rate > 0,
    ensures
        amount_of_shares(shares_of_amount(amount, rate), rate) <= amount,
{
    let p = RATE_PRECISION as nat;
    let s = shares_of_amount(amount, rate);
    assert(s == amount * p / rate);
    lemma_fundamental_div_mod((amount * p) as int, rate as int);
    lemma_mod_bound((amount * p) as int, rate as int);
    assert(rate * s <= amount * p);
    lemma_mul_is_commutative(rate as int, s as int);
    lemma_div_is_ordered((s * rate) as int, (amount * p) as int, p as int);
    lemma_mul_is_commutative(amount as int, p as int);
    lemma_div_multiples_vanish(amount as int, p as int);
    assert(amount * p / p == amount);
    assert(amount_of_shares(s, rate) == s * rate / p);
}

} // verus!
