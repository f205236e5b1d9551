//! Raw counts to factors: linear up to a cap, one whole from there on.

use crate::fixed::{Factor, FACTOR_SCALE};
use vstd::prelude::*;

verus! {

/// The pushes from which the push factor is one whole.
pub const PUSH_CAP: u64 = 100;

/// The transactions from which the transaction factor is one whole.
pub const TX_CAP: u64 = 200;

/// The share that `count` is of `cap`, in parts of ten thousand, and one
/// whole from `cap` on.
pub open spec fn capped_share(count: nat, cap: nat) -> nat {
    if count >= cap {
        FACTOR_SCALE as nat
    } else {
        count * FACTOR_SCALE as nat / cap
    }
}

/// The push factor of `count` pushes.
pub open spec fn normalized_pushes(count: nat) -> nat {
    capped_share(count, PUSH_CAP as nat)
}

/// The transaction factor of `count` transactions.
pub open spec fn normalized_tx(count: nat) -> nat {
    capped_share(count, TX_CAP as nat)
}

/// Normalizes a push count: `count / 100` below 100 pushes, one whole from
/// there on.
pub fn normalize_github_pushes(push_count: u64) -> (r: Factor)
    ensures
        r@ == normalized_pushes(push_count as nat),
{
    if push_count >= PUSH_CAP {
        Factor::new(FACTOR_SCALE)
    } else {
        Factor::new((push_count * 100) as u32)
    }
}

/// Normalizes a transaction count: `count / 200` below 200 transactions,
/// one whole from there on.
pub fn normalize_defi_tx(tx_count: u64) -> (r: Factor)
    ensures
        r@ == normalized_tx(tx_count as nat),
{
    if tx_count >= TX_CAP {
        Factor::new(FACTOR_SCALE)
    } else {
        Factor::new((tx_count * 50) as u32)
    }
}

/// Both factors are exact: below its cap a factor is the count's share of
/// the cap with nothing rounded away, and at most one whole everywhere.
pub proof fn factors_are_exact(count: nat)
    ensures
        count < PUSH_CAP ==> normalized_pushes(count) * PUSH_CAP == count * FACTOR_SCALE,
        count < TX_CAP ==> normalized_tx(count) * TX_CAP == count * FACTOR_SCALE,
        normalized_pushes(count) <= FACTOR_SCALE,
        normalized_tx(count) <= FACTOR_SCALE,
{
}

/// Both factors saturate: from its cap on a factor is one whole.
pub proof fn factors_saturate(count: nat)
    ensures
        count >= PUSH_CAP ==> normalized_pushes(count) == FACTOR_SCALE,
        count >= TX_CAP ==> normalized_tx(count) == FACTOR_SCALE,
        normalized_pushes(0) == 0,
        normalized_tx(0) == 0,
{
}

/// Both factors are monotonic: more activity never gives a smaller factor.
pub proof fn factors_are_monotonic(fewer: nat, more: nat)
    requires
        fewer <= more,
    ensures
        normalized_pushes(fewer) <= normalized_pushes(more),
        normalized_tx(fewer) <= normalized_tx(more),
{
}

} // verus!
