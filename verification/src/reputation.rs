//! The orchestrator: two signals to a score, a summary and a cache entry.

use crate::cache::{cached_score, ReputationCache};
use crate::calculator::{weighted_score, ReputationCalculator, ReputationFactors, EQUAL_WEIGHT};
use crate::decimal::{decimal_digits, digit_char, digit_text, push_decimal};
use crate::fixed::{Score, SCORE_MAX_MICROS};
use crate::github::GithubSignal;
use crate::identity::{identity_of_address, Identity};
use crate::normalize::{
    normalize_defi_tx, normalize_github_pushes, normalized_pushes, normalized_tx, PUSH_CAP, TX_CAP,
};
use vstd::prelude::*;
use vstd::string::*;

verus! {

/// The millionths of a point in one hundredth of a point.
pub const MICROS_PER_HUNDREDTH: u32 = 10_000;

/// The score of an identity with `commits` commits and `txs` transactions,
/// in millionths of a point: both counts normalized and weighed equally.
pub open spec fn reputation_of(commits: nat, txs: nat) -> nat {
    weighted_score(
        normalized_pushes(commits),
        normalized_tx(txs),
        EQUAL_WEIGHT as nat,
        EQUAL_WEIGHT as nat,
    )
}

/// A score in hundredths of a point, rounded to the nearest and, halfway
/// between two, to the even one.
pub open spec fn rounded_hundredths(micros: nat) -> nat {
    let whole = micros / MICROS_PER_HUNDREDTH as nat;
    let rest = micros % MICROS_PER_HUNDREDTH as nat;
    if rest > 5_000 || (rest == 5_000 && whole % 2 == 1) {
        whole + 1
    } else {
        whole
    }
}

/// A score as text with two decimals: its points, a point, and its
/// hundredths in two digits.
pub open spec fn score_text(micros: nat) -> Seq<char> {
    let hundredths = rounded_hundredths(micros);
    decimal_digits(hundredths / 100) + "."@ + seq![
        digit_char(hundredths % 100 / 10),
        digit_char(hundredths % 10),
    ]
}

/// The summary of one computation: the score, the repository and time of
/// the most recent push, and the two raw counts.
pub open spec fn summary_message(
    micros: nat,
    recent_repo: Seq<char>,
    recent_date: Seq<char>,
    commits: nat,
    txs: nat,
) -> Seq<char> {
    "Reputation Score: "@ + score_text(micros) + " (0-100 scale). Most recent repo: "@
        + recent_repo + " on "@ + recent_date + ". "@ + decimal_digits(commits)
        + " commits found. DeFi transactions: "@ + decimal_digits(txs) + "."@
}

/// An identity without activity scores zero, and its score is never above
/// 100 points.
pub proof fn reputation_in_range(commits: nat, txs: nat)
    ensures
        reputation_of(commits, txs) <= SCORE_MAX_MICROS,
        reputation_of(0, 0) == 0,
{
    crate::calculator::equal_weights_score(normalized_pushes(commits), normalized_tx(txs));
}

/// From 100 commits and 200 transactions on, the score is 100 points.
pub proof fn full_activity_scores_full(commits: nat, txs: nat)
    requires
        commits >= PUSH_CAP,
        txs >= TX_CAP,
    ensures
        reputation_of(commits, txs) == SCORE_MAX_MICROS,
{
}

/// More activity never lowers the score.
pub proof fn reputation_is_monotonic(commits: nat, txs: nat, more_commits: nat, more_txs: nat)
    requires
        commits <= more_commits,
        txs <= more_txs,
    ensures
        reputation_of(commits, txs) <= reputation_of(more_commits, more_txs),
{
    crate::normalize::factors_are_monotonic(commits, more_commits);
    crate::normalize::factors_are_monotonic(txs, more_txs);
    let a = normalized_pushes(commits);
    let b = normalized_pushes(more_commits);
    let c = normalized_tx(txs);
    let d = normalized_tx(more_txs);
    assert(a * 5_000 <= b * 5_000) by (nonlinear_arith)
        requires
            a <= b,
    ;
    assert(c * 5_000 <= d * 5_000) by (nonlinear_arith)
        requires
            c <= d,
    ;
}

/// The score of an identity with `commits` commits and `txs` transactions.
pub fn score_of_counts(commits: u64, txs: u64) -> (r: Score)
    ensures
        r@ == reputation_of(commits as nat, txs as nat),
{
    let factors = ReputationFactors {
        github_pushes: normalize_github_pushes(commits),
        defi_tx: normalize_defi_tx(txs),
    };
    let calculator = ReputationCalculator::new();
    calculator.calculate_reputation(&factors)
}

/// Appends a score as text with two decimals.
pub fn push_score(out: &mut String, score: Score)
    ensures
        final(out)@ == old(out)@ + score_text(score@),
{
    let micros = score.micros();
    let whole = micros / MICROS_PER_HUNDREDTH;
    let rest = micros % MICROS_PER_HUNDREDTH;
    let hundredths: u32 = if rest > 5_000 || (rest == 5_000 && whole % 2 == 1) {
        whole + 1
    } else {
        whole
    };
    push_decimal(out, (hundredths / 100) as u64);
    out.append(".");
    out.append(digit_text((hundredths % 100 / 10) as u64));
    out.append(digit_text((hundredths % 10) as u64));
}

/// The summary of one computation.
pub fn summary(score: Score, github: &GithubSignal, txs: u64) -> (r: String)
    ensures
        r@ == summary_message(
            score@,
            github.recent_repo@,
            github.recent_date@,
            github.commit_count as nat,
            txs as nat,
        ),
{
    let mut out = String::from_str("Reputation Score: ");
    push_score(&mut out, score);
    out.append(" (0-100 scale). Most recent repo: ");
    out.append(github.recent_repo.as_str());
    out.append(" on ");
    out.append(github.recent_date.as_str());
    out.append(". ");
    push_decimal(&mut out, github.commit_count);
    out.append(" commits found. DeFi transactions: ");
    push_decimal(&mut out, txs);
    out.append(".");
    out
}

/// Computes the score of an identity from its two signals, keeps it in the
/// cache under the identity that `eth_address` spells (the anonymous one
/// where it spells none), in place of any score kept there, and returns it
/// with its summary.
pub fn update_reputation_score(
    cache: &mut ReputationCache,
    github: &GithubSignal,
    defi_tx_count: u64,
    eth_address: &str,
) -> (r: (Score, String))
    ensures
        r.0@ == reputation_of(github.commit_count as nat, defi_tx_count as nat),
        r.1@ == summary_message(
            r.0@,
            github.recent_repo@,
            github.recent_date@,
            github.commit_count as nat,
            defi_tx_count as nat,
        ),
        final(cache)@ == old(cache)@.insert(identity_of_address(eth_address@), r.0),
{
    let score = score_of_counts(github.commit_count, defi_tx_count);
    let message = summary(score, github, defi_tx_count);
    cache.set(Identity::for_address(eth_address), score);
    (score, message)
}

/// The score kept for `user`, and the score of no activity where none is
/// kept.
pub fn get_reputation(cache: &ReputationCache, user: &Identity) -> (r: Score)
    ensures
        r == cached_score(cache@, user@),
{
    cache.get(user)
}

} // verus!
