//! The weighted scorer: two factors to one score.

use crate::fixed::{Factor, Score, FACTOR_SCALE, SCORE_MAX_MICROS};
use vstd::prelude::*;

verus! {

/// Half of one whole: the weight that each factor has.
pub const EQUAL_WEIGHT: u32 = 5_000;

/// The two normalized factors of one identity.
pub struct ReputationFactors {
    pub github_pushes: Factor,
    pub defi_tx: Factor,
}

/// The weights of the two factors. Together they are at most one whole.
pub struct ReputationCalculator {
    weight_github: Factor,
    weight_defi: Factor,
}

/// The weighted sum of two factors, in millionths of a point: factors and
/// weights are in parts of ten thousand, and a whole factor at a whole
/// weight is 100 points.
pub open spec fn weighted_score(pushes: nat, tx: nat, weight_pushes: nat, weight_tx: nat) -> nat {
    pushes * weight_pushes + tx * weight_tx
}

/// With weights that are together at most one whole, the weighted sum of two
/// factors is at most 100 points.
pub proof fn weighted_score_in_range(pushes: nat, tx: nat, weight_pushes: nat, weight_tx: nat)
    requires
        pushes <= FACTOR_SCALE,
        tx <= FACTOR_SCALE,
        weight_pushes + weight_tx <= FACTOR_SCALE,
    ensures
        weighted_score(pushes, tx, weight_pushes, weight_tx) <= SCORE_MAX_MICROS,
{
    assert(pushes * weight_pushes <= 10_000 * weight_pushes) by (nonlinear_arith)
        requires
            pushes <= 10_000,
    ;
    assert(tx * weight_tx <= 10_000 * weight_tx) by (nonlinear_arith)
        requires
            tx <= 10_000,
    ;
}

/// With equal weights the score of two factors `a` and `b` is `(a + b) * 50`
/// points, and lies between 0 and 100 points: in millionths of a point, and
/// with the factors in parts of ten thousand, that is `(a + b) * 5000`.
pub proof fn equal_weights_score(pushes: nat, tx: nat)
    requires
        pushes <= FACTOR_SCALE,
        tx <= FACTOR_SCALE,
    ensures
        weighted_score(pushes, tx, EQUAL_WEIGHT as nat, EQUAL_WEIGHT as nat) == (pushes + tx)
            * 5_000,
        weighted_score(pushes, tx, EQUAL_WEIGHT as nat, EQUAL_WEIGHT as nat) <= SCORE_MAX_MICROS,
{
    weighted_score_in_range(pushes, tx, EQUAL_WEIGHT as nat, EQUAL_WEIGHT as nat);
    assert(pushes * 5_000 + tx * 5_000 == (pushes + tx) * 5_000) by (nonlinear_arith);
}

impl ReputationCalculator {
    #[verifier::type_invariant]
    spec fn weights_within_one(self) -> bool {
        self.weight_github@ + self.weight_defi@ <= FACTOR_SCALE
    }

    /// The weight of the push factor, in parts of ten thousand.
    pub closed spec fn weight_github(self) -> nat {
        self.weight_github@
    }

    /// The weight of the transaction factor, in parts of ten thousand.
    pub closed spec fn weight_defi(self) -> nat {
        self.weight_defi@
    }

    /// The calculator that weighs both factors equally.
    pub fn new() -> (r: ReputationCalculator)
        ensures
            r.weight_github() == EQUAL_WEIGHT,
            r.weight_defi() == EQUAL_WEIGHT,
    {
        ReputationCalculator {
            weight_github: Factor::new(EQUAL_WEIGHT),
            weight_defi: Factor::new(EQUAL_WEIGHT),
        }
    }

    /// The weighted sum of the two factors, on the scale of 0 to 100 points.
    pub fn calculate_reputation(&self, factors: &ReputationFactors) -> (r: Score)
        ensures
            r@ == weighted_score(
                factors.github_pushes@,
                factors.defi_tx@,
                self.weight_github(),
                self.weight_defi(),
            ),
    {
        proof {
            use_type_invariant(self);
        }
        let pushes = factors.github_pushes.parts();
        let tx = factors.defi_tx.parts();
        let weight_pushes = self.weight_github.parts();
        let weight_tx = self.weight_defi.parts();
        proof {
            weighted_score_in_range(
                pushes as nat,
                tx as nat,
                weight_pushes as nat,
                weight_tx as nat,
            );
            assert(pushes * weight_pushes <= 10_000 * 10_000) by (nonlinear_arith)
                requires
                    pushes <= 10_000,
                    weight_pushes <= 10_000,
            ;
        }
        Score::new(pushes * weight_pushes + tx * weight_tx)
    }
}

} // verus!
