//! The two fixed-point quantities of the scoring path.

use vstd::prelude::*;

verus! {

/// The parts that make one whole `Factor`.
pub const FACTOR_SCALE: u32 = 10_000;

/// The millionths that make one point of a `Score`.
pub const MICROS_PER_POINT: u32 = 1_000_000;

/// The highest score, 100 points, in millionths of a point.
pub const SCORE_MAX_MICROS: u32 = 100_000_000;

/// A normalized factor: a share between 0 and 1, in parts of ten thousand.
#[derive(Clone, Copy, Debug, PartialEq, Eq, Structural)]
pub struct Factor {
    parts: u32,
}

impl View for Factor {
    type V = nat;

    /// The parts of ten thousand that the factor holds.
    closed spec fn view(&self) -> nat {
        self.parts as nat
    }
}

impl Factor {
    #[verifier::type_invariant]
    spec fn within_one(self) -> bool {
        self.parts <= FACTOR_SCALE
    }

    /// The factor of `parts` ten-thousandths.
    pub(crate) fn new(parts: u32) -> (r: Factor)
        requires
            parts <= FACTOR_SCALE,
        ensures
            r@ == parts,
    {
        Factor { parts }
    }

    /// The factor of `parts` ten-thousandths, where that is at most one whole.
    pub fn from_parts(parts: u32) -> (r: Option<Factor>)
        ensures
            parts <= FACTOR_SCALE ==> (r matches Some(f) && f@ == parts),
            parts > FACTOR_SCALE ==> r is None,
    {
        if parts <= FACTOR_SCALE {
            Some(Factor { parts })
        } else {
            None
        }
    }

    /// The factor in parts of ten thousand.
    pub fn parts(&self) -> (p: u32)
        ensures
            p == self@,
            p <= FACTOR_SCALE,
    {
        proof {
            use_type_invariant(self);
        }
        self.parts
    }
}

/// A reputation score between 0 and 100 points, in millionths of a point.
#[derive(Clone, Copy, Debug, PartialEq, Eq, Structural)]
pub struct Score {
    micros: u32,
}

impl View for Score {
    type V = nat;

    /// The millionths of a point that the score holds.
    closed spec fn view(&self) -> nat {
        self.micros as nat
    }
}

impl Score {
    #[verifier::type_invariant]
    spec fn within_scale(self) -> bool {
        self.micros <= SCORE_MAX_MICROS
    }

    /// The score of no activity, which is also that of an unknown identity.
    pub closed spec fn none() -> Score {
        Score { micros: 0 }
    }

    /// The score of no activity is zero points.
    pub proof fn none_is_zero()
        ensures
            Score::none()@ == 0,
    {
    }

    /// The score of no activity.
    pub fn zero() -> (r: Score)
        ensures
            r == Score::none(),
            r@ == 0,
    {
        Score { micros: 0 }
    }

    /// The score of `micros` millionths of a point.
    pub(crate) fn new(micros: u32) -> (r: Score)
        requires
            micros <= SCORE_MAX_MICROS,
        ensures
            r@ == micros,
    {
        Score { micros }
    }

    /// The score of `micros` millionths of a point, where that is at most 100 points.
    pub fn from_micros(micros: u32) -> (r: Option<Score>)
        ensures
            micros <= SCORE_MAX_MICROS ==> (r matches Some(s) && s@ == micros),
            micros > SCORE_MAX_MICROS ==> r is None,
    {
        if micros <= SCORE_MAX_MICROS {
            Some(Score { micros })
        } else {
            None
        }
    }

    /// The score in millionths of a point.
    pub fn micros(&self) -> (m: u32)
        ensures
            m == self@,
            m <= SCORE_MAX_MICROS,
    {
        proof {
            use_type_invariant(self);
        }
        self.micros
    }
}

} // verus!
