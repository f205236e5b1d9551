//! The predictor's one rule on its input: as many features as weights.

use crate::decimal::{decimal_digits, push_decimal};
use vstd::prelude::*;
use vstd::string::*;

verus! {

/// What a prediction with the wrong number of features is refused with.
pub open spec fn mismatch_message(expected: nat, got: nat) -> Seq<char> {
    "Expected "@ + decimal_digits(expected) + " features, got "@ + decimal_digits(got)
}

/// Accepts `features` features for a model of `weights` weights where the
/// two numbers are equal, and refuses them with a message otherwise.
pub fn check_feature_count(weights: usize, features: usize) -> (r: Result<(), String>)
    ensures
        match r {
            Ok(_) => features == weights,
            Err(message) => features != weights && message@ == mismatch_message(
                weights as nat,
                features as nat,
            ),
        },
{
    if features == weights {
        return Ok(());
    }
    let mut message = String::from_str("Expected ");
    push_decimal(&mut message, weights as u64);
    message.append(" features, got ");
    push_decimal(&mut message, features as u64);
    Err(message)
}

} // verus!
