//! Identifier generation: user ids and message ids are drawn from a large
//! random space.

use vstd::prelude::*;

verus! {

/// Relies on rand::random: draws a value from the thread-local random
/// generator. Nothing is promised of the result; callers state what holds of
/// every outcome.
pub assume_specification<T>[ rand::random::<T> ]() -> (r: T)
    where
        rand::distributions::Standard: rand::distributions::Distribution<T>,
;

} // verus!
