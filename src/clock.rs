//! The monotonic clock, as far as the library relies on it.
use std::time::{Duration, Instant};
use vstd::prelude::*;

verus! {

/// `std::time::Instant`: a reading of the monotonic clock, carried through unread.
#[verifier::external_type_specification]
#[verifier::external_body]
pub struct ExInstant(Instant);

/// Relies on `Instant::now`: reads the monotonic clock. Nothing is known of the value.
pub assume_specification[ Instant::now ]() -> Instant;

/// Relies on `Instant::elapsed`: the time since the reading. Nothing is known of the value.
pub assume_specification[ Instant::elapsed ](this: &Instant) -> Duration;

/// Relies on `Instant` being `Copy`: a clone is the same reading.
pub assume_specification[ <Instant as Clone>::clone ](this: &Instant) -> (r: Instant)
    ensures
        r == *this,
;

} // verus!
