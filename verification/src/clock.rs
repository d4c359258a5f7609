//! The monotonic clock of the standard library, as far as the tracker
//! needs it: the present instant, and the time gone by since an instant.
//!
//! Nothing is proved here. What the clock returns depends on when it is
//! asked, so neither call is given a postcondition: verified code that
//! calls them holds for whatever instant or duration comes back.

use std::time::{Duration, Instant};
use vstd::prelude::*;

verus! {

/// `std::time::Instant`, a point on the monotonic clock. Its inside is not
/// visible to proofs: two instants can be compared for equality and nothing
/// else.
#[verifier::external_type_specification]
#[verifier::external_body]
pub struct ExInstant(Instant);

/// `std::time::Instant::now` returns the present instant. Nothing is
/// claimed of it.
pub assume_specification[ Instant::now ]() -> Instant;

/// `std::time::Instant::elapsed` returns the time gone by since `start`
/// (zero if `start` lies ahead of the clock). Nothing is claimed of it.
pub assume_specification[ Instant::elapsed ](start: &Instant) -> Duration;

} // verus!
