use vstd::prelude::*;

verus! {

/// A point on std's monotonic clock, opaque to the proofs.
#[verifier::external_type_specification]
#[verifier::external_body]
pub struct ExInstant(std::time::Instant);

/// Relies on `std::time::Instant::now`: reads the monotonic clock. Nothing is
/// known of the value.
pub assume_specification[ std::time::Instant::now ]() -> std::time::Instant;

/// Relies on `std::time::Instant::elapsed`: the time since an earlier reading.
/// Nothing is known of the value.
pub assume_specification[ std::time::Instant::elapsed ](self_: &std::time::Instant) -> std::time::Duration;

/// Relies on `core::time::Duration::as_nanos`: a span as whole nanoseconds.
pub assume_specification[ core::time::Duration::as_nanos ](self_: &core::time::Duration) -> u128;

} // verus!
