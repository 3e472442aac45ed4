use vstd::prelude::*;
use std::time::Duration;
use std::time::Instant;

verus! {

#[verifier::external_type_specification]
#[verifier::external_body]
pub struct ExInstant(Instant);

/// The length of a span of time in nanoseconds.
pub uninterp spec fn duration_nanos(span: Duration) -> nat;

/// `Instant::now`: the present moment. Nothing is promised of it.
pub assume_specification[ Instant::now ]() -> Instant
;

/// `Instant::elapsed`: the time since the moment. Nothing is promised of it.
pub assume_specification[ Instant::elapsed ](moment: &Instant) -> Duration
;

/// `Duration::from_secs`: a span of that many whole seconds.
pub assume_specification[ Duration::from_secs ](secs: u64) -> (r: Duration)
    ensures
        duration_nanos(r) == secs * 1_000_000_000,
;

/// `Duration::as_secs`: the whole seconds of the span.
pub assume_specification[ Duration::as_secs ](span: &Duration) -> (r: u64)
    ensures
        r == duration_nanos(*span) / 1_000_000_000,
;

/// `Duration::as_nanos`: the span in nanoseconds.
pub assume_specification[ Duration::as_nanos ](span: &Duration) -> (r: u128)
    ensures
        r == duration_nanos(*span),
;

/// The `<` of `Duration`: whether the first span is the shorter one.
#[verifier::external_body]
pub(crate) fn shorter(a: Duration, b: Duration) -> (r: bool)
    ensures
        r == (duration_nanos(a) < duration_nanos(b)),
{
    a < b
}

} // verus!
