//! The monotonic clock.
use std::time::Instant;
use vstd::prelude::*;

use crate::span::Span;

verus! {

/// The clock reading of the standard library.
#[verifier::external_type_specification]
#[verifier::external_body]
pub struct ExInstant(Instant);

/// `Instant::now` reads the clock. Nothing is claimed of the reading.
#[verifier::external_body]
fn instant_now() -> (r: Instant) {
    Instant::now()
}

/// `Instant::elapsed` reads the clock; the time since `since`. Nothing is claimed of its length.
#[verifier::external_body]
fn instant_elapsed(since: &Instant) -> (r: Span) {
    let elapsed = since.elapsed();
    Span { secs: elapsed.as_secs(), nanos: elapsed.subsec_nanos() }
}

/// Whether `at` is what `Instant::now` may return. That it is, is learned by reading the clock alone.
pub closed spec fn is_reading(at: Instant) -> bool {
    call_ensures(instant_now, (), at)
}

/// Whether `time` is what `Instant::elapsed` may return for `since`. That it is, is learned by reading the
/// clock alone.
pub closed spec fn has_elapsed(since: Instant, time: Span) -> bool {
    call_ensures(instant_elapsed, (&since,), time)
}

/// Reads the clock.
pub(crate) fn now() -> (r: Instant)
    ensures
        is_reading(r),
{
    let at = instant_now();
    assert(call_ensures(instant_now, (), at));
    at
}

/// Reads the clock; the time since `since`.
pub(crate) fn elapsed(since: &Instant) -> (r: Span)
    ensures
        has_elapsed(*since, r),
{
    let time = instant_elapsed(since);
    assert(call_ensures(instant_elapsed, (since,), time));
    time
}

} // verus!
