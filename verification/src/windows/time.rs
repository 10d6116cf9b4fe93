//! Times as the media transport controls hold them.
use vstd::arithmetic::div_mod::*;
use vstd::prelude::*;

use crate::span::Span;

verus! {

/// A time span counts steps of 100 nanoseconds.
pub const NANOS_PER_STEP: u64 = 100;

pub const NANOS_PER_SEC: u64 = 1_000_000_000;

/// A span of time in nanoseconds.
pub open spec fn nanoseconds(span: Span) -> int {
    span.secs * NANOS_PER_SEC + span.nanos
}

/// The time span of a span of time; what makes no whole step is dropped. One that is too long wraps
/// around.
pub open spec fn steps(span: Span) -> i64 {
    (nanoseconds(span) / NANOS_PER_STEP as int) as i64
}

/// The nanoseconds of a time span. One below zero wraps around.
pub open spec fn step_nanoseconds(steps: i64) -> u64 {
    (steps * NANOS_PER_STEP) as u64
}

/// The span of time of a time span.
pub open spec fn span_of(steps: i64) -> Span {
    Span {
        secs: step_nanoseconds(steps) / NANOS_PER_SEC,
        nanos: (step_nanoseconds(steps) % NANOS_PER_SEC) as u32,
    }
}

/// A time span whose nanoseconds fit a signed number of 64 bits.
pub open spec fn is_convertible(steps: i64) -> bool {
    i64::MIN <= steps * NANOS_PER_STEP <= i64::MAX
}

/// A span of time comes back from its time span, without what makes no whole step.
pub proof fn law_timespan_roundtrip(span: Span)
    requires
        span.wf(),
        nanoseconds(span) - span.nanos % 100 <= i64::MAX,
    ensures
        is_convertible(steps(span)),
        span_of(steps(span)).secs == span.secs,
        span_of(steps(span)).nanos == span.nanos - span.nanos % 100,
{
    let n = nanoseconds(span);
    let rest = span.nanos - span.nanos % 100;
    assert(n == 100 * (span.secs * 10_000_000 + span.nanos / 100) + span.nanos % 100);
    lemma_fundamental_div_mod_converse(
        n,
        100,
        span.secs * 10_000_000 + span.nanos / 100,
        span.nanos as int % 100,
    );
    assert(steps(span) * 100 == span.secs * 1_000_000_000 + rest);
    lemma_fundamental_div_mod_converse(
        steps(span) * 100,
        1_000_000_000,
        span.secs as int,
        rest,
    );
}

/// The time span of a span of time.
pub fn secs_to_timespan(seconds: Span) -> (r: i64)
    requires
        seconds.wf(),
    ensures
        r == steps(seconds),
{
    assert(seconds.secs * NANOS_PER_SEC <= u64::MAX * NANOS_PER_SEC) by (nonlinear_arith)
        requires
            seconds.secs <= u64::MAX,
    ;
    let nanoseconds: u128 = seconds.secs as u128 * NANOS_PER_SEC as u128 + seconds.nanos as u128;
    #[verifier::truncate]
    ((nanoseconds / NANOS_PER_STEP as u128) as i64)
}

/// The span of time of a time span.
pub fn timespan_to_span(timespan: i64) -> (r: Span)
    requires
        is_convertible(timespan),
    ensures
        r == span_of(timespan),
        r.wf(),
{
    let nanoseconds: i64 = timespan * NANOS_PER_STEP as i64;
    #[verifier::truncate]
    let nanoseconds: u64 = nanoseconds as u64;
    Span { secs: nanoseconds / NANOS_PER_SEC, nanos: (nanoseconds % NANOS_PER_SEC) as u32 }
}

} // verus!
