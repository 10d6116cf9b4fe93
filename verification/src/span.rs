//! Spans of time.
use vstd::prelude::*;

use crate::double::Double;
use crate::numbers;

verus! {

/// A span of time.
#[derive(Clone, Copy, Debug, PartialEq, Eq, Structural)]
pub struct Span {
    pub secs: u64,
    pub nanos: u32,
}

/// What `Duration::as_secs_f64` of the standard library returns for a duration of `secs` seconds and
/// `nanos` nanoseconds, by its bit pattern.
pub uninterp spec fn duration_bits(secs: u64, nanos: u32) -> u64;

/// A duration of `secs` seconds and `nanos` nanoseconds, in seconds.
pub open spec fn duration_seconds(secs: u64, nanos: u32) -> Double {
    Double { bits: duration_bits(secs, nanos) }
}

/// `Duration::as_secs_f64`: the seconds of a duration as a binary64 number, its nanoseconds included.
/// The number depends on the two parts of the duration alone, and is not below zero; how it is rounded
/// is left unsaid. Parts that make no duration are left out.
#[verifier::external_body]
pub(crate) fn as_secs(secs: u64, nanos: u32) -> (r: Double)
    requires
        nanos < 1_000_000_000,
    ensures
        r.bits == duration_bits(secs, nanos),
        numbers::zero().le(r),
{
    Double { bits: std::time::Duration::new(secs, nanos).as_secs_f64().to_bits() }
}

impl Span {
    /// The nanoseconds make no whole second.
    pub open spec fn wf(self) -> bool {
        self.nanos < 1_000_000_000
    }

    /// The span in seconds.
    pub open spec fn seconds_spec(self) -> Double {
        duration_seconds(self.secs, self.nanos)
    }

    /// The span in seconds.
    pub fn seconds(self) -> (r: Double)
        requires
            self.wf(),
        ensures
            r == self.seconds_spec(),
            numbers::zero().le(r),
    {
        as_secs(self.secs, self.nanos)
    }
}

} // verus!
