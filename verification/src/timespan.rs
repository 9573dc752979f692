//! Spans of time as the engine sees them: timeouts and measured latencies.

use vstd::prelude::*;

verus! {

/// Nanoseconds in one millisecond.
pub const NANOS_PER_MILLI: u32 = 1_000_000;

/// Nanoseconds in one second.
pub const NANOS_PER_SEC: u32 = 1_000_000_000;

/// A span of time: whole seconds and the rest of a second in nanoseconds.
///
/// A span is well formed when the rest stays below one second. One that is
/// not still stands for its total of nanoseconds.
#[derive(Clone, Copy, Debug, PartialEq, Eq, Structural)]
pub struct TimeSpan {
    pub secs: u64,
    pub nanos: u32,
}

impl TimeSpan {
    /// The sub-second part stays below one second.
    pub open spec fn wf(self) -> bool {
        self.nanos < NANOS_PER_SEC
    }

    /// The whole milliseconds that the span holds.
    pub open spec fn millis(self) -> nat {
        (self.secs * 1000 + self.nanos / NANOS_PER_MILLI) as nat
    }

    /// The span in nanoseconds.
    pub open spec fn total_nanos(self) -> nat {
        (self.secs * NANOS_PER_SEC + self.nanos) as nat
    }

    /// The span of `ms` milliseconds.
    pub open spec fn of_millis(ms: u64) -> TimeSpan {
        TimeSpan { secs: ms / 1000, nanos: ((ms % 1000) * NANOS_PER_MILLI) as u32 }
    }

    /// Builds the span of `ms` milliseconds.
    pub fn from_millis(ms: u64) -> (span: TimeSpan)
        ensures
            span == Self::of_millis(ms),
            span.wf(),
            span.millis() == ms,
            span.total_nanos() == ms * NANOS_PER_MILLI,
    {
        let sub: u32 = (ms % 1000) as u32;
        TimeSpan { secs: ms / 1000, nanos: sub * NANOS_PER_MILLI }
    }

    /// The whole milliseconds that the span holds.
    pub fn as_millis(&self) -> (ms: u128)
        ensures
            ms == self.millis(),
    {
        self.secs as u128 * 1000 + (self.nanos / NANOS_PER_MILLI) as u128
    }

    /// Whether the span is empty.
    pub fn is_zero(&self) -> (zero: bool)
        ensures
            zero == (self.total_nanos() == 0),
    {
        self.secs == 0 && self.nanos == 0
    }
}

} // verus!
