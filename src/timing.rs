//! The timer: elapsed milliseconds around one unit of work, read from the
//! monotonic clock, and the throughput figure derived from them.
use core::time::Duration;
use std::time::Instant;
use vstd::prelude::*;

verus! {

#[verifier::external_type_specification]
#[verifier::external_body]
pub struct ExInstant(std::time::Instant);

/// Relies on std::time::Instant::now: a reading of the monotonic clock.
/// Nothing can be promised of the value read.
pub assume_specification[ std::time::Instant::now ]() -> Instant;

/// Relies on std::time::Instant::elapsed: the time passed since `start`,
/// which the monotonic clock keeps from going negative.
pub assume_specification[ std::time::Instant::elapsed ](start: &Instant) -> Duration;

/// Relies on core::time::Duration::as_millis: the whole milliseconds of a duration.
pub assume_specification[ core::time::Duration::as_millis ](d: &Duration) -> u128;

/// Runs `work` exactly once and returns its result together with the whole
/// milliseconds that passed between the instants just before and just after it.
pub fn measure<T, F: FnOnce() -> T>(work: F) -> (r: (T, u128))
    requires
        work.requires(()),
    ensures
        work.ensures((), r.0),
{
    let start = Instant::now();
    let value = work();
    let elapsed = start.elapsed();
    (value, elapsed.as_millis())
}

/// Operations per millisecond, kept as the exact quotient `operations / per_millis`.
/// A run that took no measurable time has no finite rate.
#[derive(PartialEq, Eq, Structural, Clone, Copy, Debug)]
pub enum Throughput {
    Unbounded,
    Rate { operations: u64, per_millis: u128 },
}

/// The throughput of `operations` done in `duration_ms` milliseconds.
pub open spec fn throughput_of(operations: u64, duration_ms: u128) -> Throughput {
    if duration_ms == 0 {
        Throughput::Unbounded
    } else {
        Throughput::Rate { operations, per_millis: duration_ms }
    }
}

impl Throughput {
    /// A rate is never over zero milliseconds.
    pub open spec fn wf(self) -> bool {
        match self {
            Throughput::Unbounded => true,
            Throughput::Rate { per_millis, .. } => per_millis > 0,
        }
    }
}

/// Derives the throughput of a run, never dividing by a zero duration.
pub fn throughput(operations: u64, duration_ms: u128) -> (r: Throughput)
    ensures
        r == throughput_of(operations, duration_ms),
        r.wf(),
{
    if duration_ms == 0 {
        Throughput::Unbounded
    } else {
        Throughput::Rate { operations, per_millis: duration_ms }
    }
}

} // verus!
