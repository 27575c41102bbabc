//! The clocks that the kernel can be asked about.

use vstd::prelude::*;

verus! {

/// Selects the time source that a clock read refers to.
///
/// The variants are declared in ascending order of their kernel numbers, so
/// the derived ordering agrees with the numeric one.
#[derive(Debug, Clone, Copy, PartialEq, Eq, Structural, PartialOrd, Ord, Hash)]
pub enum ClockId {
    /// Wall-clock time; settable, and subject to jumps and NTP slewing.
    Realtime,
    /// Time since an unspecified starting point; never goes backwards and
    /// does not count time spent suspended.
    Monotonic,
    /// CPU time consumed by all threads of the calling process.
    ProcessCputimeId,
    /// CPU time consumed by the calling thread.
    ThreadCputimeId,
    /// Like `Monotonic`, but free of NTP adjustments.
    MonotonicRaw,
    /// A cheaper, coarser `Realtime`.
    RealtimeCoarse,
    /// A cheaper, coarser `Monotonic`.
    MonotonicCoarse,
    /// Like `Monotonic`, but also counting time spent suspended.
    Boottime,
    /// Like `Realtime`, for timers that wake the system.
    RealtimeAlarm,
    /// Like `Boottime`, for timers that wake the system.
    BoottimeAlarm,
    /// International Atomic Time: wall-clock time without leap seconds.
    InternationalAtomicTime,
}

impl ClockId {
    /// The number by which the kernel knows this clock.
    pub open spec fn number(self) -> int {
        match self {
            ClockId::Realtime => 0,
            ClockId::Monotonic => 1,
            ClockId::ProcessCputimeId => 2,
            ClockId::ThreadCputimeId => 3,
            ClockId::MonotonicRaw => 4,
            ClockId::RealtimeCoarse => 5,
            ClockId::MonotonicCoarse => 6,
            ClockId::Boottime => 7,
            ClockId::RealtimeAlarm => 8,
            ClockId::BoottimeAlarm => 9,
            ClockId::InternationalAtomicTime => 11,
        }
    }

    /// The value handed to the kernel, or to its in-process entry point, to
    /// name this clock.
    pub fn raw(self) -> (n: i32)
        ensures
            n == self.number(),
    {
        match self {
            ClockId::Realtime => 0,
            ClockId::Monotonic => 1,
            ClockId::ProcessCputimeId => 2,
            ClockId::ThreadCputimeId => 3,
            ClockId::MonotonicRaw => 4,
            ClockId::RealtimeCoarse => 5,
            ClockId::MonotonicCoarse => 6,
            ClockId::Boottime => 7,
            ClockId::RealtimeAlarm => 8,
            ClockId::BoottimeAlarm => 9,
            ClockId::InternationalAtomicTime => 11,
        }
    }
}

/// No two clocks share a kernel number.
pub proof fn lemma_numbers_distinct(a: ClockId, b: ClockId)
    ensures
        a.number() == b.number() <==> a == b,
{
}

} // verus!
