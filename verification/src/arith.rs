//! Arithmetic on timestamps: the span between two of them, and a timestamp
//! moved forwards or backwards by a duration. Nothing here wraps: what does
//! not fit is reported.

use crate::duration::{
    duration_is, duration_nanos, duration_secs, duration_subsec_nanos, NSEC_PER_SEC,
};
use crate::timespec::{lemma_instant_injective, Timespec};
use core::time::Duration;
use vstd::prelude::*;

verus! {

/// The largest count of seconds that a duration may hold and still be added
/// to, or subtracted from, a timestamp.
pub const MAX_SHIFT_SECS: u64 = 9_223_372_036_854_775_807;

/// How many seconds `later` lies after `earlier`.
fn seconds_between(later: i64, earlier: i64) -> (gap: u64)
    requires
        earlier <= later,
    ensures
        gap == later - earlier,
{
    let wide: i128 = later as i128 - earlier as i128;
    wide as u64
}

/// A count of seconds as a signed number, where it has one.
fn signed_seconds(secs: u64) -> (r: Option<i64>)
    ensures
        secs <= MAX_SHIFT_SECS ==> r == Some(secs as i64),
        secs > MAX_SHIFT_SECS ==> r is None,
{
    if secs > MAX_SHIFT_SECS {
        None
    } else {
        Some(secs as i64)
    }
}

impl Timespec {
    /// The span between two timestamps in nanoseconds: `Ok` where `self` is
    /// the later of the two or both are the same, `Err` where it is the
    /// earlier.
    pub open spec fn span(self, other: Timespec) -> Result<int, int> {
        if self.instant() >= other.instant() {
            Ok(self.instant() - other.instant())
        } else {
            Err(other.instant() - self.instant())
        }
    }

    /// Whether `r` is the span `self.span(other)` as a pair of durations.
    pub open spec fn is_span(self, other: Timespec, r: Result<Duration, Duration>) -> bool {
        match self.span(other) {
            Ok(nanos) => r matches Ok(d) && duration_is(d, nanos),
            Err(nanos) => r matches Err(d) && duration_is(d, nanos),
        }
    }

    /// Whether `self` moved forwards by `d` leaves the range of timestamps. A
    /// duration of more seconds than a timestamp can count is out of range
    /// whatever the timestamp.
    pub open spec fn add_overflows(self, d: Duration) -> bool {
        ||| duration_secs(d) > MAX_SHIFT_SECS
        ||| (self.instant() + duration_nanos(d)) / (NSEC_PER_SEC as int) > i64::MAX
    }

    /// Whether `self` moved backwards by `d` leaves the range of timestamps.
    pub open spec fn sub_overflows(self, d: Duration) -> bool {
        ||| duration_secs(d) > MAX_SHIFT_SECS
        ||| (self.instant() - duration_nanos(d)) / (NSEC_PER_SEC as int) < i64::MIN
    }

    /// Whether `r` is what moving `self` forwards by `d` gives: nothing on
    /// overflow, else the well-formed timestamp `d` after `self`.
    pub open spec fn is_sum(self, d: Duration, r: Option<Timespec>) -> bool {
        if self.add_overflows(d) {
            r is None
        } else {
            r matches Some(t) && t.wf() && t.instant() == self.instant() + duration_nanos(d)
        }
    }

    /// Whether `r` is what moving `self` backwards by `d` gives: nothing on
    /// overflow, else the well-formed timestamp `d` before `self`.
    pub open spec fn is_difference(self, d: Duration, r: Option<Timespec>) -> bool {
        if self.sub_overflows(d) {
            r is None
        } else {
            r matches Some(t) && t.wf() && t.instant() == self.instant() - duration_nanos(d)
        }
    }

    /// The span between `self` and `other`, as a magnitude: `Ok` where `self`
    /// is not before `other`, `Err` where it is.
    pub fn sub_timespec(&self, other: &Timespec) -> (r: Result<Duration, Duration>)
        requires
            self.wf(),
            other.wf(),
        ensures
            self.is_span(*other, r),
        decreases (if self.instant() >= other.instant() { 0int } else { 1int }),
    {
        if *self >= *other {
            let (secs, nsecs) = if self.nsecs() >= other.nsecs() {
                (seconds_between(self.secs(), other.secs()), self.nsecs() - other.nsecs())
            } else {
                (
                    seconds_between(self.secs(), other.secs()) - 1,
                    self.nsecs() + NSEC_PER_SEC - other.nsecs(),
                )
            };
            Ok(Duration::new(secs, nsecs))
        } else {
            match other.sub_timespec(self) {
                Ok(d) => Err(d),
                Err(d) => Ok(d),
            }
        }
    }

    /// `self` moved forwards by `other`, or nothing where the seconds would
    /// not fit.
    pub fn checked_add_duration(&self, other: &Duration) -> (r: Option<Timespec>)
        requires
            self.wf(),
        ensures
            self.is_sum(*other, r),
    {
        let shift = match signed_seconds(other.as_secs()) {
            Some(shift) => shift,
            None => return None,
        };
        let mut secs = match self.secs().checked_add(shift) {
            Some(secs) => secs,
            None => return None,
        };
        let mut nsecs = other.subsec_nanos() + self.nsecs();
        if nsecs >= NSEC_PER_SEC {
            nsecs -= NSEC_PER_SEC;
            secs = match secs.checked_add(1) {
                Some(secs) => secs,
                None => return None,
            };
        }
        Some(Timespec::new(secs, nsecs))
    }

    /// `self` moved backwards by `other`, or nothing where the seconds would
    /// not fit.
    pub fn checked_sub_duration(&self, other: &Duration) -> (r: Option<Timespec>)
        requires
            self.wf(),
        ensures
            self.is_difference(*other, r),
    {
        let shift = match signed_seconds(other.as_secs()) {
            Some(shift) => shift,
            None => return None,
        };
        let mut secs = match self.secs().checked_sub(shift) {
            Some(secs) => secs,
            None => return None,
        };
        let sub = other.subsec_nanos();
        let nsecs = if self.nsecs() >= sub {
            self.nsecs() - sub
        } else {
            secs = match secs.checked_sub(1) {
                Some(secs) => secs,
                None => return None,
            };
            self.nsecs() + NSEC_PER_SEC - sub
        };
        Some(Timespec::new(secs, nsecs))
    }
}

/// The duration that a span carries, on whichever side it lies.
pub open spec fn magnitude(r: Result<Duration, Duration>) -> Duration {
    match r {
        Ok(d) => d,
        Err(d) => d,
    }
}

/// The span is antisymmetric: between two different instants, whatever one
/// order reports as `Ok` the other reports as `Err`, with the same
/// magnitude; between equal instants both orders report `Ok` of nothing.
pub proof fn lemma_span_antisymmetric(a: Timespec, b: Timespec)
    ensures
        a.instant() != b.instant() ==> (a.span(b) is Ok <==> b.span(a) is Err),
        a.span(b) matches Ok(n) ==> n == 0 || b.span(a) == Err::<int, int>(n),
        a.span(b) matches Err(n) ==> n > 0 && b.span(a) == Ok::<int, int>(n),
        a.instant() == b.instant() ==> a.span(b) == Ok::<int, int>(0) && b.span(a) == Ok::<int, int>(0),
{
}

/// The same law over what `sub_timespec` returns: two durations that are the
/// spans of `a` from `b` and of `b` from `a` hold the same seconds and
/// nanoseconds, and lie on opposite sides unless the timestamps are equal.
pub proof fn lemma_sub_timespec_antisymmetric(
    a: Timespec,
    b: Timespec,
    ab: Result<Duration, Duration>,
    ba: Result<Duration, Duration>,
)
    requires
        a.wf(),
        b.wf(),
        a.is_span(b, ab),
        b.is_span(a, ba),
    ensures
        a != b ==> (ab is Ok <==> ba is Err),
        a == b ==> ab is Ok && ba is Ok,
        a == b ==> duration_is(magnitude(ab), 0),
        duration_secs(magnitude(ab)) == duration_secs(magnitude(ba)),
        duration_subsec_nanos(magnitude(ab)) == duration_subsec_nanos(magnitude(ba)),
{
    if a.instant() == b.instant() {
        lemma_instant_injective(a, b);
    }
}

/// Moving a timestamp forwards by a duration and then backwards by the same
/// duration gives the timestamp back, wherever the forward move fits.
pub proof fn lemma_add_then_sub(a: Timespec, d: Duration, sum: Timespec, back: Option<Timespec>)
    requires
        a.wf(),
        a.is_sum(d, Some(sum)),
        sum.is_difference(d, back),
    ensures
        back == Some(a),
{
    lemma_instant_injective(a, back->0);
}

} // verus!
