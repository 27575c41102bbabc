//! What the arithmetic needs to know about `core::time::Duration`.
//!
//! A `Duration` is opaque to the verifier. The two names below stand for its
//! whole seconds and for the nanoseconds beyond them; the contracts that
//! follow tie the standard library's constructor and accessors to those
//! names and are taken on trust.

use core::time::Duration;
use vstd::prelude::*;

verus! {

/// Nanoseconds in one second.
pub const NSEC_PER_SEC: u32 = 1_000_000_000;

/// The whole seconds of `d`: what `Duration::as_secs` returns.
pub uninterp spec fn duration_secs(d: Duration) -> u64;

/// The nanoseconds of `d` beyond its whole seconds: what
/// `Duration::subsec_nanos` returns.
pub uninterp spec fn duration_subsec_nanos(d: Duration) -> u32;

/// The length of `d` in nanoseconds.
pub open spec fn duration_nanos(d: Duration) -> int {
    duration_secs(d) * NSEC_PER_SEC + duration_subsec_nanos(d)
}

/// `d` is the duration of `nanos` nanoseconds, with a sub-second part below
/// one second.
pub open spec fn duration_is(d: Duration, nanos: int) -> bool {
    &&& duration_secs(d) == nanos / (NSEC_PER_SEC as int)
    &&& duration_subsec_nanos(d) == nanos % (NSEC_PER_SEC as int)
}

/// `Duration::new`: nanoseconds beyond one second carry into the seconds.
/// The standard library panics when that carry overflows the seconds, so
/// such arguments are excluded.
pub assume_specification[ Duration::new ](secs: u64, nanos: u32) -> (d: Duration)
    requires
        secs + nanos / NSEC_PER_SEC <= u64::MAX,
    ensures
        duration_secs(d) == secs + nanos / NSEC_PER_SEC,
        duration_subsec_nanos(d) == nanos % NSEC_PER_SEC,
;

/// `Duration::as_secs`: the whole seconds.
pub assume_specification[ Duration::as_secs ](d: &Duration) -> (secs: u64)
    ensures
        secs == duration_secs(*d),
;

/// `Duration::subsec_nanos`: the fractional part in nanoseconds, which the
/// standard library documents as always below one billion.
pub assume_specification[ Duration::subsec_nanos ](d: &Duration) -> (nanos: u32)
    ensures
        nanos == duration_subsec_nanos(*d),
        nanos < NSEC_PER_SEC,
;

} // verus!
