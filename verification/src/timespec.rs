//! The kernel's timestamp: seconds and nanoseconds.

use crate::duration::NSEC_PER_SEC;
use core::cmp::Ordering;
use vstd::prelude::*;
use vstd::std_specs::cmp::PartialOrdSpec;

verus! {

/// A point in time, or a span of it, as the kernel reports it: whole seconds
/// and the nanoseconds beyond them.
///
/// Equality, ordering and hashing go by the pair (seconds, nanoseconds).
/// Construction and the setters accept any nanosecond count; the arithmetic
/// works on well-formed values (see [`Timespec::wf`]) and returns only such.
#[derive(Clone, Copy, Debug, PartialEq, Eq, Structural, Ord, Hash)]
pub struct Timespec {
    secs: i64,
    nsecs: u32,
}

impl View for Timespec {
    type V = (i64, u32);

    /// The pair (seconds, nanoseconds).
    closed spec fn view(&self) -> (i64, u32) {
        (self.secs, self.nsecs)
    }
}

impl Timespec {
    /// The nanosecond field counts less than one second.
    pub open spec fn wf(self) -> bool {
        self@.1 < NSEC_PER_SEC
    }

    /// The position of this timestamp on the line of nanoseconds.
    pub open spec fn instant(self) -> int {
        self@.0 * NSEC_PER_SEC + self@.1
    }

    /// The seconds, for use in contracts.
    pub open spec fn spec_secs(&self) -> i64 {
        self@.0
    }

    /// The nanoseconds, for use in contracts.
    pub open spec fn spec_nsecs(&self) -> u32 {
        self@.1
    }

    /// A timestamp of `secs` seconds and `nsecs` nanoseconds. The nanosecond
    /// count is taken as given, whatever its size, and both numbers come
    /// back unchanged from the accessors.
    pub fn new(secs: i64, nsecs: u32) -> (t: Timespec)
        ensures
            t@ == (secs, nsecs),
            t.secs() == secs,
            t.nsecs() == nsecs,
            nsecs < NSEC_PER_SEC ==> t.wf(),
    {
        Timespec { secs, nsecs }
    }

    /// The seconds.
    #[verifier::when_used_as_spec(spec_secs)]
    pub fn secs(&self) -> (secs: i64)
        ensures
            secs == self@.0,
    {
        self.secs
    }

    /// Replaces the seconds and leaves the nanoseconds alone.
    pub fn set_secs(&mut self, secs: i64)
        ensures
            final(self)@ == (secs, old(self)@.1),
    {
        self.secs = secs;
    }

    /// The nanoseconds.
    #[verifier::when_used_as_spec(spec_nsecs)]
    pub fn nsecs(&self) -> (nsecs: u32)
        ensures
            nsecs == self@.1,
    {
        self.nsecs
    }

    /// Replaces the nanoseconds, whatever their size, and leaves the seconds
    /// alone.
    pub fn set_nsecs(&mut self, nsecs: u32)
        ensures
            final(self)@ == (old(self)@.0, nsecs),
    {
        self.nsecs = nsecs;
    }

    /// The timestamp of no seconds and no nanoseconds.
    pub fn zero() -> (t: Timespec)
        ensures
            t@ == (0i64, 0u32),
            t.wf(),
            t.instant() == 0,
    {
        Timespec::new(0, 0)
    }

    /// The seconds; the same as [`Timespec::secs`].
    pub fn seconds(&self) -> (secs: i64)
        ensures
            secs == self.secs(),
    {
        self.secs()
    }

    /// Replaces the seconds; the same as [`Timespec::set_secs`].
    pub fn set_seconds(&mut self, secs: i64)
        ensures
            final(self)@ == (secs, old(self)@.1),
    {
        self.set_secs(secs)
    }

    /// The nanoseconds; the same as [`Timespec::nsecs`].
    pub fn nanosecs(&self) -> (nsecs: u32)
        ensures
            nsecs == self.nsecs(),
    {
        self.nsecs()
    }

    /// The nanoseconds; the same as [`Timespec::nsecs`].
    pub fn nanoseconds(&self) -> (nsecs: u32)
        ensures
            nsecs == self.nsecs(),
    {
        self.nsecs()
    }

    /// Replaces the nanoseconds; the same as [`Timespec::set_nsecs`].
    pub fn set_nanosecs(&mut self, nsecs: u32)
        ensures
            final(self)@ == (old(self)@.0, nsecs),
    {
        self.set_nsecs(nsecs)
    }

    /// Replaces the nanoseconds; the same as [`Timespec::set_nsecs`].
    pub fn set_nanoseconds(&mut self, nsecs: u32)
        ensures
            final(self)@ == (old(self)@.0, nsecs),
    {
        self.set_nsecs(nsecs)
    }
}

impl Default for Timespec {
    /// The zero timestamp.
    fn default() -> (t: Timespec)
        ensures
            t@ == (0i64, 0u32),
    {
        Timespec::zero()
    }
}

impl vstd::std_specs::cmp::PartialOrdSpecImpl for Timespec {
    open spec fn obeys_partial_cmp_spec() -> bool {
        true
    }

    /// Seconds decide; nanoseconds break a tie.
    open spec fn partial_cmp_spec(&self, other: &Timespec) -> Option<Ordering> {
        if self@.0 < other@.0 {
            Some(Ordering::Less)
        } else if self@.0 > other@.0 {
            Some(Ordering::Greater)
        } else if self@.1 < other@.1 {
            Some(Ordering::Less)
        } else if self@.1 > other@.1 {
            Some(Ordering::Greater)
        } else {
            Some(Ordering::Equal)
        }
    }
}

impl PartialOrd for Timespec {
    fn partial_cmp(&self, other: &Timespec) -> (r: Option<Ordering>) {
        if self.secs < other.secs {
            Some(Ordering::Less)
        } else if self.secs > other.secs {
            Some(Ordering::Greater)
        } else if self.nsecs < other.nsecs {
            Some(Ordering::Less)
        } else if self.nsecs > other.nsecs {
            Some(Ordering::Greater)
        } else {
            Some(Ordering::Equal)
        }
    }
}

/// The order is that of the pairs (seconds, nanoseconds), read from the
/// left: `a < b` exactly when `a` has fewer seconds, or as many seconds and
/// fewer nanoseconds.
pub proof fn lemma_order_lexicographic(a: Timespec, b: Timespec)
    ensures
        a.partial_cmp_spec(&b) == Some(Ordering::Less) <==> (a@.0 < b@.0 || (a@.0 == b@.0 && a@.1
            < b@.1)),
        a.partial_cmp_spec(&b) == Some(Ordering::Equal) <==> a@ == b@,
        a.partial_cmp_spec(&b) == Some(Ordering::Greater) <==> b.partial_cmp_spec(&a) == Some(
            Ordering::Less,
        ),
{
}

/// Among well-formed timestamps the order is that of the instants.
pub proof fn lemma_order_follows_instant(a: Timespec, b: Timespec)
    requires
        a.wf(),
        b.wf(),
    ensures
        a.partial_cmp_spec(&b) == Some(Ordering::Less) <==> a.instant() < b.instant(),
        a.partial_cmp_spec(&b) == Some(Ordering::Equal) <==> a.instant() == b.instant(),
        a.partial_cmp_spec(&b) == Some(Ordering::Greater) <==> a.instant() > b.instant(),
{
}

/// Two timestamps with the same seconds and nanoseconds are the same value.
pub proof fn lemma_view_injective(a: Timespec, b: Timespec)
    requires
        a@ == b@,
    ensures
        a == b,
{
}

/// Among well-formed timestamps the position on the line of nanoseconds
/// determines the seconds and the nanoseconds.
pub proof fn lemma_instant_injective(a: Timespec, b: Timespec)
    requires
        a.wf(),
        b.wf(),
        a.instant() == b.instant(),
    ensures
        a == b,
{
}

} // verus!
