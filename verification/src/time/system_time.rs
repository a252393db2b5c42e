//! Points on the system clock, counted from the Unix epoch.

use super::duration::dur_nanos;
use super::reading::{
    checked_add_reading, checked_sub_reading, compare_readings, lemma_join_reading,
    lemma_split_reading, max_reading, reading_diff, reading_le, reading_nanos, reading_order,
    reading_secs, reading_subsec,
};
use core::cmp::Ordering;
use core::ops::{Add, AddAssign, Sub, SubAssign};
use core::time::Duration;
use vstd::pervasive::unreached;
use vstd::prelude::*;
use vstd::std_specs::cmp::PartialOrdSpecImpl;
use vstd::std_specs::ops::{AddSpecImpl, SubSpecImpl};

verus! {

/// A measurement of the system clock, useful for talking to external entities
/// like the file system or other processes.
///
/// Distinct from the `Instant` type, this time measurement is not monotonic:
/// a measurement taken later may be earlier than one taken before it. So the
/// span between two of them is a `Result`, which says in which direction it
/// runs. Its view is the clock reading in nanoseconds since the Unix epoch,
/// which is the earliest system time there is.
#[derive(Copy, Clone, Debug, Hash, PartialEq, Eq, Structural, Ord)]
pub struct SystemTime {
    secs: u64,
    nanos: u32,
}

/// An error returned from the `duration_since` and `elapsed` methods on
/// `SystemTime`, used to learn how far in the opposite direction a system time
/// lies.
#[derive(Debug)]
pub struct SystemTimeError(Duration);

/// An anchor in time which can be used to create new `SystemTime` instances or
/// learn about where in time a `SystemTime` lies: 1970-01-01 00:00:00 UTC.
pub fn unix_epoch() -> (t: SystemTime)
    ensures
        t@ == 0,
{
    SystemTime { secs: 0, nanos: 0 }
}

impl View for SystemTime {
    type V = nat;

    closed spec fn view(&self) -> nat {
        reading_nanos(self.secs, self.nanos)
    }
}

impl SystemTime {
    /// What holds of every value of this type: its nanoseconds stay below one
    /// second.
    #[verifier::type_invariant]
    pub closed spec fn well_formed(self) -> bool {
        self.nanos < 1_000_000_000
    }

    /// Two system times that show the same reading are the same.
    pub proof fn lemma_same_reading(self, other: SystemTime)
        requires
            self.well_formed(),
            other.well_formed(),
            self@ == other@,
        ensures
            self == other,
    {
        lemma_split_reading(self.secs, self.nanos);
        lemma_split_reading(other.secs, other.nanos);
    }

    /// The system time whose reading is `nanos` nanoseconds.
    pub closed spec fn at(nanos: nat) -> SystemTime {
        SystemTime { secs: reading_secs(nanos), nanos: reading_subsec(nanos) }
    }

    /// The system time at a reading shows that reading, as long as the reading is
    /// one that it can hold.
    pub proof fn lemma_at_view(nanos: nat)
        requires
            nanos <= max_reading(),
        ensures
            SystemTime::at(nanos)@ == nanos,
    {
        lemma_join_reading(nanos);
    }

    /// Returns the system time at which the clock shows `reading`, the time
    /// that has passed since the Unix epoch.
    pub fn now(reading: Duration) -> (t: SystemTime)
        ensures
            t@ == dur_nanos(reading),
    {
        SystemTime { secs: reading.as_secs(), nanos: reading.subsec_nanos() }
    }

    /// Returns the amount of time elapsed from an earlier point in time.
    ///
    /// Measurements taken earlier are not guaranteed to lie before later
    /// ones. Returns an `Err` if `earlier` is later than `self`, and the error
    /// contains how far from `self` the time is.
    pub fn duration_since(&self, earlier: SystemTime) -> (r: Result<Duration, SystemTimeError>)
        ensures
            r is Ok <==> earlier@ <= self@,
            r matches Ok(d) ==> dur_nanos(d) == self@ - earlier@,
            r matches Err(e) ==> e@ == earlier@ - self@,
    {
        proof {
            use_type_invariant(self);
            use_type_invariant(earlier);
        }
        if reading_le(earlier.secs, earlier.nanos, self.secs, self.nanos) {
            Ok(reading_diff(self.secs, self.nanos, earlier.secs, earlier.nanos))
        } else {
            Err(SystemTimeError(reading_diff(earlier.secs, earlier.nanos, self.secs, self.nanos)))
        }
    }

    /// Returns the amount of time elapsed between this system time and `now`,
    /// the time that the clock shows when the call is made.
    ///
    /// The clock may have been set back in between: returns an `Err` if `self`
    /// is later than `now`, and the error contains how far from `now` it is.
    pub fn elapsed(&self, now: SystemTime) -> (r: Result<Duration, SystemTimeError>)
        ensures
            r is Ok <==> self@ <= now@,
            r matches Ok(d) ==> dur_nanos(d) == now@ - self@,
            r matches Err(e) ==> e@ == self@ - now@,
    {
        now.duration_since(*self)
    }

    /// Returns `Some(t)` where `t` is the time `self + duration` if `t` can be
    /// represented as `SystemTime`, `None` otherwise.
    pub fn checked_add(&self, duration: Duration) -> (r: Option<SystemTime>)
        ensures
            r is Some <==> self@ + dur_nanos(duration) <= max_reading(),
            r matches Some(t) ==> t@ == self@ + dur_nanos(duration),
    {
        proof {
            use_type_invariant(self);
        }
        match checked_add_reading(self.secs, self.nanos, &duration) {
            Some((secs, nanos)) => Some(SystemTime { secs, nanos }),
            None => None,
        }
    }

    /// Returns `Some(t)` where `t` is the time `self - duration` if `t` can be
    /// represented as `SystemTime`, `None` otherwise.
    pub fn checked_sub(&self, duration: Duration) -> (r: Option<SystemTime>)
        ensures
            r is Some <==> dur_nanos(duration) <= self@,
            r matches Some(t) ==> t@ == self@ - dur_nanos(duration),
    {
        proof {
            use_type_invariant(self);
        }
        match checked_sub_reading(self.secs, self.nanos, &duration) {
            Some((secs, nanos)) => Some(SystemTime { secs, nanos }),
            None => None,
        }
    }
}

impl View for SystemTimeError {
    type V = nat;

    /// How far the second system time lay ahead of the first, in nanoseconds.
    closed spec fn view(&self) -> nat {
        dur_nanos(self.0)
    }
}

impl Clone for SystemTimeError {
    fn clone(&self) -> (e: SystemTimeError)
        ensures
            e@ == self@,
    {
        SystemTimeError(self.0)
    }
}

impl SystemTimeError {
    /// Returns the positive duration which represents how far forward the
    /// second system time was from the first.
    pub fn duration(&self) -> (d: Duration)
        ensures
            dur_nanos(d) == self@,
    {
        self.0
    }

    /// A short description of the error.
    pub fn description(&self) -> (s: &'static str)
        ensures
            s@ == "other time was not earlier than self"@,
    {
        "other time was not earlier than self"
    }

    /// What the error says when it is shown to a reader.
    pub fn message(&self) -> (s: &'static str)
        ensures
            s@ == "second time provided was later than self"@,
    {
        "second time provided was later than self"
    }
}

impl PartialOrdSpecImpl for SystemTime {
    open spec fn obeys_partial_cmp_spec() -> bool {
        true
    }

    /// System times are ordered as their readings are.
    open spec fn partial_cmp_spec(&self, other: &SystemTime) -> Option<Ordering> {
        reading_order(self@, other@)
    }
}

impl PartialOrd for SystemTime {
    fn partial_cmp(&self, other: &SystemTime) -> (r: Option<Ordering>) {
        proof {
            use_type_invariant(self);
            use_type_invariant(other);
        }
        compare_readings(self.secs, self.nanos, other.secs, other.nanos)
    }
}

impl AddSpecImpl<Duration> for SystemTime {
    open spec fn obeys_add_spec() -> bool {
        true
    }

    /// The sum must be a reading that a `SystemTime` can hold.
    open spec fn add_req(self, rhs: Duration) -> bool {
        self@ + dur_nanos(rhs) <= max_reading()
    }

    open spec fn add_spec(self, rhs: Duration) -> SystemTime {
        SystemTime::at(self@ + dur_nanos(rhs))
    }
}

impl Add<Duration> for SystemTime {
    type Output = SystemTime;

    /// The system time `other` after this one.
    fn add(self, other: Duration) -> (t: SystemTime)
        ensures
            t@ == self@ + dur_nanos(other),
    {
        proof {
            use_type_invariant(self);
        }
        match checked_add_reading(self.secs, self.nanos, &other) {
            Some((secs, nanos)) => {
                proof {
                    lemma_split_reading(secs, nanos);
                }
                SystemTime { secs, nanos }
            },
            None => unreached(),
        }
    }
}

impl SubSpecImpl<Duration> for SystemTime {
    open spec fn obeys_sub_spec() -> bool {
        true
    }

    /// The duration must not reach back before the Unix epoch.
    open spec fn sub_req(self, rhs: Duration) -> bool {
        dur_nanos(rhs) <= self@
    }

    open spec fn sub_spec(self, rhs: Duration) -> SystemTime {
        SystemTime::at((self@ - dur_nanos(rhs)) as nat)
    }
}

impl Sub<Duration> for SystemTime {
    type Output = SystemTime;

    /// The system time `other` before this one.
    fn sub(self, other: Duration) -> (t: SystemTime)
        ensures
            t@ == self@ - dur_nanos(other),
    {
        proof {
            use_type_invariant(self);
        }
        match checked_sub_reading(self.secs, self.nanos, &other) {
            Some((secs, nanos)) => {
                proof {
                    lemma_split_reading(secs, nanos);
                }
                SystemTime { secs, nanos }
            },
            None => unreached(),
        }
    }
}

impl AddAssign<Duration> for SystemTime {
    /// Moves this system time forward by `other`. The sum must be a reading that
    /// a `SystemTime` can hold.
    fn add_assign(&mut self, other: Duration)
        requires
            old(self)@ + dur_nanos(other) <= max_reading(),
        ensures
            final(self)@ == old(self)@ + dur_nanos(other),
    {
        *self = *self + other;
    }
}

impl SubAssign<Duration> for SystemTime {
    /// Moves this system time back by `other`, which must not reach back before
    /// the Unix epoch.
    fn sub_assign(&mut self, other: Duration)
        requires
            dur_nanos(other) <= old(self)@,
        ensures
            final(self)@ == old(self)@ - dur_nanos(other),
    {
        *self = *self - other;
    }
}

} // verus!
