//! Points on a monotonic clock.

use super::duration::dur_nanos;
use super::reading::{
    checked_add_reading, checked_sub_reading, compare_readings, lemma_join_reading,
    lemma_split_reading, max_reading, reading_diff, reading_le, reading_nanos, reading_order,
    reading_secs, reading_subsec,
};
use core::cmp::Ordering;
use core::ops::{Add, AddAssign, Sub, SubAssign};
use core::time::Duration;
use vstd::pervasive::unreached;
use vstd::prelude::*;
use vstd::std_specs::cmp::PartialOrdSpecImpl;
use vstd::std_specs::ops::{AddSpecImpl, SubSpecImpl};

verus! {

/// A measurement of a monotonically nondecreasing clock.
/// Opaque and useful only with `Duration`.
///
/// An instant can only be compared with another one, moved by a duration, or
/// measured against another one. Its view is the clock reading in nanoseconds.
#[derive(Copy, Clone, Debug, Hash, PartialEq, Eq, Structural, Ord)]
pub struct Instant {
    secs: u64,
    nanos: u32,
}

impl View for Instant {
    type V = nat;

    closed spec fn view(&self) -> nat {
        reading_nanos(self.secs, self.nanos)
    }
}

impl Instant {
    /// What holds of every value of this type: its nanoseconds stay below one
    /// second.
    #[verifier::type_invariant]
    pub closed spec fn well_formed(self) -> bool {
        self.nanos < 1_000_000_000
    }

    /// Two instants that show the same reading are the same.
    pub proof fn lemma_same_reading(self, other: Instant)
        requires
            self.well_formed(),
            other.well_formed(),
            self@ == other@,
        ensures
            self == other,
    {
        lemma_split_reading(self.secs, self.nanos);
        lemma_split_reading(other.secs, other.nanos);
    }

    /// The instant whose reading is `nanos` nanoseconds.
    pub closed spec fn at(nanos: nat) -> Instant {
        Instant { secs: reading_secs(nanos), nanos: reading_subsec(nanos) }
    }

    /// The instant at a reading shows that reading, as long as the reading is
    /// one that it can hold.
    pub proof fn lemma_at_view(nanos: nat)
        requires
            nanos <= max_reading(),
        ensures
            Instant::at(nanos)@ == nanos,
    {
        lemma_join_reading(nanos);
    }

    /// Returns the instant at which the clock shows `reading`.
    pub fn now(reading: Duration) -> (t: Instant)
        ensures
            t@ == dur_nanos(reading),
    {
        Instant { secs: reading.as_secs(), nanos: reading.subsec_nanos() }
    }

    /// Returns the amount of time elapsed from another instant to this one.
    /// `earlier` must not be later than `self`.
    pub fn duration_since(&self, earlier: Instant) -> (d: Duration)
        requires
            earlier@ <= self@,
        ensures
            dur_nanos(d) == self@ - earlier@,
    {
        proof {
            use_type_invariant(self);
            use_type_invariant(earlier);
        }
        reading_diff(self.secs, self.nanos, earlier.secs, earlier.nanos)
    }

    /// Returns the amount of time elapsed from another instant to this one,
    /// or `None` if that instant is later than this one.
    pub fn checked_duration_since(&self, earlier: Instant) -> (r: Option<Duration>)
        ensures
            r is Some <==> earlier@ <= self@,
            r matches Some(d) ==> dur_nanos(d) == self@ - earlier@,
    {
        proof {
            use_type_invariant(self);
            use_type_invariant(earlier);
        }
        if reading_le(earlier.secs, earlier.nanos, self.secs, self.nanos) {
            Some(self.duration_since(earlier))
        } else {
            None
        }
    }

    /// Returns the amount of time elapsed from another instant to this one,
    /// or zero duration if that instant is later than this one.
    pub fn saturating_duration_since(&self, earlier: Instant) -> (d: Duration)
        ensures
            dur_nanos(d) == if earlier@ <= self@ {
                self@ - earlier@
            } else {
                0
            },
    {
        match self.checked_duration_since(earlier) {
            Some(d) => d,
            None => Duration::new(0, 0),
        }
    }

    /// Returns the amount of time elapsed between this instant and `now`, the
    /// instant that the clock shows when the call is made. `now` must not be
    /// earlier than `self`.
    pub fn elapsed(&self, now: Instant) -> (d: Duration)
        requires
            self@ <= now@,
        ensures
            dur_nanos(d) == now@ - self@,
    {
        now.duration_since(*self)
    }

    /// Returns `Some(t)` where `t` is the time `self + duration` if `t` can be
    /// represented as `Instant`, `None` otherwise.
    pub fn checked_add(&self, duration: Duration) -> (r: Option<Instant>)
        ensures
            r is Some <==> self@ + dur_nanos(duration) <= max_reading(),
            r matches Some(t) ==> t@ == self@ + dur_nanos(duration),
    {
        proof {
            use_type_invariant(self);
        }
        match checked_add_reading(self.secs, self.nanos, &duration) {
            Some((secs, nanos)) => Some(Instant { secs, nanos }),
            None => None,
        }
    }

    /// Returns `Some(t)` where `t` is the time `self - duration` if `t` can be
    /// represented as `Instant`, `None` otherwise.
    pub fn checked_sub(&self, duration: Duration) -> (r: Option<Instant>)
        ensures
            r is Some <==> dur_nanos(duration) <= self@,
            r matches Some(t) ==> t@ == self@ - dur_nanos(duration),
    {
        proof {
            use_type_invariant(self);
        }
        match checked_sub_reading(self.secs, self.nanos, &duration) {
            Some((secs, nanos)) => Some(Instant { secs, nanos }),
            None => None,
        }
    }
}

impl PartialOrdSpecImpl for Instant {
    open spec fn obeys_partial_cmp_spec() -> bool {
        true
    }

    /// Instants are ordered as their readings are.
    open spec fn partial_cmp_spec(&self, other: &Instant) -> Option<Ordering> {
        reading_order(self@, other@)
    }
}

impl PartialOrd for Instant {
    fn partial_cmp(&self, other: &Instant) -> (r: Option<Ordering>) {
        proof {
            use_type_invariant(self);
            use_type_invariant(other);
        }
        compare_readings(self.secs, self.nanos, other.secs, other.nanos)
    }
}

impl AddSpecImpl<Duration> for Instant {
    open spec fn obeys_add_spec() -> bool {
        true
    }

    /// The sum must be a reading that an `Instant` can hold.
    open spec fn add_req(self, rhs: Duration) -> bool {
        self@ + dur_nanos(rhs) <= max_reading()
    }

    open spec fn add_spec(self, rhs: Duration) -> Instant {
        Instant::at(self@ + dur_nanos(rhs))
    }
}

impl Add<Duration> for Instant {
    type Output = Instant;

    /// The instant `other` after this one.
    fn add(self, other: Duration) -> (t: Instant)
        ensures
            t@ == self@ + dur_nanos(other),
    {
        proof {
            use_type_invariant(self);
        }
        match checked_add_reading(self.secs, self.nanos, &other) {
            Some((secs, nanos)) => {
                proof {
                    lemma_split_reading(secs, nanos);
                }
                Instant { secs, nanos }
            },
            None => unreached(),
        }
    }
}

impl SubSpecImpl<Duration> for Instant {
    open spec fn obeys_sub_spec() -> bool {
        true
    }

    /// The duration must not reach back before the clock's zero.
    open spec fn sub_req(self, rhs: Duration) -> bool {
        dur_nanos(rhs) <= self@
    }

    open spec fn sub_spec(self, rhs: Duration) -> Instant {
        Instant::at((self@ - dur_nanos(rhs)) as nat)
    }
}

impl Sub<Duration> for Instant {
    type Output = Instant;

    /// The instant `other` before this one.
    fn sub(self, other: Duration) -> (t: Instant)
        ensures
            t@ == self@ - dur_nanos(other),
    {
        proof {
            use_type_invariant(self);
        }
        match checked_sub_reading(self.secs, self.nanos, &other) {
            Some((secs, nanos)) => {
                proof {
                    lemma_split_reading(secs, nanos);
                }
                Instant { secs, nanos }
            },
            None => unreached(),
        }
    }
}

impl SubSpecImpl<Instant> for Instant {
    open spec fn obeys_sub_spec() -> bool {
        false
    }

    /// The other instant must not be later than this one.
    open spec fn sub_req(self, rhs: Instant) -> bool {
        rhs@ <= self@
    }

    /// Not used: no specification can write a `Duration` down. What `sub`
    /// returns is pinned by its length, in its own `ensures`.
    open spec fn sub_spec(self, rhs: Instant) -> Duration {
        arbitrary()
    }
}

impl Sub<Instant> for Instant {
    type Output = Duration;

    /// The time elapsed from `other` to this instant.
    fn sub(self, other: Instant) -> (d: Duration)
        ensures
            dur_nanos(d) == self@ - other@,
    {
        self.duration_since(other)
    }
}

impl AddAssign<Duration> for Instant {
    /// Moves this instant forward by `other`. The sum must be a reading that
    /// an `Instant` can hold.
    fn add_assign(&mut self, other: Duration)
        requires
            old(self)@ + dur_nanos(other) <= max_reading(),
        ensures
            final(self)@ == old(self)@ + dur_nanos(other),
    {
        *self = *self + other;
    }
}

impl SubAssign<Duration> for Instant {
    /// Moves this instant back by `other`, which must not reach back before
    /// the clock's zero.
    fn sub_assign(&mut self, other: Duration)
        requires
            dur_nanos(other) <= old(self)@,
        ensures
            final(self)@ == old(self)@ - dur_nanos(other),
    {
        *self = *self - other;
    }
}

} // verus!
