//! Arithmetic on clock readings, kept as whole seconds and the nanoseconds
//! below one second.

use super::duration::dur_nanos;
use core::cmp::Ordering;
use core::time::Duration;
use vstd::prelude::*;

verus! {

/// Nanoseconds in one second.
pub const NANOS_PER_SEC: u32 = 1_000_000_000;

/// The reading, in nanoseconds, that `secs` whole seconds and `nanos`
/// nanoseconds make up.
pub open spec fn reading_nanos(secs: u64, nanos: u32) -> nat {
    (secs * 1_000_000_000 + nanos) as nat
}

/// The largest reading, in nanoseconds, that a point in time can hold.
pub open spec fn max_reading() -> nat {
    (u64::MAX * 1_000_000_000 + 999_999_999) as nat
}

/// The whole seconds in a reading of `nanos` nanoseconds.
pub open spec fn reading_secs(nanos: nat) -> u64 {
    (nanos / 1_000_000_000) as u64
}

/// The nanoseconds below one second in a reading of `nanos` nanoseconds.
pub open spec fn reading_subsec(nanos: nat) -> u32 {
    (nanos % 1_000_000_000) as u32
}

/// Seconds and nanoseconds below one second are what the reading that they
/// make up splits into.
pub proof fn lemma_split_reading(secs: u64, nanos: u32)
    requires
        nanos < 1_000_000_000,
    ensures
        reading_nanos(secs, nanos) <= max_reading(),
        reading_secs(reading_nanos(secs, nanos)) == secs,
        reading_subsec(reading_nanos(secs, nanos)) == nanos,
{
    let n: int = secs * 1_000_000_000 + nanos;
    assert(n / 1_000_000_000 == secs && n % 1_000_000_000 == nanos) by (nonlinear_arith)
        requires
            n == secs * 1_000_000_000 + nanos,
            0 <= nanos < 1_000_000_000,
    ;
}

/// A reading is made up of the seconds and the nanoseconds below one second
/// that it splits into.
pub proof fn lemma_join_reading(nanos: nat)
    requires
        nanos <= max_reading(),
    ensures
        reading_nanos(reading_secs(nanos), reading_subsec(nanos)) == nanos,
{
    let n: int = nanos as int;
    assert(0 <= n / 1_000_000_000 <= u64::MAX && 0 <= n % 1_000_000_000 < 1_000_000_000 && (n
        / 1_000_000_000) * 1_000_000_000 + n % 1_000_000_000 == n) by (nonlinear_arith)
        requires
            0 <= n <= u64::MAX * 1_000_000_000 + 999_999_999,
    ;
}

/// How two readings, in nanoseconds, stand to each other.
pub open spec fn reading_order(a: nat, b: nat) -> Option<Ordering> {
    if a < b {
        Some(Ordering::Less)
    } else if a == b {
        Some(Ordering::Equal)
    } else {
        Some(Ordering::Greater)
    }
}

/// Whether the first reading is not later than the second.
pub(crate) fn reading_le(a_secs: u64, a_nanos: u32, b_secs: u64, b_nanos: u32) -> (r: bool)
    requires
        a_nanos < 1_000_000_000,
        b_nanos < 1_000_000_000,
    ensures
        r == (reading_nanos(a_secs, a_nanos) <= reading_nanos(b_secs, b_nanos)),
{
    a_secs < b_secs || (a_secs == b_secs && a_nanos <= b_nanos)
}

/// Compares two readings, seconds first.
pub(crate) fn compare_readings(a_secs: u64, a_nanos: u32, b_secs: u64, b_nanos: u32) -> (r: Option<
    Ordering,
>)
    requires
        a_nanos < 1_000_000_000,
        b_nanos < 1_000_000_000,
    ensures
        r == reading_order(reading_nanos(a_secs, a_nanos), reading_nanos(b_secs, b_nanos)),
{
    if a_secs < b_secs {
        Some(Ordering::Less)
    } else if a_secs > b_secs {
        Some(Ordering::Greater)
    } else if a_nanos < b_nanos {
        Some(Ordering::Less)
    } else if a_nanos > b_nanos {
        Some(Ordering::Greater)
    } else {
        Some(Ordering::Equal)
    }
}

/// The span from an earlier reading to a later one.
pub(crate) fn reading_diff(secs: u64, nanos: u32, earlier_secs: u64, earlier_nanos: u32) -> (d:
    Duration)
    requires
        nanos < 1_000_000_000,
        earlier_nanos < 1_000_000_000,
        reading_nanos(earlier_secs, earlier_nanos) <= reading_nanos(secs, nanos),
    ensures
        dur_nanos(d) == reading_nanos(secs, nanos) - reading_nanos(earlier_secs, earlier_nanos),
{
    if nanos >= earlier_nanos {
        Duration::new(secs - earlier_secs, nanos - earlier_nanos)
    } else {
        Duration::new(secs - earlier_secs - 1, nanos + NANOS_PER_SEC - earlier_nanos)
    }
}

/// Moves a reading forward by a duration: the sum as seconds and nanoseconds,
/// or `None` where the seconds no longer fit.
pub(crate) fn checked_add_reading(secs: u64, nanos: u32, duration: &Duration) -> (r: Option<
    (u64, u32),
>)
    requires
        nanos < 1_000_000_000,
    ensures
        r is Some <==> reading_nanos(secs, nanos) + dur_nanos(*duration) <= max_reading(),
        r matches Some((s, n)) ==> n < 1_000_000_000 && reading_nanos(s, n) == reading_nanos(
            secs,
            nanos,
        ) + dur_nanos(*duration),
{
    let d_nanos: u32 = duration.subsec_nanos();
    match secs.checked_add(duration.as_secs()) {
        None => None,
        Some(sum_secs) => {
            let sum_nanos: u32 = nanos + d_nanos;
            if sum_nanos < NANOS_PER_SEC {
                Some((sum_secs, sum_nanos))
            } else {
                match sum_secs.checked_add(1) {
                    None => None,
                    Some(carried) => Some((carried, sum_nanos - NANOS_PER_SEC)),
                }
            }
        },
    }
}

/// Moves a reading back by a duration: the difference as seconds and
/// nanoseconds, or `None` where the duration is longer than the reading.
pub(crate) fn checked_sub_reading(secs: u64, nanos: u32, duration: &Duration) -> (r: Option<
    (u64, u32),
>)
    requires
        nanos < 1_000_000_000,
    ensures
        r is Some <==> dur_nanos(*duration) <= reading_nanos(secs, nanos),
        r matches Some((s, n)) ==> n < 1_000_000_000 && reading_nanos(s, n) == reading_nanos(
            secs,
            nanos,
        ) - dur_nanos(*duration),
{
    let d_nanos: u32 = duration.subsec_nanos();
    match secs.checked_sub(duration.as_secs()) {
        None => None,
        Some(diff_secs) => {
            if nanos >= d_nanos {
                Some((diff_secs, nanos - d_nanos))
            } else {
                match diff_secs.checked_sub(1) {
                    None => None,
                    Some(borrowed) => Some((borrowed, nanos + NANOS_PER_SEC - d_nanos)),
                }
            }
        },
    }
}

} // verus!
