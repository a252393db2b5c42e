//! What this library takes as known of the standard library's `Duration`.

use core::time::Duration;
use vstd::prelude::*;

verus! {

/// The whole seconds that a `Duration` holds: what `Duration::as_secs` returns.
pub uninterp spec fn dur_secs(d: Duration) -> u64;

/// The part of a `Duration` below one second, in nanoseconds: what
/// `Duration::subsec_nanos` returns.
pub uninterp spec fn dur_subsec_nanos(d: Duration) -> u32;

/// The length of a `Duration` in nanoseconds.
pub open spec fn dur_nanos(d: Duration) -> nat {
    (dur_secs(d) * 1_000_000_000 + dur_subsec_nanos(d)) as nat
}

/// `Duration::as_secs` of the standard library, which returns the number of
/// whole seconds that the duration contains. Not proved: the contract only
/// gives that number its name.
pub assume_specification[ Duration::as_secs ](d: &Duration) -> (secs: u64)
    ensures
        secs == dur_secs(*d),
;

/// `Duration::subsec_nanos` of the standard library, which returns the
/// fractional part of the duration in nanoseconds. Not proved: the contract
/// names that number and repeats the documented bound, that it is always less
/// than one billion.
pub assume_specification[ Duration::subsec_nanos ](d: &Duration) -> (nanos: u32)
    ensures
        nanos == dur_subsec_nanos(*d),
        nanos < 1_000_000_000,
;

/// `Duration::new` of the standard library. Not proved: as documented, a
/// nanosecond count of a billion or more carries over into the seconds, and
/// the call panics when that carry overflows the seconds, which `requires`
/// leaves out.
pub assume_specification[ Duration::new ](secs: u64, nanos: u32) -> (d: Duration)
    requires
        secs + nanos / 1_000_000_000 <= u64::MAX,
    ensures
        dur_secs(d) == secs + nanos / 1_000_000_000,
        dur_subsec_nanos(d) == nanos % 1_000_000_000,
;

} // verus!
