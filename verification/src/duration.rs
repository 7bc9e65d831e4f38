//! What the library relies on about `std::time::Duration`.
use std::time::Duration;
use vstd::prelude::*;

verus! {

/// The whole number of milliseconds a duration spans, as
/// `Duration::as_millis` reports it.
pub uninterp spec fn duration_millis(d: Duration) -> nat;

/// `Duration::as_millis` returns the whole number of milliseconds spanned.
pub assume_specification[ std::time::Duration::as_millis ](d: &Duration) -> (r: u128)
    ensures
        r == duration_millis(*d),
;

/// The duration `Duration::from_secs` makes of a number of seconds.
pub uninterp spec fn duration_of_secs(secs: u64) -> Duration;

/// `Duration::from_secs` is a function of its argument alone, and the
/// duration spans the given number of whole seconds, that is a thousand
/// milliseconds per second.
pub assume_specification[ std::time::Duration::from_secs ](secs: u64) -> (r: Duration)
    ensures
        r == duration_of_secs(secs),
        duration_millis(r) == secs * 1000,
;

/// Cloning a `Duration` (a `Copy` type) yields the same duration.
pub assume_specification[ <std::time::Duration as Clone>::clone ](d: &Duration) -> (r: Duration)
    ensures
        r == *d,
;

} // verus!
