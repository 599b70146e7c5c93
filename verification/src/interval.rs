//! The retry interval, which callers give as a `Duration` of the standard
//! library. Nothing in this file is proved.

use std::time::Duration;
use vstd::prelude::*;

verus! {

/// The whole milliseconds in a duration.
pub uninterp spec fn duration_millis(duration: Duration) -> u128;

/// `Duration::as_millis`: the whole milliseconds in the duration.
pub assume_specification[ Duration::as_millis ](duration: &Duration) -> (millis: u128)
    ensures
        millis == duration_millis(*duration),
;

/// `Duration::from_secs`: a duration of that many seconds, each of them a
/// thousand milliseconds.
pub assume_specification[ Duration::from_secs ](secs: u64) -> (duration: Duration)
    ensures
        duration_millis(duration) == secs * 1000,
;

/// `Duration::clone`: the same duration.
pub assume_specification[ <Duration as Clone>::clone ](duration: &Duration) -> (copy: Duration)
    ensures
        copy == *duration,
;

} // verus!
