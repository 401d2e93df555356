//! The model of `time::Duration` that the contracts of this crate use, and the
//! calls into the `time` crate.

use time::Duration;
use vstd::prelude::*;

verus! {

#[verifier::external_type_specification]
#[verifier::external_body]
pub struct ExDuration(time::Duration);

/// The whole seconds of a duration, as `Duration::whole_seconds` returns them.
pub uninterp spec fn duration_seconds(d: Duration) -> int;

/// The nanoseconds past the whole seconds, as `Duration::subsec_nanoseconds`
/// returns them.
pub uninterp spec fn duration_subsec_nanos(d: Duration) -> int;

/// The number of seconds in a day.
pub open spec fn seconds_per_day() -> int {
    86_400
}

/// `a` is a shorter span than `b`: fewer whole seconds, or as many and fewer
/// nanoseconds past them.
pub open spec fn shorter(a: Duration, b: Duration) -> bool {
    duration_seconds(a) < duration_seconds(b) || (duration_seconds(a) == duration_seconds(b)
        && duration_subsec_nanos(a) < duration_subsec_nanos(b))
}

/// `a` is at most as long as `b`.
pub open spec fn not_longer(a: Duration, b: Duration) -> bool {
    !shorter(b, a)
}

/// The whole days in a number of seconds, fractional days cut off towards zero.
pub open spec fn whole_days_of(seconds: int) -> int {
    if seconds >= 0 {
        seconds / seconds_per_day()
    } else {
        -((-seconds) / seconds_per_day())
    }
}

/// Calls `<` on two `time::Duration` values. Not proved: that the crate orders
/// durations by their whole seconds first and by the nanoseconds past them
/// second, which is how its `Ord` impl compares the two fields.
#[verifier::external_body]
pub(crate) fn duration_lt(a: &Duration, b: &Duration) -> (r: bool)
    ensures
        r == (duration_seconds(*a) < duration_seconds(*b) || (duration_seconds(*a)
            == duration_seconds(*b) && duration_subsec_nanos(*a) < duration_subsec_nanos(*b))),
{
    a < b
}

/// Calls `time::Duration::whole_days`. Not proved: that the crate divides the
/// whole seconds by 86 400 with Rust's integer division, which cuts off towards
/// zero.
#[verifier::external_body]
pub(crate) fn duration_whole_days(d: &Duration) -> (days: i64)
    ensures
        days == whole_days_of(duration_seconds(*d)),
{
    d.whole_days()
}

/// Cutting off never moves the day count away from zero, and it drops less
/// than one day: the count times a day lies between zero and the seconds, and
/// within a day of them.
pub proof fn lemma_whole_days_truncates(seconds: int)
    ensures
        seconds >= 0 ==> 0 <= whole_days_of(seconds) * seconds_per_day() <= seconds,
        seconds >= 0 ==> seconds < (whole_days_of(seconds) + 1) * seconds_per_day(),
        seconds <= 0 ==> seconds <= whole_days_of(seconds) * seconds_per_day() <= 0,
        seconds <= 0 ==> (whole_days_of(seconds) - 1) * seconds_per_day() < seconds,
{
}

} // verus!
