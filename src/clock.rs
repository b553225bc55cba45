use vstd::prelude::*;

verus! {

/// Relies on chrono's `Utc::now` and `DateTime::timestamp_micros`: the
/// current wall-clock time in microseconds since the Unix epoch. Nothing is
/// known of the value, which need not grow between two readings.
#[verifier::external_body]
pub(crate) fn now_micros() -> (r: i64) {
    chrono::Utc::now().timestamp_micros()
}

/// The `updated_at` stamp that a mutation at clock reading `now` gives a row
/// last stamped at `previous`: the reading when it lies past `previous`,
/// otherwise one microsecond past `previous`, so that the stamp always
/// moves forward (it stays put only at the largest representable instant).
pub fn refreshed_stamp(previous: i64, now: i64) -> (r: i64)
    ensures
        r >= previous,
        previous < i64::MAX ==> r > previous,
        now > previous ==> r == now,
        now <= previous && previous < i64::MAX ==> r == previous + 1,
        previous == i64::MAX ==> r == previous,
{
    if now > previous {
        now
    } else if previous < i64::MAX {
        previous + 1
    } else {
        previous
    }
}

} // verus!
