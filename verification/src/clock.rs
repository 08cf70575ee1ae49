use vstd::prelude::*;

verus! {

/// Whether the calendar arithmetic underneath this library accepts `secs` as
/// a unix timestamp; acceptance depends on the value alone
pub uninterp spec fn timestamp_in_range(secs: i64) -> bool;

/// Relies on `time::OffsetDateTime::from_unix_timestamp`: it returns `Ok`
/// exactly when the timestamp lies in the calendar range the crate supports,
/// which is a function of the value alone
#[verifier::external_body]
pub fn unix_timestamp_valid(secs: i64) -> (r: bool)
    ensures
        r == timestamp_in_range(secs),
{
    time::OffsetDateTime::from_unix_timestamp(secs).is_ok()
}

/// Relies on `time::OffsetDateTime::now_utc` and `unix_timestamp`: the
/// wall-clock time as unix seconds; nothing is promised of the value, since
/// it depends on the machine's clock
#[verifier::external_body]
pub fn now_unix_timestamp() -> i64 {
    time::OffsetDateTime::now_utc().unix_timestamp()
}

} // verus!
