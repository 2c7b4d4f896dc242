use vstd::prelude::*;

verus! {

/// A bound on the magnitude of any UNIX timestamp `chrono` can represent
/// (its dates lie within about 262 000 years of the epoch).
pub open spec fn timestamp_bound() -> int {
    10_000_000_000_000
}

/// The current time as a UNIX timestamp in seconds.
///
/// Trusted: wraps `chrono::Utc::now().timestamp()`. The value is the clock's;
/// what holds of every outcome is that it lies within the range of chrono's
/// `DateTime<Utc>` (years -262143 to 262142), well inside `timestamp_bound`.
#[verifier::external_body]
pub(crate) fn current_timestamp() -> (res: i64)
    ensures
        -timestamp_bound() < res < timestamp_bound(),
{
    chrono::Utc::now().timestamp()
}

/// Seconds in a number of days.
///
/// Trusted: wraps `chrono::Duration::days(days).num_seconds()`, which is
/// `days * 86400`; chrono panics only far outside the admitted range.
#[verifier::external_body]
fn days_in_seconds(days: i64) -> (res: i64)
    requires
        -100_000_000 <= days <= 100_000_000,
    ensures
        res == days * 86400,
{
    chrono::Duration::days(days).num_seconds()
}

/// How long a session lasts: two days, in seconds.
pub open spec fn session_lifetime() -> int {
    2int * 86400
}

/// How long a session lasts, in seconds.
pub fn session_lifetime_seconds() -> (res: i64)
    ensures
        res == session_lifetime(),
{
    days_in_seconds(2)
}

} // verus!
