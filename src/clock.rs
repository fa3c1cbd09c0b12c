use vstd::prelude::*;
use crate::todo::Timestamp;

verus! {

/// The text that `chrono` writes for the instant `secs` seconds and `nanos`
/// nanoseconds after the Unix epoch, in UTC, with the pattern `%Y-%m-%d %H:%M`.
pub uninterp spec fn minute_text(secs: int, nanos: int) -> Seq<char>;

/// Relies on chrono::Utc::now, split by `DateTime::timestamp` and
/// `DateTime::timestamp_subsec_nanos`: the current time. Nothing is promised of it.
#[verifier::external_body]
pub(crate) fn now() -> (r: Timestamp) {
    let t = chrono::Utc::now();
    Timestamp { secs: t.timestamp(), nanos: t.timestamp_subsec_nanos() }
}

/// Relies on chrono::DateTime::from_timestamp and `DateTime::format` with the
/// pattern `%Y-%m-%d %H:%M`: the creation time as year, month, day, hour and
/// minute. `from_timestamp` gives `None` only where the date leaves chrono's
/// range (beyond year 9999 it does not) or the nanoseconds do not fit a second.
#[verifier::external_body]
pub(crate) fn format_minute(at: Timestamp) -> (r: Option<String>)
    ensures
        r is Some ==> r->0@ == minute_text(at.secs as int, at.nanos as int),
        0 <= at.secs < 253402300800 && at.nanos < 1_000_000_000 ==> r is Some,
{
    chrono::DateTime::from_timestamp(at.secs, at.nanos).map(
        |d| d.format("%Y-%m-%d %H:%M").to_string(),
    )
}

} // verus!
