//! Calendar arithmetic, done by chrono.
use vstd::prelude::*;

verus! {

/// Seconds since the Unix epoch of the UTC minute that a `YYYYMMDDHHmm` stamp
/// names, or `None` when it names no valid date and time.
pub uninterp spec fn utc_stamp_seconds(stamp: Seq<char>) -> Option<int>;

/// The `YYYYMMDDHHmm` key of the UTC minute holding the given second since
/// the epoch, or `None` outside chrono's range.
pub uninterp spec fn utc_minute_key(seconds: int) -> Option<Seq<char>>;

/// Relies on chrono's `NaiveDateTime::parse_from_str` with the format
/// `%Y%m%d%H%M`, the result read as UTC and turned into epoch seconds.
#[verifier::external_body]
pub(crate) fn stamp_seconds(stamp: &str) -> (r: Option<i64>)
    ensures
        r is None <==> utc_stamp_seconds(stamp@) is None,
        r matches Some(t) ==> utc_stamp_seconds(stamp@) == Some(t as int),
{
    chrono::NaiveDateTime::parse_from_str(stamp, "%Y%m%d%H%M").ok().map(
        |t| t.and_utc().timestamp(),
    )
}

/// Relies on chrono's `DateTime::from_timestamp` and its `%Y%m%d%H%M` format.
#[verifier::external_body]
pub(crate) fn minute_key(seconds: i64) -> (r: Option<String>)
    ensures
        r is None <==> utc_minute_key(seconds as int) is None,
        r matches Some(k) ==> utc_minute_key(seconds as int) == Some(k@),
{
    chrono::DateTime::from_timestamp(seconds, 0).map(|t| t.format("%Y%m%d%H%M").to_string())
}

} // verus!
