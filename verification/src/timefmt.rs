use vstd::prelude::*;

verus! {

/// Whether `chrono::DateTime::<Utc>::from_timestamp` can represent the
/// timestamp: its documentation promises `Some` except on an out-of-range
/// number of seconds.
pub uninterp spec fn unix_time_representable(ts: i64) -> bool;

/// The RFC 3339 rendering that `chrono`'s `to_rfc3339` gives a representable
/// UTC timestamp; a function of the timestamp alone.
pub uninterp spec fn rfc3339_utc(ts: i64) -> Seq<char>;

/// The text reported for the end of a validity window: the RFC 3339 form of
/// the timestamp, or the explicit marker when the timestamp cannot be
/// represented as a calendar date.
pub open spec fn expiration_text(ts: i64) -> Seq<char> {
    if unix_time_representable(ts) {
        rfc3339_utc(ts)
    } else {
        "Invalid date"@
    }
}

/// Relies on `chrono`: `DateTime::<Utc>::from_timestamp(ts, 0)`, which is
/// `None` exactly on out-of-range seconds, then `to_rfc3339`, which renders
/// the date and never fails.
#[verifier::external_body]
fn rfc3339_of_timestamp(ts: i64) -> (r: Option<String>)
    ensures
        r is Some <==> unix_time_representable(ts),
        r matches Some(s) ==> s@ == rfc3339_utc(ts),
{
    chrono::DateTime::<chrono::Utc>::from_timestamp(ts, 0).map(|date| date.to_rfc3339())
}

/// Renders a validity-window bound for the report: the RFC 3339 form when
/// the timestamp is representable, the explicit marker otherwise.
pub fn format_expiration(ts: i64) -> (r: String)
    ensures
        r@ == expiration_text(ts),
{
    match rfc3339_of_timestamp(ts) {
        Some(s) => s,
        None => String::from_str("Invalid date"),
    }
}

/// Relies on `chrono::Utc::now`: the current time as a Unix timestamp.
/// Nothing is assumed of the value; callers state what holds of every
/// outcome.
#[verifier::external_body]
pub(crate) fn current_unix_time() -> i64 {
    chrono::Utc::now().timestamp()
}

} // verus!
