use vstd::prelude::*;

verus! {

/// Latest second (1970 epoch) accepted by the calendar formatter:
/// the last second of year 9999.
pub const MAX_UTC_SECS: i64 = 253_402_300_799;

/// Latest millisecond timestamp whose seconds part stays within
/// [`MAX_UTC_SECS`].
pub const MAX_UTC_MILLIS: i64 = 253_402_300_799_999;

/// The calendar text that the formatter produces for a number of seconds
/// since the 1970 epoch; it depends on the seconds alone.
pub uninterp spec fn datetime_text_of(secs: int) -> Seq<char>;

/// Relies on `chrono::DateTime::<Utc>::from_timestamp` and on the `Display`
/// implementation of `chrono::DateTime<Utc>`: for every number of seconds
/// between 0 and the end of year 9999 the conversion is in range and returns
/// `Some`, and the rendered text is a function of the seconds alone (the
/// zone is fixed to UTC).
#[verifier::external_body]
pub(crate) fn utc_datetime_string(secs: i64) -> (r: String)
    requires
        0 <= secs <= MAX_UTC_SECS,
    ensures
        r@ == datetime_text_of(secs as int),
{
    match chrono::DateTime::from_timestamp(secs, 0) {
        Some(dt) => dt.to_string(),
        None => String::new(),
    }
}

} // verus!
