use vstd::prelude::*;

verus! {

/// Reads the clock: `chrono::Utc::now()` as microseconds since the Unix
/// epoch (`timestamp_micros`). Nothing is claimed of the value.
#[verifier::external_body]
pub(crate) fn now_micros() -> (r: i64) {
    chrono::Utc::now().timestamp_micros()
}

/// What `chrono` writes for a moment with the pattern `%b %e %T %Y`
/// (month abbreviation, day, time, year), or `None` where the moment is
/// outside the dates `chrono` can represent.
pub uninterp spec fn date_time_display(micros: i64) -> Option<Seq<char>>;

/// Calls `DateTime::<Utc>::from_timestamp_micros` and, where it gives a
/// date, `format("%b %e %T %Y")` and `to_string` on it. Claimed: the result
/// is `date_time_display` of the moment, which depends on it alone.
#[verifier::external_body]
pub(crate) fn format_date_time(micros: i64) -> (r: Option<String>)
    ensures
        match r {
            Some(s) => date_time_display(micros) == Some(s@),
            None => date_time_display(micros) is None,
        },
{
    match chrono::DateTime::<chrono::Utc>::from_timestamp_micros(micros) {
        Some(d) => Some(d.format("%b %e %T %Y").to_string()),
        None => None,
    }
}

} // verus!
