use vstd::prelude::*;

verus! {

/// The text `dd/mm/YYYY HH:MM` of the UTC minute holding `secs` seconds
/// after the Unix epoch, as chrono writes it.
pub uninterp spec fn minute_stamp(secs: int) -> Seq<char>;

/// Whether `secs` lies in the span of instants chrono represents: from
/// 1 January of the year -262143 to 31 December 262142, UTC.
pub open spec fn stamp_in_range(secs: int) -> bool {
    -8_334_601_228_800 <= secs <= 8_210_266_876_799
}

/// Relies on `chrono::DateTime::from_timestamp`, which is `None` exactly
/// for seconds whose day falls outside chrono's years `MIN_YEAR` to
/// `MAX_YEAR`, and on `DateTime::format` with the pattern `%d/%m/%Y %H:%M`,
/// whose text depends on the instant alone.
#[verifier::external_body]
pub(crate) fn format_minute(secs: i64) -> (r: Option<String>)
    ensures
        r matches Some(t) ==> t@ == minute_stamp(secs as int),
        r is Some <==> stamp_in_range(secs as int),
{
    match chrono::DateTime::from_timestamp(secs, 0) {
        Some(t) => Some(t.format("%d/%m/%Y %H:%M").to_string()),
        None => None,
    }
}

} // verus!
