//! The calls into `chrono`, each behind a contract that is believed, not
//! proved.

use vstd::prelude::*;

verus! {

/// The pattern by which an entry's instant is shown: the date as
/// year-month-day, a space, then hour and minute.
pub open spec fn stamp_pattern() -> Seq<char> {
    "%F %H:%M"@
}

/// Whether `chrono` has an instant `seconds` after the epoch, that is,
/// whether `DateTime::from_timestamp` returns one for that many seconds and
/// no nanoseconds. Its calendar ends some 262,000 years either side of the
/// epoch.
pub uninterp spec fn has_instant(seconds: int) -> bool;

/// The text `chrono` writes for the instant `seconds` after the epoch, as a
/// clock shows it that is `offset` seconds ahead of UTC, following
/// `pattern`; `None` where `chrono` has no such instant or no such offset.
pub uninterp spec fn stamp(seconds: int, offset: int, pattern: Seq<char>) -> Option<Seq<char>>;

/// Calls `chrono::Utc::now` and takes the reading's whole seconds since the
/// epoch with `DateTime::timestamp`. Nothing is claimed of the result: it is
/// whatever the system clock says. `chrono` gives up where that clock reads
/// a time before 1970.
#[verifier::external_body]
pub(crate) fn now_seconds() -> i64 {
    chrono::Utc::now().timestamp()
}

/// Calls `DateTime::from_timestamp` and `DateTime::with_timezone` for
/// `chrono::Local`, and reads how many seconds the resulting local time is
/// ahead of UTC with `FixedOffset::local_minus_utc`. The answer depends on
/// the machine's time zone, so the contract claims only what `chrono` grants
/// of every offset: it is less than a day either way. `None` comes back
/// exactly where `chrono` has no such instant. `chrono` gives up where the
/// machine's time zone data names no offset for the instant.
#[verifier::external_body]
pub(crate) fn local_offset(seconds: i64) -> (offset: Option<i32>)
    ensures
        offset is Some <==> has_instant(seconds as int),
        offset matches Some(ahead) ==> -86_400 < ahead < 86_400,
{
    let instant = chrono::DateTime::from_timestamp(seconds, 0)?;
    Some(instant.with_timezone(&chrono::Local).offset().local_minus_utc())
}

/// Calls `FixedOffset::east_opt` and `DateTime::from_timestamp`, moves the
/// instant to that offset with `DateTime::with_timezone` and writes it with
/// `DateTime::format`. The contract claims that the text depends on the
/// three arguments alone, under the name `stamp`, and that there is a text
/// exactly where `chrono` has the instant and the offset is less than a day
/// either way. It is claimed only for the one pattern the journal uses,
/// which `chrono` accepts.
#[verifier::external_body]
pub(crate) fn format_instant(seconds: i64, offset: i32, pattern: &str) -> (text: Option<String>)
    requires
        pattern@ == stamp_pattern(),
    ensures
        match text {
            Some(t) => stamp(seconds as int, offset as int, pattern@) == Some(t@),
            None => stamp(seconds as int, offset as int, pattern@) is None,
        },
        text is Some <==> (has_instant(seconds as int) && -86_400 < offset < 86_400),
{
    let zone = chrono::FixedOffset::east_opt(offset)?;
    let instant = chrono::DateTime::from_timestamp(seconds, 0)?;
    Some(instant.with_timezone(&zone).format(pattern).to_string())
}

} // verus!
