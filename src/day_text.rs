//! Day-precision text for instants: `YYYY-MM-DD`, read and written through
//! chrono.
use crate::moment::Moment;
use vstd::prelude::*;

verus! {

/// The layout of a day in text, in chrono's strftime notation.
pub open spec fn day_format() -> Seq<char> {
    "%Y-%m-%d"@
}

/// The epoch seconds of midnight UTC on the day that chrono reads from `text`
/// with the layout `fmt`, if it reads one.
pub uninterp spec fn parsed_day_secs(text: Seq<char>, fmt: Seq<char>) -> Option<int>;

/// The text that chrono writes for the UTC day holding `secs` with the layout
/// `fmt`, if that day lies in chrono's calendar.
pub uninterp spec fn formatted_day(secs: int, fmt: Seq<char>) -> Option<Seq<char>>;

/// Relies on chrono's `NaiveDate::parse_from_str` to read a date, then on
/// `and_time(NaiveTime::MIN)`, `and_utc` and `timestamp` for the epoch seconds
/// of its midnight, a whole number of days.
#[verifier::external_body]
fn parse_day(text: &str, fmt: &str) -> (r: Option<i64>)
    ensures
        match r {
            Some(t) => parsed_day_secs(text@, fmt@) == Some(t as int) && t % 86400 == 0,
            None => parsed_day_secs(text@, fmt@) is None,
        },
{
    chrono::NaiveDate::parse_from_str(text, fmt).ok().map(
        |d| d.and_time(chrono::NaiveTime::MIN).and_utc().timestamp(),
    )
}

/// Relies on chrono's `DateTime::from_timestamp`, which has no value outside its
/// calendar, and on `format(..).to_string()`, which does not fail on this layout.
#[verifier::external_body]
fn format_day(secs: i64, fmt: &str) -> (r: Option<String>)
    requires
        fmt@ == day_format(),
    ensures
        match r {
            Some(t) => formatted_day(secs as int, fmt@) == Some(t@),
            None => formatted_day(secs as int, fmt@) is None,
        },
{
    chrono::DateTime::from_timestamp(secs, 0).map(|d| d.format(fmt).to_string())
}

/// A day field whose text is not a date in the `YYYY-MM-DD` layout.
#[derive(Clone, Copy, Debug, PartialEq, Eq, Structural)]
pub enum DayTextError {
    Malformed,
}

/// The day field for what reading a non-empty text gave: midnight UTC at
/// `parsed` epoch seconds, or malformed text where nothing was read.
pub fn day_from_parsed(parsed: Option<i64>) -> (r: Result<Option<Moment>, DayTextError>)
    ensures
        match parsed {
            Some(t) => r == Ok::<Option<Moment>, DayTextError>(Some(Moment { secs: t, nanos: 0 })),
            None => r == Err::<Option<Moment>, DayTextError>(DayTextError::Malformed),
        },
{
    match parsed {
        Some(t) => Ok(Some(Moment { secs: t, nanos: 0 })),
        None => Err(DayTextError::Malformed),
    }
}

/// Reads an optional day field. A missing field and an empty text both mean "no
/// date"; any other text must be a date, which becomes midnight UTC of that day.
pub fn decode_day_field(text: &Option<String>) -> (r: Result<Option<Moment>, DayTextError>)
    ensures
        match text {
            None => r == Ok::<Option<Moment>, DayTextError>(None),
            Some(s) => if s@.len() == 0 {
                r == Ok::<Option<Moment>, DayTextError>(None)
            } else {
                match parsed_day_secs(s@, day_format()) {
                    Some(t) => r == Ok::<Option<Moment>, DayTextError>(
                        Some(Moment { secs: t as i64, nanos: 0 }),
                    ),
                    None => r == Err::<Option<Moment>, DayTextError>(DayTextError::Malformed),
                }
            },
        },
        r matches Ok(Some(m)) ==> m.wf() && m.secs % 86400 == 0,
{
    match text {
        None => Ok(None),
        Some(s) => {
            if s.as_str().is_empty() {
                Ok(None)
            } else {
                proof {
                    reveal_strlit("%Y-%m-%d");
                }
                day_from_parsed(parse_day(s.as_str(), "%Y-%m-%d"))
            }
        },
    }
}

/// Writes the UTC day that holds `date` as `YYYY-MM-DD`; none where the day lies
/// outside chrono's calendar.
pub fn encode_day(date: &Moment) -> (r: Option<String>)
    ensures
        match r {
            Some(t) => formatted_day(date.secs as int, day_format()) == Some(t@),
            None => formatted_day(date.secs as int, day_format()) is None,
        },
{
    proof {
        reveal_strlit("%Y-%m-%d");
    }
    format_day(date.secs, "%Y-%m-%d")
}

} // verus!
