//! Calendar dates and instants, read and written with the `time` crate.
use vstd::prelude::*;

verus! {

/// A calendar date as `time` reads it: year, month (1 to 12), day of month.
#[derive(Clone, Copy, Debug, PartialEq, Eq, Structural)]
pub struct CalendarDate {
    pub year: i32,
    pub month: u8,
    pub day: u8,
}

/// An optional target window: start date and target date.
pub type DateWindow = (Option<CalendarDate>, Option<CalendarDate>);

/// Name for what `time::Date::parse` returns for `text` under the format
/// description `[year]-[month]-[day]`: the date's year, month and day, or
/// nothing when the text is refused.
pub uninterp spec fn calendar_date_of(text: Seq<char>) -> Option<(int, int, int)>;

/// Name for what `time::OffsetDateTime::parse` returns for `text` under RFC 3339,
/// given as the instant's nanoseconds since the Unix epoch, or nothing when
/// the text is refused.
pub uninterp spec fn rfc3339_instant_of(text: Seq<char>) -> Option<int>;

/// Name for the RFC 3339 text that `time::OffsetDateTime::format` writes for the
/// UTC instant `unix_nanos` nanoseconds after the Unix epoch, or nothing when
/// that instant cannot be represented or written.
pub uninterp spec fn rfc3339_text_of(unix_nanos: int) -> Option<Seq<char>>;

/// The date's plain components.
pub open spec fn date_parts(d: CalendarDate) -> (int, int, int) {
    (d.year as int, d.month as int, d.day as int)
}

/// Calls `time::Date::parse` with the description `[year]-[month]-[day]`
/// (built by `time::format_description::parse_borrowed::<2>`), and hands back
/// the parsed date's year, month and day. Trusted: the result is
/// `calendar_date_of(text)`.
#[verifier::external_body]
fn parse_calendar_date(text: &str) -> (r: Option<CalendarDate>)
    ensures
        calendar_date_of(text@) == match r {
            Some(d) => Some(date_parts(d)),
            None => None::<(int, int, int)>,
        },
{
    let description = match time::format_description::parse_borrowed::<2>("[year]-[month]-[day]") {
        Ok(description) => description,
        Err(_) => return None,
    };
    match time::Date::parse(text, &description) {
        Ok(date) => Some(CalendarDate { year: date.year(), month: u8::from(date.month()), day: date.day() }),
        Err(_) => None,
    }
}

/// Calls `time::OffsetDateTime::parse` with the RFC 3339 description and hands
/// back `unix_timestamp_nanos` of the result. Trusted: the result is
/// `rfc3339_instant_of(text)`.
#[verifier::external_body]
pub(crate) fn parse_timestamp(text: &str) -> (r: Option<i128>)
    ensures
        rfc3339_instant_of(text@) == match r {
            Some(n) => Some(n as int),
            None => None::<int>,
        },
{
    match time::OffsetDateTime::parse(text, &time::format_description::well_known::Rfc3339) {
        Ok(instant) => Some(instant.unix_timestamp_nanos()),
        Err(_) => None,
    }
}

/// Calls `time::OffsetDateTime::from_unix_timestamp_nanos` and then
/// `OffsetDateTime::format` with the RFC 3339 description. Trusted: the result
/// is `rfc3339_text_of(unix_nanos)`.
#[verifier::external_body]
pub(crate) fn format_timestamp(unix_nanos: i128) -> (r: Option<String>)
    ensures
        rfc3339_text_of(unix_nanos as int) == match r {
            Some(s) => Some(s@),
            None => None::<Seq<char>>,
        },
{
    let instant = match time::OffsetDateTime::from_unix_timestamp_nanos(unix_nanos) {
        Ok(instant) => instant,
        Err(_) => return None,
    };
    match instant.format(&time::format_description::well_known::Rfc3339) {
        Ok(text) => Some(text),
        Err(_) => None,
    }
}

/// The date an optional field denotes: absent, a date, or refused (`None`).
pub open spec fn optional_date_of(text: Option<Seq<char>>) -> Option<Option<(int, int, int)>> {
    match text {
        None => Some(None),
        Some(t) => match calendar_date_of(t) {
            Some(d) => Some(Some(d)),
            None => None,
        },
    }
}

/// The view of an optional string slice.
pub open spec fn opt_view(s: Option<&str>) -> Option<Seq<char>> {
    match s {
        Some(t) => Some(t@),
        None => None,
    }
}

/// The components of an optional date.
pub open spec fn opt_parts(d: Option<CalendarDate>) -> Option<(int, int, int)> {
    match d {
        Some(x) => Some(date_parts(x)),
        None => None,
    }
}

/// `a` is a later day than `b`, on date components.
pub open spec fn parts_after(a: (int, int, int), b: (int, int, int)) -> bool {
    ||| a.0 > b.0
    ||| (a.0 == b.0 && a.1 > b.1)
    ||| (a.0 == b.0 && a.1 == b.1 && a.2 > b.2)
}

/// The target window that two optional fields denote: refused when a present
/// field is not a date or when the start date is after the target date.
pub open spec fn date_window_of(start: Option<Seq<char>>, end: Option<Seq<char>>) -> Option<
    (Option<(int, int, int)>, Option<(int, int, int)>),
> {
    match (optional_date_of(start), optional_date_of(end)) {
        (Some(s), Some(e)) => {
            let out_of_order = match (s, e) {
                (Some(a), Some(b)) => parts_after(a, b),
                _ => false,
            };
            if out_of_order {
                None
            } else {
                Some((s, e))
            }
        },
        _ => None,
    }
}

/// The components of an optional window.
pub open spec fn window_parts(w: Option<DateWindow>) -> Option<
    (Option<(int, int, int)>, Option<(int, int, int)>),
> {
    match w {
        Some(x) => Some((opt_parts(x.0), opt_parts(x.1))),
        None => None,
    }
}

fn parse_optional_date(text: Option<&str>) -> (r: Option<Option<CalendarDate>>)
    ensures
        optional_date_of(opt_view(text)) == match r {
            Some(d) => Some(opt_parts(d)),
            None => None::<Option<(int, int, int)>>,
        },
{
    match text {
        None => Some(None),
        Some(t) => match parse_calendar_date(t) {
            Some(d) => Some(Some(d)),
            None => None,
        },
    }
}

/// Reads an optional target window. It is refused when a present field is
/// not a date, or when the start date is after the target date.
pub fn parse_date_window(start: Option<&str>, end: Option<&str>) -> (r: Option<DateWindow>)
    ensures
        date_window_of(opt_view(start), opt_view(end)) == window_parts(r),
{
    let s = parse_optional_date(start);
    let e = parse_optional_date(end);
    match (s, e) {
        (Some(s), Some(e)) => {
            let w: DateWindow = (s, e);
            let out_of_order = match (s, e) {
                (Some(a), Some(b)) => a.year > b.year || (a.year == b.year && a.month > b.month)
                    || (a.year == b.year && a.month == b.month && a.day > b.day),
                _ => false,
            };
            if out_of_order {
                None
            } else {
                Some(w)
            }
        },
        _ => None,
    }
}

} // verus!
