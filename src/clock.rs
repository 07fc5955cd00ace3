use vstd::prelude::*;
use chrono::Datelike;
use std::str::FromStr;

verus! {

/// An instant as the session logic reads it, in the machine's local time.
#[derive(PartialEq, Eq, Structural, Clone, Copy, Debug)]
pub struct Moment {
    /// Seconds since the Unix epoch.
    pub secs: i64,
    /// The local calendar date, as days since 1 January of year 1 (that day is 1).
    pub day: i32,
    /// The local day of the week, counted from Monday (0) to Sunday (6).
    pub weekday: u8,
}

impl Moment {
    /// The weekday is the one of the day number: day 1 is a Monday, and the
    /// week repeats every seven days in both directions.
    pub open spec fn wf(&self) -> bool {
        &&& self.weekday < 7
        &&& self.weekday == (self.day - 1) % 7
    }
}

/// Whether a text reads as a timestamp with an offset (chrono's relaxed
/// RFC 3339 form). That depends on the text alone; the moment read also
/// depends on the machine's time zone.
pub uninterp spec fn stamp_reads(s: Seq<char>) -> bool;

/// The instant, in seconds since the Unix epoch, that a readable timestamp
/// text denotes. The text carries its own offset, so this too depends on the
/// text alone.
pub uninterp spec fn stamp_secs(s: Seq<char>) -> int;

/// An instant together with the text under which it is persisted.
#[derive(Clone, Debug)]
pub struct Stamp {
    pub at: Moment,
    pub text: String,
}

impl Stamp {
    /// The text reads back as a timestamp, and denotes the instant `at`.
    pub open spec fn wf(&self) -> bool {
        &&& self.at.wf()
        &&& stamp_reads(self.text@)
        &&& self.at.secs == stamp_secs(self.text@)
    }

    /// Reads the local clock.
    pub fn now() -> (r: Stamp)
        ensures
            r.wf(),
    {
        local_now()
    }
}

/// Saturday and Sunday are days off.
pub open spec fn is_weekend(weekday: u8) -> bool {
    weekday == 5 || weekday == 6
}

/// Whether the moment falls on a Saturday or a Sunday.
pub fn weekend_day(m: &Moment) -> (r: bool)
    ensures
        r == is_weekend(m.weekday),
{
    m.weekday == 5 || m.weekday == 6
}

/// Whether two moments fall on the same local calendar date.
pub fn same_day(a: &Moment, b: &Moment) -> (r: bool)
    ensures
        r == (a.day == b.day),
{
    a.day == b.day
}

/// Relies on chrono's `Local::now`, with `DateTime::timestamp`,
/// `date_naive().num_days_from_ce()`, `weekday().num_days_from_monday()`
/// and the `Display` impl to read its parts. chrono's weekday of a date is
/// the day number's, counted from a Monday on day 1, and the `Display` form
/// is one that `FromStr` reads back, to the same instant.
#[verifier::external_body]
fn local_now() -> (r: Stamp)
    ensures
        r.at.wf(),
        stamp_reads(r.text@),
        r.at.secs == stamp_secs(r.text@),
{
    let d = chrono::Local::now();
    Stamp {
        at: Moment {
            secs: d.timestamp(),
            day: d.date_naive().num_days_from_ce(),
            weekday: d.weekday().num_days_from_monday() as u8,
        },
        text: d.to_string(),
    }
}

/// Relies on chrono's `FromStr` for `DateTime<Local>` (which reads the
/// `Display` form back), on `DateTime::timestamp`, and on
/// `NaiveDateTime::checked_add_offset` for the local date and weekday.
/// `None` when the text does not parse, and also when its local date lies
/// outside chrono's date range.
#[verifier::external_body]
fn parse_local(s: &str) -> (r: Option<Moment>)
    ensures
        r is Some ==> stamp_reads(s@),
        !stamp_reads(s@) ==> r is None,
        r matches Some(m) ==> m.wf() && m.secs == stamp_secs(s@),
{
    let d = chrono::DateTime::<chrono::Local>::from_str(s).ok()?;
    let local = d.naive_utc().checked_add_offset(*d.offset())?;
    Some(Moment {
        secs: d.timestamp(),
        day: local.num_days_from_ce(),
        weekday: local.weekday().num_days_from_monday() as u8,
    })
}

/// Reads a persisted timestamp; `None` when it is not a valid one, or when
/// its local date cannot be represented.
pub fn read_stamp(s: &String) -> (r: Option<Moment>)
    ensures
        r is Some ==> stamp_reads(s@),
        !stamp_reads(s@) ==> r is None,
        r matches Some(m) ==> m.wf() && m.secs == stamp_secs(s@),
{
    parse_local(s.as_str())
}

} // verus!
