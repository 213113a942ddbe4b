//! Calendar days, counted as chrono counts them: day 1 is 0001-01-01 of the
//! proleptic Gregorian calendar (`Datelike::num_days_from_ce`).  Ordering and
//! differences of dates are then ordering and differences of integers; only
//! the conversions to and from text go through chrono.
use chrono::Datelike;
use vstd::prelude::*;

verus! {

/// `num_days_from_ce` of `NaiveDate::MIN` (-262143-01-01).
pub const DAY_MIN: i32 = -95746129;

/// `num_days_from_ce` of `NaiveDate::MAX` (262142-12-31).
pub const DAY_MAX: i32 = 95745399;

/// A calendar date that chrono's `NaiveDate` can represent.
#[derive(Clone, Copy, Debug, PartialEq, Eq, Structural)]
pub struct Day {
    n: i32,
}

/// What chrono's `NaiveDate::parse_from_str(text, "%Y-%m-%d")` gives: the day
/// number of the date, or the `Display` text of the parse error.
pub uninterp spec fn chrono_parse_ymd(text: Seq<char>) -> Result<int, Seq<char>>;

/// The `Display` text of the `NaiveDate` with this day number (`YYYY-MM-DD`).
pub uninterp spec fn chrono_ymd_text(days: int) -> Seq<char>;

/// `NaiveDate::format("%Y%m%d")` of the date with this day number.
pub uninterp spec fn chrono_compact_text(days: int) -> Seq<char>;

/// `NaiveDate::from_ymd_opt(year, month, day)`, as a day number.
pub uninterp spec fn chrono_from_ymd(year: int, month: int, day: int) -> Option<int>;

/// The Asia/Shanghai (UTC+8) calendar date of a millisecond Unix timestamp, as
/// `DateTime::from_timestamp_millis` and `NaiveDateTime::checked_add_offset`
/// compute it; `None` where either leaves chrono's range.
pub uninterp spec fn chrono_shanghai_day(millis: int) -> Option<int>;

/// `DateTime::parse_from_rfc3339(text)` formatted with `"%Y-%m-%d %H:%M UTC"`.
pub uninterp spec fn chrono_rfc3339_minutes(text: Seq<char>) -> Option<Seq<char>>;

pub open spec fn in_day_range(n: int) -> bool {
    DAY_MIN <= n <= DAY_MAX
}

impl Day {
    #[verifier::type_invariant]
    spec fn in_range(self) -> bool {
        in_day_range(self.n as int)
    }

    /// The day number (`num_days_from_ce`).
    pub closed spec fn index(self) -> int {
        self.n as int
    }

    pub fn days_from_ce(&self) -> (n: i32)
        ensures
            n as int == self.index(),
            in_day_range(n as int),
    {
        proof {
            use_type_invariant(self);
        }
        self.n
    }

    pub fn from_days_from_ce(n: i64) -> (r: Option<Day>)
        ensures
            r matches Some(d) ==> d.index() == n,
            r is None <==> !in_day_range(n as int),
    {
        if DAY_MIN as i64 <= n && n <= DAY_MAX as i64 {
            Some(Day { n: n as i32 })
        } else {
            None
        }
    }

    /// `self - other` in days.
    pub fn days_since(&self, other: &Day) -> (k: i64)
        ensures
            k == self.index() - other.index(),
    {
        proof {
            use_type_invariant(self);
            use_type_invariant(other);
        }
        self.n as i64 - other.n as i64
    }

    /// `self + Duration::days(k)`, which chrono computes when the result is a
    /// representable date.
    pub fn shift(&self, k: i64) -> (r: Day)
        requires
            in_day_range(self.index() + k),
        ensures
            r.index() == self.index() + k,
    {
        Day { n: (self.n as i64 + k) as i32 }
    }

    pub fn precedes(&self, other: &Day) -> (b: bool)
        ensures
            b == (self.index() < other.index()),
    {
        self.n < other.n
    }

    pub fn not_after(&self, other: &Day) -> (b: bool)
        ensures
            b == (self.index() <= other.index()),
    {
        self.n <= other.n
    }

    /// `NaiveDate::from_ymd_opt`.
    pub fn from_ymd(year: i32, month: u32, day: u32) -> (r: Option<Day>)
        ensures
            r matches Some(d) ==> chrono_from_ymd(year as int, month as int, day as int) == Some(
                d.index(),
            ),
            r is None ==> chrono_from_ymd(year as int, month as int, day as int) is None,
    {
        match ymd_days(year, month, day) {
            Some(n) => Day::from_days_from_ce(n as i64),
            None => None,
        }
    }

    /// `NaiveDate::parse_from_str(text, "%Y-%m-%d")`.
    pub fn parse_ymd(text: &str) -> (r: Result<Day, String>)
        ensures
            r matches Ok(d) ==> chrono_parse_ymd(text@) matches Ok(m) && m == d.index(),
            r matches Err(e) ==> chrono_parse_ymd(text@) matches Err(m) && m == e@,
    {
        match parse_ymd_days(text) {
            Ok(n) => match Day::from_days_from_ce(n as i64) {
                Some(d) => Ok(d),
                None => Err(String::new()),
            },
            Err(e) => Err(e),
        }
    }

    /// The date as `YYYY-MM-DD` (`NaiveDate`'s `Display`).
    pub fn ymd_text(&self) -> (s: String)
        ensures
            s@ == chrono_ymd_text(self.index()),
    {
        proof {
            use_type_invariant(self);
        }
        ymd_text_of(self.n)
    }

    /// The date as `YYYYMMDD`.
    pub fn compact_text(&self) -> (s: String)
        ensures
            s@ == chrono_compact_text(self.index()),
    {
        proof {
            use_type_invariant(self);
        }
        compact_text_of(self.n)
    }

    /// The Asia/Shanghai calendar date of a millisecond timestamp.
    pub fn from_shanghai_millis(millis: i64) -> (r: Option<Day>)
        ensures
            r matches Some(d) ==> chrono_shanghai_day(millis as int) == Some(d.index()),
            r is None ==> chrono_shanghai_day(millis as int) is None,
    {
        match shanghai_days(millis) {
            Some(n) => Day::from_days_from_ce(n as i64),
            None => None,
        }
    }
}

/// Calls `NaiveDate::parse_from_str(text, "%Y-%m-%d")`; gives the day number
/// or the error's text.  Any date chrono returns lies within its own range.
#[verifier::external_body]
fn parse_ymd_days(text: &str) -> (r: Result<i32,String>)
    ensures
        r matches Ok(n) ==> chrono_parse_ymd(text@) matches Ok(m) && m == n,
        r matches Ok(n) ==> in_day_range(n as int),
        r matches Err(e) ==> chrono_parse_ymd(text@) matches Err(m) && m == e@,
{
    match chrono::NaiveDate::parse_from_str(text, "%Y-%m-%d") {
        Ok(d) => Ok(d.num_days_from_ce()),
        Err(e) => Err(e.to_string()),
    }
}

/// Calls `NaiveDate::from_ymd_opt`; a date chrono returns lies within its range.
#[verifier::external_body]
fn ymd_days(year: i32, month: u32, day: u32) -> (r: Option<i32>)
    ensures
        r matches Some(n) ==> chrono_from_ymd(year as int, month as int, day as int) == Some(n as int),
        r matches Some(n) ==> in_day_range(n as int),
        r is None ==> chrono_from_ymd(year as int, month as int, day as int) is None,
{
    match chrono::NaiveDate::from_ymd_opt(year, month, day) {
        Some(d) => Some(d.num_days_from_ce()),
        None => None,
    }
}

/// Calls `NaiveDate::from_num_days_from_ce_opt` and `Display`; within chrono's
/// range the date exists.
#[verifier::external_body]
fn ymd_text_of(n: i32) -> (s: String)
    requires
        in_day_range(n as int),
    ensures
        s@ == chrono_ymd_text(n as int),
{
    chrono::NaiveDate::from_num_days_from_ce_opt(n).expect("date within chrono's range").to_string()
}

/// Calls `NaiveDate::from_num_days_from_ce_opt` and `format("%Y%m%d")`.
#[verifier::external_body]
fn compact_text_of(n: i32) -> (s: String)
    requires
        in_day_range(n as int),
    ensures
        s@ == chrono_compact_text(n as int),
{
    chrono::NaiveDate::from_num_days_from_ce_opt(n).expect("date within chrono's range").format(
        "%Y%m%d",
    ).to_string()
}

/// Calls `DateTime::from_timestamp_millis`, then adds the fixed +08:00 offset
/// with `NaiveDateTime::checked_add_offset`, which gives `None` where the
/// shifted time leaves chrono's range; a date chrono returns lies within it.
#[verifier::external_body]
fn shanghai_days(millis: i64) -> (r: Option<i32>)
    ensures
        r matches Some(n) ==> chrono_shanghai_day(millis as int) == Some(n as int),
        r matches Some(n) ==> in_day_range(n as int),
        r is None ==> chrono_shanghai_day(millis as int) is None,
{
    let china = chrono::FixedOffset::east_opt(8 * 3600).expect("+08:00 is a valid offset");
    match chrono::DateTime::from_timestamp_millis(millis) {
        Some(dt) => match dt.naive_utc().checked_add_offset(china) {
            Some(local) => Some(local.date().num_days_from_ce()),
            None => None,
        },
        None => None,
    }
}

/// Calls `DateTime::parse_from_rfc3339` and formats the result with
/// `"%Y-%m-%d %H:%M UTC"`.
#[verifier::external_body]
pub(crate) fn rfc3339_minutes(text: &str) -> (r: Option<String>)
    ensures
        r matches Some(s) ==> chrono_rfc3339_minutes(text@) == Some(s@),
        r is None ==> chrono_rfc3339_minutes(text@) is None,
{
    match chrono::DateTime::parse_from_rfc3339(text) {
        Ok(dt) => Some(dt.format("%Y-%m-%d %H:%M UTC").to_string()),
        Err(_) => None,
    }
}

/// The day number of 1970-01-01, the Unix epoch.
pub open spec fn unix_epoch_day() -> int {
    719163
}

/// Calls `Utc::now().date_naive()`: today's date in UTC, whatever the clock
/// says.  `Utc::now` panics when the system clock is before the Unix epoch, so
/// a date it returns is on or after 1970-01-01; nothing more is promised of
/// which day it is.
#[verifier::external_body]
fn today_days() -> (n: i32)
    ensures
        in_day_range(n as int),
        n >= unix_epoch_day(),
{
    chrono::Utc::now().date_naive().num_days_from_ce()
}

/// Today's date in UTC, as the clock gives it: some day from 1970-01-01 on.
pub fn today_days_utc() -> (d: Day)
    ensures
        d.index() >= unix_epoch_day(),
{
    let n = today_days();
    Day { n }
}

} // verus!
