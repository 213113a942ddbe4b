//! Trading-calendar conventions of the markets.
use crate::calendar::{in_day_range, today_days_utc, Day};
use crate::text::{chars_of, equals, trim, trim_chars, upper, upper_chars};
use vstd::prelude::*;

verus! {

/// Mainland markets and funds (after trimming and upper-casing).
pub open spec fn cn_market(market: Seq<char>) -> bool {
    let m = upper(trim(market));
    m == "SH"@ || m == "SZ"@ || m == "CN"@ || m == "SSE"@ || m == "SZSE"@ || m == "CN-SH"@ || m
        == "CN-SZ"@ || m == "FUND"@
}

pub fn is_cn_market(market: &str) -> (b: bool)
    ensures
        b == cn_market(market@),
{
    let raw = chars_of(market);
    let t = trim_chars(&raw);
    let m = upper_chars(&t);
    equals(&m, "SH") || equals(&m, "SZ") || equals(&m, "CN") || equals(&m, "SSE") || equals(
        &m,
        "SZSE",
    ) || equals(&m, "CN-SH") || equals(&m, "CN-SZ") || equals(&m, "FUND")
}

/// The last day an incremental update asks for, given today: yesterday for
/// mainland markets (today's bar may not exist yet), today elsewhere.
pub open spec fn end_date_index(market: Seq<char>, today: Day) -> int {
    if cn_market(market) {
        today.index() - 1
    } else {
        today.index()
    }
}

pub fn end_date_for(market: &str, today: Day) -> (d: Day)
    requires
        in_day_range(today.index() - 1),
    ensures
        d.index() == end_date_index(market@, today),
{
    if is_cn_market(market) {
        today.shift(-1)
    } else {
        today
    }
}

/// Today's date in UTC, as the clock gives it: some day from 1970-01-01 on.
pub fn today_utc() -> (d: Day)
    ensures
        d.index() >= crate::calendar::unix_epoch_day(),
{
    today_days_utc()
}

/// A 股 / 基金等国内市场：增量更新默认截止到昨日，避免盘中请求当日 K 线失败。
/// The end date for today, whichever day the clock gives (from 1970-01-01 on).
pub fn incremental_end_date(market: &str) -> (d: Day)
    ensures
        exists|t: Day|
            t.index() >= crate::calendar::unix_epoch_day() && d.index() == end_date_index(market@, t),
{
    let today = today_utc();
    let _ = today.days_from_ce();
    end_date_for(market, today)
}

/// The date as `YYYYMMDD`.
pub fn yyyymmdd(date: Day) -> (s: String)
    ensures
        s@ == crate::calendar::chrono_compact_text(date.index()),
{
    date.compact_text()
}

} // verus!
