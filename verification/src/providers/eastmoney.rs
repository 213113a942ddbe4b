//! Eastmoney: security ids, fund codes, K-line rows and fund NAV history.
use crate::calendar::{chrono_compact_text, Day};
use crate::config::InstrumentConfig;
use crate::models::{all_labelled, contents, BarSpec, ParsedBar};
use crate::providers::{
    pair_views, request_url, url_query_text, FetchError, ProviderError, ProviderErrorKind,
};
use crate::utils::date::yyyymmdd;
use crate::sorting::{first_greater, lemma_first_greater, sort_by_key};
use crate::text::{
    ascii_digits, begins_with, blank, chars_of, csv_fields, digits_of, eq_ignore_ascii_case,
    equals, fields_of, find, find_lit, int_text, int_text_of, is_blank, lemma_find_from, lower,
    lower_chars, nat_text, nat_text_of, push_all, push_str, same_ignoring_ascii_case, starts_with,
    string_of, sub_chars, trim_end_char, trim_end_char_chars, trim_start, trim_start_chars, upper,
    upper_chars,
};
use crate::utils::csv::{
    by_day, date_error, date_value, failed, insert_by_date, lemma_rows_prefix_err, lemma_rows_step,
    lemma_sort_push, number_error, optional_number, read_date, read_number, read_optional_number,
    rows_result, Failure,
};
use vstd::prelude::*;

verus! {

/// Six ASCII digits taken from the id, when it holds exactly six.
pub open spec fn six_digits(id: Seq<char>) -> Option<Seq<char>> {
    if ascii_digits(id).len() == 6 {
        Some(ascii_digits(id))
    } else {
        None
    }
}

fn numeric_symbol(id: &str) -> (r: Option<Vec<char>>)
    ensures
        match r {
            Some(d) => six_digits(id@) == Some(d@),
            None => six_digits(id@) is None,
        },
{
    let cs = chars_of(id);
    let digits = digits_of(&cs);
    if digits.len() == 6 {
        Some(digits)
    } else {
        None
    }
}

pub open spec fn starts_with_char(s: Seq<char>, c: char) -> bool {
    s.len() > 0 && s[0] == c
}

/// The Shanghai exchange: `sh` ids, SH markets, codes starting with 6 or 9.
pub open spec fn shanghai_listing(id: Seq<char>, market: Seq<char>, symbol: Seq<char>) -> bool {
    starts_with(lower(id), "sh"@) || market == "SH"@ || market == "SSE"@ || market == "CN-SH"@
        || starts_with_char(symbol, '6') || starts_with_char(symbol, '9')
}

/// The Shenzhen exchange: `sz` ids, SZ markets, codes starting with 0, 2 or 3.
pub open spec fn shenzhen_listing(id: Seq<char>, market: Seq<char>, symbol: Seq<char>) -> bool {
    starts_with(lower(id), "sz"@) || market == "SZ"@ || market == "SZSE"@ || market == "CN-SZ"@
        || starts_with_char(symbol, '0') || starts_with_char(symbol, '2') || starts_with_char(
        symbol,
        '3',
    )
}

/// The Eastmoney security id of an instrument: the configured one when it is
/// not blank; otherwise `1.` or `0.` and the six digits of the id.
pub open spec fn secid_of(i: InstrumentConfig) -> Result<Seq<char>, Seq<char>> {
    if i.eastmoney_secid is Some && !is_blank(i.eastmoney_secid->0@) {
        Ok(i.eastmoney_secid->0@)
    } else {
        match six_digits(i.id@) {
            None => Err("cannot derive Eastmoney secid from instrument id "@ + i.id@),
            Some(symbol) => {
                let market = upper(i.market@);
                if shanghai_listing(i.id@, market, symbol) {
                    Ok("1."@ + symbol)
                } else if shenzhen_listing(i.id@, market, symbol) {
                    Ok("0."@ + symbol)
                } else {
                    Err(
                        "cannot infer Eastmoney market prefix for "@ + i.id@ + " ("@ + i.market@
                            + ")"@,
                    )
                }
            },
        }
    }
}

fn first_is(s: &Vec<char>, c: char) -> (b: bool)
    ensures
        b == starts_with_char(s@, c),
{
    s.len() > 0 && s[0] == c
}

pub fn resolve_secid(instrument: &InstrumentConfig, source: &str) -> (r: Result<
    String,
    ProviderError,
>)
    ensures
        r matches Ok(s) ==> secid_of(*instrument) == Ok::<Seq<char>, Seq<char>>(s@),
        r matches Err(e) ==> secid_of(*instrument) matches Err(m) && e.is(
            source@,
            ProviderErrorKind::UnsupportedInstrument,
            m,
        ),
{
    match &instrument.eastmoney_secid {
        Some(secid) => {
            if !blank(secid.as_str()) {
                return Ok(secid.clone());
            }
        },
        None => {},
    }
    let symbol = match numeric_symbol(instrument.id.as_str()) {
        Some(s) => s,
        None => {
            let mut m = chars_of("cannot derive Eastmoney secid from instrument id ");
            push_str(&mut m, instrument.id.as_str());
            return Err(
                ProviderError::with_chars(source, ProviderErrorKind::UnsupportedInstrument, &m),
            );
        },
    };
    let raw_market = chars_of(instrument.market.as_str());
    let market = upper_chars(&raw_market);
    let raw_id = chars_of(instrument.id.as_str());
    let id = lower_chars(&raw_id);
    let mut out: Vec<char>;
    if begins_with(&id, "sh") || equals(&market, "SH") || equals(&market, "SSE") || equals(
        &market,
        "CN-SH",
    ) || first_is(&symbol, '6') || first_is(&symbol, '9') {
        out = chars_of("1.");
    } else if begins_with(&id, "sz") || equals(&market, "SZ") || equals(&market, "SZSE") || equals(
        &market,
        "CN-SZ",
    ) || first_is(&symbol, '0') || first_is(&symbol, '2') || first_is(&symbol, '3') {
        out = chars_of("0.");
    } else {
        let mut m = chars_of("cannot infer Eastmoney market prefix for ");
        push_str(&mut m, instrument.id.as_str());
        push_str(&mut m, " (");
        push_str(&mut m, instrument.market.as_str());
        push_str(&mut m, ")");
        return Err(ProviderError::with_chars(source, ProviderErrorKind::UnsupportedInstrument, &m));
    }
    push_all(&mut out, &symbol);
    Ok(string_of(&out))
}

/// Funds are configured with a fund code, or listed on the `FUND` market.
pub open spec fn is_fund(i: InstrumentConfig) -> bool {
    i.eastmoney_fund_code is Some || eq_ignore_ascii_case(i.market@, "FUND"@)
}

pub fn is_fund_instrument(instrument: &InstrumentConfig) -> (b: bool)
    ensures
        b == is_fund(*instrument),
{
    let market = chars_of(instrument.market.as_str());
    let fund = chars_of("FUND");
    instrument.eastmoney_fund_code.is_some() || same_ignoring_ascii_case(&market, &fund)
}

/// The fund code: the configured one when it is not blank, otherwise the six
/// digits of the id.
pub open spec fn fund_code_of(i: InstrumentConfig) -> Option<Seq<char>> {
    if i.eastmoney_fund_code is Some && !is_blank(i.eastmoney_fund_code->0@) {
        Some(i.eastmoney_fund_code->0@)
    } else {
        six_digits(i.id@)
    }
}

pub fn fund_code(instrument: &InstrumentConfig) -> (r: Option<String>)
    ensures
        match r {
            Some(c) => fund_code_of(*instrument) == Some(c@),
            None => fund_code_of(*instrument) is None,
        },
{
    match &instrument.eastmoney_fund_code {
        Some(code) => {
            if !blank(code.as_str()) {
                return Some(code.clone());
            }
        },
        None => {},
    }
    match numeric_symbol(instrument.id.as_str()) {
        Some(d) => Some(string_of(&d)),
        None => None,
    }
}

/// Where a fund's NAV history is fetched: the base without trailing slashes,
/// then `/{code}.js`.
pub open spec fn fund_url_of(base: Seq<char>, code: Seq<char>) -> Seq<char> {
    trim_end_char(base, '/') + "/"@ + code + ".js"@
}

pub fn fund_url(base: &str, code: &str) -> (s: String)
    ensures
        s@ == fund_url_of(base@, code@),
{
    let b = chars_of(base);
    let mut out = trim_end_char_chars(&b, '/');
    push_str(&mut out, "/");
    push_str(&mut out, code);
    push_str(&mut out, ".js");
    string_of(&out)
}

/// Where the top-level array that starts at position 0 of `s` closes: brackets
/// are counted outside double-quoted strings, and a backslash in a string
/// escapes the next character.
pub open spec fn array_close(s: Seq<char>, i: int, depth: int, in_string: bool, escape: bool) -> Option<int>
    decreases s.len() - i,
{
    if i < 0 || i >= s.len() {
        None
    } else if in_string {
        if escape {
            array_close(s, i + 1, depth, true, false)
        } else if s[i] == '\\' {
            array_close(s, i + 1, depth, true, true)
        } else if s[i] == '"' {
            array_close(s, i + 1, depth, false, false)
        } else {
            array_close(s, i + 1, depth, true, false)
        }
    } else if s[i] == '"' {
        array_close(s, i + 1, depth, true, escape)
    } else if s[i] == '[' {
        array_close(s, i + 1, depth + 1, false, escape)
    } else if s[i] == ']' {
        if depth - 1 == 0 {
            Some(i)
        } else {
            array_close(s, i + 1, depth - 1, false, escape)
        }
    } else {
        array_close(s, i + 1, depth, false, escape)
    }
}

/// The text of the array assigned to `var_name` (`var_name = [...]`).
pub open spec fn js_array(body: Seq<char>, var_name: Seq<char>) -> Option<Seq<char>> {
    match find(body, var_name) {
        None => None,
        Some(marker) => {
            let after_name = body.skip(marker + var_name.len());
            match find(after_name, "="@) {
                None => None,
                Some(eq) => {
                    let after_eq = trim_start(after_name.skip(eq + 1));
                    if !starts_with(after_eq, "["@) {
                        None
                    } else {
                        match array_close(after_eq, 0, 0, false, false) {
                            None => None,
                            Some(idx) => Some(after_eq.take(idx + 1)),
                        }
                    }
                },
            }
        },
    }
}

fn close_of_array(s: &Vec<char>) -> (r: Option<usize>)
    requires
        s@.len() > 0,
        s@[0] == '[',
    ensures
        match r {
            Some(k) => array_close(s@, 0, 0, false, false) == Some(k as int) && k < s@.len(),
            None => array_close(s@, 0, 0, false, false) is None,
        },
{
    let mut depth: usize = 0;
    let mut in_string = false;
    let mut escape = false;
    let mut i: usize = 0;
    while i < s.len()
        invariant
            i <= s@.len(),
            s@.len() > 0,
            s@[0] == '[',
            i == 0 ==> depth == 0 && !in_string && !escape,
            i > 0 ==> depth >= 1,
            depth <= i,
            array_close(s@, 0, 0, false, false) == array_close(
                s@,
                i as int,
                depth as int,
                in_string,
                escape,
            ),
        decreases s@.len() - i,
    {
        let c = s[i];
        if in_string {
            if escape {
                escape = false;
            } else if c == '\\' {
                escape = true;
            } else if c == '"' {
                in_string = false;
            }
        } else if c == '"' {
            in_string = true;
        } else if c == '[' {
            depth = depth + 1;
        } else if c == ']' {
            depth = depth - 1;
            if depth == 0 {
                return Some(i);
            }
        }
        i = i + 1;
    }
    None
}

/// `Data_netWorthTrend = [...]` and similar assignments in a script.
pub fn extract_js_array(body: &str, var_name: &str) -> (r: Option<String>)
    ensures
        match r {
            Some(a) => js_array(body@, var_name@) == Some(a@),
            None => js_array(body@, var_name@) is None,
        },
{
    let b = chars_of(body);
    let name = chars_of(var_name);
    let marker = match crate::text::find_chars(&b, &name) {
        Some(m) => m,
        None => {
            return None;
        },
    };
    proof {
        lemma_find_from(b@, name@, 0);
    }
    let blen = b.len();
    assert(marker + name@.len() <= blen);
    let after_name = sub_chars(&b, marker + name.len(), blen);
    assert(after_name@ == b@.skip(marker + name@.len()));
    let eq = match find_lit(&after_name, "=") {
        Some(e) => e,
        None => {
            return None;
        },
    };
    proof {
        lemma_find_from(after_name@, "="@, 0);
        reveal_strlit("=");
    }
    let n = after_name.len();
    let rest = sub_chars(&after_name, eq + 1, n);
    assert(rest@ == after_name@.skip(eq + 1));
    let after_eq = trim_start_chars(&rest);
    if !begins_with(&after_eq, "[") {
        return None;
    }
    proof {
        reveal_strlit("[");
        assert(after_eq@.take(1)[0] == after_eq@[0]);
    }
    match close_of_array(&after_eq) {
        None => None,
        Some(idx) => {
            let out = sub_chars(&after_eq, 0, idx + 1);
            assert(out@ == after_eq@.take(idx + 1));
            Some(string_of(&out))
        },
    }
}

/// What the K-line endpoint's JSON decodes to.
pub enum EastmoneyPayload {
    /// The body is not the expected JSON; the decoder's message.
    Unreadable(String),
    /// `data` is null.
    NoData,
    /// The `data.klines` rows.
    Klines(Vec<String>),
}

/// One K-line row: eleven fields; date, open, close, high, low, volume and
/// amount come first.
pub open spec fn kline_bar(line: Seq<char>) -> Result<BarSpec, Seq<char>> {
    let f = csv_fields(line);
    if f.len() != 11 {
        Err("invalid Eastmoney kline field count "@ + nat_text(f.len()) + ", row: "@ + line)
    } else if date_error(f[0]) is Some {
        Err(date_error(f[0])->0)
    } else if number_error("open"@, f[1]) is Some {
        Err(number_error("open"@, f[1])->0)
    } else if number_error("close"@, f[2]) is Some {
        Err(number_error("close"@, f[2])->0)
    } else if number_error("high"@, f[3]) is Some {
        Err(number_error("high"@, f[3])->0)
    } else if number_error("low"@, f[4]) is Some {
        Err(number_error("low"@, f[4])->0)
    } else {
        Ok(
            BarSpec {
                trade_date: date_value(f[0]),
                open: f[1],
                high: f[3],
                low: f[4],
                close: f[2],
                volume: optional_number(f[5]),
                amount: optional_number(f[6]),
            },
        )
    }
}

pub open spec fn kline_row() -> spec_fn(Seq<char>) -> Result<BarSpec, Seq<char>> {
    |line: Seq<char>| kline_bar(line)
}

pub open spec fn string_views(s: Seq<String>) -> Seq<Seq<char>> {
    Seq::new(s.len(), |k: int| s[k]@)
}

/// What a decoded K-line answer holds: its bars in date order, or why not.
pub open spec fn kline_result(payload: EastmoneyPayload) -> Result<Seq<BarSpec>, Failure> {
    match payload {
        EastmoneyPayload::Unreadable(err) => Err(
            (ProviderErrorKind::MalformedResponse, "invalid Eastmoney JSON: "@ + err@),
        ),
        EastmoneyPayload::NoData => Err(
            (ProviderErrorKind::NoData, "Eastmoney returned data=null"@),
        ),
        EastmoneyPayload::Klines(lines) => if lines@.len() == 0 {
            Err((ProviderErrorKind::NoData, "Eastmoney returned empty klines"@))
        } else {
            match rows_result(string_views(lines@), kline_row()) {
                Err(m) => Err((ProviderErrorKind::MalformedResponse, m)),
                Ok(bars) => Ok(sort_by_key(bars, by_day())),
            }
        },
    }
}

fn parse_kline(instrument_id: &str, line: &Vec<char>, source: &str) -> (r: Result<
    ParsedBar,
    ProviderError,
>)
    ensures
        r matches Ok(b) ==> kline_bar(line@) == Ok::<BarSpec, Seq<char>>(b.content())
            && b.instrument_id@ == instrument_id@ && b.source@ == source@,
        r matches Err(e) ==> kline_bar(line@) matches Err(m) && e.is(
            source@,
            ProviderErrorKind::MalformedResponse,
            m,
        ),
{
    let f = fields_of(line);
    if f.len() != 11 {
        let mut m = chars_of("invalid Eastmoney kline field count ");
        let count = nat_text_of(f.len() as u64);
        push_all(&mut m, &count);
        push_str(&mut m, ", row: ");
        push_all(&mut m, line);
        return Err(ProviderError::with_chars(source, ProviderErrorKind::MalformedResponse, &m));
    }
    let trade_date = read_date(source, &f[0])?;
    let open = read_number(source, &f[1], "open")?;
    let close = read_number(source, &f[2], "close")?;
    let high = read_number(source, &f[3], "high")?;
    let low = read_number(source, &f[4], "low")?;
    let volume = read_optional_number(&f[5]);
    let amount = read_optional_number(&f[6]);
    Ok(
        ParsedBar {
            instrument_id: instrument_id.to_owned(),
            trade_date,
            open,
            high,
            low,
            close,
            volume,
            amount,
            source: source.to_owned(),
        },
    )
}

/// The daily K-lines of a decoded Eastmoney answer, in date order.
pub fn parse_eastmoney_daily(
    instrument_id: &str,
    payload: &EastmoneyPayload,
    source: &str,
) -> (r: Result<Vec<ParsedBar>, ProviderError>)
    ensures
        r matches Ok(bars) ==> kline_result(*payload) == Ok::<Seq<BarSpec>, Failure>(
            contents(bars@),
        ) && all_labelled(bars@, instrument_id@, source@),
        r matches Err(e) ==> kline_result(*payload) matches Err(f) && failed(e, source@, f),
{
    let lines = match payload {
        EastmoneyPayload::Unreadable(err) => {
            let mut m = chars_of("invalid Eastmoney JSON: ");
            push_str(&mut m, err.as_str());
            return Err(ProviderError::with_chars(source, ProviderErrorKind::MalformedResponse, &m));
        },
        EastmoneyPayload::NoData => {
            return Err(
                ProviderError::new(source, ProviderErrorKind::NoData, "Eastmoney returned data=null"),
            );
        },
        EastmoneyPayload::Klines(lines) => lines,
    };
    if lines.len() == 0 {
        return Err(
            ProviderError::new(source, ProviderErrorKind::NoData, "Eastmoney returned empty klines"),
        );
    }
    let ghost ls = string_views(lines@);
    let mut out: Vec<ParsedBar> = Vec::new();
    let ghost mut bars = Seq::<BarSpec>::empty();
    let mut i: usize = 0;
    assert(ls.take(0) == Seq::<Seq<char>>::empty());
    while i < lines.len()
        invariant
            i <= lines@.len() == ls.len(),
            *payload == EastmoneyPayload::Klines(*lines),
            lines@.len() > 0,
            ls == string_views(lines@),
            rows_result(ls.take(i as int), kline_row()) == Ok::<Seq<BarSpec>, Seq<char>>(bars),
            contents(out@) == sort_by_key(bars, by_day()),
            all_labelled(out@, instrument_id@, source@),
        decreases lines@.len() - i,
    {
        proof {
            lemma_rows_step(ls, i as int, kline_row());
        }
        let line = chars_of(lines[i].as_str());
        match parse_kline(instrument_id, &line, source) {
            Err(e) => {
                proof {
                    lemma_rows_prefix_err(ls, i as int, kline_row());
                }
                return Err(e);
            },
            Ok(bar) => {
                let ghost c = bar.content();
                insert_by_date(&mut out, bar, Ghost(instrument_id@), Ghost(source@));
                proof {
                    lemma_sort_push(bars, c);
                    bars = bars.push(c);
                }
            },
        }
        i = i + 1;
    }
    proof {
        assert(ls.take(i as int) == ls);
    }
    Ok(out)
}

/// Where the NAV history sits in a fund page, or why it cannot be found.
pub open spec fn net_worth_trend_result(body: Seq<char>) -> Result<Seq<char>, Failure> {
    match js_array(body, "Data_netWorthTrend"@) {
        Some(a) => Ok(a),
        None => Err(
            (
                ProviderErrorKind::MalformedResponse,
                "Eastmoney fund response missing Data_netWorthTrend"@,
            ),
        ),
    }
}

pub fn locate_net_worth_trend(body: &str, source: &str) -> (r: Result<String, ProviderError>)
    ensures
        r matches Ok(a) ==> net_worth_trend_result(body@) == Ok::<Seq<char>, Failure>(a@),
        r matches Err(e) ==> net_worth_trend_result(body@) matches Err(f) && failed(e, source@, f),
{
    match extract_js_array(body, "Data_netWorthTrend") {
        Some(a) => Ok(a),
        None => Err(
            ProviderError::new(
                source,
                ProviderErrorKind::MalformedResponse,
                "Eastmoney fund response missing Data_netWorthTrend",
            ),
        ),
    }
}

/// The dates of the NAV points, in the order given, or why they cannot be read.
pub open spec fn nav_days_result(decoded: Result<Seq<i64>, Seq<char>>) -> Result<Seq<int>, Failure> {
    match decoded {
        Err(err) => Err(
            (
                ProviderErrorKind::MalformedResponse,
                "Eastmoney fund Data_netWorthTrend JSON invalid: "@ + err,
            ),
        ),
        Ok(stamps) => if stamps.len() == 0 {
            Err((ProviderErrorKind::NoData, "Eastmoney fund Data_netWorthTrend is empty"@))
        } else {
            nav_stamp_days(stamps)
        },
    }
}

/// Each timestamp's Shanghai date, or the first one chrono cannot place.
pub open spec fn nav_stamp_days(stamps: Seq<i64>) -> Result<Seq<int>, Failure>
    decreases stamps.len(),
{
    if stamps.len() == 0 {
        Ok(Seq::<int>::empty())
    } else {
        match nav_stamp_days(stamps.drop_last()) {
            Err(f) => Err(f),
            Ok(days) => match crate::calendar::chrono_shanghai_day(stamps.last() as int) {
                None => Err(
                    (
                        ProviderErrorKind::MalformedResponse,
                        "Eastmoney fund invalid NAV timestamp "@ + int_text(stamps.last() as int),
                    ),
                ),
                Some(d) => Ok(days.push(d)),
            },
        }
    }
}

pub open spec fn day_indices(days: Seq<Day>) -> Seq<int> {
    Seq::new(days.len(), |k: int| days[k].index())
}

pub open spec fn decoded_view(decoded: Result<Vec<i64>, String>) -> Result<Seq<i64>, Seq<char>> {
    match decoded {
        Ok(v) => Ok(v@),
        Err(e) => Err(e@),
    }
}

/// The dates of the decoded NAV points (`x`, milliseconds at Shanghai
/// midnight); `decoded` is the JSON decoder's result or its message.
pub fn fund_nav_days(decoded: &Result<Vec<i64>, String>, source: &str) -> (r: Result<
    Vec<Day>,
    ProviderError,
>)
    ensures
        r matches Ok(days) ==> nav_days_result(decoded_view(*decoded)) == Ok::<Seq<int>, Failure>(
            day_indices(days@),
        ),
        r matches Err(e) ==> nav_days_result(decoded_view(*decoded)) matches Err(f) && failed(
            e,
            source@,
            f,
        ),
{
    let stamps = match decoded {
        Err(err) => {
            let mut m = chars_of("Eastmoney fund Data_netWorthTrend JSON invalid: ");
            push_str(&mut m, err.as_str());
            return Err(ProviderError::with_chars(source, ProviderErrorKind::MalformedResponse, &m));
        },
        Ok(stamps) => stamps,
    };
    if stamps.len() == 0 {
        return Err(
            ProviderError::new(
                source,
                ProviderErrorKind::NoData,
                "Eastmoney fund Data_netWorthTrend is empty",
            ),
        );
    }
    let mut days: Vec<Day> = Vec::new();
    let mut i: usize = 0;
    assert(stamps@.take(0) == Seq::<i64>::empty());
    assert(day_indices(days@) == Seq::<int>::empty());
    while i < stamps.len()
        invariant
            i <= stamps@.len(),
            *decoded == Ok::<Vec<i64>, String>(*stamps),
            stamps@.len() > 0,
            nav_stamp_days(stamps@.take(i as int)) == Ok::<Seq<int>, Failure>(day_indices(days@)),
        decreases stamps@.len() - i,
    {
        assert(stamps@.take(i + 1).drop_last() == stamps@.take(i as int));
        assert(stamps@.take(i + 1).last() == stamps@[i as int]);
        match Day::from_shanghai_millis(stamps[i]) {
            None => {
                let mut m = chars_of("Eastmoney fund invalid NAV timestamp ");
                let t = int_text_of(stamps[i]);
                push_all(&mut m, &t);
                proof {
                    lemma_nav_prefix_err(stamps@, i as int);
                }
                return Err(
                    ProviderError::with_chars(source, ProviderErrorKind::MalformedResponse, &m),
                );
            },
            Some(d) => {
                let ghost before = days@;
                days.push(d);
                assert(day_indices(days@) =~= day_indices(before).push(d.index()));
            },
        }
        i = i + 1;
    }
    assert(stamps@.take(i as int) == stamps@);
    Ok(days)
}

pub proof fn lemma_nav_prefix_err(stamps: Seq<i64>, i: int)
    requires
        0 <= i < stamps.len(),
        nav_stamp_days(stamps.take(i + 1)) is Err,
    ensures
        nav_stamp_days(stamps) == nav_stamp_days(stamps.take(i + 1)),
    decreases stamps.len() - i,
{
    if i + 1 < stamps.len() {
        assert(stamps.take(i + 2).drop_last() == stamps.take(i + 1));
        lemma_nav_prefix_err(stamps, i + 1);
    } else {
        assert(stamps.take(i + 1) == stamps);
    }
}

/// No earlier point falls on the same date.
pub open spec fn first_of_its_day(days: Seq<int>, i: int) -> bool {
    forall|j: int| 0 <= j < i ==> days[j] != days[i]
}

/// Positions, in order, of the first point of each date within the window.
pub open spec fn window_firsts(days: Seq<int>, start: int, end: int, n: int) -> Seq<int>
    decreases n,
{
    if n <= 0 {
        Seq::<int>::empty()
    } else {
        let earlier = window_firsts(days, start, end, n - 1);
        if start <= days[n - 1] <= end && first_of_its_day(days, n - 1) {
            earlier.push(n - 1)
        } else {
            earlier
        }
    }
}

/// Positions ordered by their point's date.
pub open spec fn by_point_day(days: Seq<int>) -> spec_fn(int) -> int {
    |k: int| days[k]
}

/// Which NAV points a fund answer keeps: the first point of each date within
/// `[start, end]`, in date order (a stable sort, the window, then dropping
/// repeated dates).
pub open spec fn fund_selection(days: Seq<int>, start: int, end: int) -> Seq<int> {
    sort_by_key(window_firsts(days, start, end, days.len() as int), by_point_day(days))
}

pub open spec fn positions(v: Seq<usize>) -> Seq<int> {
    Seq::new(v.len(), |k: int| v[k] as int)
}

/// The NAV points to keep for `[start, end]`, as positions into `days`; when
/// none is left, Eastmoney had no NAV rows for the code.
pub fn select_fund_rows(days: &Vec<Day>, start: Day, end: Day, code: &str, provider: &str) -> (r:
    Result<Vec<usize>, ProviderError>)
    ensures
        r matches Ok(v) ==> positions(v@) == fund_selection(
            day_indices(days@),
            start.index(),
            end.index(),
        ) && v@.len() > 0 && forall|q: int| 0 <= q < v@.len() ==> #[trigger] v@[q] < days@.len(),
        r matches Err(e) ==> fund_selection(day_indices(days@), start.index(), end.index()).len()
            == 0 && e.is(
            provider@,
            ProviderErrorKind::NoData,
            "Eastmoney fund returned no NAV rows for "@ + code@,
        ),
{
    let ghost ds = day_indices(days@);
    let s = start.days_from_ce();
    let e = end.days_from_ce();
    let mut firsts: Vec<usize> = Vec::new();
    let mut i: usize = 0;
    while i < days.len()
        invariant
            i <= days@.len(),
            ds == day_indices(days@),
            s as int == start.index(),
            e as int == end.index(),
            positions(firsts@) == window_firsts(ds, s as int, e as int, i as int),
            forall|k: int| 0 <= k < firsts@.len() ==> #[trigger] firsts@[k] < i,
        decreases days@.len() - i,
    {
        let d = days[i].days_from_ce();
        assert(ds[i as int] == days@[i as int].index());
        let mut first = true;
        let mut j: usize = 0;
        while j < i
            invariant
                j <= i < days@.len(),
                ds == day_indices(days@),
                d as int == ds[i as int],
                first == forall|k: int| 0 <= k < j ==> ds[k] != ds[i as int],
            decreases i - j,
        {
            assert(ds[j as int] == days@[j as int].index());
            if days[j].days_from_ce() == d {
                first = false;
            }
            j = j + 1;
        }
        if s <= d && d <= e && first {
            firsts.push(i);
            assert(positions(firsts@) == positions(firsts@.drop_last()).push(i as int));
        }
        i = i + 1;
    }
    let ghost cands = positions(firsts@);
    let mut out: Vec<usize> = Vec::new();
    let mut k: usize = 0;
    assert(cands.take(0) == Seq::<int>::empty());
    while k < firsts.len()
        invariant
            k <= firsts@.len(),
            cands == positions(firsts@),
            ds == day_indices(days@),
            forall|q: int| 0 <= q < firsts@.len() ==> #[trigger] firsts@[q] < days@.len(),
            forall|q: int| 0 <= q < out@.len() ==> #[trigger] out@[q] < days@.len(),
            positions(out@) == sort_by_key(cands.take(k as int), by_point_day(ds)),
        decreases firsts@.len() - k,
    {
        let x = firsts[k];
        let dx = days[x].days_from_ce();
        let ghost before = positions(out@);
        let mut p: usize = 0;
        proof {
            lemma_first_greater(before, by_point_day(ds), dx as int);
            assert(before.skip(0) == before);
        }
        while p < out.len() && days[out[p]].days_from_ce() <= dx
            invariant
                p <= out@.len(),
                before == positions(out@),
                ds == day_indices(days@),
                dx as int == ds[x as int],
                forall|q: int| 0 <= q < out@.len() ==> #[trigger] out@[q] < days@.len(),
                first_greater(before, by_point_day(ds), dx as int) == p + first_greater(
                    before.skip(p as int),
                    by_point_day(ds),
                    dx as int,
                ),
            decreases out@.len() - p,
        {
            assert(before.skip(p as int)[0] == before[p as int]);
            assert(before.skip(p as int).drop_first() == before.skip(p + 1));
            p = p + 1;
        }
        proof {
            if p < out@.len() {
                assert(before.skip(p as int)[0] == before[p as int]);
            }
        }
        out.insert(p, x);
        proof {
            assert(positions(out@) =~= before.insert(p as int, x as int));
            assert(cands.take(k + 1).drop_last() == cands.take(k as int));
            assert(cands.take(k + 1).last() == x as int);
            assert forall|q: int| 0 <= q < out@.len() implies #[trigger] out@[q] < days@.len() by {
                if q < p {
                } else if q == p {
                } else {
                    assert(out@[q] == positions(out@)[q]);
                }
            }
        }
        k = k + 1;
    }
    assert(cands.take(firsts@.len() as int) == cands);
    if out.len() == 0 {
        let mut m = chars_of("Eastmoney fund returned no NAV rows for ");
        push_str(&mut m, code);
        return Err(ProviderError::with_chars(provider, ProviderErrorKind::NoData, &m));
    }
    Ok(out)
}

/// What Eastmoney is asked for: a fund's NAV page (with the fund code), or
/// K-lines.
#[derive(Debug)]
pub enum EastmoneyRequest {
    Fund { url: String, code: String },
    Kline(String),
}

/// The K-line query: daily bars, unadjusted, for the window as `YYYYMMDD`.
pub open spec fn kline_pairs(secid: Seq<char>, start: Day, end: Day) -> Seq<(Seq<char>, Seq<char>)> {
    seq![
        ("secid"@, secid),
        ("klt"@, "101"@),
        ("fqt"@, "0"@),
        ("beg"@, chrono_compact_text(start.index())),
        ("end"@, chrono_compact_text(end.index())),
        ("fields1"@, "f1,f2,f3,f4,f5,f6"@),
        ("fields2"@, "f51,f52,f53,f54,f55,f56,f57,f58,f59,f60,f61"@),
    ]
}

/// The request for an instrument's bars in `[start, end]`: funds go to the
/// NAV page, everything else to the K-line endpoint.
pub fn eastmoney_request(
    base_url: &str,
    fund_base_url: &str,
    instrument: &InstrumentConfig,
    start: Day,
    end: Day,
) -> (r: Result<EastmoneyRequest, FetchError>)
    ensures
        is_fund(*instrument) ==> match fund_code_of(*instrument) {
            None => r matches Err(FetchError::Provider(e)) && e.is(
                "eastmoney"@,
                ProviderErrorKind::UnsupportedInstrument,
                "cannot derive Eastmoney fund code from "@ + instrument.id@,
            ),
            Some(code) => r matches Ok(EastmoneyRequest::Fund { url, code: c }) && url@
                == fund_url_of(fund_base_url@, code) && c@ == code,
        },
        !is_fund(*instrument) ==> match secid_of(*instrument) {
            Err(m) => r matches Err(FetchError::Provider(e)) && e.is(
                "eastmoney"@,
                ProviderErrorKind::UnsupportedInstrument,
                m,
            ),
            Ok(secid) => match url_query_text(base_url@, kline_pairs(secid, start, end)) {
                Ok(u) => r matches Ok(EastmoneyRequest::Kline(s)) && s@ == u,
                Err(m) => r matches Err(FetchError::Other(t)) && t@ == m,
            },
        },
{
    if is_fund_instrument(instrument) {
        return match fund_code(instrument) {
            None => {
                let mut m = chars_of("cannot derive Eastmoney fund code from ");
                push_str(&mut m, instrument.id.as_str());
                Err(
                    FetchError::Provider(
                        ProviderError::with_chars(
                            "eastmoney",
                            ProviderErrorKind::UnsupportedInstrument,
                            &m,
                        ),
                    ),
                )
            },
            Some(code) => {
                let url = fund_url(fund_base_url, code.as_str());
                Ok(EastmoneyRequest::Fund { url, code })
            },
        };
    }
    let secid = match resolve_secid(instrument, "eastmoney") {
        Ok(s) => s,
        Err(e) => return Err(FetchError::Provider(e)),
    };
    let ghost sid = secid@;
    let mut pairs: Vec<(String, String)> = Vec::new();
    pairs.push(("secid".to_owned(), secid));
    pairs.push(("klt".to_owned(), "101".to_owned()));
    pairs.push(("fqt".to_owned(), "0".to_owned()));
    pairs.push(("beg".to_owned(), yyyymmdd(start)));
    pairs.push(("end".to_owned(), yyyymmdd(end)));
    pairs.push(("fields1".to_owned(), "f1,f2,f3,f4,f5,f6".to_owned()));
    pairs.push(("fields2".to_owned(), "f51,f52,f53,f54,f55,f56,f57,f58,f59,f60,f61".to_owned()));
    assert(pair_views(pairs@) =~= kline_pairs(sid, start, end));
    match request_url(base_url, &pairs) {
        Ok(u) => Ok(EastmoneyRequest::Kline(u)),
        Err(e) => Err(e),
    }
}

/// One date per timestamp, when every timestamp has one.
pub proof fn lemma_nav_days_len(stamps: Seq<i64>)
    ensures
        nav_stamp_days(stamps) matches Ok(days) ==> days.len() == stamps.len(),
    decreases stamps.len(),
{
    if stamps.len() > 0 {
        lemma_nav_days_len(stamps.drop_last());
    }
}

/// The timestamps of decoded NAV points `(x, y)`, or the decoder's message.
pub open spec fn stamps_of(decoded: Result<Vec<(i64, String)>, String>) -> Result<Seq<i64>, Seq<char>> {
    match decoded {
        Ok(v) => Ok(v@.map_values(|p: (i64, String)| p.0)),
        Err(e) => Err(e@),
    }
}

/// A NAV point as a bar: the unit NAV in every price, no volume or amount.
pub open spec fn nav_bar(day: int, nav: Seq<char>) -> BarSpec {
    BarSpec {
        trade_date: day,
        open: nav,
        high: nav,
        low: nav,
        close: nav,
        volume: None,
        amount: None,
    }
}

/// The bars of a fund answer for `[start, end]`: the selected points, each
/// with its date and NAV.
pub open spec fn nav_bars(days: Seq<int>, points: Seq<(i64, String)>, picks: Seq<int>) -> Seq<BarSpec> {
    picks.map_values(|k: int| nav_bar(days[k], points[k].1@))
}

/// What a fund NAV answer gives for `[start, end]`: the bars of the first
/// point of each date in the window, in date order, labelled
/// `eastmoney_fund`; an empty window is Eastmoney's no-data error for the code.
pub fn fund_nav_answer(
    instrument_id: &str,
    decoded: &Result<Vec<(i64, String)>, String>,
    start: Day,
    end: Day,
    code: &str,
) -> (r: Result<Vec<ParsedBar>, ProviderError>)
    ensures
        match nav_days_result(stamps_of(*decoded)) {
            Err(f) => r matches Err(e) && failed(e, "eastmoney_fund"@, f),
            Ok(days) => {
                let picks = fund_selection(days, start.index(), end.index());
                if picks.len() == 0 {
                    r matches Err(e) && e.is(
                        "eastmoney"@,
                        ProviderErrorKind::NoData,
                        "Eastmoney fund returned no NAV rows for "@ + code@,
                    )
                } else {
                    r matches Ok(bars) && decoded matches Ok(points) && contents(bars@) == nav_bars(
                        days,
                        points@,
                        picks,
                    ) && all_labelled(bars@, instrument_id@, "eastmoney_fund"@)
                }
            },
        },
{
    let points = match decoded {
        Err(e) => {
            let mut m = chars_of("Eastmoney fund Data_netWorthTrend JSON invalid: ");
            push_str(&mut m, e.as_str());
            return Err(
                ProviderError::with_chars("eastmoney_fund", ProviderErrorKind::MalformedResponse, &m),
            );
        },
        Ok(p) => p,
    };
    let mut v: Vec<i64> = Vec::new();
    let mut i: usize = 0;
    while i < points.len()
        invariant
            i <= points@.len(),
            v@ == points@.take(i as int).map_values(|p: (i64, String)| p.0),
        decreases points@.len() - i,
    {
        v.push(points[i].0);
        assert(points@.take(i + 1).map_values(|p: (i64, String)| p.0) =~= points@.take(
            i as int,
        ).map_values(|p: (i64, String)| p.0).push(points@[i as int].0));
        i = i + 1;
    }
    assert(points@.take(points@.len() as int) == points@);
    let stamps: Result<Vec<i64>, String> = Ok(v);
    assert(decoded_view(stamps) == stamps_of(*decoded));
    let days = fund_nav_days(&stamps, "eastmoney_fund")?;
    let picks = select_fund_rows(&days, start, end, code, "eastmoney")?;
    let ghost ds = day_indices(days@);
    proof {
        lemma_nav_days_len(stamps_of(*decoded)->Ok_0);
    }
    let mut bars: Vec<ParsedBar> = Vec::new();
    let mut k: usize = 0;
    while k < picks.len()
        invariant
            k <= picks@.len(),
            points@.len() == days@.len() == ds.len(),
            ds == day_indices(days@),
            forall|q: int| 0 <= q < picks@.len() ==> #[trigger] picks@[q] < days@.len(),
            contents(bars@) == nav_bars(ds, points@, positions(picks@).take(k as int)),
            all_labelled(bars@, instrument_id@, "eastmoney_fund"@),
        decreases picks@.len() - k,
    {
        let x = picks[k];
        let nav = &points[x].1;
        let bar = ParsedBar {
            instrument_id: instrument_id.to_owned(),
            trade_date: days[x],
            open: nav.clone(),
            high: nav.clone(),
            low: nav.clone(),
            close: nav.clone(),
            volume: None,
            amount: None,
            source: "eastmoney_fund".to_owned(),
        };
        let ghost before = bars@;
        bars.push(bar);
        proof {
            assert(ds[x as int] == days@[x as int].index());
            assert(positions(picks@).take(k + 1) =~= positions(picks@).take(k as int).push(
                x as int,
            ));
            assert(contents(bars@) =~= contents(before).push(bar.content()));
            assert(nav_bars(ds, points@, positions(picks@).take(k + 1)) =~= nav_bars(
                ds,
                points@,
                positions(picks@).take(k as int),
            ).push(nav_bar(ds[x as int], points@[x as int].1@)));
            assert forall|q: int| 0 <= q < bars@.len() implies #[trigger] bars@[q].instrument_id@
                == instrument_id@ && bars@[q].source@ == "eastmoney_fund"@ by {
                if q < before.len() {
                    assert(bars@[q] == before[q]);
                }
            }
        }
        k = k + 1;
    }
    assert(positions(picks@).take(picks@.len() as int) == positions(picks@));
    Ok(bars)
}

/// K-line answers give their bars in date order.
pub proof fn law_kline_bars_in_date_order(payload: EastmoneyPayload)
    ensures
        kline_result(payload) matches Ok(bars) ==> crate::sorting::is_sorted_by(bars, by_day()),
{
    if let EastmoneyPayload::Klines(lines) = payload {
        if let Ok(bars) = rows_result(string_views(lines@), kline_row()) {
            crate::sorting::lemma_sort_by_key(bars, by_day());
        }
    }
}

/// Each bar of a K-line answer that is read comes from one of its lines and
/// takes its fields in Eastmoney's order: date, open, close, high, low, volume,
/// amount.
pub proof fn law_kline_bars_take_their_columns(payload: EastmoneyPayload)
    ensures
        kline_result(payload) matches Ok(bars) ==> payload matches EastmoneyPayload::Klines(lines)
            && forall|k: int|
            0 <= k < bars.len() ==> exists|j: int|
                0 <= j < lines@.len() && #[trigger] csv_fields(lines@[j]@).len() == 11
                    && (#[trigger] bars[k]).trade_date == crate::utils::csv::date_value(
                    csv_fields(lines@[j]@)[0],
                ) && bars[k].open == csv_fields(lines@[j]@)[1]
                    && bars[k].close == csv_fields(lines@[j]@)[2]
                    && bars[k].high == csv_fields(lines@[j]@)[3]
                    && bars[k].low == csv_fields(lines@[j]@)[4]
                    && bars[k].volume == crate::utils::csv::optional_number(csv_fields(lines@[j]@)[5])
                    && bars[k].amount == crate::utils::csv::optional_number(csv_fields(lines@[j]@)[6]),
{
    if let EastmoneyPayload::Klines(lines) = payload {
        let rows = string_views(lines@);
        crate::utils::csv::lemma_sorted_rows_origin(rows, kline_row());
        if let Ok(bars) = kline_result(payload) {
            assert forall|k: int| 0 <= k < bars.len() implies exists|j: int|
                0 <= j < lines@.len() && #[trigger] csv_fields(lines@[j]@).len() == 11
                    && (#[trigger] bars[k]).trade_date == crate::utils::csv::date_value(
                    csv_fields(lines@[j]@)[0],
                ) && bars[k].open == csv_fields(lines@[j]@)[1]
                    && bars[k].close == csv_fields(lines@[j]@)[2]
                    && bars[k].high == csv_fields(lines@[j]@)[3]
                    && bars[k].low == csv_fields(lines@[j]@)[4]
                    && bars[k].volume == crate::utils::csv::optional_number(csv_fields(lines@[j]@)[5])
                    && bars[k].amount == crate::utils::csv::optional_number(
                    csv_fields(lines@[j]@)[6],
                ) by {
                let i = choose|i: int| 0 <= i < rows.len() && #[trigger] kline_row()(rows[i]) == Ok::<BarSpec, Seq<char>>(bars[k]);
                assert(rows[i] == lines@[i]@);
                assert(csv_fields(lines@[i]@).len() == 11);
            }
        }
    }
}

/// A fund's NAV is its only price: every bar of a fund answer has the NAV as
/// open, high, low and close, and neither volume nor amount; and the bars are
/// in date order.
pub proof fn law_fund_bars_single_price(days: Seq<int>, points: Seq<(i64, String)>, start: int, end: int)
    ensures
        forall|k: int|
            0 <= k < nav_bars(days, points, fund_selection(days, start, end)).len() ==> {
                let b = #[trigger] nav_bars(days, points, fund_selection(days, start, end))[k];
                &&& b.open == b.close
                &&& b.high == b.close
                &&& b.low == b.close
                &&& b.volume is None
                &&& b.amount is None
            },
        crate::sorting::is_sorted_by(fund_selection(days, start, end), by_point_day(days)),
{
    crate::sorting::lemma_sort_by_key(window_firsts(days, start, end, days.len() as int), by_point_day(days));
}

} // verus!
