//! Alpha Vantage: requests, and daily bars from its CSV and JSON answers.
use crate::calendar::Day;
use crate::config::{InstrumentConfig, InstrumentKind};
use crate::models::{all_labelled, contents, copy_bar, opt_text, BarSpec, ParsedBar};
use crate::providers::{
    pair_views, request_outcome, request_url, url_query_text, FetchError, ProviderError,
    ProviderErrorKind,
};
use crate::sorting::sort_by_key;
use crate::text::{chars_of, equals, push_str, trim_start, trim_start_chars};
use crate::utils::csv::{
    alpha_csv_result, by_day, date_error, date_value, float_literal,
    insert_by_date, is_float_literal, lemma_sort_push, parse_alpha_vantage_csv_daily, read_date,
};
use serde_json::Value::{Array, Number, Object};
use serde_json::{from_str, Value};
use vstd::prelude::*;

verus! {

/// The query for an instrument: the gold/silver history for commodities,
/// daily stock series otherwise.
pub open spec fn alpha_pairs(kind: InstrumentKind, symbol: Seq<char>, api_key: Seq<char>) -> Seq<(Seq<char>, Seq<char>)> {
    match kind {
        InstrumentKind::Commodity => seq![
            ("function"@, "GOLD_SILVER_HISTORY"@),
            ("symbol"@, symbol),
            ("interval"@, "daily"@),
            ("apikey"@, api_key),
        ],
        _ => seq![("function"@, "TIME_SERIES_DAILY"@), ("symbol"@, symbol), ("apikey"@, api_key)],
    }
}

/// The URL of an Alpha Vantage request for the instrument; a key and the
/// instrument's Alpha Vantage symbol are both needed.
pub fn alpha_request(base_url: &str, api_key: &Option<String>, instrument: &InstrumentConfig) -> (r:
    Result<String, FetchError>)
    ensures
        api_key is None ==> (r matches Err(FetchError::Provider(e)) && e.is(
            "alpha_vantage"@,
            ProviderErrorKind::Auth,
            "missing Alpha Vantage API key"@,
        )),
        api_key is Some && instrument.alpha_vantage_symbol is None ==> (r matches Err(
            FetchError::Provider(e),
        ) && e.is(
            "alpha_vantage"@,
            ProviderErrorKind::UnsupportedInstrument,
            "missing alpha_vantage_symbol for "@ + instrument.id@,
        )),
        api_key matches Some(k) ==> instrument.alpha_vantage_symbol matches Some(symbol)
            ==> request_outcome(
            url_query_text(base_url@, alpha_pairs(instrument.kind, symbol@, k@)),
            r,
        ),
{
    let key = match api_key {
        Some(k) => k,
        None => {
            return Err(
                FetchError::Provider(
                    ProviderError::new(
                        "alpha_vantage",
                        ProviderErrorKind::Auth,
                        "missing Alpha Vantage API key",
                    ),
                ),
            );
        },
    };
    let symbol = match &instrument.alpha_vantage_symbol {
        Some(s) => s,
        None => {
            let mut m = chars_of("missing alpha_vantage_symbol for ");
            push_str(&mut m, instrument.id.as_str());
            return Err(
                FetchError::Provider(
                    ProviderError::with_chars(
                        "alpha_vantage",
                        ProviderErrorKind::UnsupportedInstrument,
                        &m,
                    ),
                ),
            );
        },
    };
    let mut pairs: Vec<(String, String)> = Vec::new();
    match instrument.kind {
        InstrumentKind::Commodity => {
            pairs.push(("function".to_owned(), "GOLD_SILVER_HISTORY".to_owned()));
            pairs.push(("symbol".to_owned(), symbol.clone()));
            pairs.push(("interval".to_owned(), "daily".to_owned()));
        },
        _ => {
            pairs.push(("function".to_owned(), "TIME_SERIES_DAILY".to_owned()));
            pairs.push(("symbol".to_owned(), symbol.clone()));
        },
    }
    pairs.push(("apikey".to_owned(), key.clone()));
    assert(pair_views(pairs@) =~= alpha_pairs(instrument.kind, symbol@, key@));
    request_url(base_url, &pairs)
}

/// A decoded JSON value, as far as the parser reads it: a number (by its
/// decimal text), a string, an array, an object (its entries in order), or
/// anything else.
#[derive(Debug)]
pub enum JsonValue {
    Number(String),
    Text(String),
    Array(Vec<JsonValue>),
    Object(Vec<(String, JsonValue)>),
    Other,
}

/// The entries of an object; none for any other value.
pub open spec fn fields(v: JsonValue) -> Seq<(String, JsonValue)> {
    match v {
        JsonValue::Object(p) => p@,
        _ => Seq::empty(),
    }
}

/// The value stored under `key`: that of its first entry.
pub open spec fn lookup<V>(pairs: Seq<(String, V)>, key: Seq<char>) -> Option<V>
    decreases pairs.len(),
{
    if pairs.len() == 0 {
        None
    } else if pairs[0].0@ == key {
        Some(pairs[0].1)
    } else {
        lookup(pairs.drop_first(), key)
    }
}

/// The position of the first entry under `key`.
fn position_of<V>(pairs: &Vec<(String, V)>, key: &str) -> (r: Option<usize>)
    ensures
        match r {
            Some(i) => i < pairs@.len() && lookup(pairs@, key@) == Some(pairs@[i as int].1),
            None => lookup(pairs@, key@) is None,
        },
{
    let mut i: usize = 0;
    assert(pairs@.skip(0) == pairs@);
    while i < pairs.len()
        invariant
            i <= pairs@.len(),
            lookup(pairs@, key@) == lookup(pairs@.skip(i as int), key@),
        decreases pairs@.len() - i,
    {
        let name = chars_of(pairs[i].0.as_str());
        assert(pairs@.skip(i as int)[0] == pairs@[i as int]);
        if equals(&name, key) {
            return Some(i);
        }
        assert(pairs@.skip(i as int).drop_first() == pairs@.skip(i + 1));
        i = i + 1;
    }
    None
}

pub open spec fn key_views(keys: Seq<&str>) -> Seq<Seq<char>> {
    keys.map_values(|k: &str| k@)
}

/// A value read as a number: a JSON number, or a string that parses as an
/// `f64`.
pub open spec fn number_of(v: JsonValue) -> Option<Seq<char>> {
    match v {
        JsonValue::Number(t) => Some(t@),
        JsonValue::Text(t) => if float_literal(t@) {
            Some(t@)
        } else {
            None
        },
        _ => None,
    }
}

/// The first of the keys whose value reads as a number, and that number.
pub open spec fn first_number(row: Seq<(String, JsonValue)>, keys: Seq<Seq<char>>) -> Option<Seq<char>>
    decreases keys.len(),
{
    if keys.len() == 0 {
        None
    } else {
        match lookup(row, keys[0]) {
            Some(v) => match number_of(v) {
                Some(n) => Some(n),
                None => first_number(row, keys.drop_first()),
            },
            None => first_number(row, keys.drop_first()),
        }
    }
}

/// The first of the keys whose value is a string, and that string.
pub open spec fn first_text(row: Seq<(String, JsonValue)>, keys: Seq<Seq<char>>) -> Option<Seq<char>>
    decreases keys.len(),
{
    if keys.len() == 0 {
        None
    } else {
        match lookup(row, keys[0]) {
            Some(JsonValue::Text(t)) => Some(t@),
            _ => first_text(row, keys.drop_first()),
        }
    }
}

fn number_in(v: &JsonValue) -> (r: Option<String>)
    ensures
        opt_text(r) == number_of(*v),
{
    match v {
        JsonValue::Number(t) => Some(t.clone()),
        JsonValue::Text(t) => {
            let c = chars_of(t.as_str());
            if is_float_literal(&c) {
                Some(t.clone())
            } else {
                None
            }
        },
        _ => None,
    }
}

fn first_number_in(row: &Vec<(String, JsonValue)>, keys: &Vec<&str>) -> (r: Option<String>)
    ensures
        opt_text(r) == first_number(row@, key_views(keys@)),
{
    let ghost ks = key_views(keys@);
    let mut i: usize = 0;
    assert(ks.skip(0) == ks);
    while i < keys.len()
        invariant
            i <= keys@.len(),
            ks == key_views(keys@),
            first_number(row@, ks) == first_number(row@, ks.skip(i as int)),
        decreases keys@.len() - i,
    {
        assert(ks.skip(i as int)[0] == keys@[i as int]@);
        assert(ks.skip(i as int).drop_first() == ks.skip(i + 1));
        match position_of(row, keys[i]) {
            Some(p) => {
                let n = number_in(&row[p].1);
                if n.is_some() {
                    return n;
                }
            },
            None => {},
        }
        i = i + 1;
    }
    None
}

fn first_text_in(row: &Vec<(String, JsonValue)>, keys: &Vec<&str>) -> (r: Option<String>)
    ensures
        opt_text(r) == first_text(row@, key_views(keys@)),
{
    let ghost ks = key_views(keys@);
    let mut i: usize = 0;
    assert(ks.skip(0) == ks);
    while i < keys.len()
        invariant
            i <= keys@.len(),
            ks == key_views(keys@),
            first_text(row@, ks) == first_text(row@, ks.skip(i as int)),
        decreases keys@.len() - i,
    {
        assert(ks.skip(i as int)[0] == keys@[i as int]@);
        assert(ks.skip(i as int).drop_first() == ks.skip(i + 1));
        match position_of(row, keys[i]) {
            Some(p) => match &row[p].1 {
                JsonValue::Text(t) => {
                    return Some(t.clone());
                },
                _ => {},
            },
            None => {},
        }
        i = i + 1;
    }
    None
}

/// A failure as (provider, kind, message).
pub type Fault = (Seq<char>, ProviderErrorKind, Seq<char>);

pub open spec fn fault_of(e: ProviderError) -> Fault {
    (e.provider@, e.kind, e.raw_message@)
}

/// The keys, each in double quotes, separated by `, `.
pub open spec fn quoted(keys: Seq<Seq<char>>) -> Seq<char>
    decreases keys.len(),
{
    if keys.len() == 0 {
        Seq::empty()
    } else if keys.len() == 1 {
        "\""@ + keys[0] + "\""@
    } else {
        quoted(keys.drop_last()) + ", \""@ + keys.last() + "\""@
    }
}

/// The key list as `Debug` prints a slice of plain ASCII strings.
pub open spec fn tried(keys: Seq<Seq<char>>) -> Seq<char> {
    "["@ + quoted(keys) + "]"@
}

pub open spec fn missing_number(source: Seq<char>, keys: Seq<Seq<char>>) -> Fault {
    (source, ProviderErrorKind::MalformedResponse, "missing numeric field, tried "@ + tried(keys))
}

pub open spec fn missing_text(keys: Seq<Seq<char>>) -> Fault {
    ("alpha_vantage"@, ProviderErrorKind::MalformedResponse, "missing string field, tried "@ + tried(keys))
}

pub open spec fn series_open() -> Seq<Seq<char>> {
    seq!["1. open"@, "open"@]
}

pub open spec fn series_high() -> Seq<Seq<char>> {
    seq!["2. high"@, "high"@]
}

pub open spec fn series_low() -> Seq<Seq<char>> {
    seq!["3. low"@, "low"@]
}

pub open spec fn series_close() -> Seq<Seq<char>> {
    seq!["4. close"@, "close"@]
}

pub open spec fn series_volume() -> Seq<Seq<char>> {
    seq!["5. volume"@, "volume"@]
}

pub open spec fn data_date() -> Seq<Seq<char>> {
    seq!["date"@, "timestamp"@, "time"@]
}

pub open spec fn data_close() -> Seq<Seq<char>> {
    seq!["close"@, "4. close"@, "value"@, "price"@]
}

pub open spec fn data_open() -> Seq<Seq<char>> {
    seq!["open"@, "1. open"@]
}

pub open spec fn data_high() -> Seq<Seq<char>> {
    seq!["high"@, "2. high"@]
}

pub open spec fn data_low() -> Seq<Seq<char>> {
    seq!["low"@, "3. low"@]
}

pub open spec fn data_volume() -> Seq<Seq<char>> {
    seq!["volume"@, "5. volume"@]
}

/// One entry of `Time Series (Daily)`: its key is the date, its row holds the
/// four prices (each required) and the volume.
pub open spec fn series_bar(date: Seq<char>, row: Seq<(String, JsonValue)>, source: Seq<char>) -> Result<BarSpec, Fault> {
    if date_error(date) is Some {
        Err((source, ProviderErrorKind::MalformedResponse, date_error(date)->Some_0))
    } else if first_number(row, series_open()) is None {
        Err(missing_number(source, series_open()))
    } else if first_number(row, series_high()) is None {
        Err(missing_number(source, series_high()))
    } else if first_number(row, series_low()) is None {
        Err(missing_number(source, series_low()))
    } else if first_number(row, series_close()) is None {
        Err(missing_number(source, series_close()))
    } else {
        Ok(
            BarSpec {
                trade_date: date_value(date),
                open: first_number(row, series_open())->Some_0,
                high: first_number(row, series_high())->Some_0,
                low: first_number(row, series_low())->Some_0,
                close: first_number(row, series_close())->Some_0,
                volume: first_number(row, series_volume()),
                amount: None,
            },
        )
    }
}

pub open spec fn or_else(o: Option<Seq<char>>, d: Seq<char>) -> Seq<char> {
    match o {
        Some(x) => x,
        None => d,
    }
}

/// One row of a `data` array: a date string and a close are required; a
/// missing open, high or low is the close (a history of single values).
pub open spec fn data_bar(row: Seq<(String, JsonValue)>, source: Seq<char>) -> Result<BarSpec, Fault> {
    match first_text(row, data_date()) {
        None => Err(missing_text(data_date())),
        Some(d) => if date_error(d) is Some {
            Err((source, ProviderErrorKind::MalformedResponse, date_error(d)->Some_0))
        } else {
            match first_number(row, data_close()) {
                None => Err(missing_number(source, data_close())),
                Some(c) => Ok(
                    BarSpec {
                        trade_date: date_value(d),
                        open: or_else(first_number(row, data_open()), c),
                        high: or_else(first_number(row, data_high()), c),
                        low: or_else(first_number(row, data_low()), c),
                        close: c,
                        volume: first_number(row, data_volume()),
                        amount: None,
                    },
                ),
            }
        },
    }
}

pub open spec fn series_row(source: Seq<char>) -> spec_fn((String, JsonValue)) -> Result<BarSpec, Fault> {
    |p: (String, JsonValue)| series_bar(p.0@, fields(p.1), source)
}

pub open spec fn data_row(source: Seq<char>) -> spec_fn(JsonValue) -> Result<BarSpec, Fault> {
    |row: JsonValue| data_bar(fields(row), source)
}

/// The items' bars in order, or the first item's failure.
pub open spec fn all_bars<T>(items: Seq<T>, f: spec_fn(T) -> Result<BarSpec, Fault>) -> Result<Seq<BarSpec>, Fault>
    decreases items.len(),
{
    if items.len() == 0 {
        Ok(Seq::empty())
    } else {
        match all_bars(items.drop_last(), f) {
            Err(e) => Err(e),
            Ok(bars) => match f(items.last()) {
                Err(e) => Err(e),
                Ok(b) => Ok(bars.push(b)),
            },
        }
    }
}

pub proof fn lemma_all_bars_step<T>(items: Seq<T>, i: int, f: spec_fn(T) -> Result<BarSpec, Fault>)
    requires
        0 <= i < items.len(),
    ensures
        all_bars(items.take(i + 1), f) == (match all_bars(items.take(i), f) {
            Err(e) => Err(e),
            Ok(bars) => match f(items[i]) {
                Err(e) => Err(e),
                Ok(b) => Ok(bars.push(b)),
            },
        }),
{
    assert(items.take(i + 1).drop_last() == items.take(i));
    assert(items.take(i + 1).last() == items[i]);
}

/// An item's failure stays the result when more items follow.
pub proof fn lemma_all_bars_prefix_err<T>(items: Seq<T>, i: int, f: spec_fn(T) -> Result<BarSpec, Fault>)
    requires
        0 <= i < items.len(),
        all_bars(items.take(i + 1), f) is Err,
    ensures
        all_bars(items, f) == all_bars(items.take(i + 1), f),
    decreases items.len() - i,
{
    if i + 1 < items.len() {
        lemma_all_bars_step(items, i + 1, f);
        lemma_all_bars_prefix_err(items, i + 1, f);
    } else {
        assert(items.take(i + 1) == items);
    }
}

/// Bars read from a JSON answer: none is no data; otherwise in date order.
pub open spec fn finished(r: Result<Seq<BarSpec>, Fault>, source: Seq<char>) -> Result<Seq<BarSpec>, Fault> {
    match r {
        Err(e) => Err(e),
        Ok(bars) => if bars.len() == 0 {
            Err((source, ProviderErrorKind::NoData, "Alpha Vantage response contains no rows"@))
        } else {
            Ok(sort_by_key(bars, by_day()))
        },
    }
}

/// A result that meets what was expected: the bars, labelled, or the fault.
pub open spec fn outcome(
    expected: Result<Seq<BarSpec>, Fault>,
    r: Result<Vec<ParsedBar>, ProviderError>,
    instrument_id: Seq<char>,
    source: Seq<char>,
) -> bool {
    match expected {
        Ok(bars) => r matches Ok(v) && contents(v@) == bars && all_labelled(v@, instrument_id, source),
        Err(f) => r matches Err(e) && fault_of(e) == f,
    }
}

fn key_list(a: &'static str, b: &'static str) -> (v: Vec<&'static str>)
    ensures
        key_views(v@) == seq![a@, b@],
{
    let mut v: Vec<&'static str> = Vec::new();
    v.push(a);
    v.push(b);
    assert(key_views(v@) =~= seq![a@, b@]);
    v
}

fn tried_text(keys: &Vec<&str>) -> (out: Vec<char>)
    ensures
        out@ == tried(key_views(keys@)),
{
    let ghost ks = key_views(keys@);
    let mut out = chars_of("[");
    let mut i: usize = 0;
    assert(ks.take(0) =~= Seq::<Seq<char>>::empty());
    while i < keys.len()
        invariant
            i <= keys@.len() == ks.len(),
            ks == key_views(keys@),
            out@ == "["@ + quoted(ks.take(i as int)),
        decreases keys@.len() - i,
    {
        assert(ks.take(i + 1).drop_last() =~= ks.take(i as int));
        assert(ks.take(i + 1).last() == keys@[i as int]@);
        if i == 0 {
            push_str(&mut out, "\"");
            assert(ks.take(1) =~= seq![keys@[0]@]);
        } else {
            push_str(&mut out, ", \"");
        }
        push_str(&mut out, keys[i]);
        push_str(&mut out, "\"");
        i = i + 1;
    }
    assert(ks.take(keys@.len() as int) == ks);
    push_str(&mut out, "]");
    out
}

fn missing_number_error(source: &str, keys: &Vec<&str>) -> (e: ProviderError)
    ensures
        fault_of(e) == missing_number(source@, key_views(keys@)),
{
    let mut m = chars_of("missing numeric field, tried ");
    let t = tried_text(keys);
    crate::text::push_all(&mut m, &t);
    ProviderError::with_chars(source, ProviderErrorKind::MalformedResponse, &m)
}

fn series_line(instrument_id: &str, date: &String, value: &JsonValue, source: &str) -> (r: Result<ParsedBar, ProviderError>)
    ensures
        match series_bar(date@, fields(*value), source@) {
            Ok(b) => r matches Ok(p) && p.content() == b && p.instrument_id@ == instrument_id@
                && p.source@ == source@,
            Err(f) => r matches Err(e) && fault_of(e) == f,
        },
{
    let none: Vec<(String, JsonValue)> = Vec::new();
    let row = match value {
        JsonValue::Object(p) => p,
        _ => &none,
    };
    let d = chars_of(date.as_str());
    let trade_date = read_date(source, &d)?;
    let k_open = key_list("1. open", "open");
    let k_high = key_list("2. high", "high");
    let k_low = key_list("3. low", "low");
    let k_close = key_list("4. close", "close");
    let k_volume = key_list("5. volume", "volume");
    let open = match first_number_in(row, &k_open) {
        Some(x) => x,
        None => return Err(missing_number_error(source, &k_open)),
    };
    let high = match first_number_in(row, &k_high) {
        Some(x) => x,
        None => return Err(missing_number_error(source, &k_high)),
    };
    let low = match first_number_in(row, &k_low) {
        Some(x) => x,
        None => return Err(missing_number_error(source, &k_low)),
    };
    let close = match first_number_in(row, &k_close) {
        Some(x) => x,
        None => return Err(missing_number_error(source, &k_close)),
    };
    let volume = first_number_in(row, &k_volume);
    Ok(
        ParsedBar {
            instrument_id: instrument_id.to_owned(),
            trade_date,
            open,
            high,
            low,
            close,
            volume,
            amount: None,
            source: source.to_owned(),
        },
    )
}

fn data_line(instrument_id: &str, value: &JsonValue, source: &str) -> (r: Result<
    ParsedBar,
    ProviderError,
>)
    ensures
        match data_bar(fields(*value), source@) {
            Ok(b) => r matches Ok(p) && p.content() == b && p.instrument_id@ == instrument_id@
                && p.source@ == source@,
            Err(f) => r matches Err(e) && fault_of(e) == f,
        },
{
    let none: Vec<(String, JsonValue)> = Vec::new();
    let row = match value {
        JsonValue::Object(p) => p,
        _ => &none,
    };
    let mut k_date: Vec<&str> = Vec::new();
    k_date.push("date");
    k_date.push("timestamp");
    k_date.push("time");
    assert(key_views(k_date@) =~= data_date());
    let date = match first_text_in(row, &k_date) {
        Some(x) => x,
        None => {
            let mut m = chars_of("missing string field, tried ");
            let t = tried_text(&k_date);
            crate::text::push_all(&mut m, &t);
            return Err(
                ProviderError::with_chars("alpha_vantage", ProviderErrorKind::MalformedResponse, &m),
            );
        },
    };
    let d = chars_of(date.as_str());
    let trade_date = read_date(source, &d)?;
    let mut k_close: Vec<&str> = Vec::new();
    k_close.push("close");
    k_close.push("4. close");
    k_close.push("value");
    k_close.push("price");
    assert(key_views(k_close@) =~= data_close());
    let close = match first_number_in(row, &k_close) {
        Some(x) => x,
        None => return Err(missing_number_error(source, &k_close)),
    };
    let open = match first_number_in(row, &key_list("open", "1. open")) {
        Some(x) => x,
        None => close.clone(),
    };
    let high = match first_number_in(row, &key_list("high", "2. high")) {
        Some(x) => x,
        None => close.clone(),
    };
    let low = match first_number_in(row, &key_list("low", "3. low")) {
        Some(x) => x,
        None => close.clone(),
    };
    let volume = first_number_in(row, &key_list("volume", "5. volume"));
    Ok(
        ParsedBar {
            instrument_id: instrument_id.to_owned(),
            trade_date,
            open,
            high,
            low,
            close,
            volume,
            amount: None,
            source: source.to_owned(),
        },
    )
}

fn series_bars(
    instrument_id: &str,
    series: &Vec<(String, JsonValue)>,
    source: &str,
) -> (r: Result<Vec<ParsedBar>, ProviderError>)
    ensures
        outcome(finished(all_bars(series@, series_row(source@)), source@), r, instrument_id@, source@),
{
    let ghost f = series_row(source@);
    let mut out: Vec<ParsedBar> = Vec::new();
    let ghost mut bars = Seq::<BarSpec>::empty();
    let mut i: usize = 0;
    assert(series@.take(0) == Seq::<(String, JsonValue)>::empty());
    while i < series.len()
        invariant
            i <= series@.len(),
            f == series_row(source@),
            all_bars(series@.take(i as int), f) == Ok::<Seq<BarSpec>, Fault>(bars),
            contents(out@) == sort_by_key(bars, by_day()),
            all_labelled(out@, instrument_id@, source@),
            bars.len() == out@.len(),
        decreases series@.len() - i,
    {
        proof {
            lemma_all_bars_step(series@, i as int, f);
        }
        match series_line(instrument_id, &series[i].0, &series[i].1, source) {
            Err(e) => {
                proof {
                    lemma_all_bars_prefix_err(series@, i as int, f);
                }
                return Err(e);
            },
            Ok(bar) => {
                let ghost c = bar.content();
                insert_by_date(&mut out, bar, Ghost(instrument_id@), Ghost(source@));
                proof {
                    lemma_sort_push(bars, c);
                    bars = bars.push(c);
                }
            },
        }
        i = i + 1;
    }
    assert(series@.take(i as int) == series@);
    if out.len() == 0 {
        return Err(
            ProviderError::new(
                source,
                ProviderErrorKind::NoData,
                "Alpha Vantage response contains no rows",
            ),
        );
    }
    Ok(out)
}

fn data_bars(instrument_id: &str, rows: &Vec<JsonValue>, source: &str) -> (r:
    Result<Vec<ParsedBar>, ProviderError>)
    ensures
        outcome(finished(all_bars(rows@, data_row(source@)), source@), r, instrument_id@, source@),
{
    let ghost f = data_row(source@);
    let mut out: Vec<ParsedBar> = Vec::new();
    let ghost mut bars = Seq::<BarSpec>::empty();
    let mut i: usize = 0;
    assert(rows@.take(0) == Seq::<JsonValue>::empty());
    while i < rows.len()
        invariant
            i <= rows@.len(),
            f == data_row(source@),
            all_bars(rows@.take(i as int), f) == Ok::<Seq<BarSpec>, Fault>(bars),
            contents(out@) == sort_by_key(bars, by_day()),
            all_labelled(out@, instrument_id@, source@),
            bars.len() == out@.len(),
        decreases rows@.len() - i,
    {
        proof {
            lemma_all_bars_step(rows@, i as int, f);
        }
        match data_line(instrument_id, &rows[i], source) {
            Err(e) => {
                proof {
                    lemma_all_bars_prefix_err(rows@, i as int, f);
                }
                return Err(e);
            },
            Ok(bar) => {
                let ghost c = bar.content();
                insert_by_date(&mut out, bar, Ghost(instrument_id@), Ghost(source@));
                proof {
                    lemma_sort_push(bars, c);
                    bars = bars.push(c);
                }
            },
        }
        i = i + 1;
    }
    assert(rows@.take(i as int) == rows@);
    if out.len() == 0 {
        return Err(
            ProviderError::new(
                source,
                ProviderErrorKind::NoData,
                "Alpha Vantage response contains no rows",
            ),
        );
    }
    Ok(out)
}

/// A message the service sends in place of data: `Note` or `Information`
/// (rate limiting), else `Error Message`.
pub open spec fn message_of(entries: Seq<(String, JsonValue)>) -> Option<(ProviderErrorKind, Seq<char>)> {
    match lookup(entries, "Note"@) {
        Some(JsonValue::Text(m)) => Some((ProviderErrorKind::RateLimited, m@)),
        _ => match lookup(entries, "Information"@) {
            Some(JsonValue::Text(m)) => Some((ProviderErrorKind::RateLimited, m@)),
            _ => match lookup(entries, "Error Message"@) {
                Some(JsonValue::Text(m)) => Some((ProviderErrorKind::ProviderMessage, m@)),
                _ => None,
            },
        },
    }
}

/// The rows of the `data` array (or, when there is no `data`, of `Data`).
pub open spec fn data_rows(entries: Seq<(String, JsonValue)>) -> Option<Seq<JsonValue>> {
    let v = match lookup(entries, "data"@) {
        Some(x) => Some(x),
        None => lookup(entries, "Data"@),
    };
    match v {
        Some(JsonValue::Array(rows)) => Some(rows@),
        _ => None,
    }
}

/// What a JSON answer holds: a message of the service, the bars of its daily
/// series or of its data array, or why not.
pub open spec fn alpha_json_result(decoded: Result<JsonValue, String>, source: Seq<char>) -> Result<Seq<BarSpec>, Fault> {
    match decoded {
        Err(e) => Err((source, ProviderErrorKind::MalformedResponse, "invalid Alpha Vantage JSON: "@ + e@)),
        Ok(j) => match message_of(fields(j)) {
            Some(km) => Err((source, km.0, km.1)),
            None => match lookup(fields(j), "Time Series (Daily)"@) {
                Some(JsonValue::Object(series)) => finished(all_bars(series@, series_row(source)), source),
                _ => match data_rows(fields(j)) {
                    Some(rows) => finished(all_bars(rows, data_row(source)), source),
                    None => Err(
                        (
                            source,
                            ProviderErrorKind::MalformedResponse,
                            "Alpha Vantage JSON missing Time Series (Daily) or data array"@,
                        ),
                    ),
                },
            },
        },
    }
}

fn message_in(entries: &Vec<(String, JsonValue)>) -> (r: Option<(ProviderErrorKind, String)>)
    ensures
        match r {
            Some(km) => message_of(entries@) == Some((km.0, km.1@)),
            None => message_of(entries@) is None,
        },
{
    match position_of(entries, "Note") {
        Some(p) => match &entries[p].1 {
            JsonValue::Text(m) => {
                return Some((ProviderErrorKind::RateLimited, m.clone()));
            },
            _ => {},
        },
        None => {},
    }
    match position_of(entries, "Information") {
        Some(p) => match &entries[p].1 {
            JsonValue::Text(m) => {
                return Some((ProviderErrorKind::RateLimited, m.clone()));
            },
            _ => {},
        },
        None => {},
    }
    match position_of(entries, "Error Message") {
        Some(p) => match &entries[p].1 {
            JsonValue::Text(m) => {
                return Some((ProviderErrorKind::ProviderMessage, m.clone()));
            },
            _ => {},
        },
        None => {},
    }
    None
}

/// What `serde_json::from_str::<Value>` makes of a body, as a `JsonValue`
/// four levels deep, or the `Display` text of its error.
pub uninterp spec fn alpha_json_of(body: Seq<char>) -> Result<JsonValue, String>;

/// Calls `serde_json::from_str::<serde_json::Value>(body)` and converts the
/// value, variant for variant, into a `JsonValue`: numbers by their `Display`
/// text, objects with their entries in the order the map gives them.  The
/// conversion goes four levels deep (the answer, its entries, their rows, the
/// rows' fields), as far as an Alpha Vantage answer is read; values nested
/// deeper, nulls and booleans become `Other`.  On failure, the error's
/// `Display` text.
#[verifier::external_body]
fn decode_alpha_json(body: &str) -> (r: Result<JsonValue, String>)
    ensures
        r == alpha_json_of(body@),
{
    let level = |v: &Value, inner: &dyn Fn(&Value) -> JsonValue| match v {
        Number(n) => JsonValue::Number(n.to_string()),
        Value::String(t) => JsonValue::Text(t.clone()),
        Array(a) => JsonValue::Array(a.iter().map(inner).collect()),
        Object(m) => JsonValue::Object(m.iter().map(|(k, x)| (k.clone(), inner(x))).collect()),
        _ => JsonValue::Other,
    };
    from_str(body).map(|v| level(&v, &|e| level(e, &|r| level(r, &|f| level(f, &|_| JsonValue::Other))))).map_err(|e| e.to_string())
}

/// Bars from a decoded JSON answer; `decoded` is the JSON decoder's result,
/// or its error message.
pub fn alpha_json_bars(
    instrument_id: &str,
    decoded: &Result<JsonValue, String>,
    source: &str,
) -> (r: Result<Vec<ParsedBar>, ProviderError>)
    ensures
        outcome(alpha_json_result(*decoded, source@), r, instrument_id@, source@),
{
    let json = match decoded {
        Err(e) => {
            let mut m = chars_of("invalid Alpha Vantage JSON: ");
            push_str(&mut m, e.as_str());
            return Err(ProviderError::with_chars(source, ProviderErrorKind::MalformedResponse, &m));
        },
        Ok(j) => j,
    };
    let none: Vec<(String, JsonValue)> = Vec::new();
    let entries = match json {
        JsonValue::Object(p) => p,
        _ => &none,
    };
    match message_in(entries) {
        Some(km) => {
            let (kind, m) = km;
            return Err(ProviderError::new(source, kind, m.as_str()));
        },
        None => {},
    }
    match position_of(entries, "Time Series (Daily)") {
        Some(p) => match &entries[p].1 {
            JsonValue::Object(series) => {
                return series_bars(instrument_id, series, source);
            },
            _ => {},
        },
        None => {},
    }
    let at = match position_of(entries, "data") {
        Some(p) => Some(p),
        None => position_of(entries, "Data"),
    };
    match at {
        Some(p) => match &entries[p].1 {
            JsonValue::Array(rows) => {
                return data_bars(instrument_id, rows, source);
            },
            _ => {},
        },
        None => {},
    }
    Err(
        ProviderError::new(
            source,
            ProviderErrorKind::MalformedResponse,
            "Alpha Vantage JSON missing Time Series (Daily) or data array",
        ),
    )
}

/// Bars from a JSON answer of Alpha Vantage.
pub fn parse_alpha_vantage_json(instrument_id: &str, body: &str, source: &str) -> (r: Result<
    Vec<ParsedBar>,
    ProviderError,
>)
    ensures
        outcome(alpha_json_result(alpha_json_of(body@), source@), r, instrument_id@, source@),
{
    let decoded = decode_alpha_json(body);
    alpha_json_bars(instrument_id, &decoded, source)
}

/// A body is read as JSON when its first non-blank character is `{`.
pub open spec fn json_body(body: Seq<char>) -> bool {
    trim_start(body).len() > 0 && trim_start(body)[0] == '{'
}

pub fn is_json_body(body: &str) -> (b: bool)
    ensures
        b == json_body(body@),
{
    let c = chars_of(body);
    let t = trim_start_chars(&c);
    t.len() > 0 && t[0] == '{'
}

/// What an Alpha Vantage answer holds, JSON or CSV.
pub open spec fn alpha_daily_result(body: Seq<char>, source: Seq<char>) -> Result<Seq<BarSpec>, Fault> {
    if json_body(body) {
        alpha_json_result(alpha_json_of(body), source)
    } else {
        match alpha_csv_result(body) {
            Ok(bars) => Ok(bars),
            Err(f) => Err((source, f.0, f.1)),
        }
    }
}

/// Daily bars from an Alpha Vantage answer, JSON or CSV.
pub fn parse_alpha_vantage_daily(instrument_id: &str, body: &str, source: &str) -> (r: Result<
    Vec<ParsedBar>,
    ProviderError,
>)
    ensures
        outcome(alpha_daily_result(body@, source@), r, instrument_id@, source@),
{
    if is_json_body(body) {
        parse_alpha_vantage_json(instrument_id, body, source)
    } else {
        parse_alpha_vantage_csv_daily(instrument_id, body, source)
    }
}

/// Bars dated within `[start, end]`.
pub open spec fn in_window(start: int, end: int) -> spec_fn(BarSpec) -> bool {
    |b: BarSpec| start <= b.trade_date && b.trade_date <= end
}

/// An answer to a request for `[start, end]`: the bars in the window, and no
/// data when none is.
pub open spec fn alpha_answer_result(body: Seq<char>, start: int, end: int) -> Result<Seq<BarSpec>, Fault> {
    match alpha_daily_result(body, "alpha_vantage"@) {
        Err(f) => Err(f),
        Ok(bars) => {
            let kept = bars.filter(in_window(start, end));
            if kept.len() == 0 {
                Err(
                    (
                        "alpha_vantage"@,
                        ProviderErrorKind::NoData,
                        "Alpha Vantage returned no rows in requested date range"@,
                    ),
                )
            } else {
                Ok(kept)
            }
        },
    }
}

/// The bars of an Alpha Vantage answer to a request for `[start, end]`.
pub fn alpha_answer(
    instrument_id: &str,
    body: &str,
    start: Day,
    end: Day,
) -> (r: Result<Vec<ParsedBar>, ProviderError>)
    ensures
        outcome(
            alpha_answer_result(body@, start.index(), end.index()),
            r,
            instrument_id@,
            "alpha_vantage"@,
        ),
{
    let bars = parse_alpha_vantage_daily(instrument_id, body, "alpha_vantage")?;
    let ghost all = contents(bars@);
    let ghost keep = in_window(start.index(), end.index());
    let s = start.days_from_ce();
    let e = end.days_from_ce();
    let mut out: Vec<ParsedBar> = Vec::new();
    let mut i: usize = 0;
    assert(all.take(0) == Seq::<BarSpec>::empty());
    while i < bars.len()
        invariant
            i <= bars@.len() == all.len(),
            all == contents(bars@),
            keep == in_window(s as int, e as int),
            all_labelled(bars@, instrument_id@, "alpha_vantage"@),
            all_labelled(out@, instrument_id@, "alpha_vantage"@),
            contents(out@) == all.take(i as int).filter(keep),
        decreases bars@.len() - i,
    {
        let d = bars[i].trade_date.days_from_ce();
        assert(all.take(i + 1).drop_last() == all.take(i as int));
        assert(all.take(i + 1).last() == bars@[i as int].content());
        assert(keep(bars@[i as int].content()) == (s <= d && d <= e));
        proof {
            assert(all.take(i + 1) == all.take(i as int).push(all[i as int]));
            all.take(i as int).lemma_filter_push(all[i as int], keep);
        }
        assert(all.take(i + 1).filter(keep) == if keep(bars@[i as int].content()) {
            all.take(i as int).filter(keep).push(bars@[i as int].content())
        } else {
            all.take(i as int).filter(keep)
        });
        if s <= d && d <= e {
            let c = copy_bar(&bars[i]);
            let ghost before = out@;
            out.push(c);
            proof {
                assert(contents(out@) =~= contents(before).push(c.content()));
                assert forall|k: int| 0 <= k < out@.len() implies #[trigger] out@[k].instrument_id@
                    == instrument_id@ && out@[k].source@ == "alpha_vantage"@ by {
                    if k < before.len() {
                        assert(out@[k] == before[k]);
                    }
                }
            }
        }
        i = i + 1;
    }
    assert(all.take(i as int) == all);
    if out.len() == 0 {
        return Err(
            ProviderError::new(
                "alpha_vantage",
                ProviderErrorKind::NoData,
                "Alpha Vantage returned no rows in requested date range",
            ),
        );
    }
    Ok(out)
}

/// An answer to a request for `[start, end]` holds only bars dated within
/// the window, holds every bar of the answer that is, and is refused as no
/// data exactly when the answer has bars but none in the window.
pub proof fn law_answer_keeps_the_window(body: Seq<char>, start: int, end: int)
    ensures
        alpha_answer_result(body, start, end) matches Ok(bars) ==> forall|k: int|
            0 <= k < bars.len() ==> start <= (#[trigger] bars[k]).trade_date <= end,
        alpha_answer_result(body, start, end) matches Ok(bars) ==> (alpha_daily_result(
            body,
            "alpha_vantage"@,
        ) matches Ok(all) && forall|b: BarSpec|
            #[trigger] all.contains(b) && start <= b.trade_date <= end ==> bars.contains(b)),
        alpha_answer_result(body, start, end) matches Ok(bars) ==> forall|b: BarSpec|
            #[trigger] bars.contains(b) ==> (alpha_daily_result(body, "alpha_vantage"@) matches Ok(
                all,
            ) && all.contains(b)),
        alpha_daily_result(body, "alpha_vantage"@) matches Ok(all) ==> (alpha_answer_result(
            body,
            start,
            end,
        ) is Err <==> forall|b: BarSpec| #[trigger] all.contains(b) ==> !(start <= b.trade_date <= end)),
{
    if let Ok(all) = alpha_daily_result(body, "alpha_vantage"@) {
        let keep = in_window(start, end);
        let kept = all.filter(keep);
        assert forall|k: int| 0 <= k < kept.len() implies start <= (#[trigger] kept[k]).trade_date
            <= end by {
            all.lemma_filter_pred(keep, k);
        }
        assert forall|b: BarSpec| #[trigger] all.contains(b) && start <= b.trade_date <= end implies kept.contains(
            b,
        ) by {
            let i = choose|i: int| 0 <= i < all.len() && all[i] == b;
            all.lemma_filter_contains(keep, i);
        }
        assert forall|b: BarSpec| #[trigger] kept.contains(b) implies all.contains(b) by {
            all.lemma_filter_contains_rev(keep, b);
        }
        if kept.len() == 0 {
            assert forall|b: BarSpec| #[trigger] all.contains(b) implies !(start <= b.trade_date <= end) by {
                if start <= b.trade_date <= end {
                    let i = choose|i: int| 0 <= i < all.len() && all[i] == b;
                    all.lemma_filter_contains(keep, i);
                }
            }
        } else {
            assert(kept.contains(kept[0]));
            all.lemma_filter_pred(keep, 0);
        }
    }
}

/// A successful `all_bars` gives one bar per item, each the item's own.
pub proof fn lemma_all_bars_ok<T>(items: Seq<T>, f: spec_fn(T) -> Result<BarSpec, Fault>)
    ensures
        all_bars(items, f) matches Ok(bars) ==> bars.len() == items.len() && forall|k: int|
            0 <= k < items.len() ==> #[trigger] f(items[k]) == Ok::<BarSpec, Fault>(bars[k]),
    decreases items.len(),
{
    if items.len() > 0 {
        lemma_all_bars_ok(items.drop_last(), f);
        if let Ok(bars) = all_bars(items, f) {
            assert forall|k: int| 0 <= k < items.len() implies #[trigger] f(items[k]) == Ok::<
                BarSpec,
                Fault,
            >(bars[k]) by {
                if k < items.len() - 1 {
                    assert(items[k] == items.drop_last()[k]);
                }
            }
        }
    }
}

/// Each bar of the finished bars of the items is the bar of one of the items.
pub proof fn lemma_finished_origin<T>(items: Seq<T>, f: spec_fn(T) -> Result<BarSpec, Fault>, source: Seq<char>)
    ensures
        finished(all_bars(items, f), source) matches Ok(bars) ==> forall|k: int|
            0 <= k < bars.len() ==> exists|i: int|
                0 <= i < items.len() && #[trigger] f(items[i]) == Ok::<BarSpec, Fault>(#[trigger] bars[k]),
{
    lemma_all_bars_ok(items, f);
    if let Ok(read) = all_bars(items, f) {
        let bars = sort_by_key(read, by_day());
        crate::sorting::lemma_sort_by_key_permutes(read, by_day());
        assert forall|k: int| 0 <= k < bars.len() implies exists|i: int|
            0 <= i < items.len() && #[trigger] f(items[i]) == Ok::<BarSpec, Fault>(#[trigger] bars[k]) by {
            assert(bars.contains(bars[k]));
            vstd::seq_lib::to_multiset_contains(bars, bars[k]);
            vstd::seq_lib::to_multiset_contains(read, bars[k]);
            let i = choose|i: int| 0 <= i < read.len() && read[i] == bars[k];
            assert(f(items[i]) == Ok::<BarSpec, Fault>(read[i]));
        }
    }
}

/// Each bar of a daily series of a JSON answer comes from one of the series'
/// entries: its date is the entry's key, and its prices are the numbers under
/// `1. open`, `2. high`, `3. low` and `4. close` (or, failing each, `open`,
/// `high`, `low`, `close`), its volume that under `5. volume` or `volume`.
pub proof fn law_json_series_bars_take_their_fields(decoded: Result<JsonValue, String>, source: Seq<char>)
    ensures
        alpha_json_result(decoded, source) matches Ok(bars) ==> (decoded matches Ok(j) && (lookup(
            fields(j),
            "Time Series (Daily)"@,
        ) matches Some(JsonValue::Object(series)) ==> forall|k: int|
            0 <= k < bars.len() ==> exists|i: int|
                0 <= i < series@.len() && #[trigger] date_value(series@[i].0@) == (#[trigger] bars[k]).trade_date
                    && first_number(fields(series@[i].1), seq!["1. open"@, "open"@]) == Some(bars[k].open)
                    && first_number(fields(series@[i].1), seq!["2. high"@, "high"@]) == Some(bars[k].high)
                    && first_number(fields(series@[i].1), seq!["3. low"@, "low"@]) == Some(bars[k].low)
                    && first_number(fields(series@[i].1), seq!["4. close"@, "close"@]) == Some(bars[k].close)
                    && first_number(fields(series@[i].1), seq!["5. volume"@, "volume"@]) == bars[k].volume)),
{
    if let Ok(j) = decoded {
        if let Some(JsonValue::Object(series)) = lookup(fields(j), "Time Series (Daily)"@) {
            let f = series_row(source);
            lemma_finished_origin(series@, f, source);
            if let Ok(bars) = alpha_json_result(decoded, source) {
                assert forall|k: int| 0 <= k < bars.len() implies exists|i: int|
                    0 <= i < series@.len() && #[trigger] date_value(series@[i].0@) == (#[trigger] bars[k]).trade_date
                        && first_number(fields(series@[i].1), seq!["1. open"@, "open"@]) == Some(bars[k].open)
                        && first_number(fields(series@[i].1), seq!["2. high"@, "high"@]) == Some(bars[k].high)
                        && first_number(fields(series@[i].1), seq!["3. low"@, "low"@]) == Some(bars[k].low)
                        && first_number(fields(series@[i].1), seq!["4. close"@, "close"@]) == Some(bars[k].close)
                        && first_number(fields(series@[i].1), seq!["5. volume"@, "volume"@]) == bars[k].volume by {
                    let i = choose|i: int| 0 <= i < series@.len() && #[trigger] f(series@[i]) == Ok::<BarSpec, Fault>(bars[k]);
                    assert(series_open() == seq!["1. open"@, "open"@]);
                    assert(series_high() == seq!["2. high"@, "high"@]);
                    assert(series_low() == seq!["3. low"@, "low"@]);
                    assert(series_close() == seq!["4. close"@, "close"@]);
                    assert(series_volume() == seq!["5. volume"@, "volume"@]);
                    assert(date_value(series@[i].0@) == bars[k].trade_date);
                }
            }
        }
    }
}

/// Whether the answer's bars come from its `data` array: it has no daily
/// series object and has such an array.
pub open spec fn reads_data_rows(j: JsonValue) -> bool {
    &&& !(lookup(fields(j), "Time Series (Daily)"@) matches Some(JsonValue::Object(_)))
    &&& data_rows(fields(j)) is Some
}

/// Each bar of a `data` array comes from one of its rows: its date is the
/// string under `date`, `timestamp` or `time`, its close the number under
/// `close`, `4. close`, `value` or `price`, and its open, high and low the
/// numbers under `open`/`1. open`, `high`/`2. high`, `low`/`3. low`, each the
/// close when absent; its volume that under `volume` or `5. volume`.
pub proof fn law_json_data_bars_take_their_fields(decoded: Result<JsonValue, String>, source: Seq<char>)
    ensures
        alpha_json_result(decoded, source) matches Ok(bars) ==> (decoded is Ok && (reads_data_rows(
            decoded->Ok_0,
        ) ==> forall|k: int|
            0 <= k < bars.len() ==> exists|i: int|
                0 <= i < data_rows(fields(decoded->Ok_0))->0.len() && {
                    &&& first_text(#[trigger] data_row_fields(decoded->Ok_0, i), seq!["date"@, "timestamp"@, "time"@]) is Some
                    &&& date_value(first_text(data_row_fields(decoded->Ok_0, i), seq!["date"@, "timestamp"@, "time"@])->0) == (#[trigger] bars[k]).trade_date
                    &&& first_number(data_row_fields(decoded->Ok_0, i), seq!["close"@, "4. close"@, "value"@, "price"@]) == Some(bars[k].close)
                    &&& or_else(first_number(data_row_fields(decoded->Ok_0, i), seq!["open"@, "1. open"@]), bars[k].close) == bars[k].open
                    &&& or_else(first_number(data_row_fields(decoded->Ok_0, i), seq!["high"@, "2. high"@]), bars[k].close) == bars[k].high
                    &&& or_else(first_number(data_row_fields(decoded->Ok_0, i), seq!["low"@, "3. low"@]), bars[k].close) == bars[k].low
                    &&& first_number(data_row_fields(decoded->Ok_0, i), seq!["volume"@, "5. volume"@]) == bars[k].volume
                })),
{
    if let Ok(j) = decoded {
        if let Some(rows) = data_rows(fields(j)) {
            let f = data_row(source);
            lemma_finished_origin(rows, f, source);
            if reads_data_rows(j) {
                if let Ok(bars) = alpha_json_result(decoded, source) {
                    assert forall|k: int| 0 <= k < bars.len() implies exists|i: int|
                        0 <= i < rows.len() && {
                            &&& first_text(#[trigger] data_row_fields(j, i), seq!["date"@, "timestamp"@, "time"@]) is Some
                            &&& date_value(first_text(data_row_fields(j, i), seq!["date"@, "timestamp"@, "time"@])->0) == (#[trigger] bars[k]).trade_date
                            &&& first_number(data_row_fields(j, i), seq!["close"@, "4. close"@, "value"@, "price"@]) == Some(bars[k].close)
                            &&& or_else(first_number(data_row_fields(j, i), seq!["open"@, "1. open"@]), bars[k].close) == bars[k].open
                            &&& or_else(first_number(data_row_fields(j, i), seq!["high"@, "2. high"@]), bars[k].close) == bars[k].high
                            &&& or_else(first_number(data_row_fields(j, i), seq!["low"@, "3. low"@]), bars[k].close) == bars[k].low
                            &&& first_number(data_row_fields(j, i), seq!["volume"@, "5. volume"@]) == bars[k].volume
                        } by {
                        let i = choose|i: int| 0 <= i < rows.len() && #[trigger] f(rows[i]) == Ok::<BarSpec, Fault>(bars[k]);
                        assert(data_row_fields(j, i) == fields(rows[i]));
                        assert(data_date() == seq!["date"@, "timestamp"@, "time"@]);
                        assert(data_close() == seq!["close"@, "4. close"@, "value"@, "price"@]);
                        assert(data_open() == seq!["open"@, "1. open"@]);
                        assert(data_high() == seq!["high"@, "2. high"@]);
                        assert(data_low() == seq!["low"@, "3. low"@]);
                        assert(data_volume() == seq!["volume"@, "5. volume"@]);
                    }
                }
            }
        }
    }
}

/// The fields of row `i` of the answer's `data` array.
pub open spec fn data_row_fields(j: JsonValue, i: int) -> Seq<(String, JsonValue)> {
    fields(data_rows(fields(j))->0[i])
}

/// JSON answers give their bars in date order.
pub proof fn law_json_bars_in_date_order(decoded: Result<JsonValue, String>, source: Seq<char>)
    ensures
        alpha_json_result(decoded, source) matches Ok(bars) ==> crate::sorting::is_sorted_by(
            bars,
            by_day(),
        ),
{
    if let Ok(j) = decoded {
        if let Some(JsonValue::Object(series)) = lookup(fields(j), "Time Series (Daily)"@) {
            if let Ok(bars) = all_bars(series@, series_row(source)) {
                crate::sorting::lemma_sort_by_key(bars, by_day());
            }
        }
        if let Some(rows) = data_rows(fields(j)) {
            if let Ok(bars) = all_bars(rows, data_row(source)) {
                crate::sorting::lemma_sort_by_key(bars, by_day());
            }
        }
    }
}

/// A row of a single value (no open, high or low) gives a bar whose four
/// prices are that value.
pub proof fn law_single_value_rows_fill_ohlc(row: Seq<(String, JsonValue)>, source: Seq<char>)
    requires
        first_number(row, data_open()) is None,
        first_number(row, data_high()) is None,
        first_number(row, data_low()) is None,
    ensures
        data_bar(row, source) matches Ok(b) ==> b.open == b.close && b.high == b.close && b.low
            == b.close,
{
}

} // verus!
