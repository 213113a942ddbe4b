//! Which Stooq symbol an instrument is asked for under.
use crate::config::{InstrumentConfig, InstrumentKind};
use crate::text::{
    ascii_digits, blank, chars_of, digits_of, eq_ignore_ascii_case, equals, is_blank, lower,
    lower_chars, push_str, same_ignoring_ascii_case, starts_with, string_of, upper,
    upper_chars,
};
use crate::calendar::{chrono_compact_text, Day};
use crate::models::opt_text;
use crate::providers::{
    pair_views, request_outcome, request_url, url_query_text, FetchError, ProviderError,
    ProviderErrorKind,
};
use crate::utils::date::yyyymmdd;
use vstd::prelude::*;

verus! {

pub open spec fn is_us_market(m: Seq<char>) -> bool {
    m == "US"@ || m == "NASDAQ"@ || m == "NYSE"@ || m == "AMEX"@
}

pub open spec fn is_shanghai_market(m: Seq<char>) -> bool {
    m == "SH"@ || m == "SSE"@ || m == "CN-SH"@
}

pub open spec fn is_china_market(m: Seq<char>) -> bool {
    m == "SH"@ || m == "SZ"@ || m == "CN"@ || m == "SSE"@ || m == "SZSE"@ || m == "CN-SH"@ || m
        == "CN-SZ"@
}

/// The symbol inferred from the id and market: `{id}.us` on US exchanges,
/// `^shc` for the Shanghai composite, `{digits}.cn` for six-digit A-share codes.
pub open spec fn inferred_symbol(i: InstrumentConfig) -> Option<Seq<char>> {
    let id = lower(i.id@);
    let market = upper(i.market@);
    let digits = ascii_digits(id);
    if is_us_market(market) {
        Some(id + ".us"@)
    } else if digits == "000001"@ && (starts_with(id, "sh"@) || is_shanghai_market(market)) {
        Some("^shc"@)
    } else if digits.len() == 6 && (starts_with(id, "sh"@) || starts_with(id, "sz"@)
        || is_china_market(market)) {
        Some(digits + ".cn"@)
    } else {
        None
    }
}

/// The Stooq symbol of an instrument: the configured one when it is not blank;
/// `xauusd` for the commodity called gold; no symbol for other commodities;
/// otherwise the inferred one.
pub open spec fn stooq_symbol_of(i: InstrumentConfig) -> Option<Seq<char>> {
    if i.stooq_symbol is Some && !is_blank(i.stooq_symbol->0@) {
        Some(i.stooq_symbol->0@)
    } else if i.kind == InstrumentKind::Commodity {
        if eq_ignore_ascii_case(i.id@, "gold"@) {
            Some("xauusd"@)
        } else {
            None
        }
    } else {
        inferred_symbol(i)
    }
}

fn infer_exchange_symbol(instrument: &InstrumentConfig) -> (r: Option<String>)
    ensures
        match r {
            Some(s) => inferred_symbol(*instrument) == Some(s@),
            None => inferred_symbol(*instrument) is None,
        },
{
    let raw_id = chars_of(instrument.id.as_str());
    let id = lower_chars(&raw_id);
    let raw_market = chars_of(instrument.market.as_str());
    let market = upper_chars(&raw_market);
    let digits = digits_of(&id);
    if equals(&market, "US") || equals(&market, "NASDAQ") || equals(&market, "NYSE") || equals(&market, "AMEX") {
        let mut out = id;
        push_str(&mut out, ".us");
        return Some(string_of(&out));
    }
    let shanghai = equals(&market, "SH") || equals(&market, "SSE") || equals(&market, "CN-SH");
    if equals(&digits, "000001") && (crate::text::begins_with(&id, "sh") || shanghai) {
        return Some("^shc".to_owned());
    }
    let china = equals(&market, "SH") || equals(&market, "SZ") || equals(&market, "CN") || equals(&market, "SSE")
        || equals(&market, "SZSE") || equals(&market, "CN-SH") || equals(&market, "CN-SZ");
    if digits.len() == 6 && (crate::text::begins_with(&id, "sh") || crate::text::begins_with(
        &id,
        "sz",
    ) || china) {
        let mut out = digits;
        push_str(&mut out, ".cn");
        return Some(string_of(&out));
    }
    None
}

pub fn resolve_stooq_symbol(instrument: &InstrumentConfig) -> (r: Option<String>)
    ensures
        match r {
            Some(s) => stooq_symbol_of(*instrument) == Some(s@),
            None => stooq_symbol_of(*instrument) is None,
        },
{
    match &instrument.stooq_symbol {
        Some(symbol) => {
            if !blank(symbol.as_str()) {
                return Some(symbol.clone());
            }
        },
        None => {},
    }
    match instrument.kind {
        InstrumentKind::Commodity => {
            let id = chars_of(instrument.id.as_str());
            let gold = chars_of("gold");
            if same_ignoring_ascii_case(&id, &gold) {
                Some("xauusd".to_owned())
            } else {
                None
            }
        },
        _ => infer_exchange_symbol(instrument),
    }
}

/// The query Stooq is asked with: symbol, daily interval, the window as
/// `YYYYMMDD`, and the API key when there is one.
pub open spec fn stooq_pairs(symbol: Seq<char>, api_key: Option<Seq<char>>, start: Day, end: Day) -> Seq<(Seq<char>, Seq<char>)> {
    let pairs = seq![
        ("s"@, symbol),
        ("i"@, "d"@),
        ("d1"@, chrono_compact_text(start.index())),
        ("d2"@, chrono_compact_text(end.index())),
    ];
    match api_key {
        Some(k) => pairs.push(("apikey"@, k)),
        None => pairs,
    }
}

/// The URL of a Stooq daily-bars request for `[start, end]`.
pub fn stooq_request(
    base_url: &str,
    api_key: &Option<String>,
    instrument: &InstrumentConfig,
    start: Day,
    end: Day,
) -> (r: Result<String, FetchError>)
    ensures
        match stooq_symbol_of(*instrument) {
            None => r matches Err(FetchError::Provider(e)) && e.is(
                "stooq"@,
                ProviderErrorKind::UnsupportedInstrument,
                "missing or unresolvable stooq_symbol for "@ + instrument.id@,
            ),
            Some(symbol) => request_outcome(
                url_query_text(base_url@, stooq_pairs(symbol, opt_text(*api_key), start, end)),
                r,
            ),
        },
{
    let symbol = match resolve_stooq_symbol(instrument) {
        Some(s) => s,
        None => {
            let mut m = chars_of("missing or unresolvable stooq_symbol for ");
            push_str(&mut m, instrument.id.as_str());
            return Err(
                FetchError::Provider(
                    ProviderError::with_chars("stooq", ProviderErrorKind::UnsupportedInstrument, &m),
                ),
            );
        },
    };
    let ghost sym = symbol@;
    let mut pairs: Vec<(String, String)> = Vec::new();
    pairs.push(("s".to_owned(), symbol));
    pairs.push(("i".to_owned(), "d".to_owned()));
    pairs.push(("d1".to_owned(), yyyymmdd(start)));
    pairs.push(("d2".to_owned(), yyyymmdd(end)));
    match api_key {
        Some(k) => pairs.push(("apikey".to_owned(), k.clone())),
        None => {},
    }
    assert(pair_views(pairs@) =~= stooq_pairs(sym, opt_text(*api_key), start, end));
    request_url(base_url, &pairs)
}

} // verus!
