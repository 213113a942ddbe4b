//! The daily CSV answers of Stooq and Alpha Vantage, and the field readers that
//! every source's parser shares.
use crate::calendar::{chrono_parse_ymd, Day};
use crate::models::{all_labelled, contents, opt_text, BarSpec, ParsedBar};
use crate::providers::{ProviderError, ProviderErrorKind};
use crate::sorting::{first_greater, insert_by_key, lemma_first_greater, sort_by_key};
use crate::text::{
    ascii_digit, chars_of, contains, content_lines, csv_fields, fields_of, find, find_lit, has, occurs_at,
    has_char, equals, is_ascii_digit, lemma_find_from, lines_of, lower, lower_chars, push_all,
    push_str, starts_with, string_of, sub_chars, trim, trim_chars, trim_start, trim_start_chars,
};
use vstd::prelude::*;

verus! {

/// Every character is an ASCII digit.
pub open spec fn all_digits(s: Seq<char>) -> bool {
    forall|k: int| 0 <= k < s.len() ==> is_ascii_digit(#[trigger] s[k])
}

pub open spec fn is_sign(c: char) -> bool {
    c == '+' || c == '-'
}

/// `Digit+`, or `Sign? Digit+` for an exponent.
pub open spec fn exponent_text(x: Seq<char>) -> bool {
    if x.len() > 0 && is_sign(x[0]) {
        x.len() > 1 && all_digits(x.drop_first())
    } else {
        x.len() > 0 && all_digits(x)
    }
}

/// `Digit+ | Digit+ '.' Digit* | Digit* '.' Digit+`.
pub open spec fn mantissa_text(m: Seq<char>) -> bool {
    match find(m, "."@) {
        None => m.len() > 0 && all_digits(m),
        Some(k) => all_digits(m.take(k)) && all_digits(m.skip(k + 1)) && m.len() > 1,
    }
}

/// `Number ::= Mantissa ('e' Exponent)?`, letters already lower-cased.
pub open spec fn number_text(b: Seq<char>) -> bool {
    match find(b, "e"@) {
        None => mantissa_text(b),
        Some(k) => mantissa_text(b.take(k)) && exponent_text(b.skip(k + 1)),
    }
}

/// The grammar of decimal text that `str::parse` accepts for a 64-bit float,
/// as its documentation gives it: after lower-casing,
/// `Sign? ('inf' | 'infinity' | 'nan' | Number)`, with no white space.
pub open spec fn float_literal(s: Seq<char>) -> bool {
    let t = lower(s);
    let b = if t.len() > 0 && is_sign(t[0]) {
        t.drop_first()
    } else {
        t
    };
    b == "inf"@ || b == "infinity"@ || b == "nan"@ || number_text(b)
}

/// What the float parse of `text` reports when it fails: nothing when the
/// text is a float literal, otherwise the error's display text.
pub open spec fn f64_parse_error(text: Seq<char>) -> Option<Seq<char>> {
    if float_literal(text) {
        None
    } else if text.len() == 0 {
        Some("cannot parse float from empty string"@)
    } else {
        Some("invalid float literal"@)
    }
}

fn every_digit(s: &Vec<char>, from: usize, to: usize) -> (b: bool)
    requires
        from <= to <= s.len(),
    ensures
        b == all_digits(s@.subrange(from as int, to as int)),
{
    let mut i = from;
    while i < to
        invariant
            from <= i <= to <= s.len(),
            forall|k: int| from <= k < i ==> is_ascii_digit(s@[k]),
        decreases to - i,
    {
        if !ascii_digit(s[i]) {
            assert(s@.subrange(from as int, to as int)[i - from] == s@[i as int]);
            return false;
        }
        i = i + 1;
    }
    assert forall|k: int| 0 <= k < s@.subrange(from as int, to as int).len() implies is_ascii_digit(
        #[trigger] s@.subrange(from as int, to as int)[k],
    ) by {
        assert(s@.subrange(from as int, to as int)[k] == s@[from + k]);
    }
    true
}

fn is_exponent(x: &Vec<char>) -> (b: bool)
    ensures
        b == exponent_text(x@),
{
    if x.len() > 0 && (x[0] == '+' || x[0] == '-') {
        let r = x.len() > 1 && every_digit(x, 1, x.len());
        assert(x@.subrange(1, x@.len() as int) == x@.drop_first());
        r
    } else {
        let r = x.len() > 0 && every_digit(x, 0, x.len());
        assert(x@.subrange(0, x@.len() as int) == x@);
        r
    }
}

fn is_mantissa(m: &Vec<char>) -> (b: bool)
    ensures
        b == mantissa_text(m@),
{
    match find_lit(m, ".") {
        None => {
            let r = m.len() > 0 && every_digit(m, 0, m.len());
            assert(m@.subrange(0, m@.len() as int) == m@);
            r
        },
        Some(k) => {
            proof {
                lemma_find_from(m@, "."@, 0);
                reveal_strlit(".");
            }
            let r = every_digit(m, 0, k) && every_digit(m, k + 1, m.len()) && m.len() > 1;
            assert(m@.subrange(0, k as int) == m@.take(k as int));
            assert(m@.subrange(k + 1, m@.len() as int) == m@.skip(k + 1));
            r
        },
    }
}

fn is_number(b: &Vec<char>) -> (r: bool)
    ensures
        r == number_text(b@),
{
    match find_lit(b, "e") {
        None => is_mantissa(b),
        Some(k) => {
            proof {
                lemma_find_from(b@, "e"@, 0);
                reveal_strlit("e");
                assert("e"@.len() == 1);
                assert(find(b@, "e"@) == Some(k as int));
                assert(occurs_at(b@, "e"@, k as int));
                assert(k + 1 <= b@.len());
            }
            let n = b.len();
            let m = sub_chars(b, 0, k);
            let x = sub_chars(b, k + 1, n);
            assert(m@ == b@.take(k as int));
            assert(x@ == b@.skip(k + 1));
            is_mantissa(&m) && is_exponent(&x)
        },
    }
}

pub(crate) fn is_float_literal(s: &Vec<char>) -> (r: bool)
    ensures
        r == float_literal(s@),
{
    let t = lower_chars(s);
    let b = if t.len() > 0 && (t[0] == '+' || t[0] == '-') {
        let b = sub_chars(&t, 1, t.len());
        assert(b@ == t@.drop_first());
        b
    } else {
        t
    };
    equals(&b, "inf") || equals(&b, "infinity") || equals(&b, "nan") || is_number(&b)
}

fn f64_error(text: &Vec<char>) -> (r: Option<Vec<char>>)
    ensures
        r matches Some(e) ==> f64_parse_error(text@) == Some(e@),
        r is None ==> f64_parse_error(text@) is None,
{
    if is_float_literal(text) {
        None
    } else if text.len() == 0 {
        Some(chars_of("cannot parse float from empty string"))
    } else {
        Some(chars_of("invalid float literal"))
    }
}

/// The order in which bars are kept: by trade date.
pub open spec fn by_day() -> spec_fn(BarSpec) -> int {
    |b: BarSpec| b.trade_date
}

/// A failure as (kind, message); the provider is the parser's source.
pub type Failure = (ProviderErrorKind, Seq<char>);

pub open spec fn failed(e: ProviderError, source: Seq<char>, f: Failure) -> bool {
    e.is(source, f.0, f.1)
}

pub open spec fn date_error(value: Seq<char>) -> Option<Seq<char>> {
    match chrono_parse_ymd(value) {
        Err(e) => Some("invalid date "@ + value + ": "@ + e),
        Ok(_) => None,
    }
}

pub open spec fn date_value(value: Seq<char>) -> int {
    match chrono_parse_ymd(value) {
        Ok(d) => d,
        Err(_) => 0,
    }
}

pub open spec fn number_error(field: Seq<char>, value: Seq<char>) -> Option<Seq<char>> {
    match f64_parse_error(value) {
        Some(e) => Some("invalid "@ + field + " value "@ + value + ": "@ + e),
        None => None,
    }
}

/// An optional number: absent when blank, `-`, or not a number.
pub open spec fn optional_number(value: Seq<char>) -> Option<Seq<char>> {
    let t = trim(value);
    if t.len() == 0 || t == "-"@ {
        None
    } else if f64_parse_error(t) is None {
        Some(t)
    } else {
        None
    }
}

pub(crate) fn read_date(source: &str, value: &Vec<char>) -> (r: Result<Day, ProviderError>)
    ensures
        r matches Ok(d) ==> date_error(value@) is None && d.index() == date_value(value@),
        r matches Err(e) ==> date_error(value@) matches Some(m) && e.is(
            source@,
            ProviderErrorKind::MalformedResponse,
            m,
        ),
{
    let text = string_of(value);
    match Day::parse_ymd(text.as_str()) {
        Ok(d) => Ok(d),
        Err(err) => {
            let mut m = chars_of("invalid date ");
            push_all(&mut m, value);
            push_str(&mut m, ": ");
            push_str(&mut m, err.as_str());
            Err(ProviderError::with_chars(source, ProviderErrorKind::MalformedResponse, &m))
        },
    }
}

pub(crate) fn read_number(source: &str, value: &Vec<char>, field: &str) -> (r: Result<
    String,
    ProviderError,
>)
    ensures
        r matches Ok(s) ==> number_error(field@, value@) is None && s@ == value@,
        r matches Err(e) ==> number_error(field@, value@) matches Some(m) && e.is(
            source@,
            ProviderErrorKind::MalformedResponse,
            m,
        ),
{
    match f64_error(value) {
        None => Ok(string_of(value)),
        Some(err) => {
            let mut m = chars_of("invalid ");
            push_str(&mut m, field);
            push_str(&mut m, " value ");
            push_all(&mut m, value);
            push_str(&mut m, ": ");
            push_all(&mut m, &err);
            Err(ProviderError::with_chars(source, ProviderErrorKind::MalformedResponse, &m))
        },
    }
}

pub(crate) fn read_optional_number(value: &Vec<char>) -> (r: Option<String>)
    ensures
        opt_text(r) == optional_number(value@),
{
    let t = trim_chars(value);
    if t.len() == 0 || equals(&t, "-") {
        return None;
    }
    match f64_error(&t) {
        None => Some(string_of(&t)),
        Some(_) => None,
    }
}

/// Places a bar after every bar whose date is not later than its own.
pub(crate) fn insert_by_date(
    out: &mut Vec<ParsedBar>,
    bar: ParsedBar,
    Ghost(instrument_id): Ghost<Seq<char>>,
    Ghost(source): Ghost<Seq<char>>,
)
    requires
        all_labelled(old(out)@, instrument_id, source),
        bar.instrument_id@ == instrument_id,
        bar.source@ == source,
    ensures
        contents(final(out)@) == insert_by_key(contents(old(out)@), by_day(), bar.content()),
        final(out)@.len() == old(out)@.len() + 1,
        all_labelled(final(out)@, instrument_id, source),
{
    let ghost cs = contents(out@);
    let d = bar.trade_date.days_from_ce();
    let mut p: usize = 0;
    proof {
        lemma_first_greater(cs, by_day(), d as int);
        assert(cs.skip(0) == cs);
    }
    while p < out.len() && out[p].trade_date.days_from_ce() <= d
        invariant
            p <= out@.len(),
            cs == contents(out@),
            out@ == old(out)@,
            d as int == bar.content().trade_date,
            first_greater(cs, by_day(), d as int) == p + first_greater(cs.skip(p as int), by_day(), d as int),
        decreases out@.len() - p,
    {
        assert(cs.skip(p as int)[0] == cs[p as int]);
        assert(cs.skip(p as int).drop_first() == cs.skip(p + 1));
        p = p + 1;
    }
    proof {
        if p < out@.len() {
            assert(cs.skip(p as int)[0] == cs[p as int]);
        }
    }
    let ghost before = out@;
    assert(before == old(out)@);
    assert(all_labelled(before, instrument_id, source));
    out.insert(p, bar);
    assert(contents(out@) =~= cs.insert(p as int, bar.content()));
    assert forall|k: int| 0 <= k < out@.len() implies #[trigger] out@[k].instrument_id@
        == instrument_id && out@[k].source@ == source by {
        if k < p {
            assert(out@[k] == before[k]);
            assert(before[k].instrument_id@ == instrument_id && before[k].source@ == source);
        } else if k > p {
            assert(out@[k] == before[k - 1]);
            assert(before[k - 1].instrument_id@ == instrument_id && before[k - 1].source@ == source);
        } else {
            assert(out@[k] == bar);
        }
    }
    assert(all_labelled(out@, instrument_id, source));
}

/// The rows' bars in order, or the first row's failure.
pub open spec fn rows_result(lines: Seq<Seq<char>>, row: spec_fn(Seq<char>) -> Result<BarSpec, Seq<char>>) -> Result<Seq<BarSpec>, Seq<char>>
    decreases lines.len(),
{
    if lines.len() == 0 {
        Ok(Seq::<BarSpec>::empty())
    } else {
        match rows_result(lines.drop_last(), row) {
            Err(m) => Err(m),
            Ok(bars) => match row(lines.last()) {
                Err(m) => Err(m),
                Ok(b) => Ok(bars.push(b)),
            },
        }
    }
}

/// `<!doctype html` or `<html` at the start, or `<body` anywhere, ignoring
/// leading white space and ASCII case.
pub open spec fn looks_like_html(body: Seq<char>) -> bool {
    let head = lower(trim_start(body));
    starts_with(head, "<!doctype html"@) || starts_with(head, "<html"@) || contains(head, "<body"@)
}

fn looks_like_html_chars(body: &Vec<char>) -> (b: bool)
    ensures
        b == looks_like_html(body@),
{
    let t = trim_start_chars(body);
    let head = lower_chars(&t);
    crate::text::begins_with(&head, "<!doctype html") || crate::text::begins_with(&head, "<html")
        || has(&head, "<body")
}

/// One Stooq row: six fields, a date, four prices and an optional volume.
pub open spec fn stooq_bar(line: Seq<char>) -> Result<BarSpec, Seq<char>> {
    let f = csv_fields(line);
    if f.len() != 6 {
        Err("invalid Stooq row: "@ + line)
    } else if date_error(f[0]) is Some {
        Err(date_error(f[0])->0)
    } else if number_error("open"@, f[1]) is Some {
        Err(number_error("open"@, f[1])->0)
    } else if number_error("high"@, f[2]) is Some {
        Err(number_error("high"@, f[2])->0)
    } else if number_error("low"@, f[3]) is Some {
        Err(number_error("low"@, f[3])->0)
    } else if number_error("close"@, f[4]) is Some {
        Err(number_error("close"@, f[4])->0)
    } else {
        Ok(
            BarSpec {
                trade_date: date_value(f[0]),
                open: f[1],
                high: f[2],
                low: f[3],
                close: f[4],
                volume: optional_number(f[5]),
                amount: None,
            },
        )
    }
}

pub open spec fn stooq_row() -> spec_fn(Seq<char>) -> Result<BarSpec, Seq<char>> {
    |line: Seq<char>| stooq_bar(line)
}

/// What a Stooq answer holds: its bars in date order, or why it has none.
pub open spec fn stooq_result(body: Seq<char>) -> Result<Seq<BarSpec>, Failure> {
    let lines = content_lines(body);
    if looks_like_html(body) {
        Err((ProviderErrorKind::MalformedResponse, "Stooq returned HTML instead of CSV"@))
    } else if lines.len() == 0 {
        Err((ProviderErrorKind::NoData, "empty Stooq response"@))
    } else if lines[0] != "Date,Open,High,Low,Close,Volume"@ {
        Err(
            (
                if contains(lines[0], ","@) {
                    ProviderErrorKind::MalformedResponse
                } else {
                    ProviderErrorKind::ProviderMessage
                },
                "invalid Stooq header: "@ + lines[0],
            ),
        )
    } else {
        match rows_result(lines.skip(1), stooq_row()) {
            Err(m) => Err((ProviderErrorKind::MalformedResponse, m)),
            Ok(bars) => if bars.len() == 0 {
                Err((ProviderErrorKind::NoData, "Stooq CSV contains no rows"@))
            } else {
                Ok(sort_by_key(bars, by_day()))
            },
        }
    }
}

fn row_error(source: &str, lead: &str, line: &Vec<char>) -> (e: ProviderError)
    ensures
        e.is(source@, ProviderErrorKind::MalformedResponse, lead@ + line@),
{
    let mut m = chars_of(lead);
    push_all(&mut m, line);
    ProviderError::with_chars(source, ProviderErrorKind::MalformedResponse, &m)
}

fn stooq_line(instrument_id: &str, line: &Vec<char>, source: &str) -> (r: Result<
    ParsedBar,
    ProviderError,
>)
    ensures
        r matches Ok(b) ==> stooq_bar(line@) == Ok::<BarSpec, Seq<char>>(b.content())
            && b.instrument_id@ == instrument_id@ && b.source@ == source@,
        r matches Err(e) ==> stooq_bar(line@) matches Err(m) && e.is(
            source@,
            ProviderErrorKind::MalformedResponse,
            m,
        ),
{
    let f = fields_of(line);
    if f.len() != 6 {
        return Err(row_error(source, "invalid Stooq row: ", line));
    }
    let trade_date = read_date(source, &f[0])?;
    let open = read_number(source, &f[1], "open")?;
    let high = read_number(source, &f[2], "high")?;
    let low = read_number(source, &f[3], "low")?;
    let close = read_number(source, &f[4], "close")?;
    let volume = read_optional_number(&f[5]);
    Ok(
        ParsedBar {
            instrument_id: instrument_id.to_owned(),
            trade_date,
            open,
            high,
            low,
            close,
            volume,
            amount: None,
            source: source.to_owned(),
        },
    )
}

pub proof fn lemma_rows_step(
    lines: Seq<Seq<char>>,
    i: int,
    row: spec_fn(Seq<char>) -> Result<BarSpec, Seq<char>>,
)
    requires
        0 <= i < lines.len(),
    ensures
        rows_result(lines.take(i + 1), row) == (match rows_result(lines.take(i), row) {
            Err(m) => Err(m),
            Ok(bars) => match row(lines[i]) {
                Err(m) => Err(m),
                Ok(b) => Ok(bars.push(b)),
            },
        }),
{
    assert(lines.take(i + 1).drop_last() == lines.take(i));
    assert(lines.take(i + 1).last() == lines[i]);
}

pub proof fn lemma_sort_push(bars: Seq<BarSpec>, b: BarSpec)
    ensures
        sort_by_key(bars.push(b), by_day()) == insert_by_key(sort_by_key(bars, by_day()), by_day(), b),
{
    assert(bars.push(b).drop_last() == bars);
}

/// `Date,Open,High,Low,Close,Volume` rows, as Stooq sends them, in date order.
pub fn parse_stooq_daily(instrument_id: &str, body: &str, source: &str) -> (r: Result<
    Vec<ParsedBar>,
    ProviderError,
>)
    ensures
        r matches Ok(bars) ==> stooq_result(body@) == Ok::<Seq<BarSpec>, Failure>(contents(bars@))
            && all_labelled(bars@, instrument_id@, source@),
        r matches Err(e) ==> stooq_result(body@) matches Err(f) && failed(e, source@, f),
{
    let b = chars_of(body);
    if looks_like_html_chars(&b) {
        return Err(
            ProviderError::new(
                source,
                ProviderErrorKind::MalformedResponse,
                "Stooq returned HTML instead of CSV",
            ),
        );
    }
    let lines = lines_of(&b);
    let ghost ls = content_lines(body@);
    if lines.len() == 0 {
        return Err(ProviderError::new(source, ProviderErrorKind::NoData, "empty Stooq response"));
    }
    if !equals(&lines[0], "Date,Open,High,Low,Close,Volume") {
        let kind = if has_char(&lines[0], ',') {
            ProviderErrorKind::MalformedResponse
        } else {
            ProviderErrorKind::ProviderMessage
        };
        proof {
            reveal_strlit(",");
            assert(","@ == seq![',']);
        }
        let mut m = chars_of("invalid Stooq header: ");
        push_all(&mut m, &lines[0]);
        return Err(ProviderError::with_chars(source, kind, &m));
    }
    let ghost rest = ls.skip(1);
    let mut out: Vec<ParsedBar> = Vec::new();
    let ghost mut bars = Seq::<BarSpec>::empty();
    let mut i: usize = 1;
    assert(rest.take(0) == Seq::<Seq<char>>::empty());
    while i < lines.len()
        invariant
            1 <= i <= lines@.len() == ls.len(),
            rest == ls.skip(1),
            ls == content_lines(body@),
            !looks_like_html(body@),
            ls[0] == "Date,Open,High,Low,Close,Volume"@,
            forall|k: int| 0 <= k < lines@.len() ==> #[trigger] lines@[k]@ == ls[k],
            rows_result(rest.take(i - 1), stooq_row()) == Ok::<Seq<BarSpec>, Seq<char>>(bars),
            contents(out@) == sort_by_key(bars, by_day()),
            all_labelled(out@, instrument_id@, source@),
            bars.len() == out@.len(),
        decreases lines@.len() - i,
    {
        proof {
            lemma_rows_step(rest, i - 1, stooq_row());
            assert(rest[i - 1] == ls[i as int]);
        }
        match stooq_line(instrument_id, &lines[i], source) {
            Err(e) => {
                proof {
                    lemma_rows_prefix_err(rest, (i - 1) as int, stooq_row());
                }
                return Err(e);
            },
            Ok(bar) => {
                let ghost before = out@;
                let ghost c = bar.content();
                insert_by_date(&mut out, bar, Ghost(instrument_id@), Ghost(source@));
                proof {
                    lemma_sort_push(bars, c);
                    bars = bars.push(c);
                }
            },
        }
        i = i + 1;
    }
    proof {
        assert(rest.take(i - 1) == rest);
    }
    if out.len() == 0 {
        return Err(
            ProviderError::new(source, ProviderErrorKind::NoData, "Stooq CSV contains no rows"),
        );
    }
    Ok(out)
}

/// A row's failure stays the result when more rows follow.
pub proof fn lemma_rows_prefix_err(
    lines: Seq<Seq<char>>,
    i: int,
    row: spec_fn(Seq<char>) -> Result<BarSpec, Seq<char>>,
)
    requires
        0 <= i < lines.len(),
        rows_result(lines.take(i + 1), row) is Err,
    ensures
        rows_result(lines, row) == rows_result(lines.take(i + 1), row),
    decreases lines.len() - i,
{
    if i + 1 < lines.len() {
        lemma_rows_step(lines, i + 1, row);
        lemma_rows_prefix_err(lines, i + 1, row);
    } else {
        assert(lines.take(i + 1) == lines);
    }
}

/// One Alpha Vantage CSV row: at least five fields, a date and four prices,
/// and a volume when a sixth field reads as a number.
pub open spec fn alpha_bar(line: Seq<char>) -> Result<BarSpec, Seq<char>> {
    let f = csv_fields(line);
    if f.len() < 5 {
        Err("invalid Alpha Vantage CSV row: "@ + line)
    } else if date_error(f[0]) is Some {
        Err(date_error(f[0])->0)
    } else if number_error("open"@, f[1]) is Some {
        Err(number_error("open"@, f[1])->0)
    } else if number_error("high"@, f[2]) is Some {
        Err(number_error("high"@, f[2])->0)
    } else if number_error("low"@, f[3]) is Some {
        Err(number_error("low"@, f[3])->0)
    } else if number_error("close"@, f[4]) is Some {
        Err(number_error("close"@, f[4])->0)
    } else {
        Ok(
            BarSpec {
                trade_date: date_value(f[0]),
                open: f[1],
                high: f[2],
                low: f[3],
                close: f[4],
                volume: if f.len() > 5 {
                    optional_number(f[5])
                } else {
                    None
                },
                amount: None,
            },
        )
    }
}

pub open spec fn alpha_row() -> spec_fn(Seq<char>) -> Result<BarSpec, Seq<char>> {
    |line: Seq<char>| alpha_bar(line)
}

/// What an Alpha Vantage CSV answer holds: its bars in date order, or why not.
pub open spec fn alpha_csv_result(body: Seq<char>) -> Result<Seq<BarSpec>, Failure> {
    let lines = content_lines(body);
    if lines.len() == 0 {
        Err((ProviderErrorKind::NoData, "empty Alpha Vantage CSV response"@))
    } else if lower(lines[0]) != "timestamp,open,high,low,close,volume"@ && lower(lines[0])
        != "date,open,high,low,close,volume"@ {
        Err((ProviderErrorKind::MalformedResponse, "invalid Alpha Vantage CSV header: "@ + lines[0]))
    } else {
        match rows_result(lines.skip(1), alpha_row()) {
            Err(m) => Err((ProviderErrorKind::MalformedResponse, m)),
            Ok(bars) => Ok(sort_by_key(bars, by_day())),
        }
    }
}

fn alpha_line(instrument_id: &str, line: &Vec<char>, source: &str) -> (r: Result<
    ParsedBar,
    ProviderError,
>)
    ensures
        r matches Ok(b) ==> alpha_bar(line@) == Ok::<BarSpec, Seq<char>>(b.content())
            && b.instrument_id@ == instrument_id@ && b.source@ == source@,
        r matches Err(e) ==> alpha_bar(line@) matches Err(m) && e.is(
            source@,
            ProviderErrorKind::MalformedResponse,
            m,
        ),
{
    let f = fields_of(line);
    if f.len() < 5 {
        return Err(row_error(source, "invalid Alpha Vantage CSV row: ", line));
    }
    let trade_date = read_date(source, &f[0])?;
    let open = read_number(source, &f[1], "open")?;
    let high = read_number(source, &f[2], "high")?;
    let low = read_number(source, &f[3], "low")?;
    let close = read_number(source, &f[4], "close")?;
    let volume = if f.len() > 5 {
        read_optional_number(&f[5])
    } else {
        None
    };
    Ok(
        ParsedBar {
            instrument_id: instrument_id.to_owned(),
            trade_date,
            open,
            high,
            low,
            close,
            volume,
            amount: None,
            source: source.to_owned(),
        },
    )
}

/// Alpha Vantage CSV rows (`timestamp` or `date` first), in date order.
pub fn parse_alpha_vantage_csv_daily(instrument_id: &str, body: &str, source: &str) -> (r: Result<
    Vec<ParsedBar>,
    ProviderError,
>)
    ensures
        r matches Ok(bars) ==> alpha_csv_result(body@) == Ok::<Seq<BarSpec>, Failure>(
            contents(bars@),
        ) && all_labelled(bars@, instrument_id@, source@),
        r matches Err(e) ==> alpha_csv_result(body@) matches Err(f) && failed(e, source@, f),
{
    let b = chars_of(body);
    let lines = lines_of(&b);
    let ghost ls = content_lines(body@);
    if lines.len() == 0 {
        return Err(
            ProviderError::new(source, ProviderErrorKind::NoData, "empty Alpha Vantage CSV response"),
        );
    }
    let normalized = lower_chars(&lines[0]);
    if !equals(&normalized, "timestamp,open,high,low,close,volume") && !equals(
        &normalized,
        "date,open,high,low,close,volume",
    ) {
        let mut m = chars_of("invalid Alpha Vantage CSV header: ");
        push_all(&mut m, &lines[0]);
        return Err(ProviderError::with_chars(source, ProviderErrorKind::MalformedResponse, &m));
    }
    let ghost rest = ls.skip(1);
    let mut out: Vec<ParsedBar> = Vec::new();
    let ghost mut bars = Seq::<BarSpec>::empty();
    let mut i: usize = 1;
    assert(rest.take(0) == Seq::<Seq<char>>::empty());
    while i < lines.len()
        invariant
            1 <= i <= lines@.len() == ls.len(),
            rest == ls.skip(1),
            ls == content_lines(body@),
            lower(ls[0]) == "timestamp,open,high,low,close,volume"@ || lower(ls[0])
                == "date,open,high,low,close,volume"@,
            forall|k: int| 0 <= k < lines@.len() ==> #[trigger] lines@[k]@ == ls[k],
            rows_result(rest.take(i - 1), alpha_row()) == Ok::<Seq<BarSpec>, Seq<char>>(bars),
            contents(out@) == sort_by_key(bars, by_day()),
            all_labelled(out@, instrument_id@, source@),
        decreases lines@.len() - i,
    {
        proof {
            lemma_rows_step(rest, i - 1, alpha_row());
            assert(rest[i - 1] == ls[i as int]);
        }
        match alpha_line(instrument_id, &lines[i], source) {
            Err(e) => {
                proof {
                    lemma_rows_prefix_err(rest, (i - 1) as int, alpha_row());
                }
                return Err(e);
            },
            Ok(bar) => {
                let ghost c = bar.content();
                insert_by_date(&mut out, bar, Ghost(instrument_id@), Ghost(source@));
                proof {
                    lemma_sort_push(bars, c);
                    bars = bars.push(c);
                }
            },
        }
        i = i + 1;
    }
    proof {
        assert(rest.take(i - 1) == rest);
    }
    Ok(out)
}

/// Stooq and Alpha Vantage CSV answers give their bars in date order.
pub proof fn law_csv_bars_in_date_order(body: Seq<char>)
    ensures
        stooq_result(body) matches Ok(bars) ==> crate::sorting::is_sorted_by(bars, by_day()),
        alpha_csv_result(body) matches Ok(bars) ==> crate::sorting::is_sorted_by(bars, by_day()),
{
    let lines = content_lines(body);
    if let Ok(bars) = rows_result(lines.skip(1), stooq_row()) {
        crate::sorting::lemma_sort_by_key(bars, by_day());
    }
    if let Ok(bars) = rows_result(lines.skip(1), alpha_row()) {
        crate::sorting::lemma_sort_by_key(bars, by_day());
    }
}

/// A successful `rows_result` has one bar per line, each the line's own.
pub proof fn lemma_rows_ok(lines: Seq<Seq<char>>, row: spec_fn(Seq<char>) -> Result<BarSpec, Seq<char>>)
    ensures
        rows_result(lines, row) matches Ok(bars) ==> bars.len() == lines.len() && forall|k: int|
            0 <= k < lines.len() ==> #[trigger] row(lines[k]) == Ok::<BarSpec, Seq<char>>(bars[k]),
    decreases lines.len(),
{
    if lines.len() > 0 {
        lemma_rows_ok(lines.drop_last(), row);
        if let Ok(bars) = rows_result(lines, row) {
            assert forall|k: int| 0 <= k < lines.len() implies #[trigger] row(lines[k]) == Ok::<
                BarSpec,
                Seq<char>,
            >(bars[k]) by {
                if k < lines.len() - 1 {
                    assert(lines[k] == lines.drop_last()[k]);
                }
            }
        }
    }
}

/// The bar each line gives, whatever the line.
pub open spec fn stooq_line_bar() -> spec_fn(Seq<char>) -> BarSpec {
    |line: Seq<char>| stooq_bar(line)->Ok_0
}

/// A Stooq answer that is read holds at least one bar, one for each line after
/// the header and no more, each of six fields; the bars come in date order and
/// are those of the lines, and none has an amount.
pub proof fn law_stooq_parse(body: Seq<char>)
    ensures
        stooq_result(body) matches Ok(bars) ==> {
            let rows = content_lines(body).skip(1);
            &&& bars.len() > 0
            &&& bars.len() == rows.len()
            &&& crate::sorting::is_sorted_by(bars, by_day())
            &&& bars.to_multiset() == rows.map_values(stooq_line_bar()).to_multiset()
            &&& forall|k: int| 0 <= k < rows.len() ==> csv_fields(#[trigger] rows[k]).len() == 6
            &&& forall|k: int| 0 <= k < bars.len() ==> (#[trigger] bars[k]).amount is None
        },
{
    let rows = content_lines(body).skip(1);
    lemma_rows_ok(rows, stooq_row());
    if let Ok(bars) = stooq_result(body) {
        let read = rows_result(rows, stooq_row())->Ok_0;
        assert(read =~= rows.map_values(stooq_line_bar())) by {
            assert forall|k: int| 0 <= k < rows.len() implies read[k] == rows.map_values(
                stooq_line_bar(),
            )[k] by {
                assert(stooq_row()(rows[k]) == Ok::<BarSpec, Seq<char>>(read[k]));
            }
        }
        crate::sorting::lemma_sort_by_key(read, by_day());
        crate::sorting::lemma_sort_by_key_permutes(read, by_day());
        assert forall|k: int| 0 <= k < rows.len() implies csv_fields(#[trigger] rows[k]).len() == 6 by {
            assert(stooq_row()(rows[k]) == Ok::<BarSpec, Seq<char>>(read[k]));
        }
        assert forall|k: int| 0 <= k < bars.len() implies (#[trigger] bars[k]).amount is None by {
            assert forall|j: int| 0 <= j < read.len() implies (#[trigger] read[j]).amount is None by {
                assert(stooq_row()(rows[j]) == Ok::<BarSpec, Seq<char>>(read[j]));
            }
            assert(bars.contains(bars[k]));
            vstd::seq_lib::to_multiset_contains(bars, bars[k]);
            vstd::seq_lib::to_multiset_contains(read, bars[k]);
        }
    }
}

/// Each bar of a Stooq answer that is read comes from one of the lines after
/// the header, and takes its date, open, high, low, close and volume from that
/// line's fields in the header's order: Date, Open, High, Low, Close, Volume.
pub proof fn law_stooq_bars_take_their_columns(body: Seq<char>)
    ensures
        stooq_result(body) matches Ok(bars) ==> forall|k: int|
            0 <= k < bars.len() ==> exists|j: int|
                1 <= j < content_lines(body).len() && #[trigger] csv_fields(content_lines(body)[j]).len()
                    == 6 && (#[trigger] bars[k]).trade_date == date_value(csv_fields(content_lines(body)[j])[0])
                    && bars[k].open == csv_fields(content_lines(body)[j])[1]
                    && bars[k].high == csv_fields(content_lines(body)[j])[2]
                    && bars[k].low == csv_fields(content_lines(body)[j])[3]
                    && bars[k].close == csv_fields(content_lines(body)[j])[4]
                    && bars[k].volume == optional_number(csv_fields(content_lines(body)[j])[5])
                    && bars[k].amount is None,
{
    let lines = content_lines(body);
    let rows = lines.skip(1);
    lemma_rows_ok(rows, stooq_row());
    if let Ok(bars) = stooq_result(body) {
        let read = rows_result(rows, stooq_row())->Ok_0;
        crate::sorting::lemma_sort_by_key_permutes(read, by_day());
        assert forall|k: int| 0 <= k < bars.len() implies exists|j: int|
            1 <= j < lines.len() && #[trigger] csv_fields(lines[j]).len() == 6
                && (#[trigger] bars[k]).trade_date == date_value(csv_fields(lines[j])[0])
                && bars[k].open == csv_fields(lines[j])[1]
                && bars[k].high == csv_fields(lines[j])[2]
                && bars[k].low == csv_fields(lines[j])[3]
                && bars[k].close == csv_fields(lines[j])[4]
                && bars[k].volume == optional_number(csv_fields(lines[j])[5])
                && bars[k].amount is None by {
            assert(bars.contains(bars[k]));
            vstd::seq_lib::to_multiset_contains(bars, bars[k]);
            vstd::seq_lib::to_multiset_contains(read, bars[k]);
            let i = choose|i: int| 0 <= i < read.len() && read[i] == bars[k];
            assert(stooq_row()(rows[i]) == Ok::<BarSpec, Seq<char>>(read[i]));
            assert(rows[i] == lines[i + 1]);
            assert(csv_fields(lines[i + 1]).len() == 6);
        }
    }
}

/// Each bar of the sorted bars of the rows is the bar of one of the rows.
pub proof fn lemma_sorted_rows_origin(
    rows: Seq<Seq<char>>,
    row: spec_fn(Seq<char>) -> Result<BarSpec, Seq<char>>,
)
    ensures
        rows_result(rows, row) matches Ok(read) ==> forall|k: int|
            0 <= k < sort_by_key(read, by_day()).len() ==> exists|i: int|
                0 <= i < rows.len() && #[trigger] row(rows[i]) == Ok::<BarSpec, Seq<char>>(
                    #[trigger] sort_by_key(read, by_day())[k],
                ),
{
    lemma_rows_ok(rows, row);
    if let Ok(read) = rows_result(rows, row) {
        let bars = sort_by_key(read, by_day());
        crate::sorting::lemma_sort_by_key_permutes(read, by_day());
        assert forall|k: int| 0 <= k < bars.len() implies exists|i: int|
            0 <= i < rows.len() && #[trigger] row(rows[i]) == Ok::<BarSpec, Seq<char>>(
                #[trigger] bars[k],
            ) by {
            assert(bars.contains(bars[k]));
            vstd::seq_lib::to_multiset_contains(bars, bars[k]);
            vstd::seq_lib::to_multiset_contains(read, bars[k]);
            let i = choose|i: int| 0 <= i < read.len() && read[i] == bars[k];
            assert(row(rows[i]) == Ok::<BarSpec, Seq<char>>(read[i]));
        }
    }
}

/// Each bar of an Alpha Vantage CSV answer that is read comes from one of the
/// lines after the header and takes its date, open, high, low and close from
/// that line's first five fields, in the header's order
/// (timestamp, open, high, low, close), and its volume from a sixth field.
pub proof fn law_alpha_csv_bars_take_their_columns(body: Seq<char>)
    ensures
        alpha_csv_result(body) matches Ok(bars) ==> forall|k: int|
            0 <= k < bars.len() ==> exists|j: int|
                1 <= j < content_lines(body).len() && #[trigger] csv_fields(content_lines(body)[j]).len()
                    >= 5 && (#[trigger] bars[k]).trade_date == date_value(
                    csv_fields(content_lines(body)[j])[0],
                ) && bars[k].open == csv_fields(content_lines(body)[j])[1]
                    && bars[k].high == csv_fields(content_lines(body)[j])[2]
                    && bars[k].low == csv_fields(content_lines(body)[j])[3]
                    && bars[k].close == csv_fields(content_lines(body)[j])[4]
                    && bars[k].volume == (if csv_fields(content_lines(body)[j]).len() > 5 {
                    optional_number(csv_fields(content_lines(body)[j])[5])
                } else {
                    None
                }) && bars[k].amount is None,
{
    let lines = content_lines(body);
    let rows = lines.skip(1);
    lemma_sorted_rows_origin(rows, alpha_row());
    if let Ok(bars) = alpha_csv_result(body) {
        assert forall|k: int| 0 <= k < bars.len() implies exists|j: int|
            1 <= j < lines.len() && #[trigger] csv_fields(lines[j]).len() >= 5
                && (#[trigger] bars[k]).trade_date == date_value(csv_fields(lines[j])[0])
                && bars[k].open == csv_fields(lines[j])[1]
                && bars[k].high == csv_fields(lines[j])[2]
                && bars[k].low == csv_fields(lines[j])[3]
                && bars[k].close == csv_fields(lines[j])[4]
                && bars[k].volume == (if csv_fields(lines[j]).len() > 5 {
                optional_number(csv_fields(lines[j])[5])
            } else {
                None
            }) && bars[k].amount is None by {
            let i = choose|i: int| 0 <= i < rows.len() && #[trigger] alpha_row()(rows[i]) == Ok::<BarSpec, Seq<char>>(bars[k]);
            assert(rows[i] == lines[i + 1]);
            assert(csv_fields(lines[i + 1]).len() >= 5);
        }
    }
}

/// A Stooq answer with its header whose row `k` has other than six fields is
/// refused as malformed.
pub proof fn law_stooq_field_count(body: Seq<char>, k: int)
    requires
        !looks_like_html(body),
        content_lines(body).len() > 0,
        content_lines(body)[0] == "Date,Open,High,Low,Close,Volume"@,
        1 <= k < content_lines(body).len(),
        csv_fields(content_lines(body)[k]).len() != 6,
    ensures
        stooq_result(body) matches Err(f) && f.0 == ProviderErrorKind::MalformedResponse,
{
    let rows = content_lines(body).skip(1);
    lemma_rows_ok(rows, stooq_row());
    assert(rows[k - 1] == content_lines(body)[k]);
    assert(stooq_row()(rows[k - 1]) is Err);
}

/// A Stooq row whose volume is blank or `-` gives a bar without volume.
pub proof fn law_stooq_blank_volume(line: Seq<char>)
    requires
        trim(csv_fields(line)[5]).len() == 0 || trim(csv_fields(line)[5]) == "-"@,
    ensures
        stooq_bar(line) matches Ok(b) ==> b.volume is None,
{
}

} // verus!
