//! The daily report: what it holds for each instrument, and its Markdown,
//! HTML and plain-text forms.
use crate::calendar::{chrono_ymd_text, Day};
use crate::config::{Config, InstrumentConfig};
use crate::models::{
    DataFreshness, MarketReport, ProviderErrorRecord, ReportInstrument, SignalAction,
};
use crate::services::provider_errors::{
    error_still_relevant, error_time_text, explanation, format_error_time, friendly_message,
    kind_label, kind_label_zh, provider_label, provider_label_zh, still_relevant,
};
use crate::services::signal_streak::{
    consecutive_action_streak, run_length, streak_hint, streak_hint_zh, streak_label,
    streak_label_zh,
};
use crate::text::{chars_of, equals, int_text, int_text_of, nat_text, nat_text_of, push_all, push_str, string_of};
use vstd::prelude::*;

verus! {

/// Each character replaced by its image under `f`.
pub open spec fn escaped(s: Seq<char>, f: spec_fn(char) -> Seq<char>) -> Seq<char>
    decreases s.len(),
{
    if s.len() == 0 {
        Seq::empty()
    } else {
        escaped(s.drop_last(), f) + f(s.last())
    }
}

/// In a Markdown table cell, `|` becomes `/` and a line break a space.
pub open spec fn md_char(c: char) -> Seq<char> {
    if c == '|' {
        seq!['/']
    } else if c == '\n' {
        seq![' ']
    } else {
        seq![c]
    }
}

/// In HTML text, `&`, `<`, `>` and `"` become entities.
pub open spec fn html_char(c: char) -> Seq<char> {
    if c == '&' {
        "&amp;"@
    } else if c == '<' {
        "&lt;"@
    } else if c == '>' {
        "&gt;"@
    } else if c == '"' {
        "&quot;"@
    } else {
        seq![c]
    }
}

pub open spec fn md_fn() -> spec_fn(char) -> Seq<char> {
    |c: char| md_char(c)
}

pub open spec fn html_fn() -> spec_fn(char) -> Seq<char> {
    |c: char| html_char(c)
}

pub open spec fn escape_md_text(s: Seq<char>) -> Seq<char> {
    escaped(s, md_fn())
}

pub open spec fn escape_html_text(s: Seq<char>) -> Seq<char> {
    escaped(s, html_fn())
}

fn escape_md_chars(s: &Vec<char>) -> (out: Vec<char>)
    ensures
        out@ == escape_md_text(s@),
{
    let mut out: Vec<char> = Vec::new();
    let mut i: usize = 0;
    assert(s@.take(0) == Seq::<char>::empty());
    while i < s.len()
        invariant
            i <= s@.len(),
            out@ == escape_md_text(s@.take(i as int)),
        decreases s@.len() - i,
    {
        let c = s[i];
        assert(s@.take(i + 1).drop_last() == s@.take(i as int));
        assert(s@.take(i + 1).last() == c);
        let ghost before = out@;
        if c == '|' {
            out.push('/');
        } else if c == '\n' {
            out.push(' ');
        } else {
            out.push(c);
        }
        assert(out@ =~= before + md_char(c));
        i = i + 1;
    }
    assert(s@.take(i as int) == s@);
    out
}

fn escape_html_chars(s: &Vec<char>) -> (out: Vec<char>)
    ensures
        out@ == escape_html_text(s@),
{
    let mut out: Vec<char> = Vec::new();
    let mut i: usize = 0;
    assert(s@.take(0) == Seq::<char>::empty());
    while i < s.len()
        invariant
            i <= s@.len(),
            out@ == escape_html_text(s@.take(i as int)),
        decreases s@.len() - i,
    {
        let c = s[i];
        assert(s@.take(i + 1).drop_last() == s@.take(i as int));
        assert(s@.take(i + 1).last() == c);
        let ghost before = out@;
        if c == '&' {
            push_str(&mut out, "&amp;");
        } else if c == '<' {
            push_str(&mut out, "&lt;");
        } else if c == '>' {
            push_str(&mut out, "&gt;");
        } else if c == '"' {
            push_str(&mut out, "&quot;");
        } else {
            out.push(c);
            assert(out@ =~= before + seq![c]);
        }
        i = i + 1;
    }
    assert(s@.take(i as int) == s@);
    out
}

/// Text for a Markdown table cell.
pub fn escape_md(value: &str) -> (s: String)
    ensures
        s@ == escape_md_text(value@),
{
    let v = chars_of(value);
    let out = escape_md_chars(&v);
    string_of(&out)
}

/// Text for HTML.
pub fn escape_html(value: &str) -> (s: String)
    ensures
        s@ == escape_html_text(value@),
{
    let v = chars_of(value);
    let out = escape_html_chars(&v);
    string_of(&out)
}

proof fn lemma_escaped_chars(s: Seq<char>, f: spec_fn(char) -> Seq<char>, bad: char)
    requires
        forall|c: char| !(#[trigger] f(c)).contains(bad),
    ensures
        !escaped(s, f).contains(bad),
    decreases s.len(),
{
    if s.len() > 0 {
        lemma_escaped_chars(s.drop_last(), f, bad);
        let a = escaped(s.drop_last(), f);
        let b = f(s.last());
        assert forall|i: int| 0 <= i < (a + b).len() implies (a + b)[i] != bad by {
            if i < a.len() {
                assert((a + b)[i] == a[i]);
                assert(!a.contains(bad));
            } else {
                assert((a + b)[i] == b[i - a.len()]);
                assert(!b.contains(bad));
            }
        }
    }
}

/// A cell escaped for a Markdown table holds no `|` and no line break, so it
/// stays within its column and row.
pub proof fn law_markdown_cell_stays_in_place(value: Seq<char>)
    ensures
        !escape_md_text(value).contains('|'),
        !escape_md_text(value).contains('\n'),
{
    assert forall|c: char| !(#[trigger] md_fn()(c)).contains('|') by {
        let t = md_fn()(c);
        assert(forall|k: int| 0 <= k < t.len() ==> t[k] != '|');
    }
    assert forall|c: char| !(#[trigger] md_fn()(c)).contains('\n') by {
        let t = md_fn()(c);
        assert(forall|k: int| 0 <= k < t.len() ==> t[k] != '\n');
    }
    lemma_escaped_chars(value, md_fn(), '|');
    lemma_escaped_chars(value, md_fn(), '\n');
}

/// Text escaped for HTML holds no `<`, `>` or `"`: it cannot open or close a
/// tag or an attribute.
pub proof fn law_html_text_opens_no_markup(value: Seq<char>)
    ensures
        !escape_html_text(value).contains('<'),
        !escape_html_text(value).contains('>'),
        !escape_html_text(value).contains('"'),
{
    reveal_strlit("&amp;");
    reveal_strlit("&lt;");
    reveal_strlit("&gt;");
    reveal_strlit("&quot;");
    assert forall|c: char| !(#[trigger] html_fn()(c)).contains('<') by {
        let t = html_fn()(c);
        assert(forall|k: int| 0 <= k < t.len() ==> t[k] != '<');
    }
    assert forall|c: char| !(#[trigger] html_fn()(c)).contains('>') by {
        let t = html_fn()(c);
        assert(forall|k: int| 0 <= k < t.len() ==> t[k] != '>');
    }
    assert forall|c: char| !(#[trigger] html_fn()(c)).contains('"') by {
        let t = html_fn()(c);
        assert(forall|k: int| 0 <= k < t.len() ==> t[k] != '"');
    }
    lemma_escaped_chars(value, html_fn(), '<');
    lemma_escaped_chars(value, html_fn(), '>');
    lemma_escaped_chars(value, html_fn(), '"');
}

/// The Chinese name of a stored action name.
pub open spec fn action_label(action: Seq<char>) -> Seq<char> {
    if action == "BUY"@ {
        "买入"@
    } else if action == "SELL"@ {
        "卖出"@
    } else if action == "HOLD"@ {
        "观望"@
    } else {
        "未知"@
    }
}

pub fn action_label_zh(action: &str) -> (s: &'static str)
    ensures
        s@ == action_label(action@),
{
    let a = chars_of(action);
    if equals(&a, "BUY") {
        "买入"
    } else if equals(&a, "SELL") {
        "卖出"
    } else if equals(&a, "HOLD") {
        "观望"
    } else {
        "未知"
    }
}

/// Background and text colour of an action's badge.
pub open spec fn badge_colors(action: Seq<char>) -> (Seq<char>, Seq<char>) {
    if action == "BUY"@ {
        ("#e8f5e9"@, "#2e7d32"@)
    } else if action == "SELL"@ {
        ("#ffebee"@, "#c62828"@)
    } else {
        ("#f5f5f5"@, "#616161"@)
    }
}

/// The coloured label of an action in the HTML table.
pub open spec fn badge(action: Seq<char>) -> Seq<char> {
    "<span style=\"display:inline-block;padding:2px 10px;border-radius:4px;font-size:13px;font-weight:600;background:"@
        + badge_colors(action).0 + ";color:"@ + badge_colors(action).1 + ";\">"@ + action_label(
        action,
    ) + "</span>"@
}

pub fn action_badge_html(action: &str) -> (s: String)
    ensures
        s@ == badge(action@),
{
    let a = chars_of(action);
    let label = action_label_zh(action);
    let (bg, color) = if equals(&a, "BUY") {
        ("#e8f5e9", "#2e7d32")
    } else if equals(&a, "SELL") {
        ("#ffebee", "#c62828")
    } else {
        ("#f5f5f5", "#616161")
    };
    let mut out = chars_of(
        "<span style=\"display:inline-block;padding:2px 10px;border-radius:4px;font-size:13px;font-weight:600;background:",
    );
    push_str(&mut out, bg);
    push_str(&mut out, ";color:");
    push_str(&mut out, color);
    push_str(&mut out, ";\">");
    push_str(&mut out, label);
    push_str(&mut out, "</span>");
    string_of(&out)
}

/// How many instruments carry the action name.
pub open spec fn count_action(items: Seq<ReportInstrument>, action: Seq<char>) -> nat
    decreases items.len(),
{
    if items.len() == 0 {
        0
    } else {
        count_action(items.drop_last(), action) + if items.last().action@ == action {
            1nat
        } else {
            0nat
        }
    }
}

proof fn lemma_count_bounded(items: Seq<ReportInstrument>, action: Seq<char>)
    ensures
        count_action(items, action) <= items.len(),
    decreases items.len(),
{
    if items.len() > 0 {
        lemma_count_bounded(items.drop_last(), action);
    }
}

fn count_of(items: &Vec<ReportInstrument>, action: &str) -> (n: usize)
    ensures
        n == count_action(items@, action@),
{
    let mut n: usize = 0;
    let mut i: usize = 0;
    assert(items@.take(0) == Seq::<ReportInstrument>::empty());
    while i < items.len()
        invariant
            i <= items@.len(),
            n == count_action(items@.take(i as int), action@),
        decreases items@.len() - i,
    {
        assert(items@.take(i + 1).drop_last() == items@.take(i as int));
        assert(items@.take(i + 1).last() == items@[i as int]);
        proof {
            lemma_count_bounded(items@.take(i as int), action@);
        }
        let a = chars_of(items[i].action.as_str());
        if equals(&a, action) {
            n = n + 1;
        }
        i = i + 1;
    }
    assert(items@.take(i as int) == items@);
    n
}

/// Buy, sell and hold signals among the report's instruments.
pub fn signal_counts(report: &MarketReport) -> (r: (usize, usize, usize))
    ensures
        r.0 == count_action(report.instruments@, "BUY"@),
        r.1 == count_action(report.instruments@, "SELL"@),
        r.2 == count_action(report.instruments@, "HOLD"@),
{
    (
        count_of(&report.instruments, "BUY"),
        count_of(&report.instruments, "SELL"),
        count_of(&report.instruments, "HOLD"),
    )
}

/// Each count is the number of instruments whose action is that name, so
/// the three never add up to more than the instruments listed.
pub proof fn law_counts_are_the_actions(items: Seq<ReportInstrument>)
    ensures
        count_action(items, "BUY"@) == items.filter(|i: ReportInstrument| i.action@ == "BUY"@).len(),
        count_action(items, "SELL"@) == items.filter(|i: ReportInstrument| i.action@ == "SELL"@).len(),
        count_action(items, "HOLD"@) == items.filter(|i: ReportInstrument| i.action@ == "HOLD"@).len(),
        count_action(items, "BUY"@) + count_action(items, "SELL"@) + count_action(items, "HOLD"@)
            <= items.len(),
    decreases items.len(),
{
    reveal_strlit("BUY");
    reveal_strlit("SELL");
    reveal_strlit("HOLD");
    assert("BUY"@[0] != "SELL"@[0] && "BUY"@[0] != "HOLD"@[0] && "SELL"@[0] != "HOLD"@[0]);
    if items.len() > 0 {
        let rest = items.drop_last();
        law_counts_are_the_actions(rest);
        assert(items == rest.push(items.last()));
        rest.lemma_filter_push(items.last(), |i: ReportInstrument| i.action@ == "BUY"@);
        rest.lemma_filter_push(items.last(), |i: ReportInstrument| i.action@ == "SELL"@);
        rest.lemma_filter_push(items.last(), |i: ReportInstrument| i.action@ == "HOLD"@);
    } else {
        assert(items.filter(|i: ReportInstrument| i.action@ == "BUY"@) =~= Seq::<ReportInstrument>::empty());
        assert(items.filter(|i: ReportInstrument| i.action@ == "SELL"@) =~= Seq::<ReportInstrument>::empty());
        assert(items.filter(|i: ReportInstrument| i.action@ == "HOLD"@) =~= Seq::<ReportInstrument>::empty());
    }
}

/// The rows of the items, one after another.
pub open spec fn rows<T>(items: Seq<T>, row: spec_fn(T) -> Seq<char>) -> Seq<char>
    decreases items.len(),
{
    if items.len() == 0 {
        Seq::empty()
    } else {
        rows(items.drop_last(), row) + row(items.last())
    }
}

pub proof fn lemma_rows_step<T>(items: Seq<T>, i: int, row: spec_fn(T) -> Seq<char>)
    requires
        0 <= i < items.len(),
    ensures
        rows(items.take(i + 1), row) == rows(items.take(i), row) + row(items[i]),
{
    assert(items.take(i + 1).drop_last() == items.take(i));
    assert(items.take(i + 1).last() == items[i]);
}

pub open spec fn close_cell(close: Option<String>) -> Seq<char> {
    match close {
        Some(t) => t@,
        None => "-"@,
    }
}

pub open spec fn date_cell(d: Option<Day>) -> Seq<char> {
    match d {
        Some(x) => chrono_ymd_text(x.index()),
        None => "-"@,
    }
}

pub open spec fn days_cell(d: Option<i64>) -> Seq<char> {
    match d {
        Some(n) => int_text(n as int),
        None => "-"@,
    }
}

/// The name of the last instrument with the id, or `-`.
pub open spec fn name_for(items: Seq<ReportInstrument>, id: Seq<char>) -> Seq<char>
    decreases items.len(),
{
    if items.len() == 0 {
        "-"@
    } else if items.last().instrument_id@ == id {
        items.last().name@
    } else {
        name_for(items.drop_last(), id)
    }
}

fn name_of(items: &Vec<ReportInstrument>, id: &str) -> (s: Vec<char>)
    ensures
        s@ == name_for(items@, id@),
{
    let mut i: usize = items.len();
    assert(items@.take(i as int) == items@);
    while i > 0
        invariant
            i <= items@.len(),
            name_for(items@, id@) == name_for(items@.take(i as int), id@),
        decreases i,
    {
        assert(items@.take(i as int).drop_last() == items@.take(i - 1));
        assert(items@.take(i as int).last() == items@[i - 1]);
        let item_id = chars_of(items[i - 1].instrument_id.as_str());
        if equals(&item_id, id) {
            return chars_of(items[i - 1].name.as_str());
        }
        i = i - 1;
    }
    assert(items@.take(0) == Seq::<ReportInstrument>::empty());
    chars_of("-")
}

fn close_text(close: &Option<String>) -> (s: Vec<char>)
    ensures
        s@ == close_cell(*close),
{
    match close {
        Some(t) => chars_of(t.as_str()),
        None => chars_of("-"),
    }
}

fn date_text(d: &Option<Day>) -> (s: Vec<char>)
    ensures
        s@ == date_cell(*d),
{
    match d {
        Some(x) => {
            let t = x.ymd_text();
            chars_of(t.as_str())
        },
        None => chars_of("-"),
    }
}

fn days_text(d: &Option<i64>) -> (s: Vec<char>)
    ensures
        s@ == days_cell(*d),
{
    match d {
        Some(n) => int_text_of(*n),
        None => chars_of("-"),
    }
}

pub open spec fn md_signal_row(i: ReportInstrument) -> Seq<char> {
    "| "@ + escape_md_text(i.instrument_id@) + " | "@ + escape_md_text(i.name@) + " | "@ + close_cell(
        i.latest_close_shown,
    ) + " | "@ + action_label(i.action@) + " | "@ + int_text(i.score as int) + " | "@
        + escape_md_text(i.reason@) + " |\n"@
}

pub open spec fn md_error_row(e: ProviderErrorRecord) -> Seq<char> {
    "| "@ + escape_md_text(provider_label(e.provider@)) + " | "@ + escape_md_text(e.instrument_id@)
        + " | "@ + escape_md_text(kind_label(e.kind@)) + " | "@ + escape_md_text(
        explanation(e.kind@, e.raw_message@),
    ) + " | "@ + escape_md_text(error_time_text(e.created_at@)) + " |\n"@
}

pub open spec fn md_fresh_row(items: Seq<ReportInstrument>, f: DataFreshness) -> Seq<char> {
    "| "@ + escape_md_text(f.instrument_id@) + " | "@ + escape_md_text(name_for(items, f.instrument_id@))
        + " | "@ + date_cell(f.latest_bar_date) + " | "@ + days_cell(f.days_behind) + " |\n"@
}

pub open spec fn md_signal_fn() -> spec_fn(ReportInstrument) -> Seq<char> {
    |i: ReportInstrument| md_signal_row(i)
}

pub open spec fn md_error_fn() -> spec_fn(ProviderErrorRecord) -> Seq<char> {
    |e: ProviderErrorRecord| md_error_row(e)
}

pub open spec fn md_fresh_fn(items: Seq<ReportInstrument>) -> spec_fn(DataFreshness) -> Seq<char> {
    |f: DataFreshness| md_fresh_row(items, f)
}

/// The overview: date, number of instruments, signal counts, error count.
pub open spec fn md_overview(r: MarketReport) -> Seq<char> {
    "# 市场行情日报\n\n"@ + "## 概览\n"@ + "- 报告日期："@ + chrono_ymd_text(r.report_date.index()) + "\n"@
        + "- 标的数量："@ + nat_text(r.instruments@.len()) + "\n"@
        + "- 信号统计（买入 / 卖出 / 观望）："@ + nat_text(count_action(r.instruments@, "BUY"@))
        + " / "@ + nat_text(count_action(r.instruments@, "SELL"@)) + " / "@ + nat_text(
        count_action(r.instruments@, "HOLD"@),
    ) + "\n"@ + "- 数据源错误："@ + nat_text(r.provider_errors@.len()) + "\n\n"@
}

pub open spec fn md_signals(r: MarketReport) -> Seq<char> {
    "## 交易信号\n\n"@ + "| 代码 | 名称 | 收盘价 | 信号 | 得分 | 说明 |\n"@
        + "| --- | --- | ---: | --- | ---: | --- |\n"@ + rows(r.instruments@, md_signal_fn())
}

pub open spec fn md_errors(r: MarketReport) -> Seq<char> {
    if r.provider_errors@.len() == 0 {
        "\n## 数据源错误\n\n"@ + "无需要关注的数据源错误（或已有足够新的行情，历史失败记录已忽略）。\n"@
    } else {
        "\n## 数据源错误\n\n"@ + "| 数据源 | 标的 | 类型 | 说明 | 时间 |\n"@
            + "| --- | --- | --- | --- | --- |\n"@ + rows(r.provider_errors@, md_error_fn())
    }
}

pub open spec fn md_freshness(r: MarketReport) -> Seq<char> {
    "\n## 数据新鲜度\n\n"@ + "| 代码 | 名称 | 最新行情日 | 滞后天数 |\n"@ + "| --- | --- | --- | ---: |\n"@
        + rows(r.freshness@, md_fresh_fn(r.instruments@)) + "\n"@ + r.disclaimer@ + "\n"@
}

/// The Markdown report.
pub open spec fn markdown_text(r: MarketReport) -> Seq<char> {
    md_overview(r) + md_signals(r) + md_errors(r) + md_freshness(r)
}

fn md_signal_line(i: &ReportInstrument) -> (out: Vec<char>)
    ensures
        out@ == md_signal_row(*i),
{
    let mut out = chars_of("| ");
    push_all(&mut out, &escape_md_chars(&chars_of(i.instrument_id.as_str())));
    push_str(&mut out, " | ");
    push_all(&mut out, &escape_md_chars(&chars_of(i.name.as_str())));
    push_str(&mut out, " | ");
    push_all(&mut out, &close_text(&i.latest_close_shown));
    push_str(&mut out, " | ");
    push_str(&mut out, action_label_zh(i.action.as_str()));
    push_str(&mut out, " | ");
    push_all(&mut out, &int_text_of(i.score as i64));
    push_str(&mut out, " | ");
    push_all(&mut out, &escape_md_chars(&chars_of(i.reason.as_str())));
    push_str(&mut out, " |\n");
    out
}

fn md_error_line(e: &ProviderErrorRecord) -> (out: Vec<char>)
    ensures
        out@ == md_error_row(*e),
{
    let mut out = chars_of("| ");
    push_all(&mut out, &escape_md_chars(&chars_of(provider_label_zh(e.provider.as_str()))));
    push_str(&mut out, " | ");
    push_all(&mut out, &escape_md_chars(&chars_of(e.instrument_id.as_str())));
    push_str(&mut out, " | ");
    push_all(&mut out, &escape_md_chars(&chars_of(kind_label_zh(e.kind.as_str()))));
    push_str(&mut out, " | ");
    let friendly = friendly_message(e.kind.as_str(), e.raw_message.as_str());
    push_all(&mut out, &escape_md_chars(&chars_of(friendly.as_str())));
    push_str(&mut out, " | ");
    let time = format_error_time(e.created_at.as_str());
    push_all(&mut out, &escape_md_chars(&chars_of(time.as_str())));
    push_str(&mut out, " |\n");
    out
}

fn md_fresh_line(items: &Vec<ReportInstrument>, f: &DataFreshness) -> (out: Vec<char>)
    ensures
        out@ == md_fresh_row(items@, *f),
{
    let mut out = chars_of("| ");
    push_all(&mut out, &escape_md_chars(&chars_of(f.instrument_id.as_str())));
    push_str(&mut out, " | ");
    push_all(&mut out, &escape_md_chars(&name_of(items, f.instrument_id.as_str())));
    push_str(&mut out, " | ");
    push_all(&mut out, &date_text(&f.latest_bar_date));
    push_str(&mut out, " | ");
    push_all(&mut out, &days_text(&f.days_behind));
    push_str(&mut out, " |\n");
    out
}

fn md_overview_text(r: &MarketReport) -> (out: Vec<char>)
    ensures
        out@ == md_overview(*r),
{
    let (buy, sell, hold) = signal_counts(r);
    let mut out = chars_of("# 市场行情日报\n\n");
    push_str(&mut out, "## 概览\n");
    push_str(&mut out, "- 报告日期：");
    push_str(&mut out, r.report_date.ymd_text().as_str());
    push_str(&mut out, "\n");
    push_str(&mut out, "- 标的数量：");
    push_all(&mut out, &nat_text_of(r.instruments.len() as u64));
    push_str(&mut out, "\n");
    push_str(&mut out, "- 信号统计（买入 / 卖出 / 观望）：");
    push_all(&mut out, &nat_text_of(buy as u64));
    push_str(&mut out, " / ");
    push_all(&mut out, &nat_text_of(sell as u64));
    push_str(&mut out, " / ");
    push_all(&mut out, &nat_text_of(hold as u64));
    push_str(&mut out, "\n");
    push_str(&mut out, "- 数据源错误：");
    push_all(&mut out, &nat_text_of(r.provider_errors.len() as u64));
    push_str(&mut out, "\n\n");
    out
}

fn md_signals_text(r: &MarketReport) -> (out: Vec<char>)
    ensures
        out@ == md_signals(*r),
{
    let items = &r.instruments;
    let mut body: Vec<char> = Vec::new();
    let mut i: usize = 0;
    assert(items@.take(0) == Seq::<ReportInstrument>::empty());
    while i < items.len()
        invariant
            i <= items@.len(),
            body@ == rows(items@.take(i as int), md_signal_fn()),
        decreases items@.len() - i,
    {
        proof {
            lemma_rows_step(items@, i as int, md_signal_fn());
        }
        let line = md_signal_line(&items[i]);
        push_all(&mut body, &line);
        i = i + 1;
    }
    assert(items@.take(i as int) == items@);
    let mut out = chars_of("## 交易信号\n\n");
    push_str(&mut out, "| 代码 | 名称 | 收盘价 | 信号 | 得分 | 说明 |\n");
    push_str(&mut out, "| --- | --- | ---: | --- | ---: | --- |\n");
    push_all(&mut out, &body);
    out
}

fn md_errors_text(r: &MarketReport) -> (out: Vec<char>)
    ensures
        out@ == md_errors(*r),
{
    let errors = &r.provider_errors;
    let mut out = chars_of("\n## 数据源错误\n\n");
    if errors.len() == 0 {
        push_str(&mut out, "无需要关注的数据源错误（或已有足够新的行情，历史失败记录已忽略）。\n");
        return out;
    }
    let mut body: Vec<char> = Vec::new();
    let mut i: usize = 0;
    assert(errors@.take(0) == Seq::<ProviderErrorRecord>::empty());
    while i < errors.len()
        invariant
            i <= errors@.len(),
            body@ == rows(errors@.take(i as int), md_error_fn()),
        decreases errors@.len() - i,
    {
        proof {
            lemma_rows_step(errors@, i as int, md_error_fn());
        }
        let line = md_error_line(&errors[i]);
        push_all(&mut body, &line);
        i = i + 1;
    }
    assert(errors@.take(i as int) == errors@);
    push_str(&mut out, "| 数据源 | 标的 | 类型 | 说明 | 时间 |\n");
    push_str(&mut out, "| --- | --- | --- | --- | --- |\n");
    push_all(&mut out, &body);
    out
}

fn md_freshness_text(r: &MarketReport) -> (out: Vec<char>)
    ensures
        out@ == md_freshness(*r),
{
    let items = &r.freshness;
    let mut body: Vec<char> = Vec::new();
    let mut i: usize = 0;
    assert(items@.take(0) == Seq::<DataFreshness>::empty());
    while i < items.len()
        invariant
            i <= items@.len(),
            body@ == rows(items@.take(i as int), md_fresh_fn(r.instruments@)),
        decreases items@.len() - i,
    {
        proof {
            lemma_rows_step(items@, i as int, md_fresh_fn(r.instruments@));
        }
        let line = md_fresh_line(&r.instruments, &items[i]);
        push_all(&mut body, &line);
        i = i + 1;
    }
    assert(items@.take(i as int) == items@);
    let mut out = chars_of("\n## 数据新鲜度\n\n");
    push_str(&mut out, "| 代码 | 名称 | 最新行情日 | 滞后天数 |\n");
    push_str(&mut out, "| --- | --- | --- | ---: |\n");
    push_all(&mut out, &body);
    push_str(&mut out, "\n");
    push_str(&mut out, r.disclaimer.as_str());
    push_str(&mut out, "\n");
    out
}

/// The report as Markdown: overview, signal table, errors, data freshness,
/// and the disclaimer.
pub fn render_markdown(report: &MarketReport) -> (s: String)
    ensures
        s@ == markdown_text(*report),
{
    let mut out = md_overview_text(report);
    push_all(&mut out, &md_signals_text(report));
    push_all(&mut out, &md_errors_text(report));
    push_all(&mut out, &md_freshness_text(report));
    string_of(&out)
}

pub open spec fn html_signal_row(i: ReportInstrument) -> Seq<char> {
    "<tr>\n<td style=\"padding:8px;border-bottom:1px solid #eee;\">"@ + escape_html_text(i.instrument_id@) + "</td>\n<td style=\"padding:8px;border-bottom:1px solid #eee;\">"@ + escape_html_text(i.name@) + "</td>\n<td style=\"padding:8px;border-bottom:1px solid #eee;text-align:right;\">"@ + escape_html_text(close_cell(i.latest_close_shown)) + "</td>\n<td style=\"padding:8px;border-bottom:1px solid #eee;text-align:center;\">"@ + badge(i.action@) + "</td>\n<td style=\"padding:8px;border-bottom:1px solid #eee;text-align:right;\">"@ + int_text(i.score as int) + "</td>\n<td style=\"padding:8px;border-bottom:1px solid #eee;color:#555;\">"@ + escape_html_text(i.reason@) + "</td>\n</tr>\n"@
}

pub open spec fn html_error_row(e: ProviderErrorRecord) -> Seq<char> {
    "<tr>\n<td style=\"padding:8px;border-bottom:1px solid #eee;\">"@ + escape_html_text(provider_label(e.provider@)) + "</td>\n<td style=\"padding:8px;border-bottom:1px solid #eee;\">"@ + escape_html_text(e.instrument_id@) + "</td>\n<td style=\"padding:8px;border-bottom:1px solid #eee;\">"@ + escape_html_text(kind_label(e.kind@)) + "</td>\n<td style=\"padding:8px;border-bottom:1px solid #eee;color:#555;\">"@ + escape_html_text(explanation(e.kind@, e.raw_message@)) + "</td>\n<td style=\"padding:8px;border-bottom:1px solid #eee;white-space:nowrap;\">"@ + escape_html_text(error_time_text(e.created_at@)) + "</td>\n</tr>\n"@
}

pub open spec fn html_fresh_row(items: Seq<ReportInstrument>, f: DataFreshness) -> Seq<char> {
    "<tr>\n<td style=\"padding:8px;border-bottom:1px solid #eee;\">"@ + escape_html_text(f.instrument_id@) + "</td>\n<td style=\"padding:8px;border-bottom:1px solid #eee;\">"@ + escape_html_text(name_for(items, f.instrument_id@)) + "</td>\n<td style=\"padding:8px;border-bottom:1px solid #eee;\">"@ + escape_html_text(date_cell(f.latest_bar_date)) + "</td>\n<td style=\"padding:8px;border-bottom:1px solid #eee;text-align:right;\">"@ + escape_html_text(days_cell(f.days_behind)) + "</td>\n</tr>\n"@
}

pub open spec fn html_signal_fn() -> spec_fn(ReportInstrument) -> Seq<char> {
    |i: ReportInstrument| html_signal_row(i)
}

pub open spec fn html_error_fn() -> spec_fn(ProviderErrorRecord) -> Seq<char> {
    |e: ProviderErrorRecord| html_error_row(e)
}

pub open spec fn html_fresh_fn(items: Seq<ReportInstrument>) -> spec_fn(DataFreshness) -> Seq<char> {
    |f: DataFreshness| html_fresh_row(items, f)
}

/// The page head, the title and the overview list.
pub open spec fn html_head(r: MarketReport) -> Seq<char> {
    "<!DOCTYPE html>\n<html lang=\"zh-CN\">\n<head>\n<meta charset=\"utf-8\">\n<meta name=\"viewport\" content=\"width=device-width, initial-scale=1\">\n<title>市场行情日报</title>\n</head>\n<body style=\"margin:0;padding:16px;font-family:-apple-system,BlinkMacSystemFont,'Segoe UI',Roboto,'Helvetica Neue',Arial,sans-serif;font-size:15px;line-height:1.5;color:#1a1a1a;background:#f5f5f5;\">\n<div style=\"max-width:720px;margin:0 auto;background:#fff;border-radius:8px;padding:20px 24px;box-shadow:0 1px 3px rgba(0,0,0,.08);\">\n"@ + "<h1 style=\"margin:0 0 16px;font-size:22px;font-weight:600;color:#111;\">市场行情日报</h1>\n"@ + "<h2 style=\"margin:24px 0 12px;font-size:17px;font-weight:600;color:#333;border-bottom:1px solid #eee;padding-bottom:6px;\">概览</h2>\n<ul style=\"margin:0;padding-left:20px;color:#444;\">\n"@ + "<li>报告日期："@ + escape_html_text(chrono_ymd_text(r.report_date.index())) + "</li>\n"@
        + "<li>标的数量："@ + nat_text(r.instruments@.len()) + "</li>\n"@
        + "<li>信号统计（买入 / 卖出 / 观望）："@ + nat_text(count_action(r.instruments@, "BUY"@)) + " / "@
        + nat_text(count_action(r.instruments@, "SELL"@)) + " / "@ + nat_text(count_action(r.instruments@, "HOLD"@))
        + "</li>\n"@ + "<li>数据源错误："@ + nat_text(r.provider_errors@.len()) + "</li>\n"@ + "</ul>\n"@
}

pub open spec fn html_signals(r: MarketReport) -> Seq<char> {
    "<h2 style=\"margin:24px 0 12px;font-size:17px;font-weight:600;color:#333;border-bottom:1px solid #eee;padding-bottom:6px;\">交易信号</h2>\n<table style=\"width:100%;border-collapse:collapse;font-size:14px;\">\n<thead>\n<tr style=\"background:#f8f9fa;\">\n<th style=\"text-align:left;padding:10px 8px;border-bottom:2px solid #dee2e6;\">代码</th>\n<th style=\"text-align:left;padding:10px 8px;border-bottom:2px solid #dee2e6;\">名称</th>\n<th style=\"text-align:right;padding:10px 8px;border-bottom:2px solid #dee2e6;\">收盘价</th>\n<th style=\"text-align:center;padding:10px 8px;border-bottom:2px solid #dee2e6;\">信号</th>\n<th style=\"text-align:right;padding:10px 8px;border-bottom:2px solid #dee2e6;\">得分</th>\n<th style=\"text-align:left;padding:10px 8px;border-bottom:2px solid #dee2e6;\">说明</th>\n</tr>\n</thead>\n<tbody>\n"@ + rows(r.instruments@, html_signal_fn()) + "</tbody></table>\n"@
}

pub open spec fn html_errors(r: MarketReport) -> Seq<char> {
    if r.provider_errors@.len() == 0 {
        "<h2 style=\"margin:24px 0 12px;font-size:17px;font-weight:600;color:#333;border-bottom:1px solid #eee;padding-bottom:6px;\">数据源错误</h2>\n"@ + "<p style=\"margin:0;color:#666;\">无需要关注的数据源错误（或已有足够新的行情，历史失败记录已忽略）。</p>\n"@
    } else {
        "<h2 style=\"margin:24px 0 12px;font-size:17px;font-weight:600;color:#333;border-bottom:1px solid #eee;padding-bottom:6px;\">数据源错误</h2>\n"@ + "<table style=\"width:100%;border-collapse:collapse;font-size:14px;\">\n<thead><tr style=\"background:#f8f9fa;\">\n<th style=\"text-align:left;padding:10px 8px;border-bottom:2px solid #dee2e6;\">数据源</th>\n<th style=\"text-align:left;padding:10px 8px;border-bottom:2px solid #dee2e6;\">标的</th>\n<th style=\"text-align:left;padding:10px 8px;border-bottom:2px solid #dee2e6;\">类型</th>\n<th style=\"text-align:left;padding:10px 8px;border-bottom:2px solid #dee2e6;\">说明</th>\n<th style=\"text-align:left;padding:10px 8px;border-bottom:2px solid #dee2e6;\">时间</th>\n</tr></thead><tbody>\n"@ + rows(r.provider_errors@, html_error_fn()) + "</tbody></table>\n"@
    }
}

pub open spec fn html_freshness(r: MarketReport) -> Seq<char> {
    "<h2 style=\"margin:24px 0 12px;font-size:17px;font-weight:600;color:#333;border-bottom:1px solid #eee;padding-bottom:6px;\">数据新鲜度</h2>\n<table style=\"width:100%;border-collapse:collapse;font-size:14px;\">\n<thead><tr style=\"background:#f8f9fa;\">\n<th style=\"text-align:left;padding:10px 8px;border-bottom:2px solid #dee2e6;\">代码</th>\n<th style=\"text-align:left;padding:10px 8px;border-bottom:2px solid #dee2e6;\">名称</th>\n<th style=\"text-align:left;padding:10px 8px;border-bottom:2px solid #dee2e6;\">最新行情日</th>\n<th style=\"text-align:right;padding:10px 8px;border-bottom:2px solid #dee2e6;\">滞后天数</th>\n</tr></thead><tbody>\n"@ + rows(r.freshness@, html_fresh_fn(r.instruments@)) + "</tbody></table>\n"@
}

pub open spec fn html_footer(r: MarketReport) -> Seq<char> {
    "<p style=\"margin:24px 0 0;font-size:12px;color:#888;line-height:1.4;\">"@ + escape_html_text(r.disclaimer@) + "</p>\n</div>\n</body>\n</html>"@
}

/// The report as an HTML page: overview, signal table with coloured badges,
/// errors, data freshness, and the disclaimer.
pub open spec fn html_text(r: MarketReport) -> Seq<char> {
    html_head(r) + html_signals(r) + html_errors(r) + html_freshness(r) + html_footer(r)
}

fn html_signal_line(i: &ReportInstrument) -> (out: Vec<char>)
    ensures
        out@ == html_signal_row(*i),
{
    let mut out = chars_of("<tr>\n<td style=\"padding:8px;border-bottom:1px solid #eee;\">");
    push_all(&mut out, &escape_html_chars(&chars_of(i.instrument_id.as_str())));
    push_str(&mut out, "</td>\n<td style=\"padding:8px;border-bottom:1px solid #eee;\">");
    push_all(&mut out, &escape_html_chars(&chars_of(i.name.as_str())));
    push_str(&mut out, "</td>\n<td style=\"padding:8px;border-bottom:1px solid #eee;text-align:right;\">");
    push_all(&mut out, &escape_html_chars(&close_text(&i.latest_close_shown)));
    push_str(&mut out, "</td>\n<td style=\"padding:8px;border-bottom:1px solid #eee;text-align:center;\">");
    push_str(&mut out, action_badge_html(i.action.as_str()).as_str());
    push_str(&mut out, "</td>\n<td style=\"padding:8px;border-bottom:1px solid #eee;text-align:right;\">");
    push_all(&mut out, &int_text_of(i.score as i64));
    push_str(&mut out, "</td>\n<td style=\"padding:8px;border-bottom:1px solid #eee;color:#555;\">");
    push_all(&mut out, &escape_html_chars(&chars_of(i.reason.as_str())));
    push_str(&mut out, "</td>\n</tr>\n");
    out
}

fn html_error_line(e: &ProviderErrorRecord) -> (out: Vec<char>)
    ensures
        out@ == html_error_row(*e),
{
    let mut out = chars_of("<tr>\n<td style=\"padding:8px;border-bottom:1px solid #eee;\">");
    push_all(&mut out, &escape_html_chars(&chars_of(provider_label_zh(e.provider.as_str()))));
    push_str(&mut out, "</td>\n<td style=\"padding:8px;border-bottom:1px solid #eee;\">");
    push_all(&mut out, &escape_html_chars(&chars_of(e.instrument_id.as_str())));
    push_str(&mut out, "</td>\n<td style=\"padding:8px;border-bottom:1px solid #eee;\">");
    push_all(&mut out, &escape_html_chars(&chars_of(kind_label_zh(e.kind.as_str()))));
    push_str(&mut out, "</td>\n<td style=\"padding:8px;border-bottom:1px solid #eee;color:#555;\">");
    push_all(&mut out, &escape_html_chars(&chars_of(friendly_message(e.kind.as_str(), e.raw_message.as_str()).as_str())));
    push_str(&mut out, "</td>\n<td style=\"padding:8px;border-bottom:1px solid #eee;white-space:nowrap;\">");
    push_all(&mut out, &escape_html_chars(&chars_of(format_error_time(e.created_at.as_str()).as_str())));
    push_str(&mut out, "</td>\n</tr>\n");
    out
}

fn html_fresh_line(items: &Vec<ReportInstrument>, f: &DataFreshness) -> (out: Vec<char>)
    ensures
        out@ == html_fresh_row(items@, *f),
{
    let mut out = chars_of("<tr>\n<td style=\"padding:8px;border-bottom:1px solid #eee;\">");
    push_all(&mut out, &escape_html_chars(&chars_of(f.instrument_id.as_str())));
    push_str(&mut out, "</td>\n<td style=\"padding:8px;border-bottom:1px solid #eee;\">");
    push_all(&mut out, &escape_html_chars(&name_of(items, f.instrument_id.as_str())));
    push_str(&mut out, "</td>\n<td style=\"padding:8px;border-bottom:1px solid #eee;\">");
    push_all(&mut out, &escape_html_chars(&date_text(&f.latest_bar_date)));
    push_str(&mut out, "</td>\n<td style=\"padding:8px;border-bottom:1px solid #eee;text-align:right;\">");
    push_all(&mut out, &escape_html_chars(&days_text(&f.days_behind)));
    push_str(&mut out, "</td>\n</tr>\n");
    out
}

fn html_head_text(r: &MarketReport) -> (out: Vec<char>)
    ensures
        out@ == html_head(*r),
{
    let (buy, sell, hold) = signal_counts(r);
    let mut out = chars_of("<!DOCTYPE html>\n<html lang=\"zh-CN\">\n<head>\n<meta charset=\"utf-8\">\n<meta name=\"viewport\" content=\"width=device-width, initial-scale=1\">\n<title>市场行情日报</title>\n</head>\n<body style=\"margin:0;padding:16px;font-family:-apple-system,BlinkMacSystemFont,'Segoe UI',Roboto,'Helvetica Neue',Arial,sans-serif;font-size:15px;line-height:1.5;color:#1a1a1a;background:#f5f5f5;\">\n<div style=\"max-width:720px;margin:0 auto;background:#fff;border-radius:8px;padding:20px 24px;box-shadow:0 1px 3px rgba(0,0,0,.08);\">\n");
    push_str(&mut out, "<h1 style=\"margin:0 0 16px;font-size:22px;font-weight:600;color:#111;\">市场行情日报</h1>\n");
    push_str(&mut out, "<h2 style=\"margin:24px 0 12px;font-size:17px;font-weight:600;color:#333;border-bottom:1px solid #eee;padding-bottom:6px;\">概览</h2>\n<ul style=\"margin:0;padding-left:20px;color:#444;\">\n");
    push_str(&mut out, "<li>报告日期：");
    push_all(&mut out, &escape_html_chars(&chars_of(r.report_date.ymd_text().as_str())));
    push_str(&mut out, "</li>\n");
    push_str(&mut out, "<li>标的数量：");
    push_all(&mut out, &nat_text_of(r.instruments.len() as u64));
    push_str(&mut out, "</li>\n");
    push_str(&mut out, "<li>信号统计（买入 / 卖出 / 观望）：");
    push_all(&mut out, &nat_text_of(buy as u64));
    push_str(&mut out, " / ");
    push_all(&mut out, &nat_text_of(sell as u64));
    push_str(&mut out, " / ");
    push_all(&mut out, &nat_text_of(hold as u64));
    push_str(&mut out, "</li>\n");
    push_str(&mut out, "<li>数据源错误：");
    push_all(&mut out, &nat_text_of(r.provider_errors.len() as u64));
    push_str(&mut out, "</li>\n");
    push_str(&mut out, "</ul>\n");
    out
}

fn html_signals_text(r: &MarketReport) -> (out: Vec<char>)
    ensures
        out@ == html_signals(*r),
{
    let items = &r.instruments;
    let mut body: Vec<char> = Vec::new();
    let mut i: usize = 0;
    assert(items@.take(0) == Seq::<ReportInstrument>::empty());
    while i < items.len()
        invariant
            i <= items@.len(),
            body@ == rows(items@.take(i as int), html_signal_fn()),
        decreases items@.len() - i,
    {
        proof {
            lemma_rows_step(items@, i as int, html_signal_fn());
        }
        let line = html_signal_line(&items[i]);
        push_all(&mut body, &line);
        i = i + 1;
    }
    assert(items@.take(i as int) == items@);
    let mut out = chars_of("<h2 style=\"margin:24px 0 12px;font-size:17px;font-weight:600;color:#333;border-bottom:1px solid #eee;padding-bottom:6px;\">交易信号</h2>\n<table style=\"width:100%;border-collapse:collapse;font-size:14px;\">\n<thead>\n<tr style=\"background:#f8f9fa;\">\n<th style=\"text-align:left;padding:10px 8px;border-bottom:2px solid #dee2e6;\">代码</th>\n<th style=\"text-align:left;padding:10px 8px;border-bottom:2px solid #dee2e6;\">名称</th>\n<th style=\"text-align:right;padding:10px 8px;border-bottom:2px solid #dee2e6;\">收盘价</th>\n<th style=\"text-align:center;padding:10px 8px;border-bottom:2px solid #dee2e6;\">信号</th>\n<th style=\"text-align:right;padding:10px 8px;border-bottom:2px solid #dee2e6;\">得分</th>\n<th style=\"text-align:left;padding:10px 8px;border-bottom:2px solid #dee2e6;\">说明</th>\n</tr>\n</thead>\n<tbody>\n");
    push_all(&mut out, &body);
    push_str(&mut out, "</tbody></table>\n");
    out
}

fn html_errors_text(r: &MarketReport) -> (out: Vec<char>)
    ensures
        out@ == html_errors(*r),
{
    let errors = &r.provider_errors;
    let mut out = chars_of("<h2 style=\"margin:24px 0 12px;font-size:17px;font-weight:600;color:#333;border-bottom:1px solid #eee;padding-bottom:6px;\">数据源错误</h2>\n");
    if errors.len() == 0 {
        push_str(&mut out, "<p style=\"margin:0;color:#666;\">无需要关注的数据源错误（或已有足够新的行情，历史失败记录已忽略）。</p>\n");
        return out;
    }
    let mut body: Vec<char> = Vec::new();
    let mut i: usize = 0;
    assert(errors@.take(0) == Seq::<ProviderErrorRecord>::empty());
    while i < errors.len()
        invariant
            i <= errors@.len(),
            body@ == rows(errors@.take(i as int), html_error_fn()),
        decreases errors@.len() - i,
    {
        proof {
            lemma_rows_step(errors@, i as int, html_error_fn());
        }
        let line = html_error_line(&errors[i]);
        push_all(&mut body, &line);
        i = i + 1;
    }
    assert(errors@.take(i as int) == errors@);
    push_str(&mut out, "<table style=\"width:100%;border-collapse:collapse;font-size:14px;\">\n<thead><tr style=\"background:#f8f9fa;\">\n<th style=\"text-align:left;padding:10px 8px;border-bottom:2px solid #dee2e6;\">数据源</th>\n<th style=\"text-align:left;padding:10px 8px;border-bottom:2px solid #dee2e6;\">标的</th>\n<th style=\"text-align:left;padding:10px 8px;border-bottom:2px solid #dee2e6;\">类型</th>\n<th style=\"text-align:left;padding:10px 8px;border-bottom:2px solid #dee2e6;\">说明</th>\n<th style=\"text-align:left;padding:10px 8px;border-bottom:2px solid #dee2e6;\">时间</th>\n</tr></thead><tbody>\n");
    push_all(&mut out, &body);
    push_str(&mut out, "</tbody></table>\n");
    out
}

fn html_freshness_text(r: &MarketReport) -> (out: Vec<char>)
    ensures
        out@ == html_freshness(*r),
{
    let items = &r.freshness;
    let mut body: Vec<char> = Vec::new();
    let mut i: usize = 0;
    assert(items@.take(0) == Seq::<DataFreshness>::empty());
    while i < items.len()
        invariant
            i <= items@.len(),
            body@ == rows(items@.take(i as int), html_fresh_fn(r.instruments@)),
        decreases items@.len() - i,
    {
        proof {
            lemma_rows_step(items@, i as int, html_fresh_fn(r.instruments@));
        }
        let line = html_fresh_line(&r.instruments, &items[i]);
        push_all(&mut body, &line);
        i = i + 1;
    }
    assert(items@.take(i as int) == items@);
    let mut out = chars_of("<h2 style=\"margin:24px 0 12px;font-size:17px;font-weight:600;color:#333;border-bottom:1px solid #eee;padding-bottom:6px;\">数据新鲜度</h2>\n<table style=\"width:100%;border-collapse:collapse;font-size:14px;\">\n<thead><tr style=\"background:#f8f9fa;\">\n<th style=\"text-align:left;padding:10px 8px;border-bottom:2px solid #dee2e6;\">代码</th>\n<th style=\"text-align:left;padding:10px 8px;border-bottom:2px solid #dee2e6;\">名称</th>\n<th style=\"text-align:left;padding:10px 8px;border-bottom:2px solid #dee2e6;\">最新行情日</th>\n<th style=\"text-align:right;padding:10px 8px;border-bottom:2px solid #dee2e6;\">滞后天数</th>\n</tr></thead><tbody>\n");
    push_all(&mut out, &body);
    push_str(&mut out, "</tbody></table>\n");
    out
}

fn html_footer_text(r: &MarketReport) -> (out: Vec<char>)
    ensures
        out@ == html_footer(*r),
{
    let mut out = chars_of("<p style=\"margin:24px 0 0;font-size:12px;color:#888;line-height:1.4;\">");
    push_all(&mut out, &escape_html_chars(&chars_of(r.disclaimer.as_str())));
    push_str(&mut out, "</p>\n</div>\n</body>\n</html>");
    out
}

/// The report as an HTML e-mail body.
pub fn render_html(report: &MarketReport) -> (s: String)
    ensures
        s@ == html_text(*report),
{
    let mut out = html_head_text(report);
    push_all(&mut out, &html_signals_text(report));
    push_all(&mut out, &html_errors_text(report));
    push_all(&mut out, &html_freshness_text(report));
    push_all(&mut out, &html_footer_text(report));
    string_of(&out)
}

/// The plain-text part of the report e-mail: a short summary.
pub open spec fn plain_email_text(r: MarketReport) -> Seq<char> {
    "市场行情日报\n\n报告日期："@ + chrono_ymd_text(r.report_date.index()) + "\n标的数量："@ + nat_text(
        r.instruments@.len(),
    ) + "\n信号：买入 "@ + nat_text(count_action(r.instruments@, "BUY"@)) + " / 卖出 "@ + nat_text(
        count_action(r.instruments@, "SELL"@),
    ) + " / 观望 "@ + nat_text(count_action(r.instruments@, "HOLD"@)) + "\n数据源错误："@ + nat_text(
        r.provider_errors@.len(),
    ) + "\n\n请使用支持 HTML 的邮件客户端查看完整表格。\n\n"@ + r.disclaimer@
}

pub fn render_plain_email(report: &MarketReport) -> (s: String)
    ensures
        s@ == plain_email_text(*report),
{
    let (buy, sell, hold) = signal_counts(report);
    let mut out = chars_of("市场行情日报\n\n报告日期：");
    push_str(&mut out, report.report_date.ymd_text().as_str());
    push_str(&mut out, "\n标的数量：");
    push_all(&mut out, &nat_text_of(report.instruments.len() as u64));
    push_str(&mut out, "\n信号：买入 ");
    push_all(&mut out, &nat_text_of(buy as u64));
    push_str(&mut out, " / 卖出 ");
    push_all(&mut out, &nat_text_of(sell as u64));
    push_str(&mut out, " / 观望 ");
    push_all(&mut out, &nat_text_of(hold as u64));
    push_str(&mut out, "\n数据源错误：");
    push_all(&mut out, &nat_text_of(report.provider_errors.len() as u64));
    push_str(&mut out, "\n\n请使用支持 HTML 的邮件客户端查看完整表格。\n\n");
    push_str(&mut out, report.disclaimer.as_str());
    string_of(&out)
}

/// The stored errors that a report on `report_date` lists: those of
/// instruments without bars from the last two days before it.  Each error
/// comes with the latest bar date of its instrument.
pub open spec fn relevant(candidates: Seq<(ProviderErrorRecord, Option<Day>)>, report_date: Day) -> Seq<ProviderErrorRecord>
    decreases candidates.len(),
{
    if candidates.len() == 0 {
        Seq::empty()
    } else {
        let rest = relevant(candidates.drop_last(), report_date);
        if still_relevant(candidates.last().1, report_date) {
            rest.push(candidates.last().0)
        } else {
            rest
        }
    }
}

pub open spec fn record_view(e: ProviderErrorRecord) -> (Seq<char>, Seq<char>, Seq<char>, Seq<char>, Seq<char>) {
    (e.provider@, e.instrument_id@, e.kind@, e.raw_message@, e.created_at@)
}

pub open spec fn record_views(s: Seq<ProviderErrorRecord>) -> Seq<(Seq<char>, Seq<char>, Seq<char>, Seq<char>, Seq<char>)> {
    s.map_values(|e: ProviderErrorRecord| record_view(e))
}

fn copy_record(e: &ProviderErrorRecord) -> (c: ProviderErrorRecord)
    ensures
        record_view(c) == record_view(*e),
{
    ProviderErrorRecord {
        provider: e.provider.clone(),
        instrument_id: e.instrument_id.clone(),
        kind: e.kind.clone(),
        raw_message: e.raw_message.clone(),
        created_at: e.created_at.clone(),
    }
}

pub fn filter_relevant_provider_errors(
    candidates: &Vec<(ProviderErrorRecord, Option<Day>)>,
    report_date: Day,
) -> (r: Vec<ProviderErrorRecord>)
    ensures
        record_views(r@) == record_views(relevant(candidates@, report_date)),
{
    let mut out: Vec<ProviderErrorRecord> = Vec::new();
    let mut i: usize = 0;
    assert(candidates@.take(0) == Seq::<(ProviderErrorRecord, Option<Day>)>::empty());
    assert(record_views(out@) == record_views(relevant(candidates@.take(0), report_date)));
    while i < candidates.len()
        invariant
            i <= candidates@.len(),
            record_views(out@) == record_views(relevant(candidates@.take(i as int), report_date)),
        decreases candidates@.len() - i,
    {
        assert(candidates@.take(i + 1).drop_last() == candidates@.take(i as int));
        assert(candidates@.take(i + 1).last() == candidates@[i as int]);
        let ghost before = out@;
        let ghost prev = relevant(candidates@.take(i as int), report_date);
        if error_still_relevant(candidates[i].1, report_date) {
            let c = copy_record(&candidates[i].0);
            out.push(c);
            assert(record_views(out@) =~= record_views(before).push(record_view(c)));
            assert(record_views(prev.push(candidates@[i as int].0)) =~= record_views(prev).push(
                record_view(candidates@[i as int].0),
            ));
        }
        i = i + 1;
    }
    assert(candidates@.take(i as int) == candidates@);
    out
}

/// Whether a stored error of an instrument whose latest bar is `latest` is
/// stale for a report on `report_date`: no bar, or none from the last two
/// days before it.
pub open spec fn stale_for(report_date: Day) -> spec_fn((ProviderErrorRecord, Option<Day>)) -> bool {
    |c: (ProviderErrorRecord, Option<Day>)| !(c.1 matches Some(d) && report_date.index() - d.index() <= 2)
}

/// A report lists, in their order, exactly the errors of instruments that
/// have no bar from the two days before the report date.
pub proof fn law_listed_errors_are_the_stale_ones(
    candidates: Seq<(ProviderErrorRecord, Option<Day>)>,
    report_date: Day,
)
    ensures
        relevant(candidates, report_date) == candidates.filter(stale_for(report_date)).map_values(
            |c: (ProviderErrorRecord, Option<Day>)| c.0,
        ),
    decreases candidates.len(),
{
    if candidates.len() > 0 {
        let rest = candidates.drop_last();
        law_listed_errors_are_the_stale_ones(rest, report_date);
        assert(candidates == rest.push(candidates.last()));
        rest.lemma_filter_push(candidates.last(), stale_for(report_date));
        assert(relevant(candidates, report_date) =~= candidates.filter(stale_for(report_date)).map_values(
            |c: (ProviderErrorRecord, Option<Day>)| c.0,
        ));
    } else {
        assert(candidates.filter(stale_for(report_date)) =~= Seq::<(ProviderErrorRecord, Option<Day>)>::empty());
        assert(relevant(candidates, report_date) =~= candidates.filter(stale_for(report_date)).map_values(
            |c: (ProviderErrorRecord, Option<Day>)| c.0,
        ));
    }
}

/// What the store holds of an instrument's latest signal.  The close comes
/// twice: as decimal text, and with four decimals as the tables show it.
#[derive(Debug)]
pub struct StoredSignal {
    pub trade_date: Day,
    pub action: SignalAction,
    pub score: i32,
    pub reasons: Vec<String>,
    pub source: String,
    pub close: String,
    pub close_shown: String,
}

/// What the store holds of an instrument for a report: its latest signal,
/// the actions of its recent signals (latest first), and its latest bar date.
#[derive(Debug)]
pub struct InstrumentRecord {
    pub latest_signal: Option<StoredSignal>,
    pub recent_actions: Vec<SignalAction>,
    pub latest_bar_date: Option<Day>,
}

/// The parts joined with `sep` between them.
pub open spec fn joined(parts: Seq<String>, sep: Seq<char>) -> Seq<char>
    decreases parts.len(),
{
    if parts.len() == 0 {
        Seq::empty()
    } else if parts.len() == 1 {
        parts[0]@
    } else {
        joined(parts.drop_last(), sep) + sep + parts.last()@
    }
}

fn join_parts(parts: &Vec<String>, sep: &str) -> (s: String)
    ensures
        s@ == joined(parts@, sep@),
{
    let mut out: Vec<char> = Vec::new();
    let mut i: usize = 0;
    assert(parts@.take(0) == Seq::<String>::empty());
    while i < parts.len()
        invariant
            i <= parts@.len(),
            out@ == joined(parts@.take(i as int), sep@),
        decreases parts@.len() - i,
    {
        assert(parts@.take(i + 1).drop_last() == parts@.take(i as int));
        assert(parts@.take(i + 1).last() == parts@[i as int]);
        if i > 0 {
            push_str(&mut out, sep);
        } else {
            assert(parts@.take(1)[0] == parts@[0]);
        }
        push_str(&mut out, parts[i].as_str());
        i = i + 1;
    }
    assert(parts@.take(i as int) == parts@);
    string_of(&out)
}

/// The streak of the latest action: its length, label and advice.
pub open spec fn streak_of(recent: Seq<SignalAction>) -> (nat, Seq<char>, Option<Seq<char>>) {
    if recent.len() == 0 {
        (0, "-"@, None)
    } else {
        let d = run_length(recent, 0) as nat;
        (d, streak_label(recent[0], d), streak_hint(recent[0], d))
    }
}

/// An instrument's report line: from its latest signal when there is one,
/// otherwise a hold with score 0 and no signal yet.
pub open spec fn line_of(i: InstrumentConfig, rec: InstrumentRecord, line: ReportInstrument) -> bool {
    &&& line.instrument_id@ == i.id@
    &&& line.name@ == i.name@
    &&& match rec.latest_signal {
        Some(sig) => {
            &&& crate::config::opt_view(line.latest_close) == Some(sig.close@)
            &&& crate::config::opt_view(line.latest_close_shown) == Some(sig.close_shown@)
            &&& line.action@ == sig.action.name()
            &&& line.score == sig.score
            &&& line.reason@ == joined(sig.reasons@, "；"@)
            &&& crate::config::opt_view(line.source) == Some(sig.source@)
            &&& line.recent_trade_date == Some(sig.trade_date)
        },
        None => {
            &&& line.latest_close is None
            &&& line.latest_close_shown is None
            &&& line.action@ == "HOLD"@
            &&& line.score == 0
            &&& line.reason@ == "尚未生成信号。"@
            &&& line.source is None
            &&& line.recent_trade_date is None
        },
    }
    &&& line.action_streak_days == streak_of(rec.recent_actions@).0
    &&& line.action_streak_label@ == streak_of(rec.recent_actions@).1
    &&& crate::config::opt_view(line.action_streak_hint) == streak_of(rec.recent_actions@).2
}

/// Days from the latest bar to the report date, never negative.
pub open spec fn days_behind_of(latest: Option<Day>, report_date: Day) -> Option<int> {
    match latest {
        Some(d) => Some(
            if report_date.index() - d.index() > 0 {
                report_date.index() - d.index()
            } else {
                0
            },
        ),
        None => None,
    }
}

pub open spec fn freshness_of(i: InstrumentConfig, rec: InstrumentRecord, date: Day, f: DataFreshness) -> bool {
    &&& f.instrument_id@ == i.id@
    &&& f.latest_bar_date == rec.latest_bar_date
    &&& match days_behind_of(rec.latest_bar_date, date) {
        Some(n) => f.days_behind == Some(n as i64),
        None => f.days_behind is None,
    }
}

fn report_line(i: &InstrumentConfig, rec: &InstrumentRecord) -> (line: ReportInstrument)
    ensures
        line_of(*i, *rec, line),
{
    let streak = consecutive_action_streak(&rec.recent_actions);
    let (label, hint) = match streak.1 {
        Some(a) => (streak_label_zh(a, streak.0), streak_hint_zh(a, streak.0)),
        None => ("-".to_owned(), None),
    };
    proof {
        if rec.recent_actions@.len() > 0 {
            crate::services::signal_streak::lemma_run_length(rec.recent_actions@, 0);
        }
    }
    match &rec.latest_signal {
        Some(sig) => ReportInstrument {
            instrument_id: i.id.clone(),
            name: i.name.clone(),
            latest_close: Some(sig.close.clone()),
            latest_close_shown: Some(sig.close_shown.clone()),
            action: sig.action.as_str().to_owned(),
            score: sig.score,
            reason: join_parts(&sig.reasons, "；"),
            source: Some(sig.source.clone()),
            recent_trade_date: Some(sig.trade_date),
            action_streak_days: streak.0,
            action_streak_label: label,
            action_streak_hint: hint,
        },
        None => ReportInstrument {
            instrument_id: i.id.clone(),
            name: i.name.clone(),
            latest_close: None,
            latest_close_shown: None,
            action: "HOLD".to_owned(),
            score: 0,
            reason: "尚未生成信号。".to_owned(),
            source: None,
            recent_trade_date: None,
            action_streak_days: streak.0,
            action_streak_label: label,
            action_streak_hint: hint,
        },
    }
}

fn freshness_line(i: &InstrumentConfig, rec: &InstrumentRecord, date: Day) -> (f: DataFreshness)
    ensures
        freshness_of(*i, *rec, date, f),
{
    let days_behind = match rec.latest_bar_date {
        Some(d) => {
            let k = date.days_since(&d);
            Some(
                if k > 0 {
                    k
                } else {
                    0
                },
            )
        },
        None => None,
    };
    DataFreshness {
        instrument_id: i.id.clone(),
        latest_bar_date: rec.latest_bar_date,
        days_behind,
    }
}

pub open spec fn disclaimer() -> Seq<char> {
    "本报告为规则型行情整理输出，不构成任何投资建议。"@
}

/// The report for `date`: one line and one freshness entry per configured
/// instrument, in order, with the instrument's stored record at the same
/// position; the given errors; the report time zone and the disclaimer.
pub fn build_report(
    config: &Config,
    records: &Vec<InstrumentRecord>,
    provider_errors: Vec<ProviderErrorRecord>,
    date: Day,
    data_updated_at: String,
) -> (r: MarketReport)
    requires
        records@.len() == config.instruments@.len(),
    ensures
        r.report_date == date,
        r.data_updated_at@ == data_updated_at@,
        r.timezone@ == config.report.timezone@,
        r.instruments@.len() == config.instruments@.len(),
        r.freshness@.len() == config.instruments@.len(),
        forall|k: int|
            0 <= k < config.instruments@.len() ==> line_of(
                #[trigger] config.instruments@[k],
                records@[k],
                r.instruments@[k],
            ) && freshness_of(config.instruments@[k], records@[k], date, r.freshness@[k]),
        r.provider_errors@ == provider_errors@,
        r.disclaimer@ == disclaimer(),
{
    let mut instruments: Vec<ReportInstrument> = Vec::new();
    let mut freshness: Vec<DataFreshness> = Vec::new();
    let mut k: usize = 0;
    while k < config.instruments.len()
        invariant
            k <= config.instruments@.len() == records@.len(),
            instruments@.len() == k,
            freshness@.len() == k,
            forall|q: int|
                0 <= q < k ==> line_of(
                    #[trigger] config.instruments@[q],
                    records@[q],
                    instruments@[q],
                ) && freshness_of(config.instruments@[q], records@[q], date, freshness@[q]),
        decreases config.instruments@.len() - k,
    {
        let line = report_line(&config.instruments[k], &records[k]);
        let f = freshness_line(&config.instruments[k], &records[k], date);
        instruments.push(line);
        freshness.push(f);
        k = k + 1;
    }
    MarketReport {
        report_date: date,
        data_updated_at,
        timezone: config.report.timezone.clone(),
        instruments,
        provider_errors,
        freshness,
        disclaimer: "本报告为规则型行情整理输出，不构成任何投资建议。".to_owned(),
    }
}

} // verus!
