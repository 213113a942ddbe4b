//! Readable Chinese labels and explanations of provider failures.
use crate::calendar::{chrono_rfc3339_minutes, rfc3339_minutes, Day};
use crate::providers::{FetchError, ProviderError, ProviderErrorKind};
use crate::text::{
    chars_of, contains, eq_ignore_ascii_case, find, find_chars, find_lit, has, equals,
    lemma_find_from, matches_at, push_all, push_str, same_ignoring_ascii_case, starts_with,
    string_of, sub_chars, trim, trim_chars, trim_end_pat, trim_end_pat_chars,
};
use vstd::prelude::*;

verus! {

/// Chinese label of a stored error kind name.
pub open spec fn kind_label(kind: Seq<char>) -> Seq<char> {
    if kind == "http"@ {
        "网络错误"@
    } else if kind == "rate_limited"@ {
        "频率限制"@
    } else if kind == "auth"@ {
        "认证失败"@
    } else if kind == "no_data"@ {
        "无数据"@
    } else if kind == "malformed_response"@ {
        "响应格式错误"@
    } else if kind == "unsupported_instrument"@ {
        "标的不支持"@
    } else if kind == "provider_message"@ {
        "数据源提示"@
    } else {
        "未知错误"@
    }
}

/// 错误类型中文标签（用于控制台与报告）。
pub fn kind_label_zh(kind: &str) -> (s: &'static str)
    ensures
        s@ == kind_label(kind@),
{
    let k = chars_of(kind);
    if equals(&k, "http") {
        "网络错误"
    } else if equals(&k, "rate_limited") {
        "频率限制"
    } else if equals(&k, "auth") {
        "认证失败"
    } else if equals(&k, "no_data") {
        "无数据"
    } else if equals(&k, "malformed_response") {
        "响应格式错误"
    } else if equals(&k, "unsupported_instrument") {
        "标的不支持"
    } else if equals(&k, "provider_message") {
        "数据源提示"
    } else {
        "未知错误"
    }
}

/// Every kind of error has its own label, never the one for unknown kinds.
pub proof fn law_every_kind_has_a_label(kind: ProviderErrorKind)
    ensures
        kind_label(kind.name()) != "未知错误"@,
{
    reveal_strlit("http");
    reveal_strlit("rate_limited");
    reveal_strlit("auth");
    reveal_strlit("no_data");
    reveal_strlit("malformed_response");
    reveal_strlit("unsupported_instrument");
    reveal_strlit("provider_message");
    reveal_strlit("网络错误");
    reveal_strlit("频率限制");
    reveal_strlit("认证失败");
    reveal_strlit("无数据");
    reveal_strlit("响应格式错误");
    reveal_strlit("标的不支持");
    reveal_strlit("数据源提示");
    reveal_strlit("未知错误");
    assert("http"@.len() == 4 && "auth"@.len() == 4 && "rate_limited"@.len() == 12);
    assert("no_data"@.len() == 7 && "malformed_response"@.len() == 18);
    assert("unsupported_instrument"@.len() == 22 && "provider_message"@.len() == 16);
    assert("http"@[0] != "auth"@[0]);
    assert("未知错误"@[0] != "网络错误"@[0] && "未知错误"@[0] != "频率限制"@[0]);
    assert("未知错误"@[0] != "认证失败"@[0] && "未知错误"@.len() != "无数据"@.len());
    assert("未知错误"@.len() != "响应格式错误"@.len() && "未知错误"@.len() != "标的不支持"@.len());
    assert("未知错误"@.len() != "数据源提示"@.len());
}

/// Chinese label of a provider name; other names are shown as they are.
pub open spec fn provider_label(provider: Seq<char>) -> Seq<char> {
    if provider == "stooq"@ {
        "Stooq"@
    } else if provider == "eastmoney"@ || provider == "eastmoney_fund"@ {
        "东方财富"@
    } else if provider == "alpha_vantage"@ {
        "Alpha Vantage"@
    } else if provider == "disabled"@ {
        "已禁用"@
    } else if provider == "unknown"@ {
        "未知"@
    } else {
        provider
    }
}

/// 数据源名称中文标签。
pub fn provider_label_zh<'a>(provider: &'a str) -> (s: &'a str)
    ensures
        s@ == provider_label(provider@),
{
    let p = chars_of(provider);
    if equals(&p, "stooq") {
        "Stooq"
    } else if equals(&p, "eastmoney") || equals(&p, "eastmoney_fund") {
        "东方财富"
    } else if equals(&p, "alpha_vantage") {
        "Alpha Vantage"
    } else if equals(&p, "disabled") {
        "已禁用"
    } else if equals(&p, "unknown") {
        "未知"
    } else {
        provider
    }
}

/// At most `max` characters: longer text keeps its first `max - 1` characters
/// and ends with an ellipsis.
pub open spec fn truncated(value: Seq<char>, max: nat) -> Seq<char> {
    if value.len() <= max {
        value
    } else {
        value.take(if max >= 1 { max - 1 } else { 0 }) + "…"@
    }
}

fn truncate_chars(value: &Vec<char>, max: usize) -> (out: Vec<char>)
    ensures
        out@ == truncated(value@, max as nat),
{
    if value.len() <= max {
        sub_chars(value, 0, value.len())
    } else {
        let keep = if max >= 1 {
            max - 1
        } else {
            0
        };
        let mut out = sub_chars(value, 0, keep);
        push_str(&mut out, "…");
        out
    }
}

/// `value` cut to at most `max` characters, as `truncated` says.
pub fn truncate(value: &str, max: usize) -> (s: String)
    ensures
        s@ == truncated(value@, max as nat),
{
    string_of(&truncate_chars(&chars_of(value), max))
}

/// A truncated text is never longer than the limit, and a text that is too
/// long is cut to exactly the limit.
pub proof fn law_truncated_length(value: Seq<char>, max: nat)
    requires
        max >= 1,
    ensures
        truncated(value, max).len() <= max,
        value.len() > max ==> truncated(value, max).len() == max,
        value.len() <= max ==> truncated(value, max) == value,
{
    reveal_strlit("…");
}

/// Text before a `for url (` marker, without the trailing `for` and spaces,
/// when that leaves something; otherwise the text itself.
pub open spec fn sanitized(raw: Seq<char>) -> Seq<char> {
    match find(raw, "for url ("@) {
        Some(idx) => {
            let prefix = trim(trim_end_pat(raw.take(idx), "for"@));
            if prefix.len() > 0 {
                prefix
            } else {
                raw
            }
        },
        None => raw,
    }
}

fn sanitize_urls(raw: &Vec<char>) -> (out: Vec<char>)
    ensures
        out@ == sanitized(raw@),
{
    match find_lit(raw, "for url (") {
        Some(idx) => {
            proof {
                lemma_find_from(raw@, "for url ("@, 0);
            }
            let head = sub_chars(raw, 0, idx);
            let pat = chars_of("for");
            let stripped = trim_end_pat_chars(&head, &pat);
            let prefix = trim_chars(&stripped);
            if prefix.len() > 0 {
                prefix
            } else {
                sub_chars(raw, 0, raw.len())
            }
        },
        None => sub_chars(raw, 0, raw.len()),
    }
}

/// ` (inner)` for the text between the first `(` and the first `)` after it.
pub open spec fn status_suffix(raw: Seq<char>) -> Seq<char> {
    match find(raw, seq!['(']) {
        Some(start) => match find(raw.skip(start), seq![')']) {
            Some(end) => " ("@ + raw.subrange(start + 1, start + end) + ")"@,
            None => Seq::<char>::empty(),
        },
        None => Seq::<char>::empty(),
    }
}

fn extract_http_status_suffix(raw: &Vec<char>) -> (out: Vec<char>)
    ensures
        out@ == status_suffix(raw@),
{
    let mut open_paren: Vec<char> = Vec::new();
    open_paren.push('(');
    let mut close_paren: Vec<char> = Vec::new();
    close_paren.push(')');
    assert(open_paren@ == seq!['(']);
    assert(close_paren@ == seq![')']);
    match find_chars(raw, &open_paren) {
        Some(start) => {
            proof {
                lemma_find_from(raw@, seq!['('], 0);
            }
            let rest = sub_chars(raw, start, raw.len());
            assert(rest@ == raw@.skip(start as int));
            match find_chars(&rest, &close_paren) {
                Some(end) => {
                    proof {
                        lemma_find_from(rest@, seq![')'], 0);
                    }
                    assert(end >= 1) by {
                        assert(raw@.subrange(start as int, start + 1)[0] == raw@[start as int]);
                        assert(raw@[start as int] == '(');
                        if end == 0 {
                            assert(rest@.subrange(0, 1)[0] == rest@[0]);
                            assert(rest@[0] == raw@[start as int]);
                        }
                    }
                    let mut out: Vec<char> = Vec::new();
                    push_str(&mut out, " (");
                    let inner = sub_chars(raw, start + 1, start + end);
                    push_all(&mut out, &inner);
                    push_str(&mut out, ")");
                    out
                },
                None => Vec::new(),
            }
        },
        None => Vec::new(),
    }
}

pub open spec fn http_explanation(raw: Seq<char>) -> Seq<char> {
    if contains(raw, "error sending request"@) {
        if contains(raw, "eastmoney.com"@) {
            "无法连接东方财富 API（网络不可达或请求超时）"@
        } else if contains(raw, "stooq.com"@) {
            "无法连接 Stooq API（网络不可达或请求超时）"@
        } else if contains(raw, "alphavantage.co"@) {
            "无法连接 Alpha Vantage API（网络不可达或请求超时）"@
        } else {
            "网络请求失败（连接超时或目标不可达）"@
        }
    } else if contains(raw, "HTTP status client error"@) {
        "HTTP 客户端错误"@ + status_suffix(raw)
    } else if contains(raw, "HTTP status server error"@) {
        "HTTP 服务端错误"@ + status_suffix(raw)
    } else if contains(raw, "timed out"@) || contains(raw, "timeout"@) {
        "请求超时"@
    } else {
        truncated(sanitized(raw), 120)
    }
}

fn friendly_http_message(raw: &Vec<char>) -> (out: Vec<char>)
    ensures
        out@ == http_explanation(raw@),
{
    if has(raw, "error sending request") {
        if has(raw, "eastmoney.com") {
            return chars_of("无法连接东方财富 API（网络不可达或请求超时）");
        }
        if has(raw, "stooq.com") {
            return chars_of("无法连接 Stooq API（网络不可达或请求超时）");
        }
        if has(raw, "alphavantage.co") {
            return chars_of("无法连接 Alpha Vantage API（网络不可达或请求超时）");
        }
        return chars_of("网络请求失败（连接超时或目标不可达）");
    }
    if has(raw, "HTTP status client error") {
        let mut out = chars_of("HTTP 客户端错误");
        let suffix = extract_http_status_suffix(raw);
        push_all(&mut out, &suffix);
        return out;
    }
    if has(raw, "HTTP status server error") {
        let mut out = chars_of("HTTP 服务端错误");
        let suffix = extract_http_status_suffix(raw);
        push_all(&mut out, &suffix);
        return out;
    }
    if has(raw, "timed out") || has(raw, "timeout") {
        return chars_of("请求超时");
    }
    let clean = sanitize_urls(raw);
    truncate_chars(&clean, 120)
}

pub open spec fn auth_explanation(raw: Seq<char>) -> Seq<char> {
    if contains(raw, "Alpha Vantage"@) {
        "缺少 Alpha Vantage API Key，请配置 api_key 或环境变量 ALPHA_VANTAGE_API_KEY"@
    } else {
        truncated(raw, 120)
    }
}

fn friendly_auth_message(raw: &Vec<char>) -> (out: Vec<char>)
    ensures
        out@ == auth_explanation(raw@),
{
    if has(raw, "Alpha Vantage") {
        chars_of("缺少 Alpha Vantage API Key，请配置 api_key 或环境变量 ALPHA_VANTAGE_API_KEY")
    } else {
        truncate_chars(raw, 120)
    }
}

pub open spec fn no_data_explanation(raw: Seq<char>) -> Seq<char> {
    if contains(raw, "Eastmoney"@) {
        "东方财富未返回该日期范围内的 K 线数据"@
    } else if contains(raw, "Stooq"@) {
        "Stooq 未返回该日期范围内的 CSV 数据"@
    } else if contains(raw, "Alpha Vantage"@) {
        "Alpha Vantage 在请求日期范围内无数据"@
    } else if contains(raw, "历史"@) || contains(raw, "空数据"@) || contains(raw, "NAV"@) {
        raw
    } else {
        truncated(raw, 120)
    }
}

fn friendly_no_data_message(raw: &Vec<char>) -> (out: Vec<char>)
    ensures
        out@ == no_data_explanation(raw@),
{
    if has(raw, "Eastmoney") {
        chars_of("东方财富未返回该日期范围内的 K 线数据")
    } else if has(raw, "Stooq") {
        chars_of("Stooq 未返回该日期范围内的 CSV 数据")
    } else if has(raw, "Alpha Vantage") {
        chars_of("Alpha Vantage 在请求日期范围内无数据")
    } else if has(raw, "历史") || has(raw, "空数据") || has(raw, "NAV") {
        sub_chars(raw, 0, raw.len())
    } else {
        truncate_chars(raw, 120)
    }
}

pub open spec fn malformed_explanation(raw: Seq<char>) -> Seq<char> {
    if contains(raw, "HTML instead of CSV"@) {
        "Stooq 返回网页而非 CSV（symbol 可能无效或被限流）"@
    } else if contains(raw, "invalid Eastmoney JSON"@) {
        "东方财富返回的 JSON 无法解析"@
    } else if contains(raw, "invalid Eastmoney kline"@) {
        "东方财富 K 线字段格式异常"@
    } else if contains(raw, "Eastmoney fund"@) {
        "东方财富基金净值页面格式异常"@
    } else if contains(raw, "invalid Alpha Vantage"@) {
        "Alpha Vantage 响应格式异常"@
    } else {
        truncated(sanitized(raw), 120)
    }
}

fn friendly_malformed_message(raw: &Vec<char>) -> (out: Vec<char>)
    ensures
        out@ == malformed_explanation(raw@),
{
    if has(raw, "HTML instead of CSV") {
        return chars_of("Stooq 返回网页而非 CSV（symbol 可能无效或被限流）");
    }
    if has(raw, "invalid Eastmoney JSON") {
        return chars_of("东方财富返回的 JSON 无法解析");
    }
    if has(raw, "invalid Eastmoney kline") {
        return chars_of("东方财富 K 线字段格式异常");
    }
    if has(raw, "Eastmoney fund") {
        return chars_of("东方财富基金净值页面格式异常");
    }
    if has(raw, "invalid Alpha Vantage") {
        return chars_of("Alpha Vantage 响应格式异常");
    }
    let clean = sanitize_urls(raw);
    truncate_chars(&clean, 120)
}

pub open spec fn provider_message_explanation(raw: Seq<char>) -> Seq<char> {
    if starts_with(raw, "invalid Stooq header: "@) {
        let detail = trim(raw.skip("invalid Stooq header: "@.len() as int));
        if eq_ignore_ascii_case(detail, "no data"@) {
            "Stooq 返回「No data」，该标的暂无可用历史数据"@
        } else {
            "Stooq 返回异常响应："@ + detail
        }
    } else if contains(raw, "Thank you for using Alpha Vantage"@) {
        "Alpha Vantage 免费 API 调用次数已用完"@
    } else {
        truncated(raw, 120)
    }
}

fn friendly_provider_message(raw: &Vec<char>) -> (out: Vec<char>)
    ensures
        out@ == provider_message_explanation(raw@),
{
    let prefix = chars_of("invalid Stooq header: ");
    if matches_at(raw, &prefix, 0) {
        assert(raw@.subrange(0, prefix@.len() as int) == raw@.take(prefix@.len() as int));
        let rest = sub_chars(raw, prefix.len(), raw.len());
        assert(rest@ == raw@.skip(prefix@.len() as int));
        let detail = trim_chars(&rest);
        let no_data = chars_of("no data");
        if same_ignoring_ascii_case(&detail, &no_data) {
            return chars_of("Stooq 返回「No data」，该标的暂无可用历史数据");
        }
        let mut out = chars_of("Stooq 返回异常响应：");
        push_all(&mut out, &detail);
        return out;
    }
    assert(!starts_with(raw@, "invalid Stooq header: "@)) by {
        if prefix@.len() <= raw@.len() {
            assert(raw@.subrange(0, prefix@.len() as int) == raw@.take(prefix@.len() as int));
        }
    }
    if has(raw, "Thank you for using Alpha Vantage") {
        return chars_of("Alpha Vantage 免费 API 调用次数已用完");
    }
    truncate_chars(raw, 120)
}

/// A readable explanation of a raw error message of the given kind.
pub open spec fn explanation(kind: Seq<char>, raw: Seq<char>) -> Seq<char> {
    if kind == "http"@ {
        http_explanation(raw)
    } else if kind == "rate_limited"@ {
        "API 请求频率受限："@ + truncated(raw, 120)
    } else if kind == "auth"@ {
        auth_explanation(raw)
    } else if kind == "no_data"@ {
        no_data_explanation(raw)
    } else if kind == "malformed_response"@ {
        malformed_explanation(raw)
    } else if kind == "unsupported_instrument"@ {
        truncated(raw, 120)
    } else if kind == "provider_message"@ {
        provider_message_explanation(raw)
    } else {
        truncated(sanitized(raw), 120)
    }
}

fn explain(kind: &Vec<char>, raw: &Vec<char>) -> (out: Vec<char>)
    ensures
        out@ == explanation(kind@, raw@),
{
    if equals(kind, "http") {
        friendly_http_message(raw)
    } else if equals(kind, "rate_limited") {
        let mut out = chars_of("API 请求频率受限：");
        let t = truncate_chars(raw, 120);
        push_all(&mut out, &t);
        out
    } else if equals(kind, "auth") {
        friendly_auth_message(raw)
    } else if equals(kind, "no_data") {
        friendly_no_data_message(raw)
    } else if equals(kind, "malformed_response") {
        friendly_malformed_message(raw)
    } else if equals(kind, "unsupported_instrument") {
        truncate_chars(raw, 120)
    } else if equals(kind, "provider_message") {
        friendly_provider_message(raw)
    } else {
        let clean = sanitize_urls(raw);
        truncate_chars(&clean, 120)
    }
}

/// 将原始错误消息转为用户可读说明。
pub fn friendly_message(kind: &str, raw: &str) -> (s: String)
    ensures
        s@ == explanation(kind@, raw@),
{
    let k = chars_of(kind);
    let r = chars_of(raw);
    let out = explain(&k, &r);
    string_of(&out)
}

/// How an error is shown on the console: a classified error as
/// `[label] explanation`, any other error as its cleaned, shortened message.
pub open spec fn error_line(err: FetchError) -> Seq<char> {
    match err {
        FetchError::Provider(e) => "["@ + kind_label(e.kind.name()) + "] "@ + explanation(
            e.kind.name(),
            e.raw_message@,
        ),
        FetchError::Other(m) => truncated(sanitized(m@), 160),
    }
}

/// 格式化错误，供控制台输出。
pub fn format_error(err: &FetchError) -> (s: String)
    ensures
        s@ == error_line(*err),
{
    match err {
        FetchError::Provider(e) => {
            let kind_name = e.kind.as_str();
            let mut out = chars_of("[");
            push_str(&mut out, kind_label_zh(kind_name));
            push_str(&mut out, "] ");
            let k = chars_of(kind_name);
            let r = chars_of(e.raw_message.as_str());
            let body = explain(&k, &r);
            push_all(&mut out, &body);
            string_of(&out)
        },
        FetchError::Other(m) => {
            let r = chars_of(m.as_str());
            let clean = sanitize_urls(&r);
            let t = truncate_chars(&clean, 160);
            string_of(&t)
        },
    }
}

/// The entry that is stored for a failed request: a classified error keeps its
/// own provider, kind and message; any other error is stored under the given
/// provider as a provider message with its display text.
pub open spec fn stored_error(provider: Seq<char>, err: FetchError) -> (Seq<char>, ProviderErrorKind, Seq<char>) {
    match err {
        FetchError::Provider(e) => (e.provider@, e.kind, e.raw_message@),
        FetchError::Other(m) => (provider, ProviderErrorKind::ProviderMessage, m@),
    }
}

pub fn error_record(provider: &str, err: &FetchError) -> (r: ProviderError)
    ensures
        r.is(stored_error(provider@, *err).0, stored_error(provider@, *err).1, stored_error(provider@, *err).2),
{
    match err {
        FetchError::Provider(e) => ProviderError::new(e.provider.as_str(), e.kind, e.raw_message.as_str()),
        FetchError::Other(m) => ProviderError::new(provider, ProviderErrorKind::ProviderMessage, m.as_str()),
    }
}

/// The entry stored when a source answered with no bars at all.
pub fn empty_response_record(provider: &str, message: &str) -> (r: ProviderError)
    ensures
        r.is(provider@, ProviderErrorKind::NoData, message@),
{
    ProviderError::new(provider, ProviderErrorKind::NoData, message)
}

/// Whether an old fetch error still matters for a report: it does unless the
/// instrument has bars from at most two days before the report date.
pub open spec fn still_relevant(latest: Option<Day>, report_date: Day) -> bool {
    match latest {
        None => true,
        Some(d) => report_date.index() - d.index() > 2,
    }
}

/// 若标的已有足够新的行情，则历史拉取失败可忽略，不必在报告中提示。
pub fn error_still_relevant(latest_bar_date: Option<Day>, report_date: Day) -> (b: bool)
    ensures
        b == still_relevant(latest_bar_date, report_date),
{
    match latest_bar_date {
        None => true,
        Some(latest) => report_date.days_since(&latest) > 2,
    }
}

/// A stored RFC 3339 timestamp as `YYYY-MM-DD HH:MM UTC`, or the text as it is
/// when chrono cannot read it.
pub open spec fn error_time_text(created_at: Seq<char>) -> Seq<char> {
    match chrono_rfc3339_minutes(created_at) {
        Some(t) => t,
        None => created_at,
    }
}

/// 格式化报告中的错误时间戳。
pub fn format_error_time(created_at: &str) -> (s: String)
    ensures
        s@ == error_time_text(created_at@),
{
    match rfc3339_minutes(created_at) {
        Some(t) => t,
        None => created_at.to_owned(),
    }
}

} // verus!
