use marketfeed::calendar::Day;
use marketfeed::providers::{FetchError, ProviderError, ProviderErrorKind};
use marketfeed::services::provider_errors::{
    error_still_relevant, format_error, format_error_time, friendly_message, kind_label_zh,
    provider_label_zh, truncate,
};

#[test]
fn friendly_http_eastmoney() {
    let raw = "error sending request for url (https://push2his.eastmoney.com/api/qt/stock/kline/get?secid=1.000001)";
    let msg = friendly_message("http", raw);
    assert_eq!(msg, "无法连接东方财富 API（网络不可达或请求超时）");
}

#[test]
fn friendly_stooq_no_data() {
    let msg = friendly_message("provider_message", "invalid Stooq header: No data");
    assert_eq!(msg, "Stooq 返回「No data」，该标的暂无可用历史数据");
}

#[test]
fn format_provider_error_struct() {
    let err = FetchError::Provider(ProviderError::new(
        "eastmoney",
        ProviderErrorKind::Http,
        "error sending request for url (https://example.com)",
    ));
    let formatted = format_error(&err);
    assert!(formatted.starts_with("[网络错误]"));
    assert!(!formatted.contains("https://"));
}

#[test]
fn kind_label_covers_all_kinds() {
    assert_eq!(kind_label_zh("http"), "网络错误");
    assert_eq!(kind_label_zh("no_data"), "无数据");
}

#[test]
fn stale_error_not_relevant_when_data_fresh() {
    let report = Day::from_ymd(2026, 5, 21).unwrap();
    let latest = Day::from_ymd(2026, 5, 20).unwrap();
    assert!(!error_still_relevant(Some(latest), report));
}

#[test]
fn stale_error_relevant_when_data_old_or_missing() {
    let report = Day::from_ymd(2026, 5, 21).unwrap();
    assert!(error_still_relevant(Some(Day::from_ymd(2026, 5, 18).unwrap()), report));
    assert!(!error_still_relevant(Some(Day::from_ymd(2026, 5, 19).unwrap()), report));
    assert!(error_still_relevant(None, report));
}

#[test]
fn every_kind_has_its_own_label() {
    let kinds = [
        ProviderErrorKind::Http,
        ProviderErrorKind::RateLimited,
        ProviderErrorKind::Auth,
        ProviderErrorKind::NoData,
        ProviderErrorKind::MalformedResponse,
        ProviderErrorKind::UnsupportedInstrument,
        ProviderErrorKind::ProviderMessage,
    ];
    for kind in kinds {
        assert_ne!(kind_label_zh(kind.as_str()), "未知错误");
    }
    assert_eq!(kind_label_zh("something"), "未知错误");
}

#[test]
fn provider_labels() {
    assert_eq!(provider_label_zh("eastmoney_fund"), "东方财富");
    assert_eq!(provider_label_zh("alpha_vantage"), "Alpha Vantage");
    assert_eq!(provider_label_zh("other"), "other");
}

#[test]
fn http_status_errors_keep_the_status() {
    let msg = friendly_message(
        "http",
        "HTTP status client error (404 Not Found) for url (https://stooq.com/q)",
    );
    assert_eq!(msg, "HTTP 客户端错误 (404 Not Found)");
    let msg = friendly_message("http", "HTTP status server error (502 Bad Gateway)");
    assert_eq!(msg, "HTTP 服务端错误 (502 Bad Gateway)");
    assert_eq!(friendly_message("http", "operation timed out"), "请求超时");
}

#[test]
fn long_messages_are_truncated_to_limit() {
    let raw = "x".repeat(200);
    let msg = friendly_message("unsupported_instrument", &raw);
    assert_eq!(msg.chars().count(), 120);
    assert!(msg.ends_with('…'));
    let short = friendly_message("unsupported_instrument", "short");
    assert_eq!(short, "short");
}

#[test]
fn rate_limit_and_other_messages() {
    assert_eq!(
        friendly_message("rate_limited", "slow down"),
        "API 请求频率受限：slow down"
    );
    assert_eq!(
        friendly_message("provider_message", "invalid Stooq header: Exceeded the daily hits limit"),
        "Stooq 返回异常响应：Exceeded the daily hits limit"
    );
    assert_eq!(
        friendly_message("malformed_response", "Stooq returned HTML instead of CSV"),
        "Stooq 返回网页而非 CSV（symbol 可能无效或被限流）"
    );
    assert_eq!(
        friendly_message("no_data", "Eastmoney returned empty klines"),
        "东方财富未返回该日期范围内的 K 线数据"
    );
    assert_eq!(
        friendly_message("auth", "missing Alpha Vantage API key"),
        "缺少 Alpha Vantage API Key，请配置 api_key 或环境变量 ALPHA_VANTAGE_API_KEY"
    );
}

#[test]
fn other_errors_are_shown_without_urls() {
    let err = FetchError::Other(
        "error sending request for url (https://example.com/x)".to_string(),
    );
    assert_eq!(format_error(&err), "error sending request");
}

#[test]
fn error_time_is_formatted_or_kept() {
    assert_eq!(
        format_error_time("2026-05-21T08:30:15+00:00"),
        "2026-05-21 08:30 UTC"
    );
    assert_eq!(format_error_time("yesterday"), "yesterday");
}

#[test]
fn truncation_keeps_short_text_and_cuts_long_text() {
    assert_eq!(truncate("abc", 3), "abc");
    assert_eq!(truncate("abcd", 3), "ab…");
    assert_eq!(truncate("数据源错误", 4), "数据源…");
    assert_eq!(truncate("abcd", 0), "…");
    assert_eq!(truncate("", 0), "");
}
