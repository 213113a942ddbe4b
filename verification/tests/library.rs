use chrono::{Datelike, NaiveDate};
use marketfeed::calendar::{Day, DAY_MAX, DAY_MIN};
use marketfeed::config::{
    default_currency, default_timezone, Config, DatabaseConfig, EmailConfig, InstrumentConfig,
    InstrumentKind, ProvidersConfig, ReportConfig, UpdateConfig,
};
use marketfeed::models::{parse_action, SignalAction};
use marketfeed::providers::{FetchError, ProviderError, ProviderErrorKind};
use marketfeed::services::provider_errors::{error_record, error_still_relevant, format_error_time, kind_label_zh};
use marketfeed::services::signal::{backfill_selects, backfill_start, evaluate_signal, BackfillOptions, Comparisons, Reason};
use marketfeed::services::updater::{
    data_is_fresh_enough, instrument_summary, provider_static_name, retry_after_failure,
    select_instruments, stooq_fallback_provider, summary_lines, summary_window, update_window,
    window_is_defined,
    InstrumentUpdateSummary, UpdateOptions, UpdateOutcome, UpdateSummary,
};
use marketfeed::utils::csv::parse_stooq_daily;
use marketfeed::utils::date::is_cn_market;

fn day(y: i32, m: u32, d: u32) -> Day {
    Day::from_ymd(y, m, d).unwrap()
}

fn instrument(id: &str, provider: &str) -> InstrumentConfig {
    InstrumentConfig {
        id: id.to_string(),
        name: format!("{id} name"),
        kind: InstrumentKind::Stock,
        market: "US".to_string(),
        currency: default_currency(),
        timezone: default_timezone(),
        provider: provider.to_string(),
        alpha_vantage_symbol: None,
        stooq_symbol: Some(format!("{id}.us")),
        eastmoney_secid: None,
        eastmoney_fund_code: None,
    }
}

fn config(instruments: Vec<InstrumentConfig>) -> Config {
    Config {
        database: DatabaseConfig { path: "data/marketfeed.sqlite".to_string() },
        report: ReportConfig::default(),
        providers: ProvidersConfig::default(),
        update: UpdateConfig::default(),
        instruments,
    }
}

#[test]
fn config_checks_in_order() {
    let mut c = config(vec![instrument("aapl", "stooq")]);
    assert!(c.validate(None, None).is_ok());
    c.database.path = "  ".to_string();
    assert_eq!(c.validate(None, None).unwrap_err().message, "database.path is required");
    let mut c = config(vec![]);
    assert_eq!(c.validate(None, None).unwrap_err().message, "at least one [[instruments]] entry is required");
    let mut bad = instrument("spy", "stooq");
    bad.stooq_symbol = None;
    c.instruments = vec![bad];
    assert_eq!(c.validate(None, None).unwrap_err().message, "instrument spy uses stooq but stooq_symbol is missing");
    c.instruments = vec![instrument("x", "yahoo")];
    assert_eq!(c.validate(None, None).unwrap_err().message, "instrument x has unsupported provider yahoo");
    c.instruments = vec![instrument("a", "alpha_vantage")];
    assert_eq!(c.validate(None, None).unwrap_err().message, "instrument a uses alpha_vantage but alpha_symbol is missing");
    let mut unnamed = instrument("n", "eastmoney");
    unnamed.name = " ".to_string();
    c.instruments = vec![unnamed];
    assert_eq!(c.validate(None, None).unwrap_err().message, "instrument n name is required");
}

#[test]
fn config_email_is_checked_only_when_enabled() {
    let mut c = config(vec![instrument("aapl", "stooq")]);
    c.report.email = EmailConfig::default();
    c.report.email.enabled = true;
    assert_eq!(
        c.validate(None, None).unwrap_err().message,
        "report.email.smtp_host is required when email is enabled"
    );
}

#[test]
fn config_lookups_paths_and_keys() {
    let mut c = config(vec![instrument("aapl", "stooq"), instrument("msft", "stooq")]);
    assert_eq!(c.instrument("msft").unwrap().id, "msft");
    assert_eq!(c.instrument("nope").unwrap_err().message, "instrument nope not found in config");
    assert_eq!(c.report_markdown_path(day(2026, 5, 21)), "reports/2026-05-21.md");
    assert_eq!(c.report_json_path(day(2026, 5, 21)), "reports/2026-05-21.json");
    c.report.markdown_output = Some("out/today.md".to_string());
    assert_eq!(c.report_markdown_path(day(2026, 5, 21)), "out/today.md");
    assert_eq!(c.alpha_api_key(Some("env".to_string())), Some("env".to_string()));
    c.providers.alpha_vantage.api_key = " key ".to_string();
    assert_eq!(c.alpha_api_key(Some("env".to_string())), Some("key".to_string()));
    assert_eq!(c.stooq_api_key(None), None);
    let picked = select_instruments(&c, Some("aapl")).unwrap();
    assert_eq!(picked.len(), 1);
    assert_eq!(select_instruments(&c, None).unwrap().len(), 2);
    assert!(select_instruments(&c, Some("zzz")).is_err());
}

#[test]
fn email_settings_helpers() {
    let mut e = EmailConfig::default();
    e.to = vec![" a@x.org".to_string(), " ".to_string(), "b@y.org ".to_string()];
    assert_eq!(e.recipients(), vec!["a@x.org".to_string(), "b@y.org".to_string()]);
    assert_eq!(e.subject_for(day(2026, 5, 21)), "市场行情日报 2026-05-21");
    assert_eq!(e.smtp_username(Some("u".to_string())), Some("u".to_string()));
    e.password = "secret".to_string();
    assert_eq!(e.smtp_password(Some("other".to_string())), Some("secret".to_string()));
}

#[test]
fn calendar_matches_chrono() {
    assert_eq!(NaiveDate::MIN.num_days_from_ce(), DAY_MIN);
    assert_eq!(NaiveDate::MAX.num_days_from_ce(), DAY_MAX);
    assert!(Day::from_days_from_ce(DAY_MIN as i64).is_some());
    assert!(Day::from_days_from_ce(DAY_MIN as i64 - 1).is_none());
    assert!(Day::from_days_from_ce(DAY_MAX as i64 + 1).is_none());
    let d = day(2024, 2, 29);
    assert_eq!(d.days_from_ce(), NaiveDate::from_ymd_opt(2024, 2, 29).unwrap().num_days_from_ce());
    assert_eq!(d.ymd_text(), "2024-02-29");
    assert_eq!(d.compact_text(), "20240229");
    assert_eq!(Day::parse_ymd("2024-02-29").unwrap(), d);
    assert_eq!(
        Day::parse_ymd("2023-02-29").unwrap_err(),
        NaiveDate::parse_from_str("2023-02-29", "%Y-%m-%d").unwrap_err().to_string()
    );
    assert!(Day::from_ymd(2023, 2, 29).is_none());
    assert_eq!(d.shift(1), day(2024, 3, 1));
    assert_eq!(day(2024, 3, 1).days_since(&d), 1);
    assert!(d.precedes(&day(2024, 3, 1)) && d.not_after(&d));
}

#[test]
fn float_fields_accept_what_rust_parses() {
    let candidates = [
        "1", "-1", "+1", "1.", ".5", ".", "", "1e5", "1E-5", "1e", "e5", "inf", "-Infinity",
        "NaN", "nan", "infinity", "INF", "0x10", "1_000", "1.2.3", "--1", "+-1", "1e+5", "1e--5",
        "+", "-.5e3", "٣", "1.5E+07", "infinit", "+nan", "00012.500",
    ];
    for x in candidates {
        let body = format!("Date,Open,High,Low,Close,Volume\n2024-01-02,{x},1,1,1,1\n");
        let parsed = parse_stooq_daily("foo", &body, "stooq");
        assert_eq!(parsed.is_ok(), x.parse::<f64>().is_ok(), "candidate {x:?}");
        if let Err(e) = parsed {
            let rust = x.parse::<f64>().unwrap_err().to_string();
            assert_eq!(e.raw_message, format!("invalid open value {x}: {rust}"));
        }
    }
}

#[test]
fn action_names_round_trip() {
    for a in [SignalAction::Buy, SignalAction::Sell, SignalAction::Hold] {
        assert_eq!(parse_action(a.as_str()), a);
    }
}

#[test]
fn kind_names_are_distinct_and_labelled() {
    let kinds = [
        ProviderErrorKind::Http,
        ProviderErrorKind::RateLimited,
        ProviderErrorKind::Auth,
        ProviderErrorKind::NoData,
        ProviderErrorKind::MalformedResponse,
        ProviderErrorKind::UnsupportedInstrument,
        ProviderErrorKind::ProviderMessage,
    ];
    let names: std::collections::BTreeSet<&str> = kinds.iter().map(|k| k.as_str()).collect();
    assert_eq!(names.len(), kinds.len());
    for k in kinds {
        assert_ne!(kind_label_zh(k.as_str()), "未知错误");
    }
    let e = ProviderError::new("stooq", ProviderErrorKind::NoData, "empty");
    assert_eq!(e.message(), "stooq no_data: empty");
}

fn neutral() -> Comparisons {
    Comparisons {
        close_above_ma60: false,
        close_below_ma60: false,
        ma20_above_ma60: false,
        ma20_below_ma60: false,
        ma60_above_ma120: false,
        ma60_below_ma120: false,
        close_above_ma120: false,
        close_below_ma120: false,
        change_above_15: false,
        change_below_minus_15: false,
        change_above_5: false,
        change_below_minus_5: false,
        deviation_above_35: false,
        deviation_above_20: false,
        deviation_below_minus_35: false,
        deviation_below_minus_20: false,
        drawdown_above_minus_5: false,
        drawdown_below_minus_25: false,
    }
}

#[test]
fn overextended_uptrend_is_tempered() {
    let mut c = neutral();
    c.close_above_ma60 = true;
    c.ma20_above_ma60 = true;
    c.ma60_above_ma120 = true;
    c.close_above_ma120 = true;
    c.change_above_15 = true;
    c.change_above_5 = true;
    c.deviation_above_35 = true;
    c.deviation_above_20 = true;
    c.drawdown_above_minus_5 = true;
    let s = evaluate_signal(180, &c);
    assert!(s.score < 45);
    assert_eq!(s.score, 30);
    assert!(s.reasons.contains(&Reason::Overheated));
    assert_eq!(s.action, SignalAction::Hold);
}

#[test]
fn falling_trend_sells() {
    let mut c = neutral();
    c.close_below_ma60 = true;
    c.ma20_below_ma60 = true;
    c.ma60_below_ma120 = true;
    c.close_below_ma120 = true;
    c.change_below_minus_15 = true;
    c.change_below_minus_5 = true;
    let s = evaluate_signal(180, &c);
    assert_eq!(s.score, -65);
    assert_eq!(s.action, SignalAction::Sell);
    assert_eq!(s.reasons, vec![Reason::TrendBearish, Reason::MomentumWeak, Reason::Drawdown]);
    let s = evaluate_signal(180, &neutral());
    assert_eq!((s.score, s.action), (0, SignalAction::Hold));
}

#[test]
fn backfill_ranges() {
    assert_eq!(backfill_start(100, None), None);
    assert_eq!(backfill_start(300, None), Some(180));
    assert_eq!(backfill_start(300, Some(10)), Some(290));
    assert_eq!(backfill_start(300, Some(1000)), Some(119));
    let options = BackfillOptions { instrument_id: Some("a".to_string()), trading_days: None };
    assert!(backfill_selects(&options, "a"));
    assert!(!backfill_selects(&options, "b"));
    assert!(backfill_selects(&BackfillOptions::default(), "b"));
}

#[test]
fn relevance_is_staleness() {
    let date = day(2026, 5, 21);
    for latest in [None, Some(day(2026, 5, 18)), Some(day(2026, 5, 19)), Some(day(2026, 5, 21))] {
        assert_eq!(error_still_relevant(latest, date), !data_is_fresh_enough(latest, date));
    }
}

#[test]
fn update_windows_and_summaries() {
    let i = instrument("aapl", "stooq");
    let options = UpdateOptions { instrument_id: None, from: None, to: None, dry_run: false };
    assert_eq!(update_window(&options, &i, day(2024, 6, 10), 7), (day(2024, 6, 3), day(2024, 6, 10)));
    let mut cn = i.clone();
    cn.market = "SZ".to_string();
    assert!(is_cn_market("sz"));
    assert_eq!(update_window(&options, &cn, day(2024, 6, 10), 7), (day(2024, 6, 2), day(2024, 6, 9)));
    assert_eq!(summary_window(None, None, day(2024, 6, 10), 7), (day(2024, 6, 3), day(2024, 6, 10)));
    let dry = instrument_summary(&i, true, &UpdateOutcome::Failed(FetchError::Other("x".to_string())));
    assert_eq!((dry.bars_written, dry.error.is_none()), (0, true));
    let failed = instrument_summary(&i, false, &UpdateOutcome::Failed(FetchError::Other("x".to_string())));
    assert_eq!(failed.error, Some("x".to_string()));
    let stored = instrument_summary(&i, false, &UpdateOutcome::Stored("stooq".to_string(), 4));
    assert_eq!((stored.provider.as_str(), stored.bars_written), ("stooq", 4));
    assert!(retry_after_failure(0, 2) && retry_after_failure(1, 2) && !retry_after_failure(2, 2));
    assert_eq!(provider_static_name("eastmoney"), "eastmoney");
    assert_eq!(provider_static_name("yahoo"), "unknown");
    let c = config(vec![]);
    let mut em = instrument("sh000001", "eastmoney");
    em.stooq_symbol = None;
    em.market = "SH".to_string();
    assert_eq!(stooq_fallback_provider(&c, &em), Some("stooq"));
    assert_eq!(stooq_fallback_provider(&c, &i), None);
}

#[test]
fn stored_errors_and_times() {
    let other = error_record("stooq", &FetchError::Other("boom".to_string()));
    assert_eq!((other.provider.as_str(), other.kind, other.raw_message.as_str()), ("stooq", ProviderErrorKind::ProviderMessage, "boom"));
    let classified = error_record(
        "stooq",
        &FetchError::Provider(ProviderError::new("eastmoney", ProviderErrorKind::Http, "down")),
    );
    assert_eq!(classified.provider, "eastmoney");
    assert_eq!(format_error_time("2026-05-21T08:30:00+08:00"), "2026-05-21 08:30 UTC");
    assert_eq!(format_error_time("yesterday"), "yesterday");
}

#[test]
fn console_summary_lines() {
    let summary = UpdateSummary {
        start: day(2024, 6, 3),
        end: day(2024, 6, 10),
        dry_run: false,
        instruments: vec![
            InstrumentUpdateSummary { instrument_id: "a".into(), provider: "stooq".into(), bars_written: 5, error: None },
            InstrumentUpdateSummary { instrument_id: "b".into(), provider: "eastmoney".into(), bars_written: 0, error: Some("[网络错误] 请求超时".into()) },
        ],
    };
    let lines = summary_lines("Updated", &summary);
    assert_eq!(lines[0].text, "Updated 2 instruments. Range: 2024-06-03 to 2024-06-10. Dry-run: false");
    assert_eq!(lines[1].text, "a: 5 bars inserted/replaced");
    assert!(!lines[1].to_stderr);
    assert_eq!(lines[2].text, "⚠ b [东方财富]: [网络错误] 请求超时");
    assert!(lines[2].to_stderr);
    let dry = UpdateSummary { dry_run: true, ..summary };
    assert_eq!(summary_lines("Run daily dry-run", &dry)[1].text, "a: would request provider stooq");
}

/// A steady rise of 0.12 a day from 100 over 180 days: close above the
/// 60-day average, 20 > 60 > 120-day averages, a 60-day change of about 6 %,
/// 6 % above the 120-day average, 1 % below the 120-day high.
#[test]
fn rising_trend_gets_positive_score() {
    let mut c = neutral();
    c.close_above_ma60 = true;
    c.ma20_above_ma60 = true;
    c.ma60_above_ma120 = true;
    c.close_above_ma120 = true;
    c.change_above_5 = true;
    c.drawdown_above_minus_5 = true;
    let s = evaluate_signal(180, &c);
    assert_eq!(s.action, SignalAction::Buy);
    assert!(s.score > 0);
    assert!(s.reasons.contains(&Reason::TrendBullish));
}

/// A steady fall of 0.12 a day from 100 over 180 days: the mirror picture, a
/// 60-day change of about -8 % and a 16 % drawdown.
#[test]
fn falling_trend_gets_negative_score() {
    let mut c = neutral();
    c.close_below_ma60 = true;
    c.ma20_below_ma60 = true;
    c.ma60_below_ma120 = true;
    c.close_below_ma120 = true;
    c.change_below_minus_5 = true;
    let s = evaluate_signal(180, &c);
    assert_eq!(s.action, SignalAction::Sell);
    assert!(s.score < 0);
    assert!(s.reasons.contains(&Reason::TrendBearish));
}

#[test]
fn update_windows_are_defined_within_range() {
    let i = instrument("aapl", "stooq");
    let options = UpdateOptions { instrument_id: None, from: None, to: None, dry_run: false };
    assert!(window_is_defined(&options, &i, day(2024, 6, 10), 7));
    let first = Day::from_days_from_ce(DAY_MIN as i64).unwrap();
    assert!(!window_is_defined(&options, &i, first.shift(3), 7));
    let bounded = UpdateOptions { from: Some(first), ..options.clone() };
    assert!(window_is_defined(&bounded, &i, first.shift(3), 7));
    assert!(!window_is_defined(&options, &i, day(2024, 6, 10), i64::MAX));
}
