use marketfeed::calendar::Day;
use marketfeed::cli::{report_format, ReportFormat};
use marketfeed::config::{
    Config, DatabaseConfig, EmailConfig, InstrumentConfig, InstrumentKind, ProvidersConfig,
    ReportConfig, UpdateConfig,
};
use marketfeed::models::{parse_action, DataFreshness, MarketReport, ProviderErrorRecord, ReportInstrument, SignalAction};
use marketfeed::providers::{FetchError, ProviderError, ProviderErrorKind};
use marketfeed::services::backtest::{check_bar_count, follow_signals, render_backtest, BacktestResult, PositionChange};
use marketfeed::services::bootstrap::{
    bootstrap_plan, bootstrap_provider, bootstrap_step, bootstrap_window, bootstrap_window_is_defined,
    BootstrapCommand,
    BootstrapEvent, BootstrapPlan, BootstrapState,
};
use marketfeed::services::email::{email_plan, require_tls, sends_daily};
use marketfeed::services::report::{
    action_badge_html, action_label_zh, build_report, escape_html, escape_md,
    filter_relevant_provider_errors, render_html, render_markdown, render_plain_email,
    signal_counts, InstrumentRecord, StoredSignal,
};
use marketfeed::services::signal::{evaluate_signal, Comparisons, Reason};
use marketfeed::services::signal_streak::{consecutive_action_streak, streak_hint_zh, streak_label_zh};
use marketfeed::services::updater::{
    choose_provider, data_is_fresh_enough, fetch_step, start_fetch, summary_window,
    summary_window_is_defined, FetchCommand, FetchEvent,
    FetchState, ProviderChoice, UpdateSummary, InstrumentUpdateSummary,
};
use marketfeed::utils::date::{end_date_for, incremental_end_date, today_utc, yyyymmdd};

fn day(y: i32, m: u32, d: u32) -> Day {
    Day::from_ymd(y, m, d).unwrap()
}

fn instrument(id: &str, market: &str, kind: InstrumentKind, provider: &str) -> InstrumentConfig {
    InstrumentConfig {
        id: id.to_string(),
        name: format!("{id} name"),
        kind,
        market: market.to_string(),
        currency: "CNY".to_string(),
        timezone: "Asia/Shanghai".to_string(),
        provider: provider.to_string(),
        alpha_vantage_symbol: None,
        stooq_symbol: None,
        eastmoney_secid: None,
        eastmoney_fund_code: None,
    }
}

fn config(instruments: Vec<InstrumentConfig>) -> Config {
    Config {
        database: DatabaseConfig { path: "data/marketfeed.sqlite".to_string() },
        report: ReportConfig::default(),
        providers: ProvidersConfig::default(),
        update: UpdateConfig::default(),
        instruments,
    }
}

#[test]
fn counts_consecutive_sell_days() {
    let recent = vec![SignalAction::Sell, SignalAction::Sell, SignalAction::Hold];
    let (days, action) = consecutive_action_streak(&recent);
    assert_eq!(days, 2);
    assert_eq!(action, Some(SignalAction::Sell));
    assert_eq!(streak_label_zh(SignalAction::Sell, 2), "连续2日卖出");
}

#[test]
fn streak_edges_and_hints() {
    assert_eq!(consecutive_action_streak(&vec![]), (0, None));
    assert_eq!(streak_label_zh(SignalAction::Buy, 0), "-");
    assert_eq!(
        streak_hint_zh(SignalAction::Buy, 3),
        Some("已连续 3 个交易日为买入，可考虑分批进入或加仓。".to_string())
    );
    assert_eq!(streak_hint_zh(SignalAction::Sell, 1), None);
    assert_eq!(streak_hint_zh(SignalAction::Hold, 5), None);
}

#[test]
fn cn_market_ends_yesterday() {
    let end = incremental_end_date("SH");
    assert_eq!(end, today_utc().shift(-1));
}

#[test]
fn global_market_ends_today() {
    let end = incremental_end_date("GLOBAL");
    assert_eq!(end, today_utc());
}

#[test]
fn end_dates_and_compact_text() {
    assert_eq!(end_date_for(" fund ", day(2024, 3, 1)), day(2024, 2, 29));
    assert_eq!(end_date_for("NYSE", day(2024, 3, 1)), day(2024, 3, 1));
    assert_eq!(yyyymmdd(day(2024, 3, 1)), "20240301");
}

#[test]
fn insufficient_history_holds() {
    let c = Comparisons {
        close_above_ma60: true,
        close_below_ma60: false,
        ma20_above_ma60: true,
        ma20_below_ma60: false,
        ma60_above_ma120: true,
        ma60_below_ma120: false,
        close_above_ma120: true,
        close_below_ma120: false,
        change_above_15: true,
        change_below_minus_15: false,
        change_above_5: true,
        change_below_minus_5: false,
        deviation_above_35: false,
        deviation_above_20: false,
        deviation_below_minus_35: false,
        deviation_below_minus_20: false,
        drawdown_above_minus_5: true,
        drawdown_below_minus_25: false,
    };
    let signal = evaluate_signal(80, &c);
    assert_eq!(signal.action, SignalAction::Hold);
    assert_eq!(signal.score, 0);
    assert_eq!(signal.reasons[0], Reason::InsufficientHistory);
    let full = evaluate_signal(180, &c);
    assert_eq!(full.score, 65);
    assert_eq!(full.action, SignalAction::Buy);
    assert_eq!(full.reasons, vec![Reason::TrendBullish, Reason::MomentumStrong, Reason::Drawdown]);
}

#[test]
fn actions_are_read_back() {
    assert_eq!(parse_action("buy"), SignalAction::Buy);
    assert_eq!(parse_action("SELL"), SignalAction::Sell);
    assert_eq!(parse_action("Buy"), SignalAction::Hold);
    assert_eq!(SignalAction::Sell.as_str(), "SELL");
}

#[test]
fn following_signals_counts_trades_and_days() {
    let actions = vec![
        SignalAction::Hold,
        SignalAction::Buy,
        SignalAction::Buy,
        SignalAction::Hold,
        SignalAction::Sell,
        SignalAction::Sell,
    ];
    let path = follow_signals(&actions);
    assert_eq!(path.trades, 2);
    assert_eq!(path.holding_days, 3);
    assert_eq!(path.changes[1], PositionChange::Enter);
    assert_eq!(path.changes[2], PositionChange::Stay);
    assert_eq!(path.changes[4], PositionChange::Exit);
    assert_eq!(path.holding, vec![false, true, true, true, false, false]);
    assert!(check_bar_count(1).is_err());
    assert!(check_bar_count(2).is_ok());
}

#[test]
fn backtest_summary_text() {
    let result = BacktestResult {
        start_date: day(2024, 1, 1),
        end_date: day(2024, 6, 28),
        initial_cash: "100000.00".to_string(),
        final_cash: "112345.68".to_string(),
        total_return_pct: "12.35".to_string(),
        max_drawdown_pct: "-3.10".to_string(),
        trades: 2,
        holding_days: 120,
        buy_and_hold_return_pct: "21.60".to_string(),
    };
    assert_eq!(
        render_backtest(&result),
        "Backtest sanity check\nStart date: 2024-01-01\nEnd date: 2024-06-28\nInitial cash: 100000.00\nFinal cash: 112345.68\nTotal return: 12.35%\nMax drawdown: -3.10%\nTrades: 2\nHolding days: 120\nBuy-and-hold return: 21.60%\nNote: rule-based sanity check only, not investment advice."
    );
}

#[test]
fn escaping_for_markdown_and_html() {
    assert_eq!(escape_md("a|b\nc"), "a/b c");
    assert_eq!(escape_html("<a href=\"x\">&</a>"), "&lt;a href=&quot;x&quot;&gt;&amp;&lt;/a&gt;");
    assert_eq!(action_label_zh("SELL"), "卖出");
    assert_eq!(action_label_zh("??"), "未知");
    assert!(action_badge_html("BUY").contains("background:#e8f5e9;color:#2e7d32;\">买入</span>"));
}

fn sample_report() -> MarketReport {
    let cfg = config(vec![
        instrument("fund501203", "FUND", InstrumentKind::Etf, "eastmoney"),
        instrument("sh000001", "SH", InstrumentKind::Index, "eastmoney"),
    ]);
    let records = vec![
        InstrumentRecord {
            latest_signal: Some(StoredSignal {
                trade_date: day(2026, 5, 20),
                action: SignalAction::Buy,
                score: 40,
                reasons: vec!["close > ma20".to_string(), "趋势|偏多".to_string()],
                source: "test".to_string(),
                close: "100".to_string(),
                close_shown: "100.0000".to_string(),
            }),
            recent_actions: vec![SignalAction::Buy, SignalAction::Buy, SignalAction::Sell],
            latest_bar_date: Some(day(2026, 5, 19)),
        },
        InstrumentRecord { latest_signal: None, recent_actions: vec![], latest_bar_date: None },
    ];
    let candidates = vec![
        (
            ProviderErrorRecord {
                provider: "eastmoney".to_string(),
                instrument_id: "sh000001".to_string(),
                kind: "http".to_string(),
                raw_message: "error sending request for url (https://push2his.eastmoney.com/api/qt/stock/kline/get?secid=1.000001)".to_string(),
                created_at: "2026-05-21T08:30:00+00:00".to_string(),
            },
            None,
        ),
        (
            ProviderErrorRecord {
                provider: "stooq".to_string(),
                instrument_id: "fund501203".to_string(),
                kind: "provider_message".to_string(),
                raw_message: "invalid Stooq header: No data".to_string(),
                created_at: "2026-05-21T08:30:00+00:00".to_string(),
            },
            Some(day(2026, 5, 20)),
        ),
    ];
    let errors = filter_relevant_provider_errors(&candidates, day(2026, 5, 21));
    build_report(&cfg, &records, errors, day(2026, 5, 21), "2026-05-21T09:00:00Z".to_string())
}

#[test]
fn data_freshness_days_behind_is_calculated() {
    let report = sample_report();
    let fund = report.freshness.iter().find(|item| item.instrument_id == "fund501203").unwrap();
    assert_eq!(fund.days_behind, Some(2));
    assert_eq!(report.freshness[1].days_behind, None);
}

#[test]
fn report_lines_come_from_signals() {
    let report = sample_report();
    let line = &report.instruments[0];
    assert_eq!(line.action, "BUY");
    assert_eq!(line.reason, "close > ma20；趋势|偏多");
    assert_eq!(line.action_streak_days, 2);
    assert_eq!(line.action_streak_label, "连续2日买入");
    assert!(line.action_streak_hint.is_some());
    let empty = &report.instruments[1];
    assert_eq!(empty.action, "HOLD");
    assert_eq!(empty.score, 0);
    assert_eq!(empty.reason, "尚未生成信号。");
    assert_eq!(empty.action_streak_label, "-");
    assert_eq!(report.provider_errors.len(), 1);
    assert_eq!(signal_counts(&report), (1, 0, 1));
    assert_eq!(report.disclaimer, "本报告为规则型行情整理输出，不构成任何投资建议。");
}

#[test]
fn report_markdown_contains_sections() {
    let markdown = render_markdown(&sample_report());
    assert!(markdown.contains("# 市场行情日报"));
    assert!(markdown.contains("## 数据源错误"));
    assert!(markdown.contains("| 代码 | 名称 | 收盘价 | 信号 |"));
    assert!(markdown.contains("fund501203"));
    assert!(markdown.contains("| fund501203 | fund501203 name | 100.0000 | 买入 | 40 | close > ma20；趋势/偏多 |\n"));
    assert!(markdown.contains("- 信号统计（买入 / 卖出 / 观望）：1 / 0 / 1\n"));
    assert!(markdown.contains("| fund501203 | fund501203 name | 2026-05-19 | 2 |\n"));
    assert!(markdown.contains("| sh000001 | sh000001 name | - | - |\n"));
}

#[test]
fn report_formats_provider_errors_friendly() {
    let markdown = render_markdown(&sample_report());
    assert!(markdown.contains("无法连接东方财富 API"));
    assert!(!markdown.contains("push2his.eastmoney.com"));
    assert!(markdown.contains("2026-05-21 08:30 UTC"));
}

#[test]
fn report_html_contains_table_and_doctype() {
    let html = render_html(&sample_report());
    assert!(html.contains("<!DOCTYPE html>"));
    assert!(html.contains("市场行情日报"));
    assert!(html.contains("<table"));
    assert!(html.contains("交易信号"));
    assert!(html.ends_with("</html>"));
    assert!(html.contains("<li>报告日期：2026-05-21</li>\n"));
}

#[test]
fn plain_email_summary() {
    let text = render_plain_email(&sample_report());
    assert!(text.starts_with("市场行情日报\n\n报告日期：2026-05-21\n标的数量：2\n信号：买入 1 / 卖出 0 / 观望 1\n数据源错误：1\n\n"));
    assert!(text.ends_with("本报告为规则型行情整理输出，不构成任何投资建议。"));
}

#[test]
fn empty_error_section_says_so() {
    let mut report = sample_report();
    report.provider_errors.clear();
    report.freshness.push(DataFreshness { instrument_id: "nobody".to_string(), latest_bar_date: None, days_behind: None });
    let markdown = render_markdown(&report);
    assert!(markdown.contains("无需要关注的数据源错误（或已有足够新的行情，历史失败记录已忽略）。\n"));
    assert!(markdown.contains("| nobody | - | - | - |\n"));
    let _unused: Option<ReportInstrument> = None;
}

#[test]
fn report_format_choice() {
    assert_eq!(report_format(Some(ReportFormat::Json), "markdown"), ReportFormat::Json);
    assert_eq!(report_format(None, "json"), ReportFormat::Json);
    assert_eq!(report_format(None, "JSON"), ReportFormat::Markdown);
}

#[test]
fn bootstrap_prefers_stooq_and_plans_windows() {
    let cfg = config(vec![]);
    let gold = instrument("gold", "GLOBAL", InstrumentKind::Commodity, "alpha_vantage");
    assert_eq!(bootstrap_provider(&cfg, &gold), if cfg.providers.stooq_enabled { "stooq" } else { "alpha_vantage" });
    let (start, end) = bootstrap_window(day(2024, 6, 1), 10, Some(day(2024, 1, 1)));
    assert_eq!((start, end), (day(2024, 5, 22), day(2024, 6, 1)));
    let (start, _) = bootstrap_window(day(2024, 6, 1), 10, Some(day(2024, 5, 30)));
    assert_eq!(start, day(2024, 5, 30));
    assert_eq!(bootstrap_plan(day(2024, 5, 22), day(2024, 6, 1), None), BootstrapPlan::FetchUntil(day(2024, 6, 1)));
    assert_eq!(bootstrap_plan(day(2024, 5, 22), day(2024, 6, 1), Some(day(2024, 5, 22))), BootstrapPlan::Covered);
    assert_eq!(bootstrap_plan(day(2024, 5, 22), day(2024, 6, 1), Some(day(2024, 5, 25))), BootstrapPlan::FetchUntil(day(2024, 5, 24)));
}

#[test]
fn bootstrap_falls_back_then_reports_both_failures() {
    let mut cfg = config(vec![]);
    cfg.providers.stooq_enabled = true;
    let gold = instrument("gold", "GLOBAL", InstrumentKind::Commodity, "alpha_vantage");
    let first = FetchError::Provider(ProviderError::new("stooq", ProviderErrorKind::Http, "timeout"));
    let (state, cmd) = bootstrap_step(&cfg, &gold, BootstrapState::AwaitPrimary, BootstrapEvent::Failed(first));
    match cmd {
        BootstrapCommand::AskFallback(p) => assert_eq!(p, "alpha_vantage"),
        other => panic!("unexpected {:?}", other),
    }
    let second = FetchError::Other("boom".to_string());
    let (state, cmd) = bootstrap_step(&cfg, &gold, state, BootstrapEvent::Failed(second));
    assert!(matches!(state, BootstrapState::Done));
    match cmd {
        BootstrapCommand::Report(records, provider, text) => {
            assert_eq!(records.len(), 2);
            assert_eq!(records[1].provider, "alpha_vantage");
            assert_eq!(records[1].kind, ProviderErrorKind::ProviderMessage);
            assert_eq!(provider, "stooq");
            assert_eq!(text, "[网络错误] 请求超时；fallback: boom");
        }
        other => panic!("unexpected {:?}", other),
    }
}

#[test]
fn bootstrap_stores_or_reports_empty() {
    let cfg = config(vec![]);
    let own = instrument("sh000001", "SH", InstrumentKind::Index, "eastmoney");
    let mut c = cfg.clone();
    c.providers.stooq_enabled = false;
    let (_, cmd) = bootstrap_step(&c, &own, BootstrapState::AwaitPrimary, BootstrapEvent::Answered(5));
    match cmd {
        BootstrapCommand::Store(p) => assert_eq!(p, "eastmoney"),
        other => panic!("unexpected {:?}", other),
    }
    let (_, cmd) = bootstrap_step(&c, &own, BootstrapState::AwaitPrimary, BootstrapEvent::Answered(0));
    match cmd {
        BootstrapCommand::Report(records, _, text) => {
            assert_eq!(records[0].kind, ProviderErrorKind::NoData);
            assert_eq!(records[0].raw_message, "历史初始化返回空数据");
            assert_eq!(text, "[无数据] 历史初始化返回空数据");
        }
        other => panic!("unexpected {:?}", other),
    }
}

#[test]
fn update_uses_stooq_fallback_and_freshness() {
    let mut cfg = config(vec![]);
    cfg.providers.stooq_enabled = true;
    let index = instrument("sh000001", "SH", InstrumentKind::Index, "eastmoney");
    let (state, cmd) = start_fetch(&index);
    match cmd {
        FetchCommand::Ask(p) => assert_eq!(p, "eastmoney"),
        other => panic!("unexpected {:?}", other),
    }
    let err = FetchError::Provider(ProviderError::new("eastmoney", ProviderErrorKind::Http, "down"));
    let end = day(2024, 6, 3);
    let (state, cmd) = fetch_step(&cfg, &index, end, state, FetchEvent::Failed(err));
    match cmd {
        FetchCommand::Ask(p) => assert_eq!(p, "stooq"),
        other => panic!("unexpected {:?}", other),
    }
    let (state, cmd) = fetch_step(&cfg, &index, end, state, FetchEvent::Answered(0));
    assert!(matches!(cmd, FetchCommand::ReadLatest));
    let (_, cmd) = fetch_step(&cfg, &index, end, state, FetchEvent::Latest(Some(day(2024, 5, 20))));
    match cmd {
        FetchCommand::Fail(FetchError::Provider(e)) => {
            assert_eq!(e.provider, "eastmoney");
            assert_eq!(e.raw_message, "down");
        }
        other => panic!("unexpected {:?}", other),
    }
    assert!(data_is_fresh_enough(Some(day(2024, 6, 1)), end));
    assert!(!data_is_fresh_enough(Some(day(2024, 5, 31)), end));
    assert!(!data_is_fresh_enough(None, end));
}

#[test]
fn provider_choice_and_error_count() {
    let mut cfg = config(vec![]);
    cfg.providers.alpha_vantage_enabled = false;
    cfg.providers.eastmoney_enabled = true;
    assert_eq!(choose_provider(&cfg, "eastmoney").unwrap(), ProviderChoice::Eastmoney);
    let e = choose_provider(&cfg, "alpha_vantage").unwrap_err();
    assert_eq!((e.provider.as_str(), e.raw_message.as_str()), ("disabled", "provider alpha_vantage is disabled"));
    let e = choose_provider(&cfg, "yahoo").unwrap_err();
    assert_eq!(e.raw_message, "unknown provider: yahoo");
    let summary = UpdateSummary {
        start: day(2024, 1, 1),
        end: day(2024, 1, 2),
        dry_run: false,
        instruments: vec![
            InstrumentUpdateSummary { instrument_id: "a".into(), provider: "stooq".into(), bars_written: 3, error: None },
            InstrumentUpdateSummary { instrument_id: "b".into(), provider: "stooq".into(), bars_written: 0, error: Some("x".into()) },
        ],
    };
    assert_eq!(summary.provider_error_count(), 1);
}

fn email() -> EmailConfig {
    let mut e = EmailConfig::default();
    e.enabled = true;
    e.send_on_daily = true;
    e.smtp_host = "smtp.example.com".to_string();
    e.from = "Reports <reports@example.com>".to_string();
    e.to = vec![" a@example.com ".to_string(), "".to_string()];
    e.subject = "日报 {date}".to_string();
    e
}

#[test]
fn email_plan_checks_settings_and_addresses() {
    let e = email();
    assert!(sends_daily(&e));
    let plan = email_plan(&e, day(2026, 5, 21), Some("user".to_string()), Some("pass".to_string())).unwrap();
    assert_eq!(plan.to, vec!["a@example.com".to_string()]);
    assert_eq!(plan.subject, "日报 2026-05-21");
    assert_eq!((plan.username.as_str(), plan.password.as_str()), ("user", "pass"));
    let err = email_plan(&e, day(2026, 5, 21), None, Some("pass".to_string())).unwrap_err();
    assert!(err.starts_with("report.email.username or env "));
    let mut bad = email();
    bad.to = vec!["not an address".to_string()];
    let err = email_plan(&bad, day(2026, 5, 21), Some("u".to_string()), Some("p".to_string())).unwrap_err();
    assert!(err.starts_with("invalid report.email.to address: not an address: "));
    let mut plain = email();
    plain.use_tls = false;
    assert!(require_tls(&plain).is_err());
}

#[test]
fn update_stores_primary_answer_and_skips_when_fresh() {
    let cfg = config(vec![]);
    let index = instrument("sh000001", "SH", InstrumentKind::Index, "eastmoney");
    let end = day(2024, 6, 3);
    let (state, _) = start_fetch(&index);
    let (state, cmd) = fetch_step(&cfg, &index, end, state, FetchEvent::Answered(5));
    assert!(matches!(state, FetchState::Done));
    match cmd {
        FetchCommand::Store(p) => assert_eq!(p, "eastmoney"),
        other => panic!("unexpected {:?}", other),
    }
    let mut off = cfg.clone();
    off.providers.stooq_enabled = false;
    let (state, _) = start_fetch(&index);
    let (state, cmd) = fetch_step(&off, &index, end, state, FetchEvent::Answered(0));
    assert!(matches!(cmd, FetchCommand::ReadLatest));
    let (_, cmd) = fetch_step(&off, &index, end, state, FetchEvent::Latest(Some(day(2024, 6, 2))));
    assert!(matches!(cmd, FetchCommand::SkipFresh));
    let (state, _) = start_fetch(&index);
    let (state, _) = fetch_step(&off, &index, end, state, FetchEvent::Answered(0));
    let (_, cmd) = fetch_step(&off, &index, end, state, FetchEvent::Latest(None));
    match cmd {
        FetchCommand::Fail(FetchError::Provider(e)) => {
            assert_eq!(e.kind, ProviderErrorKind::NoData);
            assert_eq!(e.raw_message, "增量更新返回空数据");
        }
        other => panic!("unexpected {:?}", other),
    }
}

#[test]
fn today_is_after_the_unix_epoch() {
    assert!(day(1970, 1, 1).not_after(&today_utc()));
    assert!(day(1970, 1, 1).not_after(&incremental_end_date("GLOBAL")));
}

#[test]
fn other_errors_fail_unchanged() {
    let mut cfg = config(vec![]);
    cfg.providers.stooq_enabled = false;
    let index = instrument("sh000001", "SH", InstrumentKind::Index, "eastmoney");
    let (state, _) = start_fetch(&index);
    let end = day(2024, 6, 3);
    let (state, cmd) = fetch_step(&cfg, &index, end, state, FetchEvent::Failed(FetchError::Other("socket closed".to_string())));
    assert!(matches!(cmd, FetchCommand::ReadLatest));
    let (_, cmd) = fetch_step(&cfg, &index, end, state, FetchEvent::Latest(None));
    match cmd {
        FetchCommand::Fail(FetchError::Other(m)) => assert_eq!(m, "socket closed"),
        other => panic!("unexpected {:?}", other),
    }
}

#[test]
fn windows_are_checked_before_they_are_taken() {
    let today = day(2024, 6, 3);
    assert!(bootstrap_window_is_defined(today, 3650));
    assert!(!bootstrap_window_is_defined(today, i64::MAX));
    assert!(!bootstrap_window_is_defined(today, i64::MIN));
    assert!(bootstrap_window_is_defined(today, 0));
    assert!(summary_window_is_defined(None, None, today, 30));
    assert!(!summary_window_is_defined(None, None, today, i64::MAX));
    assert!(summary_window_is_defined(Some(today), None, today, i64::MAX));
    assert!(!summary_window_is_defined(None, Some(today), today, -200_000_000));
    let (start, end) = summary_window(None, Some(day(2024, 6, 10)), today, 10);
    assert_eq!((start, end), (day(2024, 5, 31), day(2024, 6, 10)));
}
