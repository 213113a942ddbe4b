use marketfeed::calendar::Day;
use marketfeed::config::{InstrumentConfig, InstrumentKind};
use marketfeed::models::ParsedBar;
use marketfeed::providers::alpha_vantage::{
    alpha_answer, alpha_json_bars, alpha_request, is_json_body, parse_alpha_vantage_daily,
    parse_alpha_vantage_json, JsonValue,
};
use marketfeed::providers::eastmoney::{
    eastmoney_request, extract_js_array, fund_code, fund_nav_answer, fund_nav_days,
    is_fund_instrument, locate_net_worth_trend, parse_eastmoney_daily, resolve_secid,
    select_fund_rows, EastmoneyPayload, EastmoneyRequest,
};
use marketfeed::providers::stooq::{resolve_stooq_symbol, stooq_request};
use marketfeed::providers::{FetchError, ProviderErrorKind};
use marketfeed::utils::csv::{parse_alpha_vantage_csv_daily, parse_stooq_daily};

fn instrument(id: &str, market: &str, kind: InstrumentKind) -> InstrumentConfig {
    InstrumentConfig {
        id: id.to_string(),
        name: id.to_string(),
        kind,
        market: market.to_string(),
        currency: "USD".to_string(),
        timezone: "UTC".to_string(),
        provider: "stooq".to_string(),
        alpha_vantage_symbol: None,
        stooq_symbol: None,
        eastmoney_secid: None,
        eastmoney_fund_code: None,
    }
}

fn day(y: i32, m: u32, d: u32) -> Day {
    Day::from_ymd(y, m, d).unwrap()
}

fn price(text: &str) -> f64 {
    text.parse::<f64>().unwrap()
}

fn text(s: &str) -> JsonValue {
    JsonValue::Text(s.to_string())
}

fn number(s: &str) -> JsonValue {
    JsonValue::Number(s.to_string())
}

fn object(pairs: Vec<(&str, JsonValue)>) -> JsonValue {
    JsonValue::Object(pairs.into_iter().map(|(k, v)| (k.to_string(), v)).collect())
}

#[test]
fn infers_china_index_symbol() {
    assert_eq!(
        resolve_stooq_symbol(&instrument("sh000001", "SH", InstrumentKind::Index)),
        Some("^shc".to_string())
    );
}

#[test]
fn infers_gold_symbol() {
    assert_eq!(
        resolve_stooq_symbol(&instrument("gold", "GLOBAL", InstrumentKind::Commodity)),
        Some("xauusd".to_string())
    );
}

#[test]
fn infers_us_and_cn_symbols() {
    assert_eq!(
        resolve_stooq_symbol(&instrument("AAPL", "nasdaq", InstrumentKind::Stock)),
        Some("aapl.us".to_string())
    );
    assert_eq!(
        resolve_stooq_symbol(&instrument("sz000001", "SZ", InstrumentKind::Stock)),
        Some("000001.cn".to_string())
    );
    assert_eq!(resolve_stooq_symbol(&instrument("silver", "GLOBAL", InstrumentKind::Commodity)), None);
    let mut configured = instrument("x", "GLOBAL", InstrumentKind::Stock);
    configured.stooq_symbol = Some("  ".to_string());
    assert_eq!(resolve_stooq_symbol(&configured), None);
    configured.stooq_symbol = Some("spy.us".to_string());
    assert_eq!(resolve_stooq_symbol(&configured), Some("spy.us".to_string()));
}

#[test]
fn derives_secid_from_config_id() {
    let instrument = InstrumentConfig {
        id: "sh600000".to_string(),
        name: "浦发银行".to_string(),
        kind: InstrumentKind::Stock,
        market: "SH".to_string(),
        currency: "CNY".to_string(),
        timezone: "Asia/Shanghai".to_string(),
        stooq_symbol: None,
        alpha_vantage_symbol: None,
        eastmoney_secid: None,
        eastmoney_fund_code: None,
        provider: "eastmoney".to_string(),
    };
    assert_eq!(resolve_secid(&instrument, "eastmoney").unwrap(), "1.600000");
}

#[test]
fn secid_prefixes_and_failures() {
    let sz = instrument("000001", "CN", InstrumentKind::Stock);
    assert_eq!(resolve_secid(&sz, "eastmoney").unwrap(), "0.000001");
    let unknown = instrument("abc", "US", InstrumentKind::Stock);
    let err = resolve_secid(&unknown, "eastmoney").unwrap_err();
    assert_eq!(err.kind, ProviderErrorKind::UnsupportedInstrument);
    assert_eq!(err.raw_message, "cannot derive Eastmoney secid from instrument id abc");
    let other = instrument("123456", "US", InstrumentKind::Stock);
    let err = resolve_secid(&other, "eastmoney").unwrap_err();
    assert_eq!(err.raw_message, "cannot infer Eastmoney market prefix for 123456 (US)");
}

#[test]
fn parses_stooq_csv() {
    let fixture = "Date,Open,High,Low,Close,Volume\n2024-01-02,10,11,9,10.5,123\n\n2024-01-03,10.5,12,10,11,-\n";
    let bars = parse_stooq_daily("foo", fixture, "stooq").unwrap();
    assert_eq!(bars.len(), 2);
    assert_eq!(bars[0].trade_date, day(2024, 1, 2));
    assert_eq!(bars[1].volume, None);
}

#[test]
fn rejects_stooq_html() {
    let err = parse_stooq_daily("foo", "<html>nope</html>", "stooq").unwrap_err();
    assert_eq!(err.kind, ProviderErrorKind::MalformedResponse);
}

#[test]
fn stooq_rows_come_out_in_date_order() {
    let fixture = "Date,Open,High,Low,Close,Volume\n2024-01-03,1,1,1,1,5\n2024-01-02,2,2,2,2,6\n";
    let bars = parse_stooq_daily("foo", fixture, "stooq").unwrap();
    assert_eq!(bars[0].trade_date, day(2024, 1, 2));
    assert_eq!(bars[0].close, "2");
    assert_eq!(bars[1].volume, Some("5".to_string()));
    assert_eq!(bars[1].source, "stooq");
}

#[test]
fn stooq_failures() {
    assert_eq!(parse_stooq_daily("foo", "", "stooq").unwrap_err().kind, ProviderErrorKind::NoData);
    let err = parse_stooq_daily("foo", "No data", "stooq").unwrap_err();
    assert_eq!(err.kind, ProviderErrorKind::ProviderMessage);
    assert_eq!(err.raw_message, "invalid Stooq header: No data");
    let err = parse_stooq_daily("foo", "a,b\n", "stooq").unwrap_err();
    assert_eq!(err.kind, ProviderErrorKind::MalformedResponse);
    let err = parse_stooq_daily("foo", "Date,Open,High,Low,Close,Volume\n", "stooq").unwrap_err();
    assert_eq!(err.kind, ProviderErrorKind::NoData);
    let err =
        parse_stooq_daily("foo", "Date,Open,High,Low,Close,Volume\n2024-01-02,x,1,1,1,1\n", "stooq")
            .unwrap_err();
    assert_eq!(err.kind, ProviderErrorKind::MalformedResponse);
    assert!(err.raw_message.starts_with("invalid open value x: "));
}

#[test]
fn alpha_csv_reads_timestamp_header() {
    let body = "timestamp,open,high,low,close,volume\n2024-01-03,1,2,0.5,1.5,100\n2024-01-02,1,2,0.5,1.25,x\n";
    let bars = parse_alpha_vantage_csv_daily("ibm", body, "alpha_vantage").unwrap();
    assert_eq!(bars.len(), 2);
    assert_eq!(bars[0].trade_date, day(2024, 1, 2));
    assert_eq!(bars[0].volume, None);
    assert_eq!(price(&bars[1].close), 1.5);
    let err = parse_alpha_vantage_csv_daily("ibm", "when,what\n", "alpha_vantage").unwrap_err();
    assert_eq!(err.raw_message, "invalid Alpha Vantage CSV header: when,what");
}

#[test]
fn parses_normal_json() {
    let payload = EastmoneyPayload::Klines(vec![
        "2024-01-02,10.00,10.50,10.80,9.90,12345,67890,1.2,0.3,0.03,0.5".to_string(),
    ]);
    let bars = parse_eastmoney_daily("sh000001", &payload, "eastmoney").unwrap();
    assert_eq!(bars.len(), 1);
    assert_eq!(price(&bars[0].open), 10.0);
    assert_eq!(price(&bars[0].close), 10.5);
    assert_eq!(price(&bars[0].high), 10.8);
    assert_eq!(price(&bars[0].low), 9.9);
    assert_eq!(bars[0].amount.as_deref().map(price), Some(67890.0));
}

#[test]
fn classifies_data_null() {
    let err = parse_eastmoney_daily("sh000001", &EastmoneyPayload::NoData, "eastmoney").unwrap_err();
    assert_eq!(err.kind, ProviderErrorKind::NoData);
}

#[test]
fn rejects_bad_field_count() {
    let payload = EastmoneyPayload::Klines(vec!["2024-01-02,10,11".to_string()]);
    let err = parse_eastmoney_daily("sh000001", &payload, "eastmoney").unwrap_err();
    assert_eq!(err.kind, ProviderErrorKind::MalformedResponse);
}

#[test]
fn eastmoney_empty_and_unreadable() {
    let err = parse_eastmoney_daily("x", &EastmoneyPayload::Klines(vec![]), "eastmoney").unwrap_err();
    assert_eq!(err.raw_message, "Eastmoney returned empty klines");
    let err = parse_eastmoney_daily("x", &EastmoneyPayload::Unreadable("eof".to_string()), "eastmoney")
        .unwrap_err();
    assert_eq!(err.raw_message, "invalid Eastmoney JSON: eof");
}

#[test]
fn parses_fund_nav_response() {
    let fixture = r#"
            var fS_name = "中欧量化驱动混合A";
            var Data_netWorthTrend = [{"x":1716048000000,"y":1.5539,"equityReturn":-1.2,"unitMoney":""},{"x":1716134400000,"y":1.5739,"equityReturn":1.29,"unitMoney":""}];
            var Data_ACWorthTrend = [];
        "#;
    let array = locate_net_worth_trend(fixture, "eastmoney_fund").unwrap();
    assert!(array.starts_with('[') && array.ends_with(']'));
    let decoded: Result<Vec<(i64, String)>, String> = Ok(vec![
        (1716048000000, "1.5539".to_string()),
        (1716134400000, "1.5739".to_string()),
    ]);
    let bars = fund_nav_answer("fund501203", &decoded, day(2000, 1, 1), day(2100, 1, 1), "501203").unwrap();
    assert_eq!(bars.len(), 2);
    assert_eq!(bars[0].trade_date, day(2024, 5, 19));
    assert_eq!(price(&bars[0].close), 1.5539);
    assert_eq!(bars[1].trade_date, day(2024, 5, 20));
    assert_eq!(price(&bars[1].close), 1.5739);
    assert_eq!(price(&bars[1].open), 1.5739);
    assert_eq!(bars[1].volume, None);
    assert_eq!(bars[1].source, "eastmoney_fund");
}

#[test]
fn rejects_fund_response_without_net_worth_trend() {
    let err = locate_net_worth_trend("var apidata=", "eastmoney_fund").unwrap_err();
    assert_eq!(err.kind, ProviderErrorKind::MalformedResponse);
    assert!(err.raw_message.contains("Data_netWorthTrend"));
}

#[test]
fn rejects_empty_fund_net_worth_trend() {
    let array = locate_net_worth_trend("Data_netWorthTrend = [];", "eastmoney_fund").unwrap();
    assert_eq!(array, "[]");
    let err = fund_nav_days(&Ok(vec![]), "eastmoney_fund").unwrap_err();
    assert_eq!(err.kind, ProviderErrorKind::NoData);
}

#[test]
fn fund_nav_timestamp_uses_shanghai_calendar_date() {
    let date = Day::from_shanghai_millis(1_784_563_200_000).unwrap();
    assert_eq!(date, day(2026, 7, 21));
}

#[test]
fn shanghai_dates_past_chronos_range_are_none() {
    let last_millisecond: i64 = 8_210_266_876_799_999;
    assert_eq!(Day::from_shanghai_millis(last_millisecond), None);
    let nine_hours: i64 = 9 * 3_600_000;
    assert_eq!(Day::from_shanghai_millis(last_millisecond - nine_hours), Some(day(262142, 12, 31)));
    assert_eq!(Day::from_shanghai_millis(i64::MAX), None);
}

#[test]
fn js_array_skips_brackets_in_strings() {
    let body = r#"Data_x = [{"a":"]["}, [1]]; rest"#;
    assert_eq!(extract_js_array(body, "Data_x"), Some(r#"[{"a":"]["}, [1]]"#.to_string()));
    assert_eq!(extract_js_array("Data_x = {", "Data_x"), None);
    assert_eq!(extract_js_array("Data_x = [1", "Data_x"), None);
}

#[test]
fn fund_window_keeps_first_point_of_each_day() {
    let days = vec![day(2024, 5, 20), day(2024, 5, 19), day(2024, 5, 20), day(2024, 5, 25)];
    let picks = select_fund_rows(&days, day(2024, 5, 19), day(2024, 5, 21), "001980", "eastmoney").unwrap();
    assert_eq!(picks, vec![1, 0]);
    let err = select_fund_rows(&days, day(2024, 6, 1), day(2024, 6, 2), "001980", "eastmoney").unwrap_err();
    assert_eq!(err.raw_message, "Eastmoney fund returned no NAV rows for 001980");
    assert_eq!(err.provider, "eastmoney");
}

#[test]
fn funds_are_recognised_and_coded() {
    let mut fund = instrument("fund001980", "FUND", InstrumentKind::Etf);
    assert!(is_fund_instrument(&fund));
    assert_eq!(fund_code(&fund), Some("001980".to_string()));
    fund.eastmoney_fund_code = Some("501203".to_string());
    assert_eq!(fund_code(&fund), Some("501203".to_string()));
    assert!(!is_fund_instrument(&instrument("sh600000", "SH", InstrumentKind::Stock)));
}

#[test]
fn stooq_request_url() {
    let gold = instrument("gold", "GLOBAL", InstrumentKind::Commodity);
    let url = stooq_request("https://stooq.com/q/d/l/", &Some("k".to_string()), &gold, day(2024, 1, 2), day(2024, 1, 31)).unwrap();
    assert_eq!(url, "https://stooq.com/q/d/l/?s=xauusd&i=d&d1=20240102&d2=20240131&apikey=k");
    let silver = instrument("silver", "GLOBAL", InstrumentKind::Commodity);
    match stooq_request("https://stooq.com/q/d/l/", &None, &silver, day(2024, 1, 2), day(2024, 1, 3)) {
        Err(FetchError::Provider(e)) => {
            assert_eq!(e.kind, ProviderErrorKind::UnsupportedInstrument);
            assert_eq!(e.raw_message, "missing or unresolvable stooq_symbol for silver");
        }
        other => panic!("unexpected {:?}", other),
    }
    match stooq_request("not a url", &None, &gold, day(2024, 1, 2), day(2024, 1, 3)) {
        Err(FetchError::Other(m)) => assert_eq!(m, "relative URL without a base"),
        other => panic!("unexpected {:?}", other),
    }
}

#[test]
fn eastmoney_request_urls() {
    let stock = instrument("sh600000", "SH", InstrumentKind::Stock);
    match eastmoney_request("https://push2his.eastmoney.com/api/qt/stock/kline/get", "https://fund.eastmoney.com/pingzhongdata/", &stock, day(2024, 1, 2), day(2024, 1, 5)).unwrap() {
        EastmoneyRequest::Kline(url) => assert_eq!(
            url,
            "https://push2his.eastmoney.com/api/qt/stock/kline/get?secid=1.600000&klt=101&fqt=0&beg=20240102&end=20240105&fields1=f1%2Cf2%2Cf3%2Cf4%2Cf5%2Cf6&fields2=f51%2Cf52%2Cf53%2Cf54%2Cf55%2Cf56%2Cf57%2Cf58%2Cf59%2Cf60%2Cf61"
        ),
        other => panic!("unexpected {:?}", other),
    }
    let fund = instrument("fund001980", "FUND", InstrumentKind::Etf);
    match eastmoney_request("https://x", "https://fund.eastmoney.com/pingzhongdata//", &fund, day(2024, 1, 2), day(2024, 1, 5)).unwrap() {
        EastmoneyRequest::Fund { url, code } => {
            assert_eq!(url, "https://fund.eastmoney.com/pingzhongdata/001980.js");
            assert_eq!(code, "001980");
        }
        other => panic!("unexpected {:?}", other),
    }
    let nameless = instrument("fundx", "FUND", InstrumentKind::Etf);
    match eastmoney_request("https://x", "https://y", &nameless, day(2024, 1, 2), day(2024, 1, 5)) {
        Err(FetchError::Provider(e)) => assert_eq!(e.raw_message, "cannot derive Eastmoney fund code from fundx"),
        other => panic!("unexpected {:?}", other),
    }
}

#[test]
fn alpha_request_urls_and_errors() {
    let mut gold = instrument("gold", "GLOBAL", InstrumentKind::Commodity);
    match alpha_request("https://www.alphavantage.co/query", &None, &gold) {
        Err(FetchError::Provider(e)) => {
            assert_eq!(e.kind, ProviderErrorKind::Auth);
            assert_eq!(e.raw_message, "missing Alpha Vantage API key");
        }
        other => panic!("unexpected {:?}", other),
    }
    match alpha_request("https://www.alphavantage.co/query", &Some("k".to_string()), &gold) {
        Err(FetchError::Provider(e)) => {
            assert_eq!(e.kind, ProviderErrorKind::UnsupportedInstrument);
            assert_eq!(e.raw_message, "missing alpha_vantage_symbol for gold");
        }
        other => panic!("unexpected {:?}", other),
    }
    gold.alpha_vantage_symbol = Some("XAU".to_string());
    let url = alpha_request("https://www.alphavantage.co/query", &Some("k".to_string()), &gold).unwrap();
    assert_eq!(url, "https://www.alphavantage.co/query?function=GOLD_SILVER_HISTORY&symbol=XAU&interval=daily&apikey=k");
    let mut ibm = instrument("ibm", "US", InstrumentKind::Stock);
    ibm.alpha_vantage_symbol = Some("IBM".to_string());
    let url = alpha_request("https://www.alphavantage.co/query", &Some("k".to_string()), &ibm).unwrap();
    assert_eq!(url, "https://www.alphavantage.co/query?function=TIME_SERIES_DAILY&symbol=IBM&apikey=k");
}

fn gold_history() -> JsonValue {
    object(vec![(
        "data",
        JsonValue::Array(vec![
            object(vec![("date", text("2024-01-02")), ("value", text("2060.50"))]),
            object(vec![("date", text("2024-01-03")), ("value", text("2075.25"))]),
        ]),
    )])
}

#[test]
fn parses_gold_history_value_only() {
    let fixture = r#"{
            "data": [
                {"date":"2024-01-02","value":"2060.50"},
                {"date":"2024-01-03","value":"2075.25"}
            ]
        }"#;
    let bars = parse_alpha_vantage_daily("xauusd", fixture, "alpha_vantage").unwrap();
    assert_eq!(bars.len(), 2);
    assert_eq!(price(&bars[0].open), 2060.50);
    assert_eq!(price(&bars[0].high), 2060.50);
    assert_eq!(price(&bars[0].low), 2060.50);
    assert_eq!(price(&bars[0].close), 2060.50);
}

#[test]
fn parses_stock_daily_json() {
    let fixture = r#"{
            "Time Series (Daily)": {
                "2024-01-03": {"1. open":"10","2. high":"12","3. low":"9","4. close":"11","5. volume":"1000"}
            }
        }"#;
    let bars = parse_alpha_vantage_daily("ibm", fixture, "alpha_vantage").unwrap();
    assert_eq!(price(&bars[0].close), 11.0);
    assert_eq!(bars[0].volume.as_deref().map(price), Some(1000.0));
}

#[test]
fn classifies_rate_limit_message() {
    let fixture = r#"{"Note":"Thank you for using Alpha Vantage!"}"#;
    let err = parse_alpha_vantage_daily("ibm", fixture, "alpha_vantage").unwrap_err();
    assert_eq!(err.kind, ProviderErrorKind::RateLimited);
}

#[test]
fn classifies_error_message() {
    let fixture = r#"{"Error Message":"Invalid API call."}"#;
    let err = parse_alpha_vantage_daily("ibm", fixture, "alpha_vantage").unwrap_err();
    assert_eq!(err.kind, ProviderErrorKind::ProviderMessage);
    assert_eq!(err.raw_message, "Invalid API call.");
}

#[test]
fn alpha_json_failures() {
    let err = alpha_json_bars("ibm", &Err("EOF while parsing".to_string()), "alpha_vantage").unwrap_err();
    assert_eq!(err.raw_message, "invalid Alpha Vantage JSON: EOF while parsing");
    let err = alpha_json_bars("ibm", &Ok(object(vec![])), "alpha_vantage").unwrap_err();
    assert_eq!(err.raw_message, "Alpha Vantage JSON missing Time Series (Daily) or data array");
    let no_date = object(vec![("data", JsonValue::Array(vec![object(vec![("value", text("1"))])]))]);
    let err = alpha_json_bars("ibm", &Ok(no_date), "av").unwrap_err();
    assert_eq!(err.provider, "alpha_vantage");
    assert_eq!(err.raw_message, r#"missing string field, tried ["date", "timestamp", "time"]"#);
    let no_close = object(vec![(
        "data",
        JsonValue::Array(vec![object(vec![("date", text("2024-01-02")), ("value", JsonValue::Other)])]),
    )]);
    let err = alpha_json_bars("ibm", &Ok(no_close), "av").unwrap_err();
    assert_eq!(err.provider, "av");
    assert_eq!(err.raw_message, r#"missing numeric field, tried ["close", "4. close", "value", "price"]"#);
    let empty = object(vec![("Data", JsonValue::Array(vec![]))]);
    let err = alpha_json_bars("ibm", &Ok(empty), "av").unwrap_err();
    assert_eq!(err.kind, ProviderErrorKind::NoData);
    assert_eq!(err.raw_message, "Alpha Vantage response contains no rows");
}

#[test]
fn alpha_numbers_and_later_keys() {
    let decoded = object(vec![(
        "data",
        JsonValue::Array(vec![object(vec![
            ("timestamp", text("2024-01-05")),
            ("price", number("7.5")),
            ("open", text("not a number")),
            ("1. open", text("7")),
            ("volume", number("12")),
        ])]),
    )]);
    let bars = alpha_json_bars("x", &Ok(decoded), "alpha_vantage").unwrap();
    assert_eq!(bars[0].trade_date, day(2024, 1, 5));
    assert_eq!(bars[0].open, "7");
    assert_eq!(bars[0].high, "7.5");
    assert_eq!(bars[0].volume, Some("12".to_string()));
}

#[test]
fn alpha_answer_keeps_the_window() {
    let body = r#"{"data": [{"date":"2024-01-02","value":"2060.50"}, {"date":"2024-01-03","value":"2075.25"}]}"#;
    assert!(is_json_body("  {\"data\": []}"));
    assert!(!is_json_body("timestamp,open"));
    let bars = alpha_answer("xauusd", body, day(2024, 1, 3), day(2024, 1, 31)).unwrap();
    assert_eq!(bars.len(), 1);
    assert_eq!(bars[0].trade_date, day(2024, 1, 3));
    let err = alpha_answer("xauusd", body, day(2025, 1, 1), day(2025, 1, 31)).unwrap_err();
    assert_eq!(err.kind, ProviderErrorKind::NoData);
    assert_eq!(err.raw_message, "Alpha Vantage returned no rows in requested date range");
}

#[allow(dead_code)]
fn labels(bars: &[ParsedBar]) -> Vec<(String, String)> {
    bars.iter().map(|b| (b.instrument_id.clone(), b.source.clone())).collect()
}

#[test]
fn kline_rows_come_out_in_date_order() {
    let payload = EastmoneyPayload::Klines(vec![
        "2024-01-03,1,2,3,0.5,10,20,0,0,0,0".to_string(),
        "2024-01-02,1,2,3,0.5,-,20,0,0,0,0".to_string(),
    ]);
    let bars = parse_eastmoney_daily("sh000001", &payload, "eastmoney").unwrap();
    assert_eq!(bars[0].trade_date, day(2024, 1, 2));
    assert_eq!(bars[0].volume, None);
    assert_eq!(bars[1].trade_date, day(2024, 1, 3));
    assert_eq!((bars[1].close.as_str(), bars[1].high.as_str()), ("2", "3"));
}

#[test]
fn json_series_come_out_in_date_order() {
    let entry = |d: &'static str, c: &str| {
        (d, object(vec![("1. open", text(c)), ("2. high", text(c)), ("3. low", text(c)), ("4. close", text(c))]))
    };
    let decoded = object(vec![(
        "Time Series (Daily)",
        object(vec![entry("2024-01-04", "3"), entry("2024-01-02", "1"), entry("2024-01-03", "2")]),
    )]);
    let bars = alpha_json_bars("ibm", &Ok(decoded), "alpha_vantage").unwrap();
    let closes: Vec<&str> = bars.iter().map(|b| b.close.as_str()).collect();
    assert_eq!(closes, vec!["1", "2", "3"]);
    assert_eq!(bars[0].volume, None);
}

#[test]
fn alpha_json_bodies_are_decoded() {
    let body = r#"{"data": [{"timestamp": "2024-01-05", "price": 7.5, "1. open": "7", "volume": 12}]}"#;
    let bars = parse_alpha_vantage_json("x", body, "alpha_vantage").unwrap();
    assert_eq!(bars.len(), 1);
    assert_eq!(bars[0].trade_date, day(2024, 1, 5));
    assert_eq!(bars[0].close, "7.5");
    assert_eq!(bars[0].open, "7");
    assert_eq!(bars[0].volume, Some("12".to_string()));
    let tree = alpha_json_bars("xauusd", &Ok(gold_history()), "alpha_vantage").unwrap();
    let text_body = parse_alpha_vantage_json(
        "xauusd",
        r#"{"data": [{"date":"2024-01-02","value":"2060.50"}, {"date":"2024-01-03","value":"2075.25"}]}"#,
        "alpha_vantage",
    )
    .unwrap();
    assert_eq!(tree.len(), text_body.len());
    assert_eq!(tree[1].close, text_body[1].close);
    let err = parse_alpha_vantage_json("x", "{ not json", "alpha_vantage").unwrap_err();
    assert_eq!(err.kind, ProviderErrorKind::MalformedResponse);
    assert!(err.raw_message.starts_with("invalid Alpha Vantage JSON: "));
    let err = parse_alpha_vantage_json("x", r#"{"Information": "slow down"}"#, "alpha_vantage").unwrap_err();
    assert_eq!(err.kind, ProviderErrorKind::RateLimited);
    assert_eq!(err.raw_message, "slow down");
}
