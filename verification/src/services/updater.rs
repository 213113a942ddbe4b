//! Incremental updates: which dates to ask for, which source to ask, when to
//! fall back to Stooq, and what to report.
//!
//! Fetching and storing are done by the caller; each decision between two
//! requests is a step of [`fetch_step`].
use crate::calendar::{in_day_range, Day};
use crate::config::{Config, ConfigError, InstrumentConfig};
use crate::providers::stooq::{resolve_stooq_symbol, stooq_symbol_of};
use crate::providers::{FetchError, ProviderError, ProviderErrorKind};
use crate::services::provider_errors::{error_line, format_error, provider_label, provider_label_zh};
use crate::calendar::chrono_ymd_text;
use crate::text::{chars_of, equals, nat_text, nat_text_of, push_all, push_str, string_of};
use crate::utils::date::{end_date_for, end_date_index};
use vstd::prelude::*;

verus! {

#[derive(Debug, Clone)]
pub struct UpdateOptions {
    pub instrument_id: Option<String>,
    pub from: Option<Day>,
    pub to: Option<Day>,
    pub dry_run: bool,
}

#[derive(Debug, Clone)]
pub struct InstrumentUpdateSummary {
    pub instrument_id: String,
    pub provider: String,
    pub bars_written: usize,
    pub error: Option<String>,
}

#[derive(Debug, Clone)]
pub struct UpdateSummary {
    pub start: Day,
    pub end: Day,
    pub dry_run: bool,
    pub instruments: Vec<InstrumentUpdateSummary>,
}

/// How many summaries carry an error.
pub open spec fn errors_in(s: Seq<InstrumentUpdateSummary>) -> int
    decreases s.len(),
{
    if s.len() == 0 {
        0
    } else {
        errors_in(s.drop_last()) + if s.last().error is Some {
            1int
        } else {
            0int
        }
    }
}

impl UpdateSummary {
    pub fn provider_error_count(&self) -> (n: usize)
        ensures
            n as int == errors_in(self.instruments@),
    {
        let mut n: usize = 0;
        let mut i: usize = 0;
        assert(self.instruments@.take(0) == Seq::<InstrumentUpdateSummary>::empty());
        while i < self.instruments.len()
            invariant
                i <= self.instruments@.len(),
                n as int == errors_in(self.instruments@.take(i as int)),
                n <= i,
            decreases self.instruments@.len() - i,
        {
            assert(self.instruments@.take(i + 1).drop_last() == self.instruments@.take(i as int));
            if self.instruments[i].error.is_some() {
                n = n + 1;
            }
            i = i + 1;
        }
        assert(self.instruments@.take(i as int) == self.instruments@);
        n
    }
}

/// The instruments an update or bootstrap works on: every configured one, or
/// the one asked for by id.
pub fn select_instruments<'a>(config: &'a Config, id: Option<&str>) -> (r: Result<
    Vec<&'a InstrumentConfig>,
    ConfigError,
>)
    ensures
        match id {
            None => r matches Ok(v) && v@ == config.instruments@.map_values(
                |i: InstrumentConfig| &i,
            ),
            Some(want) => match Config::position_of(config.instruments@, want@) {
                Some(k) => r matches Ok(v) && v@.len() == 1 && *v@[0] == config.instruments@[k],
                None => r matches Err(e) && e.message@ == "instrument "@ + want@ + " not found in config"@,
            },
        },
{
    match id {
        Some(want) => {
            let found = config.instrument(want)?;
            let mut v: Vec<&InstrumentConfig> = Vec::new();
            v.push(found);
            Ok(v)
        },
        None => {
            let mut v: Vec<&InstrumentConfig> = Vec::new();
            let mut i: usize = 0;
            while i < config.instruments.len()
                invariant
                    i <= config.instruments@.len(),
                    v@ == config.instruments@.take(i as int).map_values(|x: InstrumentConfig| &x),
                decreases config.instruments@.len() - i,
            {
                v.push(&config.instruments[i]);
                i = i + 1;
                assert(v@ =~= config.instruments@.take(i as int).map_values(
                    |x: InstrumentConfig| &x,
                ));
            }
            assert(config.instruments@.take(i as int) == config.instruments@);
            Ok(v)
        },
    }
}

/// The provider name recorded for a failure with no provider of its own.
pub open spec fn static_name(name: Seq<char>) -> Seq<char> {
    if name == "stooq"@ {
        "stooq"@
    } else if name == "eastmoney"@ {
        "eastmoney"@
    } else if name == "alpha_vantage"@ {
        "alpha_vantage"@
    } else {
        "unknown"@
    }
}

pub fn provider_static_name(name: &str) -> (s: &'static str)
    ensures
        s@ == static_name(name@),
{
    let n = chars_of(name);
    if equals(&n, "stooq") {
        "stooq"
    } else if equals(&n, "eastmoney") {
        "eastmoney"
    } else if equals(&n, "alpha_vantage") {
        "alpha_vantage"
    } else {
        "unknown"
    }
}

/// Stooq is asked when the primary source fails or is empty, for instruments
/// that have a Stooq symbol, when Stooq is enabled and not already primary.
pub open spec fn has_stooq_fallback(config: Config, instrument: InstrumentConfig) -> bool {
    config.providers.stooq_enabled && instrument.provider@ != "stooq"@ && stooq_symbol_of(
        instrument,
    ) is Some
}

pub fn stooq_fallback_provider(config: &Config, instrument: &InstrumentConfig) -> (r: Option<
    &'static str,
>)
    ensures
        r is Some <==> has_stooq_fallback(*config, *instrument),
        r matches Some(p) ==> p@ == "stooq"@,
{
    let p = chars_of(instrument.daily_provider());
    if config.providers.stooq_enabled && !equals(&p, "stooq") && resolve_stooq_symbol(
        instrument,
    ).is_some() {
        Some("stooq")
    } else {
        None
    }
}

/// Existing bars at most two days older than the end date are fresh enough.
pub open spec fn fresh_enough(latest: Option<Day>, end: Day) -> bool {
    match latest {
        Some(d) => end.index() - d.index() <= 2,
        None => false,
    }
}

/// 已有行情与请求截止日相差不超过 2 个自然日，视为数据仍可用（如 bootstrap 已写入）。
pub fn data_is_fresh_enough(latest_bar_date: Option<Day>, end: Day) -> (b: bool)
    ensures
        b == fresh_enough(latest_bar_date, end),
{
    match latest_bar_date {
        Some(latest) => end.days_since(&latest) <= 2,
        None => false,
    }
}

/// A failed fetch matters for a report exactly when the bars are not fresh
/// enough for an update ending on the report date.
pub proof fn law_relevance_is_staleness(latest: Option<Day>, date: Day)
    ensures
        crate::services::provider_errors::still_relevant(latest, date) == !fresh_enough(latest, date),
{
}

/// The source that serves a provider name.
#[derive(Clone, Copy, Debug, PartialEq, Eq, Structural)]
pub enum ProviderChoice {
    Stooq,
    AlphaVantage,
    Eastmoney,
}

/// Which source a provider name asks, or why none is asked.
pub open spec fn provider_choice(config: Config, name: Seq<char>) -> Result<ProviderChoice, (Seq<char>, Seq<char>)> {
    if name == "stooq"@ && config.providers.stooq_enabled {
        Ok(ProviderChoice::Stooq)
    } else if name == "alpha_vantage"@ && config.providers.alpha_vantage_enabled {
        Ok(ProviderChoice::AlphaVantage)
    } else if name == "eastmoney"@ && config.providers.eastmoney_enabled {
        Ok(ProviderChoice::Eastmoney)
    } else if name == "stooq"@ || name == "alpha_vantage"@ || name == "eastmoney"@ {
        Err(("disabled"@, "provider "@ + name + " is disabled"@))
    } else {
        Err(("unknown"@, "unknown provider: "@ + name))
    }
}

pub fn choose_provider(config: &Config, name: &str) -> (r: Result<ProviderChoice, ProviderError>)
    ensures
        r matches Ok(c) ==> provider_choice(*config, name@) == Ok::<
            ProviderChoice,
            (Seq<char>, Seq<char>),
        >(c),
        r matches Err(e) ==> provider_choice(*config, name@) matches Err(f) && e.is(
            f.0,
            ProviderErrorKind::UnsupportedInstrument,
            f.1,
        ),
{
    let n = chars_of(name);
    let p = &config.providers;
    if equals(&n, "stooq") && p.stooq_enabled {
        Ok(ProviderChoice::Stooq)
    } else if equals(&n, "alpha_vantage") && p.alpha_vantage_enabled {
        Ok(ProviderChoice::AlphaVantage)
    } else if equals(&n, "eastmoney") && p.eastmoney_enabled {
        Ok(ProviderChoice::Eastmoney)
    } else if equals(&n, "stooq") || equals(&n, "alpha_vantage") || equals(&n, "eastmoney") {
        let mut m = chars_of("provider ");
        push_all(&mut m, &n);
        push_str(&mut m, " is disabled");
        Err(ProviderError::with_chars("disabled", ProviderErrorKind::UnsupportedInstrument, &m))
    } else {
        let mut m = chars_of("unknown provider: ");
        push_all(&mut m, &n);
        Err(ProviderError::with_chars("unknown", ProviderErrorKind::UnsupportedInstrument, &m))
    }
}

/// After a failed attempt numbered `attempt` (from 0), whether to wait and try
/// again: a source is asked at most `retry_count + 1` times.
pub fn retry_after_failure(attempt: usize, retry_count: usize) -> (b: bool)
    ensures
        b == (attempt < retry_count),
{
    attempt < retry_count
}

/// The number of the attempt at which asking a source stops, counting from
/// `attempt`, when `ok` says which attempts succeed: the first success, or the
/// failure after which `retry_after_failure` allows no other attempt.
pub open spec fn final_attempt(ok: spec_fn(int) -> bool, retry_count: int, attempt: int) -> int
    decreases retry_count - attempt,
{
    if ok(attempt) || !(attempt < retry_count) {
        attempt
    } else {
        final_attempt(ok, retry_count, attempt + 1)
    }
}

proof fn lemma_final_attempt(ok: spec_fn(int) -> bool, retry_count: int, attempt: int)
    requires
        0 <= attempt <= retry_count,
    ensures
        attempt <= final_attempt(ok, retry_count, attempt) <= retry_count,
        forall|a: int| attempt <= a < final_attempt(ok, retry_count, attempt) ==> !#[trigger] ok(a),
        ok(final_attempt(ok, retry_count, attempt)) || final_attempt(ok, retry_count, attempt)
            == retry_count,
    decreases retry_count - attempt,
{
    if !(ok(attempt) || !(attempt < retry_count)) {
        lemma_final_attempt(ok, retry_count, attempt + 1);
    }
}

/// Asking a source again after each failure while `retry_after_failure`
/// allows it stops at the first success or after `retry_count + 1` attempts:
/// every attempt before the last failed, and the last either succeeded or was
/// attempt number `retry_count`.
pub proof fn law_retries_stop_at_first_success_or_limit(ok: spec_fn(int) -> bool, retry_count: usize)
    ensures
        0 <= final_attempt(ok, retry_count as int, 0) <= retry_count,
        forall|a: int| 0 <= a < final_attempt(ok, retry_count as int, 0) ==> !#[trigger] ok(a),
        ok(final_attempt(ok, retry_count as int, 0)) || final_attempt(ok, retry_count as int, 0)
            == retry_count,
{
    lemma_final_attempt(ok, retry_count as int, 0);
}

/// The dates an update asks for: up to `to` (or the market's usual end), from
/// `from` (or the look-back before the end).
pub open spec fn window_of(
    from: Option<Day>,
    to: Option<Day>,
    market: Seq<char>,
    today: Day,
    lookback: int,
) -> (int, int) {
    let end = match to {
        Some(d) => d.index(),
        None => end_date_index(market, today),
    };
    let start = match from {
        Some(d) => d.index(),
        None => end - lookback,
    };
    (start, end)
}

/// An update asks up to the given end date, or else up to yesterday for a
/// mainland market and up to today elsewhere; it starts at the given start
/// date, or else `lookback` days before its end.
pub proof fn law_update_window(from: Option<Day>, to: Option<Day>, market: Seq<char>, today: Day, lookback: int)
    ensures
        window_of(from, to, market, today, lookback).1 == match to {
            Some(d) => d.index(),
            None => if crate::utils::date::cn_market(market) {
                today.index() - 1
            } else {
                today.index()
            },
        },
        from matches Some(f) ==> window_of(from, to, market, today, lookback).0 == f.index(),
        from is None ==> window_of(from, to, market, today, lookback).1 - window_of(
            from,
            to,
            market,
            today,
            lookback,
        ).0 == lookback,
{
}

/// Where the original would panic (a date out of chrono's range) the window
/// is not defined.
pub open spec fn window_defined(
    from: Option<Day>,
    to: Option<Day>,
    market: Seq<char>,
    today: Day,
    lookback: int,
) -> bool {
    &&& (to is None ==> in_day_range(today.index() - 1))
    &&& (from is None ==> in_day_range(window_of(from, to, market, today, lookback).1 - lookback))
}

/// Whether the window of an update is defined (no date leaves chrono's range).
pub fn window_is_defined(
    options: &UpdateOptions,
    instrument: &InstrumentConfig,
    today: Day,
    lookback: i64,
) -> (b: bool)
    ensures
        b == window_defined(options.from, options.to, instrument.market@, today, lookback as int),
{
    let t = today.days_from_ce() as i64;
    let end: i64 = match options.to {
        Some(d) => d.days_from_ce() as i64,
        None => {
            if t - 1 < crate::calendar::DAY_MIN as i64 {
                return false;
            }
            end_date_for(instrument.market.as_str(), today).days_from_ce() as i64
        },
    };
    match options.from {
        Some(_) => true,
        None => {
            if lookback > 0 && end < i64::MIN + lookback {
                return false;
            }
            if lookback < 0 && end > i64::MAX + lookback {
                return false;
            }
            let start = end - lookback;
            crate::calendar::DAY_MIN as i64 <= start && start <= crate::calendar::DAY_MAX as i64
        },
    }
}

pub fn update_window(
    options: &UpdateOptions,
    instrument: &InstrumentConfig,
    today: Day,
    lookback: i64,
) -> (r: (Day, Day))
    requires
        window_defined(options.from, options.to, instrument.market@, today, lookback as int),
    ensures
        (r.0.index(), r.1.index()) == window_of(
            options.from,
            options.to,
            instrument.market@,
            today,
            lookback as int,
        ),
{
    let end = match options.to {
        Some(d) => d,
        None => end_date_for(instrument.market.as_str(), today),
    };
    let start = match options.from {
        Some(d) => d,
        None => {
            let e = end.days_from_ce();
            assert(-lookback == e - lookback - e);
            end.shift(-lookback)
        },
    };
    (start, end)
}

/// The earlier of a running bound and a new date.
pub fn earliest(current: Option<Day>, d: Day) -> (r: Day)
    ensures
        r.index() == match current {
            Some(c) => if c.index() < d.index() {
                c.index()
            } else {
                d.index()
            },
            None => d.index(),
        },
{
    match current {
        Some(c) => if c.precedes(&d) {
            c
        } else {
            d
        },
        None => d,
    }
}

/// The later of a running bound and a new date.
pub fn latest(current: Option<Day>, d: Day) -> (r: Day)
    ensures
        r.index() == match current {
            Some(c) => if c.index() > d.index() {
                c.index()
            } else {
                d.index()
            },
            None => d.index(),
        },
{
    match current {
        Some(c) => if d.precedes(&c) {
            c
        } else {
            d
        },
        None => d,
    }
}

/// Whether `summary_window` can be taken: with no start given, the end less
/// the look-back must be a date chrono can hold.
pub fn summary_window_is_defined(range_start: Option<Day>, range_end: Option<Day>, today: Day, lookback: i64) -> (b: bool)
    ensures
        b == (range_start is None ==> in_day_range(
            match range_end {
                Some(e) => e.index(),
                None => today.index(),
            } - lookback,
        )),
{
    match range_start {
        Some(_) => true,
        None => {
            let end = match range_end {
                Some(e) => e,
                None => today,
            };
            let start: i128 = end.days_from_ce() as i128 - lookback as i128;
            crate::calendar::DAY_MIN as i128 <= start && start <= crate::calendar::DAY_MAX as i128
        },
    }
}

/// The range an update summary reports: the widest range asked for, or, when
/// nothing was asked, from the look-back before today to today.
pub fn summary_window(range_start: Option<Day>, range_end: Option<Day>, today: Day, lookback: i64) -> (r: (Day, Day))
    requires
        range_start is None ==> in_day_range(
            match range_end {
                Some(e) => e.index(),
                None => today.index(),
            } - lookback,
        ),
    ensures
        r.1.index() == match range_end {
            Some(e) => e.index(),
            None => today.index(),
        },
        r.0.index() == match range_start {
            Some(s) => s.index(),
            None => r.1.index() - lookback,
        },
{
    let end = match range_end {
        Some(e) => e,
        None => today,
    };
    let start = match range_start {
        Some(s) => s,
        None => {
            let e = end.days_from_ce();
            assert(-lookback == e - lookback - e);
            end.shift(-lookback)
        },
    };
    (start, end)
}

/// What the primary source answered: a number of bars, or an error.
#[derive(Debug)]
pub enum PrimaryAnswer {
    Bars(usize),
    Error(FetchError),
}

/// Where the fetch for one instrument stands.
#[derive(Debug)]
pub enum FetchState {
    AwaitPrimary,
    AwaitFallback(PrimaryAnswer),
    AwaitLatest(PrimaryAnswer),
    Done,
}

/// What the caller observed.
#[derive(Debug)]
pub enum FetchEvent {
    /// The source answered with this many bars.
    Answered(usize),
    /// The source failed (after its retries).
    Failed(FetchError),
    /// The latest stored bar date.
    Latest(Option<Day>),
}

/// What the caller does next.
#[derive(Debug)]
pub enum FetchCommand {
    /// Ask this provider (with retries) for the window.
    Ask(String),
    /// Read the latest stored bar date of the instrument.
    ReadLatest,
    /// Store the bars the last source gave; they came from this provider.
    Store(String),
    /// Nothing to store, and existing data is fresh enough: no error.
    SkipFresh,
    /// Record and report this error.
    Fail(FetchError),
}

pub open spec fn empty_message(config: Config, instrument: InstrumentConfig) -> Seq<char> {
    if has_stooq_fallback(config, instrument) {
        "主数据源与 Stooq 回退均未返回数据"@
    } else {
        "增量更新返回空数据"@
    }
}

/// A state and an event that the fetch can meet.
pub open spec fn event_fits(state: FetchState, event: FetchEvent) -> bool {
    match state {
        FetchState::AwaitPrimary | FetchState::AwaitFallback(_) => event is Answered || event is Failed,
        FetchState::AwaitLatest(_) => event is Latest,
        FetchState::Done => false,
    }
}

/// One decision of the update of an instrument:
/// the primary's non-empty answer is stored; otherwise Stooq is asked when it
/// can serve as fallback, and its non-empty answer is stored; otherwise, if the
/// stored bars are fresh enough, nothing is reported; otherwise the primary's
/// error, or a no-data error when it answered empty, is reported.
pub open spec fn fetch_decision(
    config: Config,
    instrument: InstrumentConfig,
    end: Day,
    state: FetchState,
    event: FetchEvent,
) -> (FetchState, FetchCommandSpec) {
    match (state, event) {
        (FetchState::AwaitPrimary, FetchEvent::Answered(n)) if n > 0 => (
            FetchState::Done,
            FetchCommandSpec::Store(instrument.provider@),
        ),
        (FetchState::AwaitPrimary, FetchEvent::Answered(n)) => if has_stooq_fallback(
            config,
            instrument,
        ) {
            (FetchState::AwaitFallback(PrimaryAnswer::Bars(n)), FetchCommandSpec::Ask("stooq"@))
        } else {
            (FetchState::AwaitLatest(PrimaryAnswer::Bars(n)), FetchCommandSpec::ReadLatest)
        },
        (FetchState::AwaitPrimary, FetchEvent::Failed(e)) => if has_stooq_fallback(
            config,
            instrument,
        ) {
            (FetchState::AwaitFallback(PrimaryAnswer::Error(e)), FetchCommandSpec::Ask("stooq"@))
        } else {
            (FetchState::AwaitLatest(PrimaryAnswer::Error(e)), FetchCommandSpec::ReadLatest)
        },
        (FetchState::AwaitFallback(_), FetchEvent::Answered(n)) if n > 0 => (
            FetchState::Done,
            FetchCommandSpec::Store("stooq"@),
        ),
        (FetchState::AwaitFallback(p), _) => (FetchState::AwaitLatest(p), FetchCommandSpec::ReadLatest),
        (FetchState::AwaitLatest(p), FetchEvent::Latest(d)) => if fresh_enough(d, end) {
            (FetchState::Done, FetchCommandSpec::SkipFresh)
        } else {
            (
                FetchState::Done,
                FetchCommandSpec::Fail(
                    match p {
                        PrimaryAnswer::Error(e) => stored_view(e),
                        PrimaryAnswer::Bars(_) => (
                            static_name(instrument.provider@),
                            ProviderErrorKind::NoData,
                            empty_message(config, instrument),
                        ),
                    },
                ),
            )
        },
        _ => (FetchState::Done, FetchCommandSpec::ReadLatest),
    }
}

/// A fetch error as (provider, kind, message) when the source classified it;
/// any other error is kept by its message under an empty provider.
pub open spec fn stored_view(e: FetchError) -> (Seq<char>, ProviderErrorKind, Seq<char>) {
    match e {
        FetchError::Provider(p) => (p.provider@, p.kind, p.raw_message@),
        FetchError::Other(m) => (Seq::<char>::empty(), ProviderErrorKind::ProviderMessage, m@),
    }
}

/// The content of a command.
pub enum FetchCommandSpec {
    Ask(Seq<char>),
    ReadLatest,
    Store(Seq<char>),
    SkipFresh,
    Fail((Seq<char>, ProviderErrorKind, Seq<char>)),
}

pub open spec fn command_view(c: FetchCommand) -> FetchCommandSpec {
    match c {
        FetchCommand::Ask(p) => FetchCommandSpec::Ask(p@),
        FetchCommand::ReadLatest => FetchCommandSpec::ReadLatest,
        FetchCommand::Store(p) => FetchCommandSpec::Store(p@),
        FetchCommand::SkipFresh => FetchCommandSpec::SkipFresh,
        FetchCommand::Fail(e) => FetchCommandSpec::Fail(stored_view(e)),
    }
}

/// The first step: ask the instrument's primary provider.
pub fn start_fetch(instrument: &InstrumentConfig) -> (r: (FetchState, FetchCommand))
    ensures
        r.0 is AwaitPrimary,
        command_view(r.1) == FetchCommandSpec::Ask(instrument.provider@),
{
    (FetchState::AwaitPrimary, FetchCommand::Ask(instrument.provider.clone()))
}

pub fn fetch_step(
    config: &Config,
    instrument: &InstrumentConfig,
    end: Day,
    state: FetchState,
    event: FetchEvent,
) -> (r: (FetchState, FetchCommand))
    requires
        event_fits(state, event),
    ensures
        r.0 == fetch_decision(*config, *instrument, end, state, event).0,
        command_view(r.1) == fetch_decision(*config, *instrument, end, state, event).1,
        match (state, event) {
            (FetchState::AwaitLatest(PrimaryAnswer::Error(e)), FetchEvent::Latest(d)) => !fresh_enough(d, end)
                ==> r.1 == FetchCommand::Fail(e),
            _ => true,
        },
{
    match state {
        FetchState::AwaitPrimary => match event {
            FetchEvent::Answered(n) => {
                if n > 0 {
                    return (FetchState::Done, FetchCommand::Store(instrument.provider.clone()));
                }
                if stooq_fallback_provider(config, instrument).is_some() {
                    (
                        FetchState::AwaitFallback(PrimaryAnswer::Bars(n)),
                        FetchCommand::Ask("stooq".to_owned()),
                    )
                } else {
                    (FetchState::AwaitLatest(PrimaryAnswer::Bars(n)), FetchCommand::ReadLatest)
                }
            },
            FetchEvent::Failed(e) => {
                if stooq_fallback_provider(config, instrument).is_some() {
                    (
                        FetchState::AwaitFallback(PrimaryAnswer::Error(e)),
                        FetchCommand::Ask("stooq".to_owned()),
                    )
                } else {
                    (FetchState::AwaitLatest(PrimaryAnswer::Error(e)), FetchCommand::ReadLatest)
                }
            },
            FetchEvent::Latest(_) => (FetchState::Done, FetchCommand::ReadLatest),
        },
        FetchState::AwaitFallback(p) => match event {
            FetchEvent::Answered(n) => {
                if n > 0 {
                    (FetchState::Done, FetchCommand::Store("stooq".to_owned()))
                } else {
                    (FetchState::AwaitLatest(p), FetchCommand::ReadLatest)
                }
            },
            _ => (FetchState::AwaitLatest(p), FetchCommand::ReadLatest),
        },
        FetchState::AwaitLatest(p) => match event {
            FetchEvent::Latest(d) => {
                if data_is_fresh_enough(d, end) {
                    (FetchState::Done, FetchCommand::SkipFresh)
                } else {
                    match p {
                        PrimaryAnswer::Error(e) => (FetchState::Done, FetchCommand::Fail(e)),
                        PrimaryAnswer::Bars(_) => {
                            let provider = provider_static_name(instrument.daily_provider());
                            let message = if stooq_fallback_provider(config, instrument).is_some() {
                                "主数据源与 Stooq 回退均未返回数据"
                            } else {
                                "增量更新返回空数据"
                            };
                            (
                                FetchState::Done,
                                FetchCommand::Fail(
                                    FetchError::Provider(
                                        ProviderError::new(
                                            provider,
                                            ProviderErrorKind::NoData,
                                            message,
                                        ),
                                    ),
                                ),
                            )
                        },
                    }
                }
            },
            _ => (FetchState::Done, FetchCommand::ReadLatest),
        },
        FetchState::Done => (FetchState::Done, FetchCommand::ReadLatest),
    }
}

/// A non-empty answer of the primary source is stored as it is, without
/// asking any other source.
pub proof fn law_primary_answer_is_used(
    config: Config,
    instrument: InstrumentConfig,
    end: Day,
    n: usize,
)
    requires
        n > 0,
    ensures
        fetch_decision(config, instrument, end, FetchState::AwaitPrimary, FetchEvent::Answered(n)).1
            == FetchCommandSpec::Store(instrument.provider@),
{
}

/// Whatever the primary answered, a non-empty answer of the Stooq fallback is
/// stored as Stooq's, and the update ends there.
pub proof fn law_fallback_answer_is_used(
    config: Config,
    instrument: InstrumentConfig,
    end: Day,
    p: PrimaryAnswer,
    n: usize,
)
    requires
        n > 0,
    ensures
        fetch_decision(config, instrument, end, FetchState::AwaitFallback(p), FetchEvent::Answered(n)).0
            is Done,
        fetch_decision(config, instrument, end, FetchState::AwaitFallback(p), FetchEvent::Answered(n)).1
            == FetchCommandSpec::Store("stooq"@),
{
}

/// Bars that arrive are never thrown away: from any state that waits for an
/// answer, a non-empty one is stored, under the source that was asked, the
/// instrument's provider first and Stooq after it.
pub proof fn law_answers_with_bars_are_stored(
    config: Config,
    instrument: InstrumentConfig,
    end: Day,
    state: FetchState,
    n: usize,
)
    requires
        n > 0,
        state is AwaitPrimary || state is AwaitFallback,
    ensures
        fetch_decision(config, instrument, end, state, FetchEvent::Answered(n)).1 == FetchCommandSpec::Store(
            if state is AwaitPrimary {
                instrument.provider@
            } else {
                "stooq"@
            },
        ),
{
}

/// When the primary source gives nothing (it fails or answers no bars), Stooq
/// is asked next exactly when it is enabled, is not the instrument's own
/// provider and knows a symbol for the instrument; otherwise the stored
/// bars are checked for freshness.
pub proof fn law_fallback_is_asked_when_available(
    config: Config,
    instrument: InstrumentConfig,
    end: Day,
    event: FetchEvent,
)
    requires
        event matches FetchEvent::Failed(_) || event == FetchEvent::Answered(0),
    ensures
        fetch_decision(config, instrument, end, FetchState::AwaitPrimary, event).1 == if config.providers.stooq_enabled
            && instrument.provider@ != "stooq"@ && stooq_symbol_of(instrument) is Some {
            FetchCommandSpec::Ask("stooq"@)
        } else {
            FetchCommandSpec::ReadLatest
        },
        !(fetch_decision(config, instrument, end, FetchState::AwaitPrimary, event).0 is Done),
{
}

/// Stored bars are fresh enough when the latest is at most two days before
/// the end date (or after it); no stored bar is never fresh.
pub proof fn law_fresh_within_two_days(latest: Option<Day>, end: Day)
    ensures
        fresh_enough(latest, end) <==> (latest matches Some(d) && end.index() - d.index() <= 2),
{
}

/// When neither source gave bars and the stored bars are stale, the update
/// fails: with the primary's own error when it failed, and with a no-data
/// error of the primary provider when it answered empty.
pub proof fn law_stale_data_fails(
    config: Config,
    instrument: InstrumentConfig,
    end: Day,
    p: PrimaryAnswer,
    latest: Option<Day>,
)
    requires
        !(latest matches Some(d) && end.index() - d.index() <= 2),
    ensures
        fetch_decision(config, instrument, end, FetchState::AwaitLatest(p), FetchEvent::Latest(latest)).0
            is Done,
        p matches PrimaryAnswer::Error(e) ==> fetch_decision(
            config,
            instrument,
            end,
            FetchState::AwaitLatest(p),
            FetchEvent::Latest(latest),
        ).1 == FetchCommandSpec::Fail(stored_view(e)),
        p is Bars ==> (fetch_decision(
            config,
            instrument,
            end,
            FetchState::AwaitLatest(p),
            FetchEvent::Latest(latest),
        ).1 matches FetchCommandSpec::Fail(f) && f.1 == ProviderErrorKind::NoData),
{
}

/// Fresh stored bars silence any failure: nothing is reported.
pub proof fn law_fresh_data_reports_nothing(
    config: Config,
    instrument: InstrumentConfig,
    end: Day,
    p: PrimaryAnswer,
    d: Option<Day>,
)
    requires
        fresh_enough(d, end),
    ensures
        fetch_decision(config, instrument, end, FetchState::AwaitLatest(p), FetchEvent::Latest(d)).1
            == FetchCommandSpec::SkipFresh,
{
}

/// How the fetch for an instrument ended.
#[derive(Debug)]
pub enum UpdateOutcome {
    /// Bars from this provider were stored; this many were written.
    Stored(String, usize),
    SkippedFresh,
    Failed(FetchError),
}

/// What is reported for an instrument: in a dry run, the planned provider and
/// nothing written; otherwise the provider that was used, the number of bars
/// written, and the console text of an error.
pub open spec fn summary_of(
    instrument: InstrumentConfig,
    dry_run: bool,
    outcome: UpdateOutcome,
) -> (Seq<char>, int, Option<Seq<char>>) {
    if dry_run {
        (instrument.provider@, 0, None)
    } else {
        match outcome {
            UpdateOutcome::Stored(p, n) => (p@, n as int, None),
            UpdateOutcome::SkippedFresh => (instrument.provider@, 0, None),
            UpdateOutcome::Failed(e) => (instrument.provider@, 0, Some(error_line(e))),
        }
    }
}

pub open spec fn summary_view(s: InstrumentUpdateSummary) -> (Seq<char>, int, Option<Seq<char>>) {
    (s.provider@, s.bars_written as int, crate::config::opt_view(s.error))
}

pub fn instrument_summary(instrument: &InstrumentConfig, dry_run: bool, outcome: &UpdateOutcome) -> (s:
    InstrumentUpdateSummary)
    ensures
        s.instrument_id@ == instrument.id@,
        summary_view(s) == summary_of(*instrument, dry_run, *outcome),
{
    if dry_run {
        return InstrumentUpdateSummary {
            instrument_id: instrument.id.clone(),
            provider: instrument.provider.clone(),
            bars_written: 0,
            error: None,
        };
    }
    match outcome {
        UpdateOutcome::Stored(p, n) => InstrumentUpdateSummary {
            instrument_id: instrument.id.clone(),
            provider: p.clone(),
            bars_written: *n,
            error: None,
        },
        UpdateOutcome::SkippedFresh => InstrumentUpdateSummary {
            instrument_id: instrument.id.clone(),
            provider: instrument.provider.clone(),
            bars_written: 0,
            error: None,
        },
        UpdateOutcome::Failed(e) => InstrumentUpdateSummary {
            instrument_id: instrument.id.clone(),
            provider: instrument.provider.clone(),
            bars_written: 0,
            error: Some(format_error(e)),
        },
    }
}

/// A dry run reports every instrument with no bars written and no error.
pub proof fn law_dry_run_writes_nothing(instrument: InstrumentConfig, outcome: UpdateOutcome)
    ensures
        summary_of(instrument, true, outcome).1 == 0,
        summary_of(instrument, true, outcome).2 is None,
{
}

/// A failed fetch is always reported with an error.
pub proof fn law_failure_is_reported(instrument: InstrumentConfig, e: FetchError)
    ensures
        summary_of(instrument, false, UpdateOutcome::Failed(e)).2 is Some,
{
}

/// A line of the console summary of an update or a bootstrap; error lines go
/// to standard error.
#[derive(Debug)]
pub struct SummaryLine {
    pub to_stderr: bool,
    pub text: String,
}

pub open spec fn bool_text(b: bool) -> Seq<char> {
    if b {
        "true"@
    } else {
        "false"@
    }
}

/// The first line: how many instruments, the range and whether it was a dry
/// run.
pub open spec fn summary_header(title: Seq<char>, s: UpdateSummary) -> Seq<char> {
    title + " "@ + nat_text(s.instruments@.len()) + " instruments. Range: "@ + chrono_ymd_text(
        s.start.index(),
    ) + " to "@ + chrono_ymd_text(s.end.index()) + ". Dry-run: "@ + bool_text(s.dry_run)
}

/// One instrument's line: its error, or what a dry run would ask, or how
/// many bars were written.
pub open spec fn summary_item(dry_run: bool, item: InstrumentUpdateSummary) -> (bool, Seq<char>) {
    match item.error {
        Some(e) => (true, "⚠ "@ + item.instrument_id@ + " ["@ + provider_label(item.provider@) + "]: "@ + e@),
        None => if dry_run {
            (false, item.instrument_id@ + ": would request provider "@ + item.provider@)
        } else {
            (false, item.instrument_id@ + ": "@ + nat_text(item.bars_written as nat) + " bars inserted/replaced"@)
        },
    }
}

/// The console summary of an update or a bootstrap: the header, then one line
/// per instrument in order.
pub fn summary_lines(title: &str, summary: &UpdateSummary) -> (lines: Vec<SummaryLine>)
    ensures
        lines@.len() == summary.instruments@.len() + 1,
        !lines@[0].to_stderr,
        lines@[0].text@ == summary_header(title@, *summary),
        forall|k: int|
            0 <= k < summary.instruments@.len() ==> (#[trigger] lines@[k + 1]).to_stderr == summary_item(
                summary.dry_run,
                summary.instruments@[k],
            ).0 && lines@[k + 1].text@ == summary_item(summary.dry_run, summary.instruments@[k]).1,
{
    let mut header = chars_of(title);
    push_str(&mut header, " ");
    push_all(&mut header, &nat_text_of(summary.instruments.len() as u64));
    push_str(&mut header, " instruments. Range: ");
    push_str(&mut header, summary.start.ymd_text().as_str());
    push_str(&mut header, " to ");
    push_str(&mut header, summary.end.ymd_text().as_str());
    push_str(&mut header, ". Dry-run: ");
    push_str(&mut header, if summary.dry_run { "true" } else { "false" });
    let mut lines: Vec<SummaryLine> = Vec::new();
    lines.push(SummaryLine { to_stderr: false, text: string_of(&header) });
    let mut i: usize = 0;
    while i < summary.instruments.len()
        invariant
            i <= summary.instruments@.len(),
            lines@.len() == i + 1,
            !lines@[0].to_stderr,
            lines@[0].text@ == summary_header(title@, *summary),
            forall|k: int|
                0 <= k < i ==> (#[trigger] lines@[k + 1]).to_stderr == summary_item(
                    summary.dry_run,
                    summary.instruments@[k],
                ).0 && lines@[k + 1].text@ == summary_item(summary.dry_run, summary.instruments@[k]).1,
        decreases summary.instruments@.len() - i,
    {
        let item = &summary.instruments[i];
        let mut text = chars_of(item.instrument_id.as_str());
        let line = match &item.error {
            Some(e) => {
                let mut t = chars_of("⚠ ");
                push_str(&mut t, item.instrument_id.as_str());
                push_str(&mut t, " [");
                push_str(&mut t, provider_label_zh(item.provider.as_str()));
                push_str(&mut t, "]: ");
                push_str(&mut t, e.as_str());
                SummaryLine { to_stderr: true, text: string_of(&t) }
            },
            None => {
                if summary.dry_run {
                    push_str(&mut text, ": would request provider ");
                    push_str(&mut text, item.provider.as_str());
                } else {
                    push_str(&mut text, ": ");
                    push_all(&mut text, &nat_text_of(item.bars_written as u64));
                    push_str(&mut text, " bars inserted/replaced");
                }
                SummaryLine { to_stderr: false, text: string_of(&text) }
            },
        };
        lines.push(line);
        i = i + 1;
    }
    lines
}

} // verus!
