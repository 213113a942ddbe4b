//! History initialisation: the window to fill, which source to ask first, and
//! what to store and report after each answer.
use crate::calendar::{in_day_range, Day};
use crate::config::{Config, InstrumentConfig};
use crate::providers::stooq::{resolve_stooq_symbol, stooq_symbol_of};
use crate::providers::{FetchError, ProviderError, ProviderErrorKind};
use crate::services::provider_errors::{error_line, error_record, format_error, stored_error};
use crate::text::{chars_of, push_str, string_of};
use vstd::prelude::*;

verus! {

#[derive(Debug, Clone)]
pub struct BootstrapOptions {
    pub instrument_id: Option<String>,
    pub from: Option<Day>,
    pub dry_run: bool,
}

/// Stooq first whenever it is enabled and knows the instrument; otherwise the
/// instrument's own provider.
pub open spec fn bootstrap_source(config: Config, instrument: InstrumentConfig) -> Seq<char> {
    if config.providers.stooq_enabled && stooq_symbol_of(instrument) is Some {
        "stooq"@
    } else {
        instrument.provider@
    }
}

pub fn bootstrap_provider<'a>(config: &Config, instrument: &'a InstrumentConfig) -> (s: &'a str)
    ensures
        s@ == bootstrap_source(*config, *instrument),
{
    if config.providers.stooq_enabled && resolve_stooq_symbol(instrument).is_some() {
        "stooq"
    } else {
        instrument.history_provider()
    }
}

/// The window a bootstrap fills ends today and starts at `from`, but never
/// more than `max_days` before today.
pub open spec fn bootstrap_window_of(today: Day, max_days: int, from: Option<Day>) -> (int, int) {
    let earliest = today.index() - max_days;
    let start = match from {
        Some(f) => if f.index() > earliest {
            f.index()
        } else {
            earliest
        },
        None => earliest,
    };
    (start, today.index())
}

/// Whether the window of `max_days` days back from `today` starts at a date
/// chrono can hold; where it does not, the bootstrap cannot begin.
pub fn bootstrap_window_is_defined(today: Day, max_days: i64) -> (b: bool)
    ensures
        b == in_day_range(today.index() - max_days),
{
    let start: i128 = today.days_from_ce() as i128 - max_days as i128;
    crate::calendar::DAY_MIN as i128 <= start && start <= crate::calendar::DAY_MAX as i128
}

pub fn bootstrap_window(today: Day, max_days: i64, from: Option<Day>) -> (r: (Day, Day))
    requires
        in_day_range(today.index() - max_days),
    ensures
        (r.0.index(), r.1.index()) == bootstrap_window_of(today, max_days as int, from),
{
    let t = today.days_from_ce();
    assert(-max_days == (t - max_days) - t);
    let earliest = today.shift(-max_days);
    let start = match from {
        Some(f) => if earliest.precedes(&f) {
            f
        } else {
            earliest
        },
        None => earliest,
    };
    (start, today)
}

/// What a bootstrap does for an instrument, given its earliest stored bar.
#[derive(Debug, PartialEq, Eq, Structural)]
pub enum BootstrapPlan {
    /// The stored history already reaches back to the start.
    Covered,
    /// Fetch from the start up to this date.
    FetchUntil(Day),
}

/// With no stored bars, fetch the whole window; with bars that start after the
/// window's start, fetch up to the day before them; otherwise nothing.
pub open spec fn plan_of(start: Day, end: Day, earliest_stored: Option<Day>) -> Option<int> {
    match earliest_stored {
        Some(e) => if e.index() <= start.index() {
            None
        } else {
            Some(e.index() - 1)
        },
        None => Some(end.index()),
    }
}

pub fn bootstrap_plan(start: Day, end: Day, earliest_stored: Option<Day>) -> (p: BootstrapPlan)
    ensures
        match p {
            BootstrapPlan::Covered => plan_of(start, end, earliest_stored) is None,
            BootstrapPlan::FetchUntil(d) => plan_of(start, end, earliest_stored) == Some(d.index()),
        },
{
    match earliest_stored {
        Some(e) => {
            if e.not_after(&start) {
                BootstrapPlan::Covered
            } else {
                let _ = start.days_from_ce();
                let _ = e.days_from_ce();
                BootstrapPlan::FetchUntil(e.shift(-1))
            }
        },
        None => BootstrapPlan::FetchUntil(end),
    }
}

/// Where the bootstrap of one instrument stands.
#[derive(Debug)]
pub enum BootstrapState {
    AwaitPrimary,
    /// The first source failed with this error; the instrument's own provider
    /// was asked next.
    AwaitFallback(FetchError),
    Done,
}

/// What a source answered.
#[derive(Debug)]
pub enum BootstrapEvent {
    Answered(usize),
    Failed(FetchError),
}

/// What the caller does next.
#[derive(Debug)]
pub enum BootstrapCommand {
    /// Store the bars that the given provider sent and report the count.
    Store(String),
    /// Ask the instrument's own provider for the same window.
    AskFallback(String),
    /// Record these errors (for the window), and report this provider with no
    /// bars and this error text.
    Report(Vec<ProviderError>, String, String),
}

/// The content of a command: stored errors as (provider, kind, message).
pub enum BootstrapCommandSpec {
    Store(Seq<char>),
    AskFallback(Seq<char>),
    Report(Seq<(Seq<char>, ProviderErrorKind, Seq<char>)>, Seq<char>, Seq<char>),
}

pub open spec fn record_view(e: ProviderError) -> (Seq<char>, ProviderErrorKind, Seq<char>) {
    (e.provider@, e.kind, e.raw_message@)
}

pub open spec fn bootstrap_command_view(c: BootstrapCommand) -> BootstrapCommandSpec {
    match c {
        BootstrapCommand::Store(p) => BootstrapCommandSpec::Store(p@),
        BootstrapCommand::AskFallback(p) => BootstrapCommandSpec::AskFallback(p@),
        BootstrapCommand::Report(records, p, e) => BootstrapCommandSpec::Report(
            records@.map_values(|r: ProviderError| record_view(r)),
            p@,
            e@,
        ),
    }
}

/// One decision of a bootstrap:
/// a non-empty answer is stored; an empty answer is recorded as no data; a
/// failure of the first source, when it is not the instrument's own provider,
/// leads to asking that provider; when both fail, both failures are recorded
/// and reported together.
pub open spec fn bootstrap_decision(
    config: Config,
    instrument: InstrumentConfig,
    state: BootstrapState,
    event: BootstrapEvent,
) -> (BootstrapState, BootstrapCommandSpec) {
    let first = bootstrap_source(config, instrument);
    let own = instrument.provider@;
    match (state, event) {
        (BootstrapState::AwaitPrimary, BootstrapEvent::Answered(n)) => if n > 0 {
            (BootstrapState::Done, BootstrapCommandSpec::Store(first))
        } else {
            (
                BootstrapState::Done,
                BootstrapCommandSpec::Report(
                    seq![(first, ProviderErrorKind::NoData, "历史初始化返回空数据"@)],
                    first,
                    "[无数据] 历史初始化返回空数据"@,
                ),
            )
        },
        (BootstrapState::AwaitPrimary, BootstrapEvent::Failed(e)) => if first != own {
            (BootstrapState::AwaitFallback(e), BootstrapCommandSpec::AskFallback(own))
        } else {
            (
                BootstrapState::Done,
                BootstrapCommandSpec::Report(
                    seq![stored_error(first, e)],
                    first,
                    error_line(e),
                ),
            )
        },
        (BootstrapState::AwaitFallback(_), BootstrapEvent::Answered(n)) => if n > 0 {
            (BootstrapState::Done, BootstrapCommandSpec::Store(own))
        } else {
            (
                BootstrapState::Done,
                BootstrapCommandSpec::Report(
                    seq![(own, ProviderErrorKind::NoData, "历史初始化 fallback 返回空数据"@)],
                    own,
                    "[无数据] 历史初始化返回空数据"@,
                ),
            )
        },
        (BootstrapState::AwaitFallback(first_err), BootstrapEvent::Failed(e)) => (
            BootstrapState::Done,
            BootstrapCommandSpec::Report(
                seq![stored_error(first, first_err), stored_error(own, e)],
                first,
                error_line(first_err) + "；fallback: "@ + error_line(e),
            ),
        ),
        _ => (BootstrapState::Done, BootstrapCommandSpec::Store(first)),
    }
}

pub fn bootstrap_step(
    config: &Config,
    instrument: &InstrumentConfig,
    state: BootstrapState,
    event: BootstrapEvent,
) -> (r: (BootstrapState, BootstrapCommand))
    requires
        !(state is Done),
    ensures
        r.0 == bootstrap_decision(*config, *instrument, state, event).0,
        bootstrap_command_view(r.1) == bootstrap_decision(*config, *instrument, state, event).1,
{
    let first = bootstrap_provider(config, instrument);
    let own = instrument.history_provider();
    let first_chars = chars_of(first);
    let own_chars = chars_of(own);
    match state {
        BootstrapState::AwaitPrimary => match event {
            BootstrapEvent::Answered(n) => {
                if n > 0 {
                    (BootstrapState::Done, BootstrapCommand::Store(first.to_owned()))
                } else {
                    let mut records: Vec<ProviderError> = Vec::new();
                    records.push(
                        ProviderError::new(first, ProviderErrorKind::NoData, "历史初始化返回空数据"),
                    );
                    proof {
                        assert(records@.map_values(|r: ProviderError| record_view(r)) =~= seq![
                            (first@, ProviderErrorKind::NoData, "历史初始化返回空数据"@),
                        ]);
                    }
                    (
                        BootstrapState::Done,
                        BootstrapCommand::Report(
                            records,
                            first.to_owned(),
                            "[无数据] 历史初始化返回空数据".to_owned(),
                        ),
                    )
                }
            },
            BootstrapEvent::Failed(e) => {
                if !crate::text::same_chars(&first_chars, &own_chars) {
                    (BootstrapState::AwaitFallback(e), BootstrapCommand::AskFallback(own.to_owned()))
                } else {
                    let mut records: Vec<ProviderError> = Vec::new();
                    records.push(error_record(first, &e));
                    proof {
                        assert(records@.map_values(|r: ProviderError| record_view(r)) =~= seq![
                            stored_error(first@, e),
                        ]);
                    }
                    let text = format_error(&e);
                    (BootstrapState::Done, BootstrapCommand::Report(records, first.to_owned(), text))
                }
            },
        },
        BootstrapState::AwaitFallback(first_err) => match event {
            BootstrapEvent::Answered(n) => {
                if n > 0 {
                    (BootstrapState::Done, BootstrapCommand::Store(own.to_owned()))
                } else {
                    let mut records: Vec<ProviderError> = Vec::new();
                    records.push(
                        ProviderError::new(
                            own,
                            ProviderErrorKind::NoData,
                            "历史初始化 fallback 返回空数据",
                        ),
                    );
                    proof {
                        assert(records@.map_values(|r: ProviderError| record_view(r)) =~= seq![
                            (own@, ProviderErrorKind::NoData, "历史初始化 fallback 返回空数据"@),
                        ]);
                    }
                    (
                        BootstrapState::Done,
                        BootstrapCommand::Report(
                            records,
                            own.to_owned(),
                            "[无数据] 历史初始化返回空数据".to_owned(),
                        ),
                    )
                }
            },
            BootstrapEvent::Failed(e) => {
                let mut records: Vec<ProviderError> = Vec::new();
                records.push(error_record(first, &first_err));
                records.push(error_record(own, &e));
                proof {
                    assert(records@.map_values(|r: ProviderError| record_view(r)) =~= seq![
                        stored_error(first@, first_err),
                        stored_error(own@, e),
                    ]);
                }
                let a = format_error(&first_err);
                let b = format_error(&e);
                let mut text = chars_of(a.as_str());
                push_str(&mut text, "；fallback: ");
                push_str(&mut text, b.as_str());
                (
                    BootstrapState::Done,
                    BootstrapCommand::Report(records, first.to_owned(), string_of(&text)),
                )
            },
        },
        BootstrapState::Done => (BootstrapState::Done, BootstrapCommand::Store(first.to_owned())),
    }
}

/// When the first source is the instrument's own provider, a failure is
/// reported at once and no other source is asked.
pub proof fn law_no_fallback_to_the_same_source(
    config: Config,
    instrument: InstrumentConfig,
    e: FetchError,
)
    requires
        bootstrap_source(config, instrument) == instrument.provider@,
    ensures
        bootstrap_decision(
            config,
            instrument,
            BootstrapState::AwaitPrimary,
            BootstrapEvent::Failed(e),
        ).1 is Report,
{
}

/// Bars that arrive are never thrown away: a non-empty answer ends the
/// bootstrap by storing it, under the first source when it answered first and
/// under the instrument's own provider when that provider answered after the
/// first source failed.
pub proof fn law_answers_with_bars_are_stored(
    config: Config,
    instrument: InstrumentConfig,
    state: BootstrapState,
    n: usize,
)
    requires
        n > 0,
        !(state is Done),
    ensures
        bootstrap_decision(config, instrument, state, BootstrapEvent::Answered(n)).0 is Done,
        bootstrap_decision(config, instrument, state, BootstrapEvent::Answered(n)).1
            == BootstrapCommandSpec::Store(
            if state is AwaitFallback {
                instrument.provider@
            } else {
                bootstrap_source(config, instrument)
            },
        ),
{
}

/// An empty answer is never stored: it ends the bootstrap with a no-data
/// record for the source that gave it.
pub proof fn law_empty_answers_are_reported(
    config: Config,
    instrument: InstrumentConfig,
    state: BootstrapState,
)
    requires
        !(state is Done),
    ensures
        bootstrap_decision(config, instrument, state, BootstrapEvent::Answered(0)).1 matches BootstrapCommandSpec::Report(
            records,
            _,
            _,
        ) && records.len() == 1 && records[0].1 == ProviderErrorKind::NoData
            && records[0].0 == if state is AwaitFallback {
            instrument.provider@
        } else {
            bootstrap_source(config, instrument)
        },
{
}

/// How a failure of a source is recorded: a classified error as the source
/// classified it, any other error by its message under that source.
pub open spec fn recorded(source: Seq<char>, e: FetchError) -> (Seq<char>, ProviderErrorKind, Seq<char>) {
    match e {
        FetchError::Provider(pe) => (pe.provider@, pe.kind, pe.raw_message@),
        FetchError::Other(m) => (source, ProviderErrorKind::ProviderMessage, m@),
    }
}

/// A failure of the first source leads to asking the instrument's own
/// provider when that is another source; when that one fails too, both
/// failures are recorded, the first source's first, and reported under the
/// first source.
pub proof fn law_failures_fall_back_once(
    config: Config,
    instrument: InstrumentConfig,
    first_err: FetchError,
    e: FetchError,
)
    requires
        bootstrap_source(config, instrument) != instrument.provider@,
    ensures
        bootstrap_decision(config, instrument, BootstrapState::AwaitPrimary, BootstrapEvent::Failed(first_err))
            == (BootstrapState::AwaitFallback(first_err), BootstrapCommandSpec::AskFallback(instrument.provider@)),
        bootstrap_decision(config, instrument, BootstrapState::AwaitFallback(first_err), BootstrapEvent::Failed(e)).1
            matches BootstrapCommandSpec::Report(records, p, _) && records.len() == 2 && records[0]
            == recorded(bootstrap_source(config, instrument), first_err) && records[1] == recorded(
            instrument.provider@,
            e,
        ) && p == bootstrap_source(config, instrument),
{
}

/// Stooq is asked first for an instrument exactly when it is enabled and
/// knows a symbol for it; otherwise the instrument's own provider is.
pub proof fn law_stooq_first_when_it_can(config: Config, instrument: InstrumentConfig)
    ensures
        bootstrap_source(config, instrument) == if config.providers.stooq_enabled && stooq_symbol_of(
            instrument,
        ) is Some {
            "stooq"@
        } else {
            instrument.provider@
        },
{
}

/// A bootstrap starts at the later of `max_days` before today and the
/// requested start, and ends today.
pub proof fn law_bootstrap_window_exact(today: Day, max_days: int, from: Option<Day>)
    ensures
        bootstrap_window_of(today, max_days, from).0 == match from {
            Some(f) => if f.index() >= today.index() - max_days {
                f.index()
            } else {
                today.index() - max_days
            },
            None => today.index() - max_days,
        },
        bootstrap_window_of(today, max_days, from).1 == today.index(),
{
}

/// A bootstrap ends today and starts no earlier than `max_days` before
/// today, and no earlier than asked.
pub proof fn law_bootstrap_window_bounded(today: Day, max_days: int, from: Option<Day>)
    ensures
        bootstrap_window_of(today, max_days, from).1 == today.index(),
        bootstrap_window_of(today, max_days, from).0 >= today.index() - max_days,
        from matches Some(f) ==> bootstrap_window_of(today, max_days, from).0 >= f.index(),
{
}

} // verus!
