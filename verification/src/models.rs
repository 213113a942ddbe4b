//! Values shared by the signal, storage and report layers.
use crate::calendar::Day;
use vstd::prelude::*;

verus! {

/// One daily bar as a data source delivered it.  Prices are kept as the
/// decimal text the source sent, each checked to read as an `f64`; `volume`
/// and `amount` are present only when they read as numbers.
#[derive(Debug)]
pub struct ParsedBar {
    pub instrument_id: String,
    pub trade_date: Day,
    pub open: String,
    pub high: String,
    pub low: String,
    pub close: String,
    pub volume: Option<String>,
    pub amount: Option<String>,
    pub source: String,
}

/// An equal copy of a bar.
pub(crate) fn copy_bar(b: &ParsedBar) -> (c: ParsedBar)
    ensures
        c.content() == b.content(),
        c.instrument_id@ == b.instrument_id@,
        c.source@ == b.source@,
{
    let volume = match &b.volume {
        Some(v) => Some(v.clone()),
        None => None,
    };
    let amount = match &b.amount {
        Some(v) => Some(v.clone()),
        None => None,
    };
    ParsedBar {
        instrument_id: b.instrument_id.clone(),
        trade_date: b.trade_date,
        open: b.open.clone(),
        high: b.high.clone(),
        low: b.low.clone(),
        close: b.close.clone(),
        volume,
        amount,
        source: b.source.clone(),
    }
}

/// The content of a bar: its date's day number and its field texts.
pub struct BarSpec {
    pub trade_date: int,
    pub open: Seq<char>,
    pub high: Seq<char>,
    pub low: Seq<char>,
    pub close: Seq<char>,
    pub volume: Option<Seq<char>>,
    pub amount: Option<Seq<char>>,
}

pub open spec fn opt_text(o: Option<String>) -> Option<Seq<char>> {
    match o {
        Some(s) => Some(s@),
        None => None,
    }
}

impl ParsedBar {
    pub open spec fn content(self) -> BarSpec {
        BarSpec {
            trade_date: self.trade_date.index(),
            open: self.open@,
            high: self.high@,
            low: self.low@,
            close: self.close@,
            volume: opt_text(self.volume),
            amount: opt_text(self.amount),
        }
    }
}

pub open spec fn contents(bars: Seq<ParsedBar>) -> Seq<BarSpec> {
    Seq::new(bars.len(), |k: int| bars[k].content())
}

/// Every bar carries this instrument id and source.
pub open spec fn all_labelled(bars: Seq<ParsedBar>, instrument_id: Seq<char>, source: Seq<char>) -> bool {
    forall|k: int|
        0 <= k < bars.len() ==> #[trigger] bars[k].instrument_id@ == instrument_id && bars[k].source@
            == source
}

pub open spec fn bar_day(b: BarSpec) -> int {
    b.trade_date
}

/// What the rules advise for an instrument on a trading day.
#[derive(Clone, Copy, Debug, PartialEq, Eq, Structural)]
pub enum SignalAction {
    Buy,
    Sell,
    Hold,
}

impl SignalAction {
    /// The stored and reported name of the action.
    pub open spec fn name(self) -> Seq<char> {
        match self {
            SignalAction::Buy => "BUY"@,
            SignalAction::Sell => "SELL"@,
            SignalAction::Hold => "HOLD"@,
        }
    }

    pub fn as_str(self) -> (s: &'static str)
        ensures
            s@ == self.name(),
    {
        match self {
            SignalAction::Buy => "BUY",
            SignalAction::Sell => "SELL",
            SignalAction::Hold => "HOLD",
        }
    }
}

/// How a stored action name is read back: upper- or lower-case names of buy
/// and sell, and anything else as hold.
pub open spec fn action_from_name(value: Seq<char>) -> SignalAction {
    if value == "BUY"@ || value == "buy"@ {
        SignalAction::Buy
    } else if value == "SELL"@ || value == "sell"@ {
        SignalAction::Sell
    } else {
        SignalAction::Hold
    }
}

pub fn parse_action(value: &str) -> (a: SignalAction)
    ensures
        a == action_from_name(value@),
{
    let v = crate::text::chars_of(value);
    if crate::text::equals(&v, "BUY") || crate::text::equals(&v, "buy") {
        SignalAction::Buy
    } else if crate::text::equals(&v, "SELL") || crate::text::equals(&v, "sell") {
        SignalAction::Sell
    } else {
        SignalAction::Hold
    }
}

/// Reading back the name of an action gives the action.
pub proof fn law_action_name_round_trip(a: SignalAction)
    ensures
        action_from_name(a.name()) == a,
{
    reveal_strlit("BUY");
    reveal_strlit("buy");
    reveal_strlit("SELL");
    reveal_strlit("sell");
    reveal_strlit("HOLD");
    assert("HOLD"@.len() == 4 && "BUY"@.len() == 3 && "buy"@.len() == 3);
    assert("SELL"@[0] != "HOLD"@[0] && "sell"@[0] != "HOLD"@[0]);
    assert("BUY"@[0] != "SELL"@[0] && "buy"@[0] != "SELL"@[0]);
}

/// One instrument's line in a report.
#[derive(Debug)]
pub struct ReportInstrument {
    pub instrument_id: String,
    pub name: String,
    /// The latest signal's close, as decimal text.
    pub latest_close: Option<String>,
    /// The same close as the report tables show it, with four decimals.
    pub latest_close_shown: Option<String>,
    pub action: String,
    pub score: i32,
    pub reason: String,
    pub source: Option<String>,
    pub recent_trade_date: Option<Day>,
    /// Consecutive trading days, up to the latest, with the latest action.
    pub action_streak_days: usize,
    /// Such as `连续3日卖出`.
    pub action_streak_label: String,
    /// Advice after two or more days of buying or selling.
    pub action_streak_hint: Option<String>,
}

/// A stored fetch failure, as a report lists it.
#[derive(Debug)]
pub struct ProviderErrorRecord {
    pub provider: String,
    pub instrument_id: String,
    pub kind: String,
    pub raw_message: String,
    pub created_at: String,
}

/// How recent an instrument's stored bars are.
#[derive(Debug)]
pub struct DataFreshness {
    pub instrument_id: String,
    pub latest_bar_date: Option<Day>,
    pub days_behind: Option<i64>,
}

/// A daily report.
#[derive(Debug)]
pub struct MarketReport {
    pub report_date: Day,
    /// When the report was assembled, as the caller's clock gave it.
    pub data_updated_at: String,
    pub timezone: String,
    pub instruments: Vec<ReportInstrument>,
    pub provider_errors: Vec<ProviderErrorRecord>,
    pub freshness: Vec<DataFreshness>,
    pub disclaimer: String,
}

} // verus!
