//! The rule that turns a price history into an action and a score.
//!
//! The moving averages and percentages are computed in floating point by the
//! caller, which hands over only how they compare with the rule's thresholds;
//! the scoring, the clamp and the choice of action are decided here.
use crate::calendar::Day;
use crate::models::SignalAction;
use vstd::prelude::*;

verus! {

pub const MIN_HISTORY: usize = 120;

/// 默认只回补最近 120 个交易日的信号（连续统计最多用到 10 条，留足余量）。
pub const DEFAULT_BACKFILL_TRADING_DAYS: usize = 120;

#[derive(Debug, Clone, Default)]
pub struct BackfillOptions {
    pub instrument_id: Option<String>,
    /// 从最新交易日向前回补的交易日数量；`None` 表示自第 120 根 K 线起全部回补。
    pub trading_days: Option<usize>,
}

#[derive(Debug)]
pub struct BackfillSummary {
    pub instruments: Vec<BackfillInstrumentSummary>,
}

#[derive(Debug)]
pub struct BackfillInstrumentSummary {
    pub instrument_id: String,
    pub bars_total: usize,
    pub signals_written: usize,
    pub first_trade_date: Option<Day>,
    pub last_trade_date: Option<Day>,
}

/// How the latest close and the 20-, 60- and 120-day averages, the 60-day
/// change, the deviation from the 120-day average and the drawdown from the
/// 120-day high compare with the rule's thresholds.
#[derive(Clone, Copy, Debug)]
pub struct Comparisons {
    pub close_above_ma60: bool,
    pub close_below_ma60: bool,
    pub ma20_above_ma60: bool,
    pub ma20_below_ma60: bool,
    pub ma60_above_ma120: bool,
    pub ma60_below_ma120: bool,
    pub close_above_ma120: bool,
    pub close_below_ma120: bool,
    /// 60-day change above 15 %.
    pub change_above_15: bool,
    /// 60-day change below -15 %.
    pub change_below_minus_15: bool,
    pub change_above_5: bool,
    pub change_below_minus_5: bool,
    /// Deviation from the 120-day average above 35 %.
    pub deviation_above_35: bool,
    pub deviation_above_20: bool,
    pub deviation_below_minus_35: bool,
    pub deviation_below_minus_20: bool,
    /// Drawdown from the 120-day high above -5 %.
    pub drawdown_above_minus_5: bool,
    pub drawdown_below_minus_25: bool,
}

impl Comparisons {
    /// The flags come from the same numbers: a value above 35 is above 20, and
    /// so on.
    pub open spec fn consistent(self) -> bool {
        &&& self.change_above_15 ==> self.change_above_5
        &&& self.change_below_minus_15 ==> self.change_below_minus_5
        &&& self.deviation_above_35 ==> self.deviation_above_20
        &&& self.deviation_below_minus_35 ==> self.deviation_below_minus_20
        &&& !(self.close_above_ma60 && self.close_below_ma60)
        &&& !(self.close_above_ma120 && self.close_below_ma120)
    }
}

/// Why the score is what it is; the caller words each reason with its numbers.
#[derive(Clone, Copy, Debug, PartialEq, Eq, Structural)]
pub enum Reason {
    InsufficientHistory,
    TrendBullish,
    TrendBearish,
    StructureBullish,
    StructureBearish,
    TrendMixed,
    MomentumStrong,
    MomentumWeak,
    MomentumMildUp,
    MomentumMildDown,
    MomentumNeutral,
    Overheated,
    Elevated,
    FarBelow,
    Below,
    NearHighElevated,
    PullbackInTrend,
    Drawdown,
}

/// Close above the 60-day average, and 20 > 60 > 120: +45; the mirror: -45;
/// close and the 60-day average above the 120-day one: +25; below: -25.
pub open spec fn trend_part(c: Comparisons) -> (int, Reason) {
    if c.close_above_ma60 && c.ma20_above_ma60 && c.ma60_above_ma120 {
        (45, Reason::TrendBullish)
    } else if c.close_below_ma60 && c.ma20_below_ma60 && c.ma60_below_ma120 {
        (-45, Reason::TrendBearish)
    } else if c.close_above_ma120 && c.ma60_above_ma120 {
        (25, Reason::StructureBullish)
    } else if c.close_below_ma120 && c.ma60_below_ma120 {
        (-25, Reason::StructureBearish)
    } else {
        (0, Reason::TrendMixed)
    }
}

/// 60-day change: above 15 % +20, below -15 % -20, above 5 % +10, below -5 % -10.
pub open spec fn momentum_part(c: Comparisons) -> (int, Reason) {
    if c.change_above_15 {
        (20, Reason::MomentumStrong)
    } else if c.change_below_minus_15 {
        (-20, Reason::MomentumWeak)
    } else if c.change_above_5 {
        (10, Reason::MomentumMildUp)
    } else if c.change_below_minus_5 {
        (-10, Reason::MomentumMildDown)
    } else {
        (0, Reason::MomentumNeutral)
    }
}

/// Deviation from the 120-day average: above 35 % -25, above 20 % -10, below
/// -35 % +10, below -20 % +5; otherwise nothing and no reason.
pub open spec fn position_part(c: Comparisons) -> Option<(int, Reason)> {
    if c.deviation_above_35 {
        Some((-25, Reason::Overheated))
    } else if c.deviation_above_20 {
        Some((-10, Reason::Elevated))
    } else if c.deviation_below_minus_35 {
        Some((10, Reason::FarBelow))
    } else if c.deviation_below_minus_20 {
        Some((5, Reason::Below))
    } else {
        None
    }
}

/// Near the 120-day high while 20 % above the average: -10; a drawdown of more
/// than 25 % still above the average: +10.
pub open spec fn pullback_part(c: Comparisons) -> (int, Reason) {
    if c.drawdown_above_minus_5 && c.deviation_above_20 {
        (-10, Reason::NearHighElevated)
    } else if c.drawdown_below_minus_25 && c.close_above_ma120 {
        (10, Reason::PullbackInTrend)
    } else {
        (0, Reason::Drawdown)
    }
}

pub open spec fn raw_score(c: Comparisons) -> int {
    trend_part(c).0 + momentum_part(c).0 + match position_part(c) {
        Some(p) => p.0,
        None => 0,
    } + pullback_part(c).0
}

pub open spec fn clamp(x: int) -> int {
    if x < -100 {
        -100
    } else if x > 100 {
        100
    } else {
        x
    }
}

/// Buy from 35 up, sell from -35 down, otherwise hold.
pub open spec fn action_for(score: int) -> SignalAction {
    if score >= 35 {
        SignalAction::Buy
    } else if score <= -35 {
        SignalAction::Sell
    } else {
        SignalAction::Hold
    }
}

pub open spec fn reasons_for(c: Comparisons) -> Seq<Reason> {
    let head = seq![trend_part(c).1, momentum_part(c).1];
    let mid = match position_part(c) {
        Some(p) => head.push(p.1),
        None => head,
    };
    mid.push(pullback_part(c).1)
}

/// What the rule decides.
pub struct SignalOutcome {
    pub score: i32,
    pub action: SignalAction,
    pub reasons: Vec<Reason>,
}

/// The rule's decision for a history of `bar_count` bars: with fewer than
/// `MIN_HISTORY` bars it holds with score 0; otherwise the clamped sum of the
/// four parts decides.
pub open spec fn decision(bar_count: int, c: Comparisons) -> (int, SignalAction, Seq<Reason>) {
    if bar_count < MIN_HISTORY {
        (0, SignalAction::Hold, seq![Reason::InsufficientHistory])
    } else {
        let s = clamp(raw_score(c));
        (s, action_for(s), reasons_for(c))
    }
}

pub fn evaluate_signal(bar_count: usize, c: &Comparisons) -> (r: SignalOutcome)
    ensures
        r.score as int == decision(bar_count as int, *c).0,
        r.action == decision(bar_count as int, *c).1,
        r.reasons@ == decision(bar_count as int, *c).2,
{
    let mut reasons: Vec<Reason> = Vec::new();
    if bar_count < MIN_HISTORY {
        reasons.push(Reason::InsufficientHistory);
        return SignalOutcome { score: 0, action: SignalAction::Hold, reasons };
    }
    let mut score: i32 = 0;
    if c.close_above_ma60 && c.ma20_above_ma60 && c.ma60_above_ma120 {
        score = score + 45;
        reasons.push(Reason::TrendBullish);
    } else if c.close_below_ma60 && c.ma20_below_ma60 && c.ma60_below_ma120 {
        score = score - 45;
        reasons.push(Reason::TrendBearish);
    } else if c.close_above_ma120 && c.ma60_above_ma120 {
        score = score + 25;
        reasons.push(Reason::StructureBullish);
    } else if c.close_below_ma120 && c.ma60_below_ma120 {
        score = score - 25;
        reasons.push(Reason::StructureBearish);
    } else {
        reasons.push(Reason::TrendMixed);
    }
    if c.change_above_15 {
        score = score + 20;
        reasons.push(Reason::MomentumStrong);
    } else if c.change_below_minus_15 {
        score = score - 20;
        reasons.push(Reason::MomentumWeak);
    } else if c.change_above_5 {
        score = score + 10;
        reasons.push(Reason::MomentumMildUp);
    } else if c.change_below_minus_5 {
        score = score - 10;
        reasons.push(Reason::MomentumMildDown);
    } else {
        reasons.push(Reason::MomentumNeutral);
    }
    if c.deviation_above_35 {
        score = score - 25;
        reasons.push(Reason::Overheated);
    } else if c.deviation_above_20 {
        score = score - 10;
        reasons.push(Reason::Elevated);
    } else if c.deviation_below_minus_35 {
        score = score + 10;
        reasons.push(Reason::FarBelow);
    } else if c.deviation_below_minus_20 {
        score = score + 5;
        reasons.push(Reason::Below);
    }
    if c.drawdown_above_minus_5 && c.deviation_above_20 {
        score = score - 10;
        reasons.push(Reason::NearHighElevated);
    } else if c.drawdown_below_minus_25 && c.close_above_ma120 {
        score = score + 10;
        reasons.push(Reason::PullbackInTrend);
    } else {
        reasons.push(Reason::Drawdown);
    }
    assert(score == raw_score(*c));
    let score = if score < -100 {
        -100
    } else if score > 100 {
        100
    } else {
        score
    };
    let action = if score >= 35 {
        SignalAction::Buy
    } else if score <= -35 {
        SignalAction::Sell
    } else {
        SignalAction::Hold
    };
    assert(reasons@ =~= reasons_for(*c));
    SignalOutcome { score, action, reasons }
}

/// The score lies in [-100, 100], and the action follows the score: buy from
/// 35 up, sell from -35 down, hold between.
pub proof fn law_score_and_action(bar_count: int, c: Comparisons)
    ensures
        -100 <= decision(bar_count, c).0 <= 100,
        decision(bar_count, c).1 == SignalAction::Buy <==> decision(bar_count, c).0 >= 35,
        decision(bar_count, c).1 == SignalAction::Sell <==> decision(bar_count, c).0 <= -35,
{
}

/// A history shorter than `MIN_HISTORY` bars always holds, with score 0.
pub proof fn law_short_history_holds(bar_count: int, c: Comparisons)
    requires
        bar_count < MIN_HISTORY,
    ensures
        decision(bar_count, c).0 == 0,
        decision(bar_count, c).1 == SignalAction::Hold,
{
}

/// A price far above its 120-day average and close to its 120-day high never
/// scores more than 30, so it is never a buy at full trend strength.
pub proof fn law_overextension_is_tempered(bar_count: int, c: Comparisons)
    requires
        c.consistent(),
        c.deviation_above_35,
        c.drawdown_above_minus_5,
    ensures
        decision(bar_count, c).0 <= 30,
{
}

/// Comparisons with no momentum, position or pullback signal: the 60-day
/// change within 5 %, the deviation within 20 %, the drawdown neither near the
/// high nor past 25 %.
pub open spec fn quiet(c: Comparisons) -> bool {
    &&& !c.change_above_15 && !c.change_below_minus_15 && !c.change_above_5 && !c.change_below_minus_5
    &&& !c.deviation_above_35 && !c.deviation_above_20
    &&& !c.deviation_below_minus_35 && !c.deviation_below_minus_20
    &&& !c.drawdown_above_minus_5 && !c.drawdown_below_minus_25
}

/// Neither the full bullish trend (close above the 60-day average, and
/// 20 > 60 > 120) nor the full bearish one.
pub open spec fn no_full_trend(c: Comparisons) -> bool {
    !(c.close_above_ma60 && c.ma20_above_ma60 && c.ma60_above_ma120)
        && !(c.close_below_ma60 && c.ma20_below_ma60 && c.ma60_below_ma120)
}

/// With enough history and no full trend, a close and a 60-day average both
/// above the 120-day average (a bullish long-term structure) score +25: with
/// nothing else to count, the decision is score 25 and hold, with the
/// structure as the first reason; and turning those two comparisons on never
/// lowers the score, whatever else holds.
pub proof fn law_bullish_structure_adds_25(bar_count: int, c: Comparisons)
    requires
        bar_count >= MIN_HISTORY,
        c.consistent(),
        no_full_trend(c),
        c.close_above_ma120,
        c.ma60_above_ma120,
    ensures
        quiet(c) ==> decision(bar_count, c).0 == 25 && decision(bar_count, c).1 == SignalAction::Hold
            && decision(bar_count, c).2[0] == Reason::StructureBullish,
        decision(bar_count, c).0 >= decision(
            bar_count,
            Comparisons { close_above_ma120: false, ma60_above_ma120: false, ..c },
        ).0,
        decision(bar_count, Comparisons { close_above_ma120: false, ma60_above_ma120: false, ..c }).0
            <= decision(bar_count, c).0 - 25 || decision(bar_count, c).0 == 100,
{
}

/// The mirror: a close and a 60-day average both below the 120-day average,
/// without a full trend, score -25; with nothing else to count the decision is
/// score -25 and hold, and turning those two comparisons on never raises the
/// score.
pub proof fn law_bearish_structure_subtracts_25(bar_count: int, c: Comparisons)
    requires
        bar_count >= MIN_HISTORY,
        c.consistent(),
        no_full_trend(c),
        c.close_below_ma120,
        c.ma60_below_ma120,
    ensures
        quiet(c) ==> decision(bar_count, c).0 == -25 && decision(bar_count, c).1 == SignalAction::Hold
            && decision(bar_count, c).2[0] == Reason::StructureBearish,
        decision(bar_count, c).0 <= decision(
            bar_count,
            Comparisons { close_below_ma120: false, ma60_below_ma120: false, ..c },
        ).0,
{
}

/// A full bullish trend scores 45 and a full bearish one -45 when nothing
/// else counts: the first a buy, the second a sell.
pub proof fn law_full_trends(bar_count: int, c: Comparisons)
    requires
        bar_count >= MIN_HISTORY,
        quiet(c),
    ensures
        c.close_above_ma60 && c.ma20_above_ma60 && c.ma60_above_ma120 ==> decision(bar_count, c).0
            == 45 && decision(bar_count, c).1 == SignalAction::Buy,
        c.close_below_ma60 && c.ma20_below_ma60 && c.ma60_below_ma120 && !c.ma60_above_ma120
            ==> decision(bar_count, c).0 == -45 && decision(bar_count, c).1 == SignalAction::Sell,
{
}

/// No trend comparison holds: the close, the 20-day and the 60-day average
/// are on no side of the longer averages.
pub open spec fn no_trend(c: Comparisons) -> bool {
    &&& !c.close_above_ma60 && !c.close_below_ma60
    &&& !c.ma20_above_ma60 && !c.ma20_below_ma60
    &&& !c.ma60_above_ma120 && !c.ma60_below_ma120
    &&& !c.close_above_ma120 && !c.close_below_ma120
}

/// With enough history, no trend and no position or pullback signal, the
/// 60-day change alone decides: above 15 % scores 20, below -15 % -20, above
/// 5 % 10, below -5 % -10, and within 5 % nothing; all of these hold.
pub proof fn law_momentum_alone(bar_count: int, c: Comparisons)
    requires
        bar_count >= MIN_HISTORY,
        c.consistent(),
        no_trend(c),
        !c.deviation_above_35 && !c.deviation_above_20,
        !c.deviation_below_minus_35 && !c.deviation_below_minus_20,
        !c.drawdown_above_minus_5 && !c.drawdown_below_minus_25,
        !(c.change_above_5 && c.change_below_minus_5),
    ensures
        decision(bar_count, c).1 == SignalAction::Hold,
        c.change_above_15 ==> decision(bar_count, c).0 == 20,
        c.change_below_minus_15 ==> decision(bar_count, c).0 == -20,
        c.change_above_5 && !c.change_above_15 ==> decision(bar_count, c).0 == 10,
        c.change_below_minus_5 && !c.change_below_minus_15 ==> decision(bar_count, c).0 == -10,
        !c.change_above_5 && !c.change_below_minus_5 ==> decision(bar_count, c).0 == 0,
{
}

/// With enough history, no trend, a 60-day change within 5 % and no
/// pullback signal, the deviation from the 120-day average alone decides:
/// above 35 % scores -25, above 20 % -10, below -35 % 10, below -20 % 5.
pub proof fn law_position_alone(bar_count: int, c: Comparisons)
    requires
        bar_count >= MIN_HISTORY,
        c.consistent(),
        no_trend(c),
        !c.change_above_15 && !c.change_below_minus_15 && !c.change_above_5 && !c.change_below_minus_5,
        !c.drawdown_above_minus_5 && !c.drawdown_below_minus_25,
        !(c.deviation_above_20 && c.deviation_below_minus_20),
    ensures
        decision(bar_count, c).1 == SignalAction::Hold,
        c.deviation_above_35 ==> decision(bar_count, c).0 == -25,
        c.deviation_above_20 && !c.deviation_above_35 ==> decision(bar_count, c).0 == -10,
        c.deviation_below_minus_35 ==> decision(bar_count, c).0 == 10,
        c.deviation_below_minus_20 && !c.deviation_below_minus_35 ==> decision(bar_count, c).0 == 5,
        !c.deviation_above_20 && !c.deviation_below_minus_20 ==> decision(bar_count, c).0 == 0
            && decision(bar_count, c).2.len() == 3,
{
}

/// Near the 120-day high while more than 20 % above the 120-day average takes
/// 10 off the score; a drawdown past 25 % while still above the 120-day
/// average adds 10: turning the drawdown comparison on moves the score by 10
/// in that direction, all else equal.
pub proof fn law_pullback_moves_the_score(bar_count: int, c: Comparisons)
    requires
        bar_count >= MIN_HISTORY,
        c.consistent(),
        !c.drawdown_above_minus_5,
        !c.drawdown_below_minus_25,
    ensures
        c.deviation_above_20 ==> decision(bar_count, Comparisons { drawdown_above_minus_5: true, ..c }).0
            == decision(bar_count, c).0 - 10,
        c.close_above_ma120 ==> decision(bar_count, Comparisons { drawdown_below_minus_25: true, ..c }).0
            == decision(bar_count, c).0 + 10,
{
}

/// Where a backfill starts: nothing is backfilled with fewer than
/// `MIN_HISTORY` bars; otherwise from `trading_days` before the end, but never
/// before the bar that completes the minimum history.
pub open spec fn backfill_start_index(bar_count: int, trading_days: Option<usize>) -> Option<int> {
    if bar_count < MIN_HISTORY {
        None
    } else {
        let days = match trading_days {
            Some(d) => d as int,
            None => DEFAULT_BACKFILL_TRADING_DAYS as int,
        };
        let from_end = if bar_count > days {
            bar_count - days
        } else {
            0
        };
        Some(
            if from_end > MIN_HISTORY - 1 {
                from_end
            } else {
                MIN_HISTORY - 1
            },
        )
    }
}

pub fn backfill_start(bar_count: usize, trading_days: Option<usize>) -> (r: Option<usize>)
    ensures
        match r {
            Some(k) => backfill_start_index(bar_count as int, trading_days) == Some(k as int),
            None => backfill_start_index(bar_count as int, trading_days) is None,
        },
        r matches Some(k) ==> k <= bar_count,
{
    if bar_count < MIN_HISTORY {
        return None;
    }
    let days = match trading_days {
        Some(d) => d,
        None => DEFAULT_BACKFILL_TRADING_DAYS,
    };
    let from_end = bar_count.saturating_sub(days);
    Some(
        if from_end > MIN_HISTORY - 1 {
            from_end
        } else {
            MIN_HISTORY - 1
        },
    )
}

/// Whether an instrument takes part in a backfill: all do unless one id is
/// asked for.
pub fn backfill_selects(options: &BackfillOptions, instrument_id: &str) -> (b: bool)
    ensures
        b == match options.instrument_id {
            Some(id) => id@ == instrument_id@,
            None => true,
        },
{
    match &options.instrument_id {
        Some(id) => {
            let a = crate::text::chars_of(id.as_str());
            let b = crate::text::chars_of(instrument_id);
            crate::text::same_chars(&a, &b)
        },
        None => true,
    }
}

} // verus!
