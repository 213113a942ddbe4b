//! The position a backtest holds as it follows the daily actions.
//!
//! Cash and equity are floating-point amounts kept by the caller; what is
//! decided here is when the position is entered and left, how many trades
//! that makes and on how many days the position is held.
use crate::calendar::{chrono_ymd_text, Day};
use crate::models::SignalAction;
use crate::text::{chars_of, nat_text, nat_text_of, push_all, push_str, string_of};
use vstd::prelude::*;

verus! {

#[derive(Clone, Copy, Debug, PartialEq, Eq, Structural)]
pub enum PositionChange {
    /// Buy with all cash.
    Enter,
    /// Sell all shares.
    Exit,
    Stay,
}

/// Whether the position is held after following `actions`: a buy enters, a
/// sell leaves, a hold keeps what there was.
pub open spec fn holding_after(actions: Seq<SignalAction>) -> bool
    decreases actions.len(),
{
    if actions.len() == 0 {
        false
    } else {
        match actions.last() {
            SignalAction::Buy => true,
            SignalAction::Sell => false,
            SignalAction::Hold => holding_after(actions.drop_last()),
        }
    }
}

/// What happens on day `i`: a buy while out enters, a sell while in leaves.
pub open spec fn change_at(actions: Seq<SignalAction>, i: int) -> PositionChange {
    let held = holding_after(actions.take(i));
    if actions[i] == SignalAction::Buy && !held {
        PositionChange::Enter
    } else if actions[i] == SignalAction::Sell && held {
        PositionChange::Exit
    } else {
        PositionChange::Stay
    }
}

pub open spec fn trade_count(actions: Seq<SignalAction>) -> int
    decreases actions.len(),
{
    if actions.len() == 0 {
        0
    } else {
        trade_count(actions.drop_last()) + if change_at(actions, actions.len() - 1)
            == PositionChange::Stay {
            0int
        } else {
            1int
        }
    }
}

pub open spec fn days_held(actions: Seq<SignalAction>) -> int
    decreases actions.len(),
{
    if actions.len() == 0 {
        0
    } else {
        days_held(actions.drop_last()) + if holding_after(actions) {
            1int
        } else {
            0int
        }
    }
}

pub struct PositionPath {
    /// What happens on each day.
    pub changes: Vec<PositionChange>,
    /// Whether the position is held at the end of each day.
    pub holding: Vec<bool>,
    pub trades: usize,
    pub holding_days: usize,
}

pub fn follow_signals(actions: &Vec<SignalAction>) -> (p: PositionPath)
    ensures
        p.changes@.len() == actions@.len(),
        p.holding@.len() == actions@.len(),
        forall|i: int| 0 <= i < actions@.len() ==> #[trigger] p.changes@[i] == change_at(actions@, i),
        forall|i: int|
            0 <= i < actions@.len() ==> #[trigger] p.holding@[i] == holding_after(
                actions@.take(i + 1),
            ),
        p.trades as int == trade_count(actions@),
        p.holding_days as int == days_held(actions@),
{
    let mut changes: Vec<PositionChange> = Vec::new();
    let mut holding_flags: Vec<bool> = Vec::new();
    let mut holding = false;
    let mut trades: usize = 0;
    let mut holding_days: usize = 0;
    let mut i: usize = 0;
    assert(actions@.take(0) == Seq::<SignalAction>::empty());
    while i < actions.len()
        invariant
            i <= actions@.len(),
            changes@.len() == i,
            holding_flags@.len() == i,
            holding == holding_after(actions@.take(i as int)),
            forall|k: int| 0 <= k < i ==> #[trigger] changes@[k] == change_at(actions@, k),
            forall|k: int|
                0 <= k < i ==> #[trigger] holding_flags@[k] == holding_after(actions@.take(k + 1)),
            trades as int == trade_count(actions@.take(i as int)),
            holding_days as int == days_held(actions@.take(i as int)),
            trades <= i,
            holding_days <= i,
        decreases actions@.len() - i,
    {
        let ghost prefix = actions@.take(i + 1);
        assert(prefix.drop_last() == actions@.take(i as int));
        assert(prefix.last() == actions@[i as int]);
        assert(prefix.take(i as int) == actions@.take(i as int));
        assert(change_at(prefix, i as int) == change_at(actions@, i as int));
        let change = match actions[i] {
            SignalAction::Buy => if !holding {
                PositionChange::Enter
            } else {
                PositionChange::Stay
            },
            SignalAction::Sell => if holding {
                PositionChange::Exit
            } else {
                PositionChange::Stay
            },
            SignalAction::Hold => PositionChange::Stay,
        };
        match actions[i] {
            SignalAction::Buy => {
                holding = true;
            },
            SignalAction::Sell => {
                holding = false;
            },
            SignalAction::Hold => {},
        }
        if change != PositionChange::Stay {
            trades = trades + 1;
        }
        if holding {
            holding_days = holding_days + 1;
        }
        changes.push(change);
        holding_flags.push(holding);
        i = i + 1;
    }
    assert(actions@.take(actions@.len() as int) == actions@);
    PositionPath { changes, holding: holding_flags, trades, holding_days }
}

/// Never more trades, nor more days held, than days followed.
pub proof fn law_counts_bounded(actions: Seq<SignalAction>)
    ensures
        0 <= trade_count(actions) <= actions.len(),
        0 <= days_held(actions) <= actions.len(),
    decreases actions.len(),
{
    if actions.len() > 0 {
        law_counts_bounded(actions.drop_last());
    }
}

/// One more day: a buy leaves the position held, a sell leaves it empty and
/// a hold keeps it as it was; a trade is counted exactly when the position
/// changes that day, and the day counts as held exactly when the position is
/// held at its end.
pub proof fn law_one_more_day(actions: Seq<SignalAction>, a: SignalAction)
    ensures
        holding_after(actions.push(SignalAction::Buy)),
        !holding_after(actions.push(SignalAction::Sell)),
        holding_after(actions.push(SignalAction::Hold)) == holding_after(actions),
        trade_count(actions.push(a)) == trade_count(actions) + if holding_after(actions.push(a))
            != holding_after(actions) {
            1int
        } else {
            0int
        },
        days_held(actions.push(a)) == days_held(actions) + if holding_after(actions.push(a)) {
            1int
        } else {
            0int
        },
        change_at(actions.push(a), actions.len() as int) == if !holding_after(actions)
            && holding_after(actions.push(a)) {
            PositionChange::Enter
        } else if holding_after(actions) && !holding_after(actions.push(a)) {
            PositionChange::Exit
        } else {
            PositionChange::Stay
        },
{
    assert(actions.push(a).drop_last() == actions);
    assert(actions.push(SignalAction::Buy).drop_last() == actions);
    assert(actions.push(SignalAction::Sell).drop_last() == actions);
    assert(actions.push(SignalAction::Hold).drop_last() == actions);
    assert(actions.push(a).take(actions.len() as int) == actions);
}

/// A backtest needs at least two bars.
pub fn check_bar_count(bar_count: usize) -> (r: Result<(), String>)
    ensures
        r is Ok <==> bar_count >= 2,
        r matches Err(m) ==> m@ == "backtest requires at least two bars"@,
{
    if bar_count < 2 {
        Err("backtest requires at least two bars".to_owned())
    } else {
        Ok(())
    }
}

/// The outcome of a backtest.  Amounts and percentages are given as the
/// summary prints them, with two decimals.
#[derive(Debug)]
pub struct BacktestResult {
    pub start_date: Day,
    pub end_date: Day,
    pub initial_cash: String,
    pub final_cash: String,
    pub total_return_pct: String,
    pub max_drawdown_pct: String,
    pub trades: usize,
    pub holding_days: usize,
    pub buy_and_hold_return_pct: String,
}

/// The printed summary of a backtest.
pub open spec fn backtest_text(r: BacktestResult) -> Seq<char> {
    "Backtest sanity check\nStart date: "@ + chrono_ymd_text(r.start_date.index()) + "\nEnd date: "@
        + chrono_ymd_text(r.end_date.index()) + "\nInitial cash: "@ + r.initial_cash@
        + "\nFinal cash: "@ + r.final_cash@ + "\nTotal return: "@ + r.total_return_pct@
        + "%\nMax drawdown: "@ + r.max_drawdown_pct@ + "%\nTrades: "@ + nat_text(r.trades as nat)
        + "\nHolding days: "@ + nat_text(r.holding_days as nat) + "\nBuy-and-hold return: "@
        + r.buy_and_hold_return_pct@
        + "%\nNote: rule-based sanity check only, not investment advice."@
}

pub fn render_backtest(result: &BacktestResult) -> (s: String)
    ensures
        s@ == backtest_text(*result),
{
    let mut out = chars_of("Backtest sanity check\nStart date: ");
    push_str(&mut out, result.start_date.ymd_text().as_str());
    push_str(&mut out, "\nEnd date: ");
    push_str(&mut out, result.end_date.ymd_text().as_str());
    push_str(&mut out, "\nInitial cash: ");
    push_str(&mut out, result.initial_cash.as_str());
    push_str(&mut out, "\nFinal cash: ");
    push_str(&mut out, result.final_cash.as_str());
    push_str(&mut out, "\nTotal return: ");
    push_str(&mut out, result.total_return_pct.as_str());
    push_str(&mut out, "%\nMax drawdown: ");
    push_str(&mut out, result.max_drawdown_pct.as_str());
    push_str(&mut out, "%\nTrades: ");
    push_all(&mut out, &nat_text_of(result.trades as u64));
    push_str(&mut out, "\nHolding days: ");
    push_all(&mut out, &nat_text_of(result.holding_days as u64));
    push_str(&mut out, "\nBuy-and-hold return: ");
    push_str(&mut out, result.buy_and_hold_return_pct.as_str());
    push_str(&mut out, "%\nNote: rule-based sanity check only, not investment advice.");
    string_of(&out)
}

} // verus!
