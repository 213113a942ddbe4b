//! Runs of the same action over consecutive trading days.
use crate::models::SignalAction;
use crate::text::{chars_of, nat_text, nat_text_of, push_all, push_str, string_of};
use vstd::prelude::*;

verus! {

/// How many of the first actions equal the first one.
pub open spec fn run_length(recent: Seq<SignalAction>, i: int) -> int
    decreases recent.len() - i,
{
    if i < 0 || i >= recent.len() || recent[i] != recent[0] {
        0
    } else {
        1 + run_length(recent, i + 1)
    }
}

pub proof fn lemma_run_length(recent: Seq<SignalAction>, i: int)
    requires
        0 <= i <= recent.len(),
    ensures
        0 <= run_length(recent, i) <= recent.len() - i,
        forall|k: int| i <= k < i + run_length(recent, i) ==> #[trigger] recent[k] == recent[0],
        i + run_length(recent, i) < recent.len() ==> recent[i + run_length(recent, i)] != recent[0],
    decreases recent.len() - i,
{
    if i < recent.len() && recent[i] == recent[0] {
        lemma_run_length(recent, i + 1);
    }
}

/// 从最近交易日信号（trade_date 降序）统计与最新一日相同的连续天数。
pub fn consecutive_action_streak(recent: &Vec<SignalAction>) -> (r: (usize, Option<SignalAction>))
    ensures
        recent@.len() == 0 ==> r == (0usize, None::<SignalAction>),
        recent@.len() > 0 ==> r.1 == Some(recent@[0]) && r.0 == run_length(recent@, 0),
{
    if recent.len() == 0 {
        return (0, None);
    }
    let action = recent[0];
    let mut days: usize = 0;
    proof {
        lemma_run_length(recent@, 0);
    }
    while days < recent.len() && recent[days] == action
        invariant
            days <= recent@.len(),
            action == recent@[0],
            run_length(recent@, 0) == days + run_length(recent@, days as int),
        decreases recent@.len() - days,
    {
        days = days + 1;
    }
    (days, Some(action))
}

/// A streak of at least one day: every day of it has the latest action, and
/// the day after it (if any) does not.
pub proof fn law_streak_is_maximal(recent: Seq<SignalAction>)
    requires
        recent.len() > 0,
    ensures
        1 <= run_length(recent, 0) <= recent.len(),
        forall|k: int| 0 <= k < run_length(recent, 0) ==> #[trigger] recent[k] == recent[0],
        run_length(recent, 0) < recent.len() ==> recent[run_length(recent, 0)] != recent[0],
{
    lemma_run_length(recent, 0);
    lemma_run_length(recent, 1);
}

pub open spec fn action_zh(action: SignalAction) -> Seq<char> {
    match action {
        SignalAction::Buy => "买入"@,
        SignalAction::Sell => "卖出"@,
        SignalAction::Hold => "观望"@,
    }
}

/// `连续{days}日{action}`, or `-` when there is no streak.
pub open spec fn streak_label(action: SignalAction, days: nat) -> Seq<char> {
    if days == 0 {
        "-"@
    } else {
        "连续"@ + nat_text(days) + "日"@ + action_zh(action)
    }
}

pub fn streak_label_zh(action: SignalAction, days: usize) -> (s: String)
    ensures
        s@ == streak_label(action, days as nat),
{
    if days == 0 {
        return "-".to_owned();
    }
    let name = match action {
        SignalAction::Buy => "买入",
        SignalAction::Sell => "卖出",
        SignalAction::Hold => "观望",
    };
    let mut out = chars_of("连续");
    let n = nat_text_of(days as u64);
    push_all(&mut out, &n);
    push_str(&mut out, "日");
    push_str(&mut out, name);
    string_of(&out)
}

/// The advice shown after two or more days of buying or selling.
pub open spec fn streak_hint(action: SignalAction, days: nat) -> Option<Seq<char>> {
    if action == SignalAction::Sell && days >= 2 {
        Some(
            "已连续 "@ + nat_text(days)
                + " 个交易日为卖出，可考虑分批撤退（建议结合 ≥3 日再加大减仓力度）。"@,
        )
    } else if action == SignalAction::Buy && days >= 2 {
        Some("已连续 "@ + nat_text(days) + " 个交易日为买入，可考虑分批进入或加仓。"@)
    } else {
        None
    }
}

/// 连续 ≥2 日买入/卖出时附加操作提示（邮件辅助阅读，非交易指令）。
pub fn streak_hint_zh(action: SignalAction, days: usize) -> (r: Option<String>)
    ensures
        crate::config::opt_view(r) == streak_hint(action, days as nat),
{
    if days >= 2 {
        match action {
            SignalAction::Sell => {
                let mut out = chars_of("已连续 ");
                let n = nat_text_of(days as u64);
                push_all(&mut out, &n);
                push_str(
                    &mut out,
                    " 个交易日为卖出，可考虑分批撤退（建议结合 ≥3 日再加大减仓力度）。",
                );
                Some(string_of(&out))
            },
            SignalAction::Buy => {
                let mut out = chars_of("已连续 ");
                let n = nat_text_of(days as u64);
                push_all(&mut out, &n);
                push_str(&mut out, " 个交易日为买入，可考虑分批进入或加仓。");
                Some(string_of(&out))
            },
            SignalAction::Hold => None,
        }
    } else {
        None
    }
}

} // verus!
