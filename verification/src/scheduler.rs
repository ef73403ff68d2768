//! One scheduling cycle, as a pure function: from the pool, the clock and
//! three random draws to the next trade (or a backoff) and the pause before
//! the following cycle.
//!
//! The loop around it executes the trade, reports the outcome back through
//! `WalletPool::record_outcome` and `ActivityLedger::record`, and sleeps the
//! returned delay — also after a failure, so no fast-retry pattern appears.

use vstd::prelude::*;

use crate::config::SchedulerConfig;
use crate::decide::{
    action_of_draw, buy_amount, buy_amount_of_draw, choose_action, choose_delay, delay_of_draw,
    TradeAction, TradeDecision,
};
use crate::pool::{selected_wallet, WalletPool};

verus! {

/// What a cycle resolves to.
#[derive(Clone, Copy, Debug, PartialEq, Eq, Structural)]
pub enum CyclePlan {
    /// Execute this trade, then sleep the returned delay.
    Trade(TradeDecision),
    /// No wallet can afford a trade: only sleep the returned delay and warn.
    Backoff,
}

/// Resolve one cycle: pick the wallet by rotation, the action by the
/// weighted draw, the amount by the ratio-bounded draw (buys) or the full
/// position (sells), and the pause by the delay draw. When no wallet is
/// selectable the plan is a backoff of the configured length instead.
pub fn plan_cycle(
    pool: &WalletPool,
    cfg: &SchedulerConfig,
    now_ms: u64,
    action_draw: u64,
    amount_draw: u64,
    delay_draw: u64,
) -> (r: (CyclePlan, u64))
    requires
        pool.wf(),
        cfg.wf(),
        cfg.delay_max_ms < u64::MAX,
    ensures
        r.0 matches CyclePlan::Trade(d) ==> {
            let w = pool.wallets[d.wallet_index as int];
            &&& selected_wallet(*pool, *cfg, now_ms) == Some(d.wallet_index as int)
            &&& d.wallet_index < pool.wallets.len()
            &&& w.selectable(*cfg, now_ms)
            &&& d.action == action_of_draw(w.held_balance, action_draw, *cfg)
            &&& d.action is Buy ==> d.amount == buy_amount_of_draw(
                w.funding_balance,
                amount_draw,
                *cfg,
            ) && d.amount <= w.funding_balance - cfg.fee_reserve
            &&& d.action is Sell ==> d.amount == w.held_balance
            &&& d.min_output == 0
            &&& r.1 == delay_of_draw(delay_draw, *cfg)
            &&& cfg.delay_min_ms <= r.1 <= cfg.delay_max_ms
        },
        r.0 is Backoff ==> selected_wallet(*pool, *cfg, now_ms) is None && r.1 == cfg.backoff_ms,
{
    match pool.select_wallet(cfg, now_ms) {
        Some(i) => {
            let w = &pool.wallets[i];
            let action = choose_action(w.held_balance, action_draw, cfg);
            let amount = match action {
                TradeAction::Buy => buy_amount(w.funding_balance, amount_draw, cfg),
                TradeAction::Sell => w.held_balance,
            };
            let delay = choose_delay(delay_draw, cfg);
            (
                CyclePlan::Trade(
                    TradeDecision { wallet_index: i, action, amount, min_output: 0 },
                ),
                delay,
            )
        },
        None => (CyclePlan::Backoff, cfg.backoff_ms),
    }
}

} // verus!
