//! Aggregate activity counters for periodic reporting. They only ever grow
//! within a run; volumes saturate rather than wrap at the integer's edge.

use vstd::prelude::*;

use crate::decide::TradeAction;
use crate::pool::cap_u64;

verus! {

/// Counters for one run, reset only by a restart.
#[derive(Clone, Copy, Debug, PartialEq, Eq, Structural)]
pub struct ActivityLedger {
    /// Confirmed buys.
    pub total_buys: u64,
    /// Confirmed sells.
    pub total_sells: u64,
    /// Sum of confirmed trade amounts, saturating.
    pub total_volume: u64,
    /// Trades that came back failed.
    pub total_failures: u64,
    /// When the run started, for the report header.
    pub started_at_ms: u64,
}

/// What booking one executed trade does to the counters.
pub open spec fn ledger_model(
    l: ActivityLedger,
    action: TradeAction,
    amount: u64,
    success: bool,
) -> ActivityLedger {
    if success {
        ActivityLedger {
            total_buys: if action is Buy {
                cap_u64(l.total_buys + 1)
            } else {
                l.total_buys
            },
            total_sells: if action is Sell {
                cap_u64(l.total_sells + 1)
            } else {
                l.total_sells
            },
            total_volume: cap_u64(l.total_volume + amount),
            ..l
        }
    } else {
        ActivityLedger { total_failures: cap_u64(l.total_failures + 1), ..l }
    }
}

impl ActivityLedger {
    /// A fresh ledger at run start.
    pub fn new(now_ms: u64) -> (l: ActivityLedger)
        ensures
            l == (ActivityLedger {
                total_buys: 0,
                total_sells: 0,
                total_volume: 0,
                total_failures: 0,
                started_at_ms: now_ms,
            }),
    {
        ActivityLedger {
            total_buys: 0,
            total_sells: 0,
            total_volume: 0,
            total_failures: 0,
            started_at_ms: now_ms,
        }
    }

    /// Book one executed trade: a success bumps its action's counter and the
    /// volume, a failure bumps only the failure counter.
    pub fn record(&mut self, action: TradeAction, amount: u64, success: bool)
        ensures
            *final(self) == ledger_model(*old(self), action, amount, success),
    {
        if success {
            match action {
                TradeAction::Buy => {
                    self.total_buys = saturating_bump(self.total_buys, 1);
                },
                TradeAction::Sell => {
                    self.total_sells = saturating_bump(self.total_sells, 1);
                },
            }
            self.total_volume = saturating_bump(self.total_volume, amount);
        } else {
            self.total_failures = saturating_bump(self.total_failures, 1);
        }
    }
}

/// `a + b`, stopping at the top of `u64`.
fn saturating_bump(a: u64, b: u64) -> (r: u64)
    ensures
        r == cap_u64(a + b),
{
    if a <= u64::MAX - b {
        a + b
    } else {
        u64::MAX
    }
}

} // verus!
