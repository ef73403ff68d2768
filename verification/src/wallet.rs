//! A single signing identity as the scheduler sees it: balances, the
//! rotation counter and the failure/cooldown bookkeeping.
//!
//! Key material never enters the library; a wallet is referred to by the
//! index it was loaded under, and the process around the library maps that
//! index back to the real signer.

use vstd::prelude::*;

use crate::config::SchedulerConfig;

verus! {

/// Per-wallet state owned by the scheduler.
#[derive(Clone, Copy, Debug, PartialEq, Eq, Structural)]
pub struct WalletHandle {
    /// Funding-token balance, in the token's smallest unit.
    pub funding_balance: u64,
    /// Traded-token balance, in the token's smallest unit.
    pub held_balance: u64,
    /// Trades this wallet has executed since it last became the rotation target.
    pub trades_since_rotation: u32,
    /// Trades in a row that ended in failure; reset by any success.
    pub consecutive_failures: u32,
    /// Instant until which the wallet is excluded after repeated failures.
    pub cooldown_until_ms: u64,
    /// How many cooldowns the wallet has earned; each one doubles the pause.
    pub cooldown_level: u32,
}

impl WalletHandle {
    /// A freshly loaded wallet: balances as observed, all counters at zero.
    pub fn load(funding_balance: u64, held_balance: u64) -> (w: WalletHandle)
        ensures
            w == (WalletHandle {
                funding_balance,
                held_balance,
                trades_since_rotation: 0,
                consecutive_failures: 0,
                cooldown_until_ms: 0,
                cooldown_level: 0,
            }),
    {
        WalletHandle {
            funding_balance,
            held_balance,
            trades_since_rotation: 0,
            consecutive_failures: 0,
            cooldown_until_ms: 0,
            cooldown_level: 0,
        }
    }

    /// The wallet can pay for a trade: it holds strictly more of the funding
    /// token than the amount reserved for fees. A wallet whose balance
    /// equals the reserve exactly cannot afford any trade.
    pub open spec fn can_fund(self, cfg: SchedulerConfig) -> bool {
        self.funding_balance > cfg.fee_reserve
    }

    /// The wallet is not serving a failure cooldown at `now_ms`.
    pub open spec fn off_cooldown(self, now_ms: u64) -> bool {
        now_ms >= self.cooldown_until_ms
    }

    /// The wallet may be selected: funded beyond the fee reserve and not on
    /// cooldown.
    pub open spec fn selectable(self, cfg: SchedulerConfig, now_ms: u64) -> bool {
        self.can_fund(cfg) && self.off_cooldown(now_ms)
    }

    /// Runtime form of `selectable`.
    pub fn is_selectable(&self, cfg: &SchedulerConfig, now_ms: u64) -> (r: bool)
        ensures
            r == self.selectable(*cfg, now_ms),
    {
        self.funding_balance > cfg.fee_reserve && now_ms >= self.cooldown_until_ms
    }
}

} // verus!
