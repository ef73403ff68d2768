//! Startup configuration for the scheduler.
//!
//! Probabilities and fractions are held in basis points (1/10000), so the
//! whole policy is stated over integers.

use vstd::prelude::*;

verus! {

/// Basis points in a whole: probabilities and fractions range over 0..=10000.
pub const BPS_SCALE: u32 = 10000;

/// All tunables of the scheduler, read once at startup.
#[derive(Clone, Copy, Debug)]
pub struct SchedulerConfig {
    /// How many of the loaded wallets take part in rotation.
    pub active_subset: u32,
    /// Probability of choosing Buy over Sell, in basis points.
    pub buy_probability_bps: u32,
    /// Lower edge of the buy-amount band, as basis points of the spendable balance.
    pub fraction_min_bps: u32,
    /// Upper edge of the buy-amount band, as basis points of the spendable balance.
    pub fraction_max_bps: u32,
    /// Trades a wallet performs before the rotation cursor moves on.
    pub rotation_granularity: u32,
    /// Shortest randomized pause between cycles, in milliseconds.
    pub delay_min_ms: u64,
    /// Longest randomized pause between cycles, in milliseconds.
    pub delay_max_ms: u64,
    /// Funding-token amount every wallet must keep back for fees.
    pub fee_reserve: u64,
    /// Age past which a replay-protection handle may no longer be used.
    pub handle_ceiling_ms: u64,
    /// Age past which a cached token-account entry is evicted.
    pub cache_ttl_ms: u64,
    /// Pause taken when no wallet can afford a trade.
    pub backoff_ms: u64,
    /// Consecutive failures after which a wallet is put on cooldown.
    pub failure_threshold: u32,
    /// Length of the first cooldown; it doubles on every further escalation.
    pub cooldown_base_ms: u64,
    /// Milliseconds between activity reports.
    pub report_interval_ms: u64,
}

impl SchedulerConfig {
    /// The configuration is usable: bands are ordered and within scale,
    /// rotation needs at least one trade, and a failure streak is finite.
    pub open spec fn wf(self) -> bool {
        &&& self.active_subset >= 1
        &&& self.buy_probability_bps <= BPS_SCALE
        &&& self.fraction_min_bps <= self.fraction_max_bps
        &&& self.fraction_max_bps <= BPS_SCALE
        &&& self.rotation_granularity >= 1
        &&& self.delay_min_ms <= self.delay_max_ms
        &&& self.failure_threshold >= 1
    }

    /// Runtime check of the same conditions, for callers that take the
    /// configuration from outside.
    pub fn check(&self) -> (r: bool)
        ensures
            r == self.wf(),
    {
        self.active_subset >= 1 && self.buy_probability_bps <= BPS_SCALE
            && self.fraction_min_bps <= self.fraction_max_bps
            && self.fraction_max_bps <= BPS_SCALE && self.rotation_granularity >= 1
            && self.delay_min_ms <= self.delay_max_ms && self.failure_threshold >= 1
    }
}

} // verus!
