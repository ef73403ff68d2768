//! The pure decision functions of a cycle: action choice, amount choice and
//! delay choice.
//!
//! Each takes its random draw as a plain argument, so the policy is a total
//! function that can be verified and replayed; the process around the
//! library supplies the draws from whatever entropy source it trusts.

use vstd::prelude::*;

use vstd::arithmetic::div_mod::{lemma_div_is_ordered, lemma_div_multiples_vanish};
use vstd::arithmetic::mul::lemma_mul_inequality;

use crate::config::{SchedulerConfig, BPS_SCALE};

verus! {

/// The two sides of the swap pair.
#[derive(Clone, Copy, Debug, PartialEq, Eq, Structural)]
pub enum TradeAction {
    /// Spend the funding token for the traded token.
    Buy,
    /// Return the wallet's whole traded-token position to the pool.
    Sell,
}

/// One cycle's resolved choice, handed to the trade executor and then
/// discarded.
#[derive(Clone, Copy, Debug, PartialEq, Eq, Structural)]
pub struct TradeDecision {
    /// Index of the acting wallet within the pool.
    pub wallet_index: usize,
    /// Buy or sell.
    pub action: TradeAction,
    /// Input amount, in the spent token's smallest unit.
    pub amount: u64,
    /// Smallest acceptable output. Fixed at zero by policy: the scheduler
    /// accepts any fill rather than leave a failed-trade pattern.
    pub min_output: u64,
}

/// The action a draw resolves to: a weighted coin with the configured buy
/// probability, forced to Buy when the wallet has nothing to sell.
pub open spec fn action_of_draw(held_balance: u64, draw: u64, cfg: SchedulerConfig) -> TradeAction {
    if held_balance == 0 {
        TradeAction::Buy
    } else if draw as int % (BPS_SCALE as int) < cfg.buy_probability_bps {
        TradeAction::Buy
    } else {
        TradeAction::Sell
    }
}

/// Weighted Bernoulli choice between Buy and Sell.
///
/// A draw lands on Buy exactly when its residue modulo the scale falls below
/// the configured buy probability; a wallet holding none of the traded token
/// is forced to Buy.
pub fn choose_action(held_balance: u64, draw: u64, cfg: &SchedulerConfig) -> (r: TradeAction)
    ensures
        r == action_of_draw(held_balance, draw, *cfg),
{
    if held_balance == 0 {
        TradeAction::Buy
    } else if (draw % (BPS_SCALE as u64)) < cfg.buy_probability_bps as u64 {
        TradeAction::Buy
    } else {
        TradeAction::Sell
    }
}

/// The buy fraction a draw resolves to: uniform over the configured band,
/// in basis points.
pub open spec fn fraction_of_draw(draw: u64, cfg: SchedulerConfig) -> int {
    cfg.fraction_min_bps + draw as int % (cfg.fraction_max_bps - cfg.fraction_min_bps + 1)
}

/// The buy amount a draw resolves to: the drawn fraction of the balance
/// left after the fee reserve, rounded down.
pub open spec fn buy_amount_of_draw(funding_balance: u64, draw: u64, cfg: SchedulerConfig) -> int {
    (funding_balance - cfg.fee_reserve) * fraction_of_draw(draw, cfg) / (BPS_SCALE as int)
}

/// Ratio-bounded buy sizing.
///
/// The amount is the drawn fraction of the spendable balance (what remains
/// above the fee reserve), so it always lies between the configured band's
/// edges applied to that balance, and never touches the reserve.
pub fn buy_amount(funding_balance: u64, draw: u64, cfg: &SchedulerConfig) -> (amt: u64)
    requires
        cfg.wf(),
        funding_balance > cfg.fee_reserve,
    ensures
        amt == buy_amount_of_draw(funding_balance, draw, *cfg),
        (funding_balance - cfg.fee_reserve) * cfg.fraction_min_bps / (BPS_SCALE as int) <= amt,
        amt <= (funding_balance - cfg.fee_reserve) * cfg.fraction_max_bps / (BPS_SCALE as int),
        amt <= funding_balance - cfg.fee_reserve,
{
    let span: u64 = (cfg.fraction_max_bps - cfg.fraction_min_bps) as u64 + 1;
    let frac: u64 = cfg.fraction_min_bps as u64 + draw % span;
    let avail: u64 = funding_balance - cfg.fee_reserve;
    proof {
        assert(frac <= BPS_SCALE);
        assert((avail as int) * (frac as int) <= (u64::MAX as int) * (BPS_SCALE as int))
            by (nonlinear_arith)
            requires
                avail <= u64::MAX,
                frac <= BPS_SCALE,
        ;
    }
    let wide: u128 = (avail as u128) * (frac as u128) / (BPS_SCALE as u128);
    proof {
        let a = avail as int;
        let f = frac as int;
        let s = BPS_SCALE as int;
        let lo = cfg.fraction_min_bps as int;
        let hi = cfg.fraction_max_bps as int;
        assert(lo <= f <= hi <= s);
        lemma_mul_inequality(lo, f, a);
        lemma_mul_inequality(f, hi, a);
        lemma_mul_inequality(hi, s, a);
        lemma_div_is_ordered(lo * a, f * a, s);
        lemma_div_is_ordered(f * a, hi * a, s);
        lemma_div_is_ordered(hi * a, s * a, s);
        lemma_div_multiples_vanish(a, s);
        assert(a * f == f * a) by (nonlinear_arith);
        assert(a * lo == lo * a) by (nonlinear_arith);
        assert(a * hi == hi * a) by (nonlinear_arith);
    }
    wide as u64
}

/// The pause a draw resolves to: uniform over the configured delay band,
/// in milliseconds.
pub open spec fn delay_of_draw(draw: u64, cfg: SchedulerConfig) -> int {
    cfg.delay_min_ms + draw as int % (cfg.delay_max_ms - cfg.delay_min_ms + 1)
}

/// Randomized inter-cycle delay, independent of the cycle's outcome, so a
/// failed trade leaves no fast-retry signature.
pub fn choose_delay(draw: u64, cfg: &SchedulerConfig) -> (d: u64)
    requires
        cfg.wf(),
        cfg.delay_max_ms < u64::MAX,
    ensures
        d == delay_of_draw(draw, *cfg),
        cfg.delay_min_ms <= d <= cfg.delay_max_ms,
{
    let span: u64 = cfg.delay_max_ms - cfg.delay_min_ms + 1;
    cfg.delay_min_ms + draw % span
}

} // verus!
