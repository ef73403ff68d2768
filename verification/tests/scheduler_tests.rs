use stealth_maker::config::SchedulerConfig;
use stealth_maker::ledger::ActivityLedger;
use stealth_maker::decide::TradeAction;
use stealth_maker::pool::WalletPool;
use stealth_maker::scheduler::{plan_cycle, CyclePlan};
use stealth_maker::wallet::WalletHandle;

fn test_config() -> SchedulerConfig {
    SchedulerConfig {
        active_subset: 100,
        buy_probability_bps: 7000,
        fraction_min_bps: 5000,
        fraction_max_bps: 9000,
        rotation_granularity: 2,
        delay_min_ms: 600_000,
        delay_max_ms: 7_200_000,
        fee_reserve: 5000,
        handle_ceiling_ms: 60_000,
        cache_ttl_ms: 300_000,
        backoff_ms: 60_000,
        failure_threshold: 3,
        cooldown_base_ms: 120_000,
        report_interval_ms: 1_800_000,
    }
}

struct Lcg {
    x: u64,
}

impl Lcg {
    fn new(seed: u64) -> Lcg {
        Lcg { x: seed }
    }

    fn next(&mut self) -> u64 {
        self.x = self
            .x
            .wrapping_mul(6364136223846793005)
            .wrapping_add(1442695040888963407);
        self.x >> 11
    }
}

fn funded_pool(n: usize, funding: u64, held: u64) -> WalletPool {
    let mut ws = Vec::new();
    for _ in 0..n {
        ws.push(WalletHandle::load(funding, held));
    }
    WalletPool::new(ws)
}

#[test]
fn rotation_order_three_wallets() {
    // Three wallets, granularity 2, deterministic buys: six cycles visit
    // the wallets in the order [0, 0, 1, 1, 2, 2].
    let mut cfg = test_config();
    cfg.buy_probability_bps = 10000;
    let mut pool = funded_pool(3, 1_000_000, 0);
    let mut order = Vec::new();
    for c in 0..6u64 {
        let (plan, _delay) = plan_cycle(&pool, &cfg, 0, c, c, c);
        match plan {
            CyclePlan::Trade(d) => {
                assert_eq!(d.action, TradeAction::Buy);
                order.push(d.wallet_index);
                pool.record_outcome(&cfg, d.wallet_index, true, 0);
            }
            CyclePlan::Backoff => panic!("all wallets are funded"),
        }
    }
    assert_eq!(order, vec![0, 0, 1, 1, 2, 2]);
    assert_eq!(pool.rotation_count, 3);
}

#[test]
fn trades_between_rotations_match_granularity() {
    let mut cfg = test_config();
    cfg.buy_probability_bps = 10000;
    cfg.rotation_granularity = 4;
    let mut pool = funded_pool(2, 1_000_000, 0);
    let mut trades_since_last_rotation = 0u32;
    let mut gaps = Vec::new();
    let mut rotations = pool.rotation_count;
    for c in 0..16u64 {
        let (plan, _delay) = plan_cycle(&pool, &cfg, 0, c, c, c);
        match plan {
            CyclePlan::Trade(d) => {
                pool.record_outcome(&cfg, d.wallet_index, true, 0);
                trades_since_last_rotation += 1;
                if pool.rotation_count > rotations {
                    rotations = pool.rotation_count;
                    gaps.push(trades_since_last_rotation);
                    trades_since_last_rotation = 0;
                }
            }
            CyclePlan::Backoff => panic!("all wallets are funded"),
        }
    }
    assert_eq!(gaps, vec![4, 4, 4, 4]);
}

#[test]
fn buy_ratio_converges_to_configured_probability() {
    // 1000 cycles at 70% buy probability: expect 700 +- 5%.
    let cfg = test_config();
    let mut pool = funded_pool(1, 1_000_000, 500);
    let mut rng = Lcg::new(42);
    let mut buys = 0u32;
    let mut sells = 0u32;
    for _ in 0..1000 {
        let action_draw = rng.next();
        let amount_draw = rng.next();
        let delay_draw = rng.next();
        let (plan, _delay) = plan_cycle(&pool, &cfg, 0, action_draw, amount_draw, delay_draw);
        match plan {
            CyclePlan::Trade(d) => {
                match d.action {
                    TradeAction::Buy => buys += 1,
                    TradeAction::Sell => sells += 1,
                }
                pool.record_outcome(&cfg, d.wallet_index, true, 0);
            }
            CyclePlan::Backoff => panic!("the wallet is funded"),
        }
    }
    assert_eq!(buys + sells, 1000);
    assert_eq!(buys, 707);
    assert!(665 <= buys && buys <= 735);
}

#[test]
fn buy_amount_stays_in_fraction_band() {
    // Spendable balance is 1_000_000 - 5000; every drawn amount lies in
    // [50%, 90%] of it and never touches the reserve.
    let cfg = test_config();
    let pool = funded_pool(1, 1_000_000, 0);
    let spendable: u64 = 1_000_000 - 5000;
    let lo = spendable * 5000 / 10000;
    let hi = spendable * 9000 / 10000;
    let mut rng = Lcg::new(7);
    for _ in 0..200 {
        let amount_draw = rng.next();
        let (plan, _delay) = plan_cycle(&pool, &cfg, 0, 0, amount_draw, 0);
        match plan {
            CyclePlan::Trade(d) => {
                assert_eq!(d.action, TradeAction::Buy);
                assert!(lo <= d.amount && d.amount <= hi);
                assert!(d.amount <= 1_000_000 - cfg.fee_reserve);
                let frac = 5000 + amount_draw % 4001;
                assert_eq!(d.amount, spendable * frac / 10000);
            }
            CyclePlan::Backoff => panic!("the wallet is funded"),
        }
    }
}

#[test]
fn sell_amount_is_full_held_balance() {
    let mut cfg = test_config();
    cfg.buy_probability_bps = 0;
    let pool = funded_pool(1, 1_000_000, 123_456);
    let (plan, _delay) = plan_cycle(&pool, &cfg, 0, 1, 2, 3);
    match plan {
        CyclePlan::Trade(d) => {
            assert_eq!(d.action, TradeAction::Sell);
            assert_eq!(d.amount, 123_456);
            assert_eq!(d.min_output, 0);
        }
        CyclePlan::Backoff => panic!("the wallet is funded"),
    }
}

#[test]
fn empty_held_balance_forces_buy() {
    let mut cfg = test_config();
    cfg.buy_probability_bps = 0;
    let pool = funded_pool(1, 1_000_000, 0);
    let (plan, _delay) = plan_cycle(&pool, &cfg, 0, 1, 2, 3);
    match plan {
        CyclePlan::Trade(d) => assert_eq!(d.action, TradeAction::Buy),
        CyclePlan::Backoff => panic!("the wallet is funded"),
    }
}

#[test]
fn failure_does_not_halt_and_delay_stays_in_band() {
    let cfg = test_config();
    let mut pool = funded_pool(2, 1_000_000, 0);
    let (plan, delay) = plan_cycle(&pool, &cfg, 0, 0, 0, 17);
    let first = match plan {
        CyclePlan::Trade(d) => d,
        CyclePlan::Backoff => panic!("all wallets are funded"),
    };
    assert!(cfg.delay_min_ms <= delay && delay <= cfg.delay_max_ms);
    // The trade fails; the cycle is booked and the next one proceeds.
    pool.record_outcome(&cfg, first.wallet_index, false, 0);
    let (next_plan, next_delay) = plan_cycle(&pool, &cfg, 0, 1, 2, 3);
    match next_plan {
        CyclePlan::Trade(d) => assert!(d.wallet_index < 2),
        CyclePlan::Backoff => panic!("one failure must not halt scheduling"),
    }
    assert!(cfg.delay_min_ms <= next_delay && next_delay <= cfg.delay_max_ms);
}

#[test]
fn wallet_at_fee_reserve_is_skipped() {
    // A wallet whose balance equals the fee reserve exactly cannot afford a
    // buy: selection moves past it.
    let cfg = test_config();
    let mut ws = Vec::new();
    ws.push(WalletHandle::load(cfg.fee_reserve, 0));
    ws.push(WalletHandle::load(1_000_000, 0));
    let pool = WalletPool::new(ws);
    let (plan, _delay) = plan_cycle(&pool, &cfg, 0, 0, 0, 0);
    match plan {
        CyclePlan::Trade(d) => assert_eq!(d.wallet_index, 1),
        CyclePlan::Backoff => panic!("the second wallet is funded"),
    }
}

#[test]
fn all_wallets_at_fee_reserve_backs_off() {
    let cfg = test_config();
    let pool = funded_pool(3, cfg.fee_reserve, 0);
    let (plan, delay) = plan_cycle(&pool, &cfg, 0, 0, 0, 0);
    match plan {
        CyclePlan::Trade(_) => panic!("no wallet can afford a trade"),
        CyclePlan::Backoff => assert_eq!(delay, cfg.backoff_ms),
    }
}

#[test]
fn repeated_failures_put_wallet_on_cooldown() {
    let mut cfg = test_config();
    cfg.failure_threshold = 2;
    let mut pool = funded_pool(1, 1_000_000, 0);
    pool.record_outcome(&cfg, 0, false, 1000);
    // One failure is under the threshold: still selectable.
    let (plan, _d) = plan_cycle(&pool, &cfg, 1000, 0, 0, 0);
    assert!(matches!(plan, CyclePlan::Trade(_)));
    pool.record_outcome(&cfg, 0, false, 1000);
    // The second failure starts a cooldown of the base length.
    assert_eq!(pool.wallets[0].cooldown_until_ms, 1000 + cfg.cooldown_base_ms);
    let (plan, delay) = plan_cycle(&pool, &cfg, 2000, 0, 0, 0);
    assert!(matches!(plan, CyclePlan::Backoff));
    assert_eq!(delay, cfg.backoff_ms);
    // Once the cooldown has passed, the wallet is re-admitted.
    let (plan, _d) = plan_cycle(&pool, &cfg, 1000 + cfg.cooldown_base_ms, 0, 0, 0);
    assert!(matches!(plan, CyclePlan::Trade(_)));
    // A success clears the failure streak.
    pool.record_outcome(&cfg, 0, true, 2_000_000);
    assert_eq!(pool.wallets[0].consecutive_failures, 0);
    assert_eq!(pool.wallets[0].cooldown_until_ms, 0);
}

#[test]
fn ledger_counts_trades_and_failures() {
    let mut ledger = ActivityLedger::new(500);
    ledger.record(TradeAction::Buy, 100, true);
    ledger.record(TradeAction::Buy, 50, true);
    ledger.record(TradeAction::Sell, 30, true);
    ledger.record(TradeAction::Buy, 999, false);
    assert_eq!(ledger.total_buys, 2);
    assert_eq!(ledger.total_sells, 1);
    assert_eq!(ledger.total_volume, 180);
    assert_eq!(ledger.total_failures, 1);
    assert_eq!(ledger.started_at_ms, 500);
}

#[test]
fn active_subset_limits_rotation() {
    // Five wallets loaded but a subset of two active: rotation cycles over
    // the first two only.
    let mut cfg = test_config();
    cfg.active_subset = 2;
    cfg.buy_probability_bps = 10000;
    let mut ws = Vec::new();
    for _ in 0..5 {
        ws.push(WalletHandle::load(1_000_000, 0));
    }
    let mut pool = WalletPool::with_active_subset(&ws, &cfg);
    let mut order = Vec::new();
    for c in 0..8u64 {
        let (plan, _delay) = plan_cycle(&pool, &cfg, 0, c, c, c);
        match plan {
            CyclePlan::Trade(d) => {
                order.push(d.wallet_index);
                pool.record_outcome(&cfg, d.wallet_index, true, 0);
            }
            CyclePlan::Backoff => panic!("the active wallets are funded"),
        }
    }
    assert_eq!(order, vec![0, 0, 1, 1, 0, 0, 1, 1]);
}

#[test]
fn buy_amount_at_largest_balance() {
    // The widening arithmetic holds at the top of the range: with the whole
    // u64 range funded, the drawn fraction of the spendable balance still
    // never exceeds it.
    let cfg = test_config();
    let pool = funded_pool(1, u64::MAX, 0);
    let spendable = u64::MAX - cfg.fee_reserve;
    let (plan, _delay) = plan_cycle(&pool, &cfg, 0, 0, u64::MAX, 0);
    match plan {
        CyclePlan::Trade(d) => {
            assert!(d.amount <= spendable);
            let frac = 5000 + u64::MAX % 4001;
            assert_eq!(d.amount, (spendable as u128 * frac as u128 / 10000) as u64);
        }
        CyclePlan::Backoff => panic!("the wallet is funded"),
    }
}

#[test]
fn delay_band_edges() {
    let cfg = test_config();
    let pool = funded_pool(1, 1_000_000, 0);
    let span = cfg.delay_max_ms - cfg.delay_min_ms + 1;
    // A draw that lands on the band's floor and one on its ceiling.
    let (_plan, low) = plan_cycle(&pool, &cfg, 0, 0, 0, 0);
    let (_plan, high) = plan_cycle(&pool, &cfg, 0, 0, 0, span - 1);
    assert_eq!(low, cfg.delay_min_ms);
    assert_eq!(high, cfg.delay_max_ms);
}

#[test]
fn ledger_volume_saturates_at_the_top() {
    let mut ledger = ActivityLedger {
        total_buys: 0,
        total_sells: 0,
        total_volume: u64::MAX - 10,
        total_failures: 0,
        started_at_ms: 0,
    };
    ledger.record(TradeAction::Buy, 100, true);
    assert_eq!(ledger.total_volume, u64::MAX);
    assert_eq!(ledger.total_buys, 1);
}
