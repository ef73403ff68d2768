use stealth_maker::account_cache::AccountExistenceCache;
use stealth_maker::decide::{TradeAction, TradeDecision};
use stealth_maker::executor::{build_trade_plan, TradeFailure};
use stealth_maker::handle_cache::HandleCache;

#[test]
fn handle_read_serves_fresh_value_with_age() {
    let cache = HandleCache::new(vec![1, 2, 3], 1000, 400, 30_000);
    let (value, age) = cache.read(1500, 60_000).expect("fresh handle");
    assert_eq!(value, vec![1, 2, 3]);
    assert_eq!(age, 500);
}

#[test]
fn handle_read_refuses_past_ceiling() {
    let cache = HandleCache::new(vec![1, 2, 3], 1000, 400, 30_000);
    assert!(cache.read(1000 + 60_000, 60_000).is_some());
    assert!(cache.read(1000 + 60_001, 60_000).is_none());
}

#[test]
fn failed_fetches_keep_last_good_value_and_back_off() {
    let mut cache = HandleCache::new(vec![9, 9], 0, 400, 3000);
    for _ in 0..8 {
        cache.record_failure();
        let (value, _age) = cache.read(100, 60_000).expect("last good value");
        assert_eq!(value, vec![9, 9]);
    }
    // 400 -> 800 -> 1600 -> 3000, capped there.
    assert_eq!(cache.next_poll_ms(), 3000);
    // Until the ceiling is crossed the stale-but-usable value is served...
    assert!(cache.read(60_000, 60_000).is_some());
    // ...and past it the read refuses.
    assert!(cache.read(60_001, 60_000).is_none());
}

#[test]
fn successful_fetch_resets_backoff_and_timestamp() {
    let mut cache = HandleCache::new(vec![1], 0, 400, 3000);
    cache.record_failure();
    cache.record_failure();
    assert_eq!(cache.next_poll_ms(), 1600);
    cache.store_success(vec![4, 5], 70_000);
    assert_eq!(cache.next_poll_ms(), 400);
    let (value, age) = cache.read(70_100, 60_000).expect("fresh again");
    assert_eq!(value, vec![4, 5]);
    assert_eq!(age, 100);
}

#[test]
fn account_cache_insert_then_lookup_is_present() {
    let mut cache = AccountExistenceCache::new();
    let key = vec![7u8; 32];
    assert!(!cache.contains(&key));
    cache.insert(key.clone(), 1000);
    assert!(cache.contains(&key));
    assert_eq!(cache.len(), 1);
    // Re-inserting the same handle does not duplicate it.
    cache.insert(key.clone(), 2000);
    assert_eq!(cache.len(), 1);
}

#[test]
fn account_cache_evicts_only_past_ttl() {
    let mut cache = AccountExistenceCache::new();
    let old_key = vec![1u8; 32];
    let young_key = vec![2u8; 32];
    cache.insert(old_key.clone(), 1000);
    cache.insert(young_key.clone(), 5000);
    // At 6000 with a TTL of 3000, the entry from 1000 is past its TTL, the
    // one from 5000 is not.
    cache.evict_expired(6000, 3000);
    assert!(!cache.contains(&old_key));
    assert!(cache.contains(&young_key));
    assert_eq!(cache.len(), 1);
    // An entry exactly at its TTL edge is kept, never evicted early.
    cache.evict_expired(8000, 3000);
    assert!(cache.contains(&young_key));
}

fn decision() -> TradeDecision {
    TradeDecision {
        wallet_index: 0,
        action: TradeAction::Buy,
        amount: 42_000,
        min_output: 0,
    }
}

#[test]
fn stale_handle_refuses_trade_plan() {
    let handles = HandleCache::new(vec![8; 32], 0, 400, 3000);
    let accounts = AccountExistenceCache::new();
    let wallet = vec![3u8; 32];
    let mint = vec![4u8; 32];
    let r = build_trade_plan(&decision(), &wallet, &mint, &handles, &accounts, 90_000, 60_000);
    assert_eq!(r.err(), Some(TradeFailure::StaleHandle));
}

#[test]
fn fresh_handle_builds_plan_and_creation_flag_follows_cache() {
    let handles = HandleCache::new(vec![8; 32], 0, 400, 3000);
    let mut accounts = AccountExistenceCache::new();
    let wallet = vec![3u8; 32];
    let mint = vec![4u8; 32];
    let plan = build_trade_plan(&decision(), &wallet, &mint, &handles, &accounts, 30_000, 60_000)
        .ok()
        .expect("handle is fresh");
    assert_eq!(plan.wallet_index, 0);
    assert_eq!(plan.action, TradeAction::Buy);
    assert_eq!(plan.amount_in, 42_000);
    assert_eq!(plan.min_amount_out, 0);
    assert_eq!(plan.handle, vec![8; 32]);
    assert_eq!(plan.token_account.len(), 32);
    // The account is unknown, so the plan carries a creation instruction.
    assert!(plan.create_token_account);
    // Once its creation is confirmed, later plans stop creating it.
    accounts.insert(plan.token_account.clone(), 30_000);
    let next = build_trade_plan(&decision(), &wallet, &mint, &handles, &accounts, 31_000, 60_000)
        .ok()
        .expect("handle is fresh");
    assert!(!next.create_token_account);
    assert_eq!(next.token_account, plan.token_account);
}
