//! The wallet pool: an ordered collection of wallets, a rotation cursor and
//! the rotation bookkeeping.
//!
//! The cursor stays on one wallet until that wallet has executed the
//! configured number of trades, then moves to the next index. Selection
//! starts at the cursor and skips wallets that cannot fund a trade or are
//! cooling down after repeated failures.

use vstd::prelude::*;

use vstd::arithmetic::div_mod::{lemma_mod_multiples_vanish, lemma_small_mod};

use crate::config::SchedulerConfig;
use crate::wallet::WalletHandle;

verus! {

/// The pool the scheduler owns.
#[derive(Debug)]
pub struct WalletPool {
    /// The wallets, in loading order.
    pub wallets: Vec<WalletHandle>,
    /// Index of the wallet currently holding the rotation.
    pub cursor: usize,
    /// Rotation events since the pool was built; never decreases.
    pub rotation_count: u64,
}

/// The pool as mathematics: what the contracts and laws speak of.
pub ghost struct PoolModel {
    /// The wallets, in loading order.
    pub wallets: Seq<WalletHandle>,
    /// Index of the wallet currently holding the rotation.
    pub cursor: int,
    /// Rotation events since the pool was built.
    pub rotation_count: u64,
}

/// Clamp a nonnegative mathematical integer into `u64`.
pub open spec fn cap_u64(x: int) -> u64 {
    if x > u64::MAX {
        u64::MAX as u64
    } else {
        x as u64
    }
}

/// Clamp a nonnegative mathematical integer into `u32`.
pub open spec fn cap_u32(x: int) -> u32 {
    if x > u32::MAX {
        u32::MAX as u32
    } else {
        x as u32
    }
}

/// Length of the cooldown a wallet earns at a given escalation level:
/// the configured base, doubled once per level already served, capped so it
/// always fits the clock.
pub open spec fn cooldown_len(cfg: SchedulerConfig, level: u32) -> u64
    decreases level,
{
    if level == 0 {
        cfg.cooldown_base_ms
    } else {
        cap_u64(2 * cooldown_len(cfg, (level - 1) as u32))
    }
}

/// The first selectable wallet at or after `cursor + off` in cyclic order,
/// or `None` when a whole turn finds none.
pub open spec fn first_selectable_from(
    s: Seq<WalletHandle>,
    cfg: SchedulerConfig,
    now_ms: u64,
    cursor: int,
    off: nat,
) -> Option<int>
    decreases s.len() - off,
{
    if off >= s.len() {
        None
    } else {
        let i = (cursor + off) % (s.len() as int);
        if s[i].selectable(cfg, now_ms) {
            Some(i)
        } else {
            first_selectable_from(s, cfg, now_ms, cursor, off + 1)
        }
    }
}

/// The wallet the pool offers for the next trade.
pub open spec fn selected_wallet(pool: WalletPool, cfg: SchedulerConfig, now_ms: u64) -> Option<
    int,
> {
    first_selectable_from(pool.wallets@, cfg, now_ms, pool.cursor as int, 0)
}

impl View for WalletPool {
    type V = PoolModel;

    open spec fn view(&self) -> PoolModel {
        PoolModel {
            wallets: self.wallets@,
            cursor: self.cursor as int,
            rotation_count: self.rotation_count,
        }
    }
}

/// Whatever wallet the selection returns is selectable, and its index is in
/// range.
pub proof fn lemma_selected_is_selectable(
    s: Seq<WalletHandle>,
    cfg: SchedulerConfig,
    now_ms: u64,
    cursor: int,
    off: nat,
)
    requires
        0 <= cursor,
    ensures
        first_selectable_from(s, cfg, now_ms, cursor, off) matches Some(i) ==> 0 <= i
            < s.len() && s[i].selectable(cfg, now_ms),
    decreases s.len() - off,
{
    if off < s.len() {
        let i = (cursor + off) % (s.len() as int);
        if s[i].selectable(cfg, now_ms) {
            vstd::arithmetic::div_mod::lemma_mod_bound(cursor + off, s.len() as int);
        } else {
            lemma_selected_is_selectable(s, cfg, now_ms, cursor, off + 1);
        }
    }
}

/// If the wallet at cyclic offset `j` is selectable, a scan that starts at
/// or before `j` finds some wallet.
pub proof fn lemma_selectable_is_found(
    s: Seq<WalletHandle>,
    cfg: SchedulerConfig,
    now_ms: u64,
    cursor: int,
    off: nat,
    j: nat,
)
    requires
        0 <= cursor < s.len(),
        off <= j < s.len(),
        s[(cursor + j) % (s.len() as int)].selectable(cfg, now_ms),
    ensures
        first_selectable_from(s, cfg, now_ms, cursor, off) is Some,
    decreases j - off,
{
    if off < j && !s[(cursor + off) % (s.len() as int)].selectable(cfg, now_ms) {
        lemma_selectable_is_found(s, cfg, now_ms, cursor, off + 1, j);
    }
}

/// Law: the scheduler backs off only when no wallet in the pool can trade.
/// As long as one wallet is funded beyond the fee reserve and off cooldown,
/// selection returns a wallet.
pub proof fn law_backoff_only_when_no_wallet_selectable(
    pool: WalletPool,
    cfg: SchedulerConfig,
    now_ms: u64,
    i: int,
)
    requires
        pool.wf(),
        0 <= i < pool.wallets.len(),
        pool.wallets[i].selectable(cfg, now_ms),
    ensures
        selected_wallet(pool, cfg, now_ms) is Some,
{
    let s = pool.wallets@;
    let len = s.len() as int;
    let cursor = pool.cursor as int;
    let j = if i >= cursor {
        i - cursor
    } else {
        i + len - cursor
    };
    assert((cursor + j) % len == i) by {
        if i >= cursor {
            lemma_small_mod(i as nat, len as nat);
        } else {
            lemma_mod_multiples_vanish(1, i, len);
            lemma_small_mod(i as nat, len as nat);
        }
    }
    lemma_selectable_is_found(s, cfg, now_ms, cursor, 0, j as nat);
}

/// A wallet whose funding balance does not exceed the fee reserve is never
/// the selection's answer: it cannot afford any trade.
pub proof fn law_fee_reserve_wallet_never_selected(
    pool: WalletPool,
    cfg: SchedulerConfig,
    now_ms: u64,
    j: int,
)
    requires
        0 <= j < pool.wallets.len(),
        pool.wallets[j].funding_balance <= cfg.fee_reserve,
    ensures
        selected_wallet(pool, cfg, now_ms) != Some(j),
{
    lemma_selected_is_selectable(pool.wallets@, cfg, now_ms, pool.cursor as int, 0);
}

impl WalletPool {
    /// The pool's structural invariant: the cursor points at a wallet.
    pub open spec fn wf(self) -> bool {
        &&& self.wallets.len() > 0
        &&& self.cursor < self.wallets.len()
    }

    /// Rotation counters never reach the granularity between trades; a trade
    /// that reaches it rotates and resets the counter.
    pub open spec fn counters_bounded(self, cfg: SchedulerConfig) -> bool {
        forall|i: int|
            0 <= i < self.wallets.len() ==> (#[trigger] self.wallets[i]).trades_since_rotation
                < cfg.rotation_granularity
    }

    /// Build a pool over freshly loaded wallets, cursor on the first.
    pub fn new(wallets: Vec<WalletHandle>) -> (pool: WalletPool)
        requires
            wallets.len() > 0,
        ensures
            pool.wallets == wallets,
            pool.cursor == 0,
            pool.rotation_count == 0,
            pool.wf(),
    {
        WalletPool { wallets, cursor: 0, rotation_count: 0 }
    }

    /// Build a pool over the configured active subset of the loaded wallets:
    /// the first `cfg.active_subset` of them, or all when fewer were loaded.
    /// Wallets past the subset take no part in rotation.
    pub fn with_active_subset(wallets: &Vec<WalletHandle>, cfg: &SchedulerConfig) -> (pool:
        WalletPool)
        requires
            wallets.len() > 0,
            cfg.wf(),
        ensures
            pool.wallets@ == wallets@.take(if cfg.active_subset < wallets.len() {
                cfg.active_subset as int
            } else {
                wallets.len() as int
            }),
            pool.cursor == 0,
            pool.rotation_count == 0,
            pool.wf(),
    {
        let len = wallets.len();
        let take: usize = if (cfg.active_subset as usize) < len {
            cfg.active_subset as usize
        } else {
            len
        };
        let mut active: Vec<WalletHandle> = Vec::new();
        let mut j: usize = 0;
        while j < take
            invariant
                j <= take,
                take <= wallets.len(),
                active@ == wallets@.take(j as int),
            decreases take - j,
        {
            active.push(wallets[j]);
            proof {
                assert(wallets@.take(j + 1 as int) =~= wallets@.take(j as int).push(
                    wallets@[j as int],
                ));
            }
            j = j + 1;
        }
        WalletPool { wallets: active, cursor: 0, rotation_count: 0 }
    }

    /// Find the wallet for the next trade: the cursor's wallet, or failing
    /// that the next selectable one in cyclic order. `None` means no wallet
    /// in the pool can afford a trade right now and the cycle must back off.
    pub fn select_wallet(&self, cfg: &SchedulerConfig, now_ms: u64) -> (r: Option<usize>)
        requires
            self.wf(),
        ensures
            r matches Some(i) ==> selected_wallet(*self, *cfg, now_ms) == Some(i as int) && i
                < self.wallets.len() && self.wallets[i as int].selectable(*cfg, now_ms),
            r is None ==> selected_wallet(*self, *cfg, now_ms) is None,
    {
        let len = self.wallets.len();
        let ghost s = self.wallets@;
        let ghost c = self.cursor as int;
        let mut off: usize = 0;
        while off < len
            invariant
                len == s.len(),
                0 < len,
                self.wallets@ == s,
                self.cursor < len,
                c == self.cursor as int,
                off <= len,
                first_selectable_from(s, *cfg, now_ms, c, 0) == first_selectable_from(
                    s,
                    *cfg,
                    now_ms,
                    c,
                    off as nat,
                ),
            decreases len - off,
        {
            let i = cyclic_index(self.cursor, off, len);
            if self.wallets[i].is_selectable(cfg, now_ms) {
                proof {
                    lemma_selected_is_selectable(s, *cfg, now_ms, c, 0);
                }
                return Some(i);
            }
            off = off + 1;
        }
        None
    }

    /// Record the balances the ledger reports for wallet `i` after a
    /// confirmed fill. Only that wallet's balances change; every counter and
    /// the rotation state stay as they were.
    pub fn apply_fill(&mut self, i: usize, funding_balance: u64, held_balance: u64)
        requires
            old(self).wf(),
            i < old(self).wallets.len(),
        ensures
            final(self).wallets@ == old(self).wallets@.update(
                i as int,
                WalletHandle { funding_balance, held_balance, ..old(self).wallets[i as int] },
            ),
            final(self).cursor == old(self).cursor,
            final(self).rotation_count == old(self).rotation_count,
            final(self).wf(),
            forall|cfg: SchedulerConfig|
                old(self).counters_bounded(cfg) ==> final(self).counters_bounded(cfg),
    {
        let w = self.wallets[i];
        self.wallets.set(
            i,
            WalletHandle { funding_balance, held_balance, ..w },
        );
    }

    /// Book one executed trade (successful or not) for wallet `i`: advance
    /// the rotation counter, rotate the cursor when the counter reaches the
    /// granularity, and keep the failure/cooldown state.
    pub fn record_outcome(
        &mut self,
        cfg: &SchedulerConfig,
        i: usize,
        success: bool,
        now_ms: u64,
    )
        requires
            old(self).wf(),
            old(self).counters_bounded(*cfg),
            cfg.wf(),
            i < old(self).wallets.len(),
        ensures
            final(self)@ == record_model(old(self)@, *cfg, i as int, success, now_ms),
            final(self).wf(),
            final(self).counters_bounded(*cfg),
            final(self).rotation_count >= old(self).rotation_count,
    {
        let len = self.wallets.len();
        let w = self.wallets[i];
        let next_count = w.trades_since_rotation + 1;
        let rotated = next_count >= cfg.rotation_granularity;
        let consecutive_failures = if success {
            0
        } else if w.consecutive_failures < u32::MAX {
            w.consecutive_failures + 1
        } else {
            u32::MAX
        };
        let hit = !success && consecutive_failures >= cfg.failure_threshold;
        let cooldown_until_ms = if hit {
            let d = cooldown_duration(cfg, w.cooldown_level);
            if now_ms <= u64::MAX - d {
                now_ms + d
            } else {
                u64::MAX
            }
        } else if success {
            0
        } else {
            w.cooldown_until_ms
        };
        let cooldown_level = if hit {
            if w.cooldown_level < u32::MAX {
                w.cooldown_level + 1
            } else {
                u32::MAX
            }
        } else if success {
            0
        } else {
            w.cooldown_level
        };
        let updated = WalletHandle {
            trades_since_rotation: if rotated {
                0
            } else {
                next_count
            },
            consecutive_failures,
            cooldown_until_ms,
            cooldown_level,
            ..w
        };
        self.wallets.set(i, updated);
        if rotated {
            self.cursor = if i + 1 < len {
                i + 1
            } else {
                0
            };
            proof {
                if i + 1 < len {
                    lemma_small_mod((i + 1) as nat, len as nat);
                } else {
                    lemma_mod_multiples_vanish(1, 0, len as int);
                    lemma_small_mod(0nat, len as nat);
                }
            }
            self.rotation_count = if self.rotation_count < u64::MAX {
                self.rotation_count + 1
            } else {
                u64::MAX
            };
        } else {
            self.cursor = i;
        }
    }
}

/// `(cursor + off) % len` without the intermediate sum ever overflowing.
fn cyclic_index(cursor: usize, off: usize, len: usize) -> (i: usize)
    requires
        cursor < len,
        off < len,
    ensures
        i == (cursor + off) % (len as int),
        i < len,
{
    let i = if off < len - cursor {
        cursor + off
    } else {
        off - (len - cursor)
    };
    proof {
        let c = cursor as int;
        let o = off as int;
        let l = len as int;
        if c + o < l {
            lemma_small_mod((c + o) as nat, l as nat);
        } else {
            lemma_mod_multiples_vanish(1, c + o - l, l);
            lemma_small_mod((c + o - l) as nat, l as nat);
        }
    }
    i
}

/// What the acting wallet looks like after one booked trade.
pub open spec fn booked_wallet(
    w: WalletHandle,
    cfg: SchedulerConfig,
    success: bool,
    now_ms: u64,
) -> WalletHandle {
    let rotated = w.trades_since_rotation + 1 >= cfg.rotation_granularity;
    let consecutive_failures = if success {
        0u32
    } else {
        cap_u32(w.consecutive_failures + 1)
    };
    let hit = !success && consecutive_failures >= cfg.failure_threshold;
    WalletHandle {
        funding_balance: w.funding_balance,
        held_balance: w.held_balance,
        trades_since_rotation: if rotated {
            0u32
        } else {
            cap_u32(w.trades_since_rotation + 1)
        },
        consecutive_failures,
        cooldown_until_ms: if hit {
            cap_u64(now_ms + cooldown_len(cfg, w.cooldown_level))
        } else if success {
            0u64
        } else {
            w.cooldown_until_ms
        },
        cooldown_level: if hit {
            cap_u32(w.cooldown_level + 1)
        } else if success {
            0u32
        } else {
            w.cooldown_level
        },
    }
}

/// What booking one trade does to the pool, as a mathematical function:
/// the acting wallet's counters advance, and when its rotation counter
/// reaches the granularity the cursor moves one step and the rotation count
/// grows by one.
pub open spec fn record_model(
    pool: PoolModel,
    cfg: SchedulerConfig,
    i: int,
    success: bool,
    now_ms: u64,
) -> PoolModel
    recommends
        0 <= i < pool.wallets.len(),
        pool.wallets[i].trades_since_rotation < cfg.rotation_granularity,
{
    let w = pool.wallets[i];
    let rotated = w.trades_since_rotation + 1 >= cfg.rotation_granularity;
    PoolModel {
        wallets: pool.wallets.update(i, booked_wallet(w, cfg, success, now_ms)),
        cursor: if rotated {
            (i + 1) % pool.wallets.len() as int
        } else {
            i
        },
        rotation_count: if rotated {
            cap_u64(pool.rotation_count + 1)
        } else {
            pool.rotation_count
        },
    }
}

/// The pool after wallet `i` has executed `k` successful trades in a row,
/// booked one by one.
pub open spec fn repeat_trades(
    pool: PoolModel,
    cfg: SchedulerConfig,
    i: int,
    now_ms: u64,
    k: nat,
) -> PoolModel
    decreases k,
{
    if k == 0 {
        pool
    } else {
        record_model(repeat_trades(pool, cfg, i, now_ms, (k - 1) as nat), cfg, i, true, now_ms)
    }
}

/// Law: between two rotation events a wallet executes exactly the configured
/// rotation granularity of trades. Starting right after a rotation (its
/// counter at zero), the first `granularity - 1` trades move neither the
/// cursor nor the rotation count; the trade that reaches the granularity
/// rotates: the counter returns to zero, the cursor steps to the next
/// wallet, and the rotation count grows by exactly one.
pub proof fn law_rotation_granularity(
    pool: PoolModel,
    cfg: SchedulerConfig,
    i: int,
    now_ms: u64,
    k: nat,
)
    requires
        cfg.wf(),
        0 <= i < pool.wallets.len(),
        pool.wallets[i].trades_since_rotation == 0,
        pool.rotation_count < u64::MAX,
        k <= cfg.rotation_granularity,
    ensures
        repeat_trades(pool, cfg, i, now_ms, k).wallets.len() == pool.wallets.len(),
        k < cfg.rotation_granularity ==> repeat_trades(pool, cfg, i, now_ms, k).rotation_count
            == pool.rotation_count && repeat_trades(
            pool,
            cfg,
            i,
            now_ms,
            k,
        ).wallets[i].trades_since_rotation == k,
        1 <= k < cfg.rotation_granularity ==> repeat_trades(pool, cfg, i, now_ms, k).cursor == i,
        k == cfg.rotation_granularity ==> repeat_trades(pool, cfg, i, now_ms, k).rotation_count
            == pool.rotation_count + 1 && repeat_trades(
            pool,
            cfg,
            i,
            now_ms,
            k,
        ).wallets[i].trades_since_rotation == 0 && repeat_trades(pool, cfg, i, now_ms, k).cursor
            == (i + 1) % pool.wallets.len() as int,
    decreases k,
{
    if k > 0 {
        law_rotation_granularity(pool, cfg, i, now_ms, (k - 1) as nat);
    }
}

/// Law: a failed trade does not stop the scheduler. Booking the failure
/// leaves the pool structurally sound — same size, cursor still in range,
/// all rotation counters still below the granularity — so the next cycle can
/// select and trade again; and the delay drawn for the next cycle lies in
/// the configured band no matter how the failed cycle ended.
pub proof fn law_failure_cycle_continues(
    pool: PoolModel,
    cfg: SchedulerConfig,
    i: int,
    now_ms: u64,
    delay_draw: u64,
)
    requires
        cfg.wf(),
        cfg.delay_max_ms < u64::MAX,
        0 <= i < pool.wallets.len(),
        0 <= pool.cursor < pool.wallets.len(),
        forall|j: int|
            0 <= j < pool.wallets.len() ==> (#[trigger] pool.wallets[j]).trades_since_rotation
                < cfg.rotation_granularity,
    ensures
        ({
            let after = record_model(pool, cfg, i, false, now_ms);
            &&& after.wallets.len() == pool.wallets.len()
            &&& 0 <= after.cursor < after.wallets.len()
            &&& forall|j: int|
                0 <= j < after.wallets.len() ==> (
                #[trigger] after.wallets[j]).trades_since_rotation < cfg.rotation_granularity
            &&& after.rotation_count >= pool.rotation_count
        }),
        cfg.delay_min_ms <= crate::decide::delay_of_draw(delay_draw, cfg) <= cfg.delay_max_ms,
{
    let len = pool.wallets.len() as int;
    let w = pool.wallets[i];
    if w.trades_since_rotation + 1 >= cfg.rotation_granularity {
        vstd::arithmetic::div_mod::lemma_mod_bound(i + 1, len);
    }
    vstd::arithmetic::div_mod::lemma_mod_bound(
        delay_draw as int,
        cfg.delay_max_ms - cfg.delay_min_ms + 1,
    );
}

/// Runtime form of `cooldown_len`.
fn cooldown_duration(cfg: &SchedulerConfig, level: u32) -> (d: u64)
    ensures
        d == cooldown_len(*cfg, level),
{
    let mut d = cfg.cooldown_base_ms;
    let mut k: u32 = 0;
    while k < level
        invariant
            k <= level,
            d == cooldown_len(*cfg, k),
        decreases level - k,
    {
        d = if d <= u64::MAX / 2 {
            2 * d
        } else {
            u64::MAX
        };
        k = k + 1;
    }
    d
}

} // verus!
