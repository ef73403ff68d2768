//! The replay-protection handle cache: the single slot a background poller
//! refreshes and every transaction builder reads.
//!
//! The poller owns the writes; readers get the last good value and its age
//! and must refuse values past the staleness ceiling. While fetches fail the
//! slot keeps serving the last good value and the poll interval backs off
//! exponentially up to a cap.

use vstd::prelude::*;

use crate::bytes::clone_bytes;

verus! {

/// The cached handle with its refresh bookkeeping.
pub struct HandleCache {
    /// The last good replay-protection handle.
    pub value: Vec<u8>,
    /// When `value` was fetched, on the caller's clock.
    pub fetched_at_ms: u64,
    /// The healthy poll interval.
    pub poll_interval_ms: u64,
    /// Upper cap for the failure backoff.
    pub max_backoff_ms: u64,
    /// The current pause until the next fetch attempt.
    pub backoff_ms: u64,
}

/// The cache as mathematics.
pub ghost struct HandleModel {
    /// The last good handle's bytes.
    pub value: Seq<u8>,
    /// When it was fetched.
    pub fetched_at_ms: u64,
    /// The healthy poll interval.
    pub poll_interval_ms: u64,
    /// Upper cap for the failure backoff.
    pub max_backoff_ms: u64,
    /// The current pause until the next fetch attempt.
    pub backoff_ms: u64,
}

impl View for HandleCache {
    type V = HandleModel;

    open spec fn view(&self) -> HandleModel {
        HandleModel {
            value: self.value@,
            fetched_at_ms: self.fetched_at_ms,
            poll_interval_ms: self.poll_interval_ms,
            max_backoff_ms: self.max_backoff_ms,
            backoff_ms: self.backoff_ms,
        }
    }
}

/// What a read returns: the handle and its age while the age is within the
/// ceiling, nothing once it is past — the reader must fail closed.
pub open spec fn read_model(h: HandleModel, now_ms: u64, ceiling_ms: u64) -> Option<(Seq<u8>, u64)>
    recommends
        h.fetched_at_ms <= now_ms,
{
    if now_ms - h.fetched_at_ms <= ceiling_ms {
        Some((h.value, (now_ms - h.fetched_at_ms) as u64))
    } else {
        None
    }
}

/// What one failed fetch does: the slot keeps its value, the backoff doubles
/// up to the cap.
pub open spec fn failed_poll_model(h: HandleModel) -> HandleModel {
    HandleModel {
        backoff_ms: if 2 * h.backoff_ms <= h.max_backoff_ms {
            (2 * h.backoff_ms) as u64
        } else {
            h.max_backoff_ms
        },
        ..h
    }
}

/// The cache after `k` consecutive failed fetches.
pub open spec fn failed_polls(h: HandleModel, k: nat) -> HandleModel
    decreases k,
{
    if k == 0 {
        h
    } else {
        failed_poll_model(failed_polls(h, (k - 1) as nat))
    }
}

/// Law: however long the external fetch keeps failing, the slot serves the
/// last good handle — a read returns it, never anything older than the
/// ceiling, while the ceiling is not crossed; once it is crossed the read
/// returns nothing, so transaction building refuses.
pub proof fn law_reads_never_stale(h: HandleModel, now_ms: u64, ceiling_ms: u64, k: nat)
    requires
        h.fetched_at_ms <= now_ms,
    ensures
        failed_polls(h, k).value == h.value,
        failed_polls(h, k).fetched_at_ms == h.fetched_at_ms,
        read_model(failed_polls(h, k), now_ms, ceiling_ms) matches Some(r) ==> r.0 == h.value
            && r.1 <= ceiling_ms,
        now_ms - h.fetched_at_ms <= ceiling_ms ==> read_model(
            failed_polls(h, k),
            now_ms,
            ceiling_ms,
        ) == Some((h.value, (now_ms - h.fetched_at_ms) as u64)),
        now_ms - h.fetched_at_ms > ceiling_ms ==> read_model(
            failed_polls(h, k),
            now_ms,
            ceiling_ms,
        ) is None,
    decreases k,
{
    if k > 0 {
        law_reads_never_stale(h, now_ms, ceiling_ms, (k - 1) as nat);
    }
}

impl HandleCache {
    /// Seed the slot with the initial blocking fetch's result. Without one
    /// good handle the process must not start, so there is no empty state.
    pub fn new(value: Vec<u8>, now_ms: u64, poll_interval_ms: u64, max_backoff_ms: u64) -> (h:
        HandleCache)
        requires
            poll_interval_ms <= max_backoff_ms,
        ensures
            h@ == (HandleModel {
                value: value@,
                fetched_at_ms: now_ms,
                poll_interval_ms,
                max_backoff_ms,
                backoff_ms: poll_interval_ms,
            }),
    {
        HandleCache {
            value,
            fetched_at_ms: now_ms,
            poll_interval_ms,
            max_backoff_ms,
            backoff_ms: poll_interval_ms,
        }
    }

    /// Store a freshly fetched handle: the slot is replaced atomically from
    /// the reader's point of view, and the backoff resets to the healthy
    /// interval.
    pub fn store_success(&mut self, value: Vec<u8>, now_ms: u64)
        ensures
            final(self)@ == (HandleModel {
                value: value@,
                fetched_at_ms: now_ms,
                backoff_ms: old(self).poll_interval_ms,
                ..old(self)@
            }),
    {
        self.value = value;
        self.fetched_at_ms = now_ms;
        self.backoff_ms = self.poll_interval_ms;
    }

    /// Note a failed fetch: the last good value stays, the backoff doubles
    /// up to the cap.
    pub fn record_failure(&mut self)
        ensures
            final(self)@ == failed_poll_model(old(self)@),
    {
        self.backoff_ms = if self.backoff_ms <= self.max_backoff_ms / 2 {
            2 * self.backoff_ms
        } else {
            self.max_backoff_ms
        };
    }

    /// How long the poller should sleep before its next attempt.
    pub fn next_poll_ms(&self) -> (d: u64)
        ensures
            d == self@.backoff_ms,
    {
        self.backoff_ms
    }

    /// Non-blocking read: the current handle and its age, or nothing when
    /// the age is past the ceiling, in which case the caller must refuse to
    /// build a transaction.
    pub fn read(&self, now_ms: u64, ceiling_ms: u64) -> (r: Option<(Vec<u8>, u64)>)
        requires
            self.fetched_at_ms <= now_ms,
        ensures
            r matches Some(v) ==> read_model(self@, now_ms, ceiling_ms) == Some((v.0@, v.1)),
            r is None ==> read_model(self@, now_ms, ceiling_ms) is None,
    {
        let age = now_ms - self.fetched_at_ms;
        if age <= ceiling_ms {
            Some((clone_bytes(&self.value), age))
        } else {
            None
        }
    }
}

} // verus!
