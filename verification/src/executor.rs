//! The trade executor's decision half: turn a `TradeDecision` into a
//! concrete, checked plan — which token account the fill lands in, whether
//! that account must be created first, and which replay-protection handle
//! the transaction carries.
//!
//! Building refuses outright when the cached handle is past the staleness
//! ceiling (fail closed). Signing, submitting and awaiting confirmation are
//! the process's side; it reports the outcome back to the scheduler, which
//! never retries within a cycle.

use vstd::prelude::*;

use crate::account_cache::{has_key, AccountExistenceCache};
use crate::chain::{ata_of, derive_associated_token_address};
use crate::decide::{TradeAction, TradeDecision};
use crate::handle_cache::{read_model, HandleCache};

verus! {

/// Why an attempted trade produced no confirmed fill.
#[derive(Clone, Copy, Debug, PartialEq, Eq, Structural)]
pub enum TradeFailure {
    /// The cached replay-protection handle was past the staleness ceiling;
    /// the transaction was never built.
    StaleHandle,
    /// The ledger service rejected or dropped the submission.
    SubmitFailed,
    /// The submission went out but was not confirmed in time.
    ConfirmTimeout,
}

/// Everything the signing and submitting side needs for one trade.
pub struct TradePlan {
    /// Index of the acting wallet.
    pub wallet_index: usize,
    /// Buy or sell.
    pub action: TradeAction,
    /// Input amount, in the spent token's smallest unit.
    pub amount_in: u64,
    /// Smallest acceptable output; zero by policy.
    pub min_amount_out: u64,
    /// The wallet's associated account for the traded token.
    pub token_account: Vec<u8>,
    /// Whether a creation instruction for that account must precede the
    /// swap in the same transaction.
    pub create_token_account: bool,
    /// The replay-protection handle to attach.
    pub handle: Vec<u8>,
}

/// Build the plan for one decision, or refuse.
///
/// Succeeds exactly when the cached handle is still within the ceiling; the
/// plan then carries the decision unchanged, the wallet's derived token
/// account, a creation flag that is set exactly when the existence cache
/// does not know the account, and the cached handle.
pub fn build_trade_plan(
    decision: &TradeDecision,
    wallet_address: &Vec<u8>,
    mint: &Vec<u8>,
    handles: &HandleCache,
    accounts: &AccountExistenceCache,
    now_ms: u64,
    ceiling_ms: u64,
) -> (r: Result<TradePlan, TradeFailure>)
    requires
        wallet_address@.len() == 32,
        mint@.len() == 32,
        handles.fetched_at_ms <= now_ms,
    ensures
        r is Ok <==> now_ms - handles.fetched_at_ms <= ceiling_ms,
        r matches Ok(p) ==> {
            &&& p.wallet_index == decision.wallet_index
            &&& p.action == decision.action
            &&& p.amount_in == decision.amount
            &&& p.min_amount_out == decision.min_output
            &&& p.token_account@ == ata_of(wallet_address@, mint@)
            &&& p.create_token_account == !has_key(accounts@, ata_of(wallet_address@, mint@))
            &&& p.handle@ == handles@.value
            &&& read_model(handles@, now_ms, ceiling_ms) == Some((p.handle@, (now_ms
                - handles.fetched_at_ms) as u64))
        },
        r matches Err(e) ==> e is StaleHandle,
{
    match handles.read(now_ms, ceiling_ms) {
        Some(h) => {
            let token_account = derive_associated_token_address(wallet_address, mint);
            let create_token_account = !accounts.contains(&token_account);
            Ok(
                TradePlan {
                    wallet_index: decision.wallet_index,
                    action: decision.action,
                    amount_in: decision.amount,
                    min_amount_out: decision.min_output,
                    token_account,
                    create_token_account,
                    handle: h.0,
                },
            )
        },
        None => Err(TradeFailure::StaleHandle),
    }
}

} // verus!
