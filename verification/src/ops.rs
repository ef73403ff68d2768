//! The decision cores of the funding utilities: how a token account is
//! treated when sweeping a wallet, how much a collection or distribution
//! moves, and which stored keys are worth loading. The surrounding I/O —
//! reading accounts, sending transactions — stays outside the library and
//! feeds these functions plain values.

use vstd::prelude::*;

use crate::bytes::bytes_eq;
use crate::chain::{token_account_bytes_valid, u64_le, unpack_token_account};

verus! {

/// Lamports left behind in a drained wallet so the account stays rent-paid.
pub const RENT_RESERVE: u64 = 5000;

/// How a sweep treats one token account.
#[derive(Clone, Copy, Debug, PartialEq, Eq, Structural)]
pub enum AccountKind {
    /// A wrapped-native account still holding a balance: it must be
    /// unwrapped (closed to recover the native token) before, or instead
    /// of, a plain close.
    WrappedWithBalance,
    /// Any other readable token account: close it directly.
    Plain,
    /// Not a readable token account; leave it alone.
    Unreadable,
}

/// A readable account is "wrapped with balance" exactly when its mint is
/// the native mint and it holds a nonzero amount.
pub open spec fn wrapped_with_balance(mint: Seq<u8>, amount: u64, native_mint: Seq<u8>) -> bool {
    mint == native_mint && amount > 0
}

/// Decide how to treat a parsed token account.
pub fn classify_parsed(mint: &Vec<u8>, amount: u64, native_mint: &Vec<u8>) -> (r: AccountKind)
    ensures
        r == (if wrapped_with_balance(mint@, amount, native_mint@) {
            AccountKind::WrappedWithBalance
        } else {
            AccountKind::Plain
        }),
{
    if bytes_eq(mint, native_mint) && amount > 0 {
        AccountKind::WrappedWithBalance
    } else {
        AccountKind::Plain
    }
}

/// Decide how to treat a raw token account as fetched from the ledger.
///
/// The packed form is trusted only for its byte layout (see `chain`); the
/// classification is pinned to the bytes in both directions: unreadable
/// exactly when the bytes are not a parseable token account, and otherwise
/// by the mint and amount the bytes hold.
pub fn classify_token_account(data: &Vec<u8>, native_mint: &Vec<u8>) -> (r: AccountKind)
    ensures
        r is Unreadable <==> !token_account_bytes_valid(data@),
        r is WrappedWithBalance <==> token_account_bytes_valid(data@) && data@.subrange(0, 32)
            == native_mint@ && u64_le(data@.subrange(64, 72)) > 0,
        r is Plain <==> token_account_bytes_valid(data@) && !(data@.subrange(0, 32)
            == native_mint@ && u64_le(data@.subrange(64, 72)) > 0),
{
    match unpack_token_account(data) {
        Some(parsed) => classify_parsed(&parsed.0, parsed.1, native_mint),
        None => AccountKind::Unreadable,
    }
}

/// How much a drained wallet sends back to the main wallet: everything
/// above the rent reserve, or nothing when the balance cannot clear it.
pub fn collect_amount(balance: u64) -> (r: Option<u64>)
    ensures
        balance > RENT_RESERVE ==> r == Some((balance - RENT_RESERVE) as u64),
        balance <= RENT_RESERVE ==> r is None,
{
    if balance > RENT_RESERVE {
        Some(balance - RENT_RESERVE)
    } else {
        None
    }
}

/// How much each of `n` wallets receives when the main wallet's balance is
/// spread, after holding back the fee reserve; nothing to spread when the
/// balance cannot clear the reserve or there is no wallet.
pub fn distribution_per_wallet(balance: u64, fee_reserve: u64, n: usize) -> (r: Option<u64>)
    ensures
        n > 0 && balance > fee_reserve ==> r == Some(
            ((balance - fee_reserve) as int / n as int) as u64,
        ),
        n == 0 || balance <= fee_reserve ==> r is None,
{
    if n > 0 && balance > fee_reserve {
        Some((balance - fee_reserve) / (n as u64))
    } else {
        None
    }
}

/// The share of a freshly funded wallet that is wrapped for trading:
/// three quarters, the rest kept native for fees.
pub fn wrap_portion(amount: u64) -> (r: u64)
    ensures
        r == amount as int * 3 / 4,
        r <= amount,
{
    let wide: u128 = (amount as u128) * 3 / 4;
    proof {
        assert(amount as int * 3 / 4 <= amount as int) by (nonlinear_arith);
    }
    wide as u64
}

/// A stored wallet key is worth decoding only when it is long enough to be
/// a full encoded keypair.
pub fn wallet_key_usable(key: &str) -> (r: bool)
    ensures
        r == (key@.len() >= 85),
{
    key.unicode_len() >= 85
}

} // verus!
