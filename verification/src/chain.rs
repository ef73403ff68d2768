//! The library's only window onto the ledger SDK: three small wrappers whose
//! contracts Verus takes on trust, each backed by one function or constant
//! of the token crates. Everything around them is verified against these
//! contracts.

use vstd::prelude::*;

verus! {

/// The little-endian integer held in an 8-byte string.
pub open spec fn u64_le(s: Seq<u8>) -> int
    recommends
        s.len() == 8,
{
    s[0] + 0x100 * s[1] + 0x1_0000 * s[2] + 0x100_0000 * s[3] + 0x1_0000_0000 * s[4]
        + 0x100_0000_0000 * s[5] + 0x1_0000_0000_0000 * s[6] + 0x100_0000_0000_0000 * s[7]
}

/// The associated-token-account address derived from a wallet address and a
/// mint address. The derivation is a program-derived-address search over a
/// hash, a pure function of its two arguments; its value is named here and
/// never restated.
pub uninterp spec fn ata_of(wallet: Seq<u8>, mint: Seq<u8>) -> Seq<u8>;

/// Relies on `spl_associated_token_account::get_associated_token_address`:
/// the derivation depends on the two addresses alone and yields a 32-byte
/// address. The underlying program-derived-address search is documented to
/// fail only for seed sets with no valid bump, which cannot occur here in
/// practice; this wrapper relies on it returning.
#[verifier::external_body]
pub(crate) fn derive_associated_token_address(wallet: &Vec<u8>, mint: &Vec<u8>) -> (r: Vec<u8>)
    requires
        wallet@.len() == 32,
        mint@.len() == 32,
    ensures
        r@ == ata_of(wallet@, mint@),
        r@.len() == 32,
{
    let w = spl_token::solana_program::pubkey::Pubkey::new_from_array(
        wallet.as_slice().try_into().unwrap(),
    );
    let m = spl_token::solana_program::pubkey::Pubkey::new_from_array(
        mint.as_slice().try_into().unwrap(),
    );
    spl_associated_token_account::get_associated_token_address(&w, &m).to_bytes().to_vec()
}

/// A packed optional field's 4-byte tag: a single 0 (absent) or 1 (present)
/// followed by zeros; anything else is rejected by the parser.
pub open spec fn coption_tag_valid(tag: Seq<u8>) -> bool
    recommends
        tag.len() == 4,
{
    (tag[0] == 0 || tag[0] == 1) && tag[1] == 0 && tag[2] == 0 && tag[3] == 0
}

/// Exactly the byte strings `spl_token::state::Account`'s `unpack` accepts:
/// 165 bytes; the state byte (at 108) initialized (1) or frozen (2); and the
/// tags of the three optional fields — delegate (at 72), native marker (at
/// 109) and close authority (at 129) — each well formed.
pub open spec fn token_account_bytes_valid(data: Seq<u8>) -> bool {
    &&& data.len() == 165
    &&& (data[108] == 1 || data[108] == 2)
    &&& coption_tag_valid(data.subrange(72, 76))
    &&& coption_tag_valid(data.subrange(109, 113))
    &&& coption_tag_valid(data.subrange(129, 133))
}

/// Relies on `spl_token::state::Account`'s `solana_program_pack::Pack`
/// implementation: a token account packs to exactly 165 bytes; `unpack`
/// succeeds exactly on the byte strings `token_account_bytes_valid` admits
/// (length checked first, then the option tags and the state byte, which
/// must not be uninitialized), and then the mint is the first 32 bytes and
/// the amount the little-endian 8 starting at byte 64.
#[verifier::external_body]
pub(crate) fn unpack_token_account(data: &Vec<u8>) -> (r: Option<(Vec<u8>, u64)>)
    ensures
        r is Some <==> token_account_bytes_valid(data@),
        r matches Some(p) ==> p.0@ == data@.subrange(0, 32) && p.1 == u64_le(
            data@.subrange(64, 72),
        ),
{
    match <spl_token::state::Account as solana_program_pack::Pack>::unpack(data.as_slice()) {
        Ok(a) => Some((a.mint.to_bytes().to_vec(), a.amount)),
        Err(_) => None,
    }
}

/// Relies on `spl_token::native_mint::ID`: the mint address of the wrapped
/// native token, a 32-byte constant.
#[verifier::external_body]
pub fn native_mint_bytes() -> (r: Vec<u8>)
    ensures
        r@.len() == 32,
{
    spl_token::native_mint::ID.to_bytes().to_vec()
}

} // verus!
