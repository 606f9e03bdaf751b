//! Base58 text of raw bytes, the way signatures and addresses are shown.
use vstd::prelude::*;

verus! {

/// The base58 (Bitcoin alphabet) text of `bytes`.
pub uninterp spec fn base58_text(bytes: Seq<u8>) -> Seq<char>;

/// `bs58::encode(bytes).into_string()`. Claimed: the text is what
/// `base58_text` names for `bytes`.
#[verifier::external_body]
fn bs58_encode(bytes: &[u8]) -> (r: String)
    ensures
        r@ == base58_text(bytes@),
{
    bs58::encode(bytes).into_string()
}

/// The base58 text of `bytes`, e.g. of a 64-byte signature for display.
pub fn encode_base58(bytes: &[u8]) -> (r: String)
    ensures
        r@ == base58_text(bytes@),
{
    bs58_encode(bytes)
}

} // verus!
