//! The ledger's own computations that the authorization logic relies on:
//! key commitments, word hashing, summary commitments, signature preparation
//! and account-ID decoding. A word is four field elements, held as `[u64; 4]`.

use miden_objects::account::auth::Signature;
use miden_objects::account::AccountId;
use miden_objects::crypto::dsa::ecdsa_k256_keccak::{
    PublicKey as EcdsaPublicKey, Signature as EcdsaSignature,
};
use miden_objects::transaction::TransactionSummary;
use miden_objects::utils::Deserializable;
use miden_objects::{Felt, Hasher, Word};
use vstd::prelude::*;

verus! {

/// Commitment of a compressed secp256k1 key, or `None` when the bytes are not a valid point.
pub uninterp spec fn key_commitment_of(compressed: Seq<u8>) -> Option<[u64; 4]>;

/// Hash of two words merged in order.
pub uninterp spec fn merge_of(a: [u64; 4], b: [u64; 4]) -> [u64; 4];

/// Commitment of a serialized transaction summary, or `None` when the bytes do not parse.
pub uninterp spec fn summary_commitment_of(summary: Seq<u8>) -> Option<[u64; 4]>;

/// Whether a public key can be recovered from a 66-byte ECDSA signature over a message.
pub uninterp spec fn ecdsa_recovers(raw: Seq<u8>, msg: [u64; 4]) -> bool;

/// Field elements that the engine's ECDSA verifier reads for a signature over a message.
pub uninterp spec fn prepared_signature_of(raw: Seq<u8>, msg: [u64; 4]) -> Seq<u64>;

/// Account ID `(prefix, suffix)` encoded by bech32 text, or `None`.
pub uninterp spec fn bech32_account_id_of(s: Seq<char>) -> Option<(u64, u64)>;

/// Account ID `(prefix, suffix)` encoded by `0x`-prefixed hex text, or `None`.
pub uninterp spec fn hex_account_id_of(s: Seq<char>) -> Option<(u64, u64)>;

/// Relies on miden-crypto's `ecdsa_k256_keccak::PublicKey::read_from_bytes`,
/// which accepts a valid SEC1 point, and `PublicKey::to_commitment`, a hash of
/// the key's bytes: the result depends on the bytes alone.
#[verifier::external_body]
pub(crate) fn commit_public_key(compressed: &Vec<u8>) -> (r: Option<[u64; 4]>)
    ensures
        r == key_commitment_of(compressed@),
{
    EcdsaPublicKey::read_from_bytes(compressed).ok().map(|pk| {
        let w = pk.to_commitment();
        [w[0].as_int(), w[1].as_int(), w[2].as_int(), w[3].as_int()]
    })
}

/// Relies on `Rpo256::merge` (miden-objects' `Hasher`): a hash of two words.
#[verifier::external_body]
pub(crate) fn merge_words(a: &[u64; 4], b: &[u64; 4]) -> (r: [u64; 4])
    ensures
        r == merge_of(*a, *b),
{
    let wa = Word::new([Felt::new(a[0]), Felt::new(a[1]), Felt::new(a[2]), Felt::new(a[3])]);
    let wb = Word::new([Felt::new(b[0]), Felt::new(b[1]), Felt::new(b[2]), Felt::new(b[3])]);
    let w = Hasher::merge(&[wa, wb]);
    [w[0].as_int(), w[1].as_int(), w[2].as_int(), w[3].as_int()]
}

/// Relies on `TransactionSummary::read_from_bytes` and
/// `TransactionSummary::to_commitment`: the result depends on the bytes alone.
#[verifier::external_body]
pub(crate) fn commit_summary(summary: &Vec<u8>) -> (r: Option<[u64; 4]>)
    ensures
        r == summary_commitment_of(summary@),
{
    TransactionSummary::read_from_bytes(summary).ok().map(|s| {
        let w = s.to_commitment();
        [w[0].as_int(), w[1].as_int(), w[2].as_int(), w[3].as_int()]
    })
}

/// Relies on miden-crypto's `ecdsa_k256_keccak::PublicKey::recover_from`,
/// after `Signature::read_from_bytes`, which reads any 66 bytes as `r`, `s`,
/// `v` and a padding byte.
#[verifier::external_body]
pub(crate) fn can_recover_key(raw: &Vec<u8>, msg: &[u64; 4]) -> (r: bool)
    requires
        raw@.len() == 66,
    ensures
        r == ecdsa_recovers(raw@, *msg),
{
    let m = Word::new([Felt::new(msg[0]), Felt::new(msg[1]), Felt::new(msg[2]), Felt::new(msg[3])]);
    match EcdsaSignature::read_from_bytes(raw) {
        Ok(sig) => EcdsaPublicKey::recover_from(m, &sig).is_ok(),
        Err(_) => false,
    }
}

/// Relies on miden-objects' `Signature::to_prepared_signature` for an ECDSA
/// signature: the recovered key as 9 packed elements and the signature as 17,
/// in reverse order. It panics when no key can be recovered, which the
/// precondition rules out.
#[verifier::external_body]
pub(crate) fn prepare_ecdsa(raw: &Vec<u8>, msg: &[u64; 4]) -> (r: Vec<u64>)
    requires
        raw@.len() == 66,
        ecdsa_recovers(raw@, *msg),
    ensures
        r@ == prepared_signature_of(raw@, *msg),
        r@.len() == 26,
{
    let m = Word::new([Felt::new(msg[0]), Felt::new(msg[1]), Felt::new(msg[2]), Felt::new(msg[3])]);
    match EcdsaSignature::read_from_bytes(raw) {
        Ok(sig) => Signature::EcdsaK256Keccak(sig).to_prepared_signature(m).iter().map(|f| f.as_int()).collect(),
        Err(_) => Vec::new(),
    }
}

/// Relies on `AccountId::from_bech32`: the ID encoded by the text, with the
/// network it names dropped.
#[verifier::external_body]
pub(crate) fn account_id_from_bech32(s: &str) -> (r: Option<(u64, u64)>)
    ensures
        r == bech32_account_id_of(s@),
{
    AccountId::from_bech32(s).ok().map(|(_, id)| (id.prefix().as_u64(), id.suffix().as_int()))
}

/// Relies on `AccountId::from_hex`: the ID encoded by `0x`-prefixed hex text.
#[verifier::external_body]
pub(crate) fn account_id_from_hex(s: &str) -> (r: Option<(u64, u64)>)
    ensures
        r == hex_account_id_of(s@),
{
    AccountId::from_hex(s).ok().map(|id| (id.prefix().as_u64(), id.suffix().as_int()))
}

} // verus!
