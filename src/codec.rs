//! Public-key and signature encodings.

use crate::engine::{
    can_recover_key, commit_public_key, ecdsa_recovers, key_commitment_of, prepare_ecdsa,
    prepared_signature_of,
};
use crate::error::MultisigError;
use crate::hexcode::{
    hex_bytes, hex_decode, hex_prefix, is_hex_text, strip_text_prefix, without_prefix,
};
use vstd::prelude::*;

verus! {

/// Leading byte of an uncompressed SEC1 point.
pub const UNCOMPRESSED_TAG: u8 = 4;

/// Length of an uncompressed SEC1 point: tag, X, Y.
pub const UNCOMPRESSED_LEN: usize = 65;

/// Length of a compressed SEC1 point: tag, X.
pub const COMPRESSED_LEN: usize = 33;

/// Errors produced while reading externally supplied keys and signatures.
#[derive(PartialEq, Eq, Structural, Debug, Clone, Copy)]
pub enum CodecError {
    InvalidKeyEncoding,
    InvalidSignatureEncoding,
}

/// A compressed-point tag: `0x02` (even Y) or `0x03` (odd Y).
pub open spec fn is_compressed_tag(b: u8) -> bool {
    b == 2 || b == 3
}

/// The compressed form of a key, or `None` when the bytes are neither a
/// 65-byte uncompressed point nor a 33-byte compressed point.
pub open spec fn normalized_key(b: Seq<u8>) -> Option<Seq<u8>> {
    if b.len() == UNCOMPRESSED_LEN && b[0] == UNCOMPRESSED_TAG {
        let prefix: u8 = if b[64] % 2 == 0 { 2 } else { 3 };
        Some(seq![prefix] + b.subrange(1, 33))
    } else if b.len() == COMPRESSED_LEN && is_compressed_tag(b[0]) {
        Some(b)
    } else {
        None
    }
}

/// Converts a SEC1 public key to its 33-byte compressed form. An
/// uncompressed point takes the prefix `0x02` when the last byte of Y is even
/// and `0x03` when it is odd; a compressed point passes through unchanged.
pub fn normalize_public_key(bytes: &Vec<u8>) -> (r: Result<Vec<u8>, CodecError>)
    ensures
        match r {
            Ok(k) => normalized_key(bytes@) == Some(k@),
            Err(e) => normalized_key(bytes@) is None && e == CodecError::InvalidKeyEncoding,
        },
{
    if bytes.len() == UNCOMPRESSED_LEN && bytes[0] == UNCOMPRESSED_TAG {
        let prefix: u8 = if bytes[64] % 2 == 0 { 2 } else { 3 };
        let mut out: Vec<u8> = Vec::with_capacity(COMPRESSED_LEN);
        out.push(prefix);
        let mut i: usize = 1;
        while i < 33
            invariant
                1 <= i <= 33,
                bytes@.len() == UNCOMPRESSED_LEN,
                out@ == seq![prefix] + bytes@.subrange(1, i as int),
            decreases 33 - i,
        {
            out.push(bytes[i]);
            i = i + 1;
            assert(out@ =~= seq![prefix] + bytes@.subrange(1, i as int));
        }
        Ok(out)
    } else if bytes.len() == COMPRESSED_LEN && (bytes[0] == 2 || bytes[0] == 3) {
        Ok(bytes.clone())
    } else {
        Err(CodecError::InvalidKeyEncoding)
    }
}

} // verus!

verus! {

/// Scheme tag that the external signer puts before an ECDSA signature.
pub const ECDSA_SCHEME_TAG: u8 = 1;

/// Length of the engine's ECDSA signature encoding: `r`, `s`, `v`, padding.
pub const RAW_SIGNATURE_LEN: usize = 66;

/// Shortest accepted signature envelope: the scheme tag and the raw signature.
pub const SIGNATURE_ENVELOPE_MIN_LEN: usize = 67;

/// The commitment of a key given in either SEC1 form, or `None`.
pub open spec fn public_key_commitment(b: Seq<u8>) -> Option<[u64; 4]> {
    match normalized_key(b) {
        Some(k) => key_commitment_of(k),
        None => None,
    }
}

/// The compressed form of a key given as hex text with an optional `0x`, or `None`.
pub open spec fn key_text_compressed(s: Seq<char>) -> Option<Seq<u8>> {
    let t = without_prefix(s, hex_prefix());
    if is_hex_text(t) {
        normalized_key(hex_bytes(t))
    } else {
        None
    }
}

/// The commitment of a key given as hex text with an optional `0x`, or `None`.
pub open spec fn key_text_commitment(s: Seq<char>) -> Option<[u64; 4]> {
    match key_text_compressed(s) {
        Some(k) => key_commitment_of(k),
        None => None,
    }
}

/// Whether a signature envelope is accepted: long enough and tagged ECDSA.
pub open spec fn envelope_accepted(b: Seq<u8>) -> bool {
    b.len() >= SIGNATURE_ENVELOPE_MIN_LEN && b[0] == ECDSA_SCHEME_TAG
}

/// Commitment of a 33-byte compressed key in the engine's word form.
pub fn key_commitment(compressed: &Vec<u8>) -> (r: Result<[u64; 4], CodecError>)
    ensures
        match r {
            Ok(w) => key_commitment_of(compressed@) == Some(w),
            Err(e) => key_commitment_of(compressed@) is None && e == CodecError::InvalidKeyEncoding,
        },
{
    match commit_public_key(compressed) {
        Some(w) => Ok(w),
        None => Err(CodecError::InvalidKeyEncoding),
    }
}

/// A key written as hex, in its compressed form together with its commitment.
fn parse_and_commit(hex_str: &str) -> (r: Result<(Vec<u8>, [u64; 4]), MultisigError>)
    ensures
        match r {
            Ok((k, c)) => key_text_compressed(hex_str@) == Some(k@) && key_commitment_of(k@) == Some(
                c,
            ),
            Err(e) => key_text_commitment(hex_str@) is None && e == MultisigError::InvalidKeyEncoding,
        },
{
    proof {
        reveal_strlit("0x");
        assert("0x"@ =~= hex_prefix());
    }
    let text = strip_text_prefix(hex_str, "0x");
    let bytes = match hex_decode(text) {
        Ok(b) => b,
        Err(_) => return Err(MultisigError::InvalidKeyEncoding),
    };
    let compressed = match normalize_public_key(&bytes) {
        Ok(k) => k,
        Err(_) => return Err(MultisigError::InvalidKeyEncoding),
    };
    match key_commitment(&compressed) {
        Ok(c) => Ok((compressed, c)),
        Err(_) => Err(MultisigError::InvalidKeyEncoding),
    }
}

/// Parses a public key written as hex (with or without `0x`), in compressed
/// or uncompressed form, into its 33-byte compressed encoding; the key must be
/// a point the ledger accepts.
pub fn parse_public_key_from_hex(hex_str: &str) -> (r: Result<Vec<u8>, MultisigError>)
    ensures
        match r {
            Ok(k) => key_text_compressed(hex_str@) == Some(k@) && key_commitment_of(k@) is Some,
            Err(e) => key_text_commitment(hex_str@) is None && e == MultisigError::InvalidKeyEncoding,
        },
{
    match parse_and_commit(hex_str) {
        Ok((k, _)) => Ok(k),
        Err(e) => Err(e),
    }
}

/// Parses a public key written as hex (with or without `0x`), in compressed
/// or uncompressed form, and returns its commitment.
pub fn public_key_from_hex(hex_str: &str) -> (r: Result<[u64; 4], MultisigError>)
    ensures
        match r {
            Ok(c) => key_text_commitment(hex_str@) == Some(c),
            Err(e) => key_text_commitment(hex_str@) is None && e == MultisigError::InvalidKeyEncoding,
        },
{
    match parse_and_commit(hex_str) {
        Ok((_, c)) => Ok(c),
        Err(e) => Err(e),
    }
}

/// Commitments of a list of hex public keys, in order; the first key that
/// does not parse fails the whole list.
pub fn public_keys_from_hex(hex_keys: &[String]) -> (r: Result<Vec<[u64; 4]>, MultisigError>)
    ensures
        match r {
            Ok(v) => v@.len() == hex_keys@.len() && forall|i: int|
                0 <= i < v@.len() ==> key_text_commitment(#[trigger] hex_keys@[i]@) == Some(v@[i]),
            Err(e) => e == MultisigError::InvalidKeyEncoding && exists|i: int|
                0 <= i < hex_keys@.len() && (#[trigger] key_text_commitment(hex_keys@[i]@)) is None,
        },
{
    let mut out: Vec<[u64; 4]> = Vec::new();
    let mut i: usize = 0;
    while i < hex_keys.len()
        invariant
            i <= hex_keys@.len(),
            out@.len() == i,
            forall|j: int| 0 <= j < i ==> key_text_commitment(#[trigger] hex_keys@[j]@) == Some(out@[j]),
        decreases hex_keys@.len() - i,
    {
        let c = public_key_from_hex(hex_keys[i].as_str());
        match c {
            Ok(w) => out.push(w),
            Err(e) => {
                assert(key_text_commitment(hex_keys@[i as int]@) is None);
                return Err(e);
            },
        }
        i = i + 1;
    }
    Ok(out)
}

/// A signature in the engine's 66-byte layout: `r(32) || s(32) || v(1) || pad(1)`.
pub struct RawSignature {
    bytes: Vec<u8>,
}

impl RawSignature {
    #[verifier::type_invariant]
    spec fn inv(self) -> bool {
        self.bytes@.len() == RAW_SIGNATURE_LEN
    }

    pub closed spec fn view(self) -> Seq<u8> {
        self.bytes@
    }

    /// The 66 bytes of the signature.
    pub fn to_bytes(&self) -> (r: Vec<u8>)
        ensures
            r@ == self.view(),
            r@.len() == RAW_SIGNATURE_LEN,
    {
        proof {
            use_type_invariant(self);
        }
        self.bytes.clone()
    }
}

/// Unwraps a signature from the external signer's envelope: byte 0 must be
/// the ECDSA scheme tag and at least 66 bytes must follow; those 66 bytes are
/// the signature. Anything else is `InvalidSignatureEncoding`.
pub fn decode_external_signature(wire: &Vec<u8>) -> (r: Result<RawSignature, CodecError>)
    ensures
        r is Ok <==> envelope_accepted(wire@),
        match r {
            Ok(s) => s.view() == wire@.subrange(1, 67),
            Err(e) => e == CodecError::InvalidSignatureEncoding,
        },
{
    if wire.len() < SIGNATURE_ENVELOPE_MIN_LEN || wire[0] != ECDSA_SCHEME_TAG {
        return Err(CodecError::InvalidSignatureEncoding);
    }
    let mut bytes: Vec<u8> = Vec::with_capacity(RAW_SIGNATURE_LEN);
    let mut i: usize = 1;
    while i < 67
        invariant
            1 <= i <= 67,
            wire@.len() >= 67,
            bytes@ == wire@.subrange(1, i as int),
        decreases 67 - i,
    {
        bytes.push(wire[i]);
        i = i + 1;
        assert(bytes@ =~= wire@.subrange(1, i as int));
    }
    Ok(RawSignature { bytes })
}

/// Turns a signature into the field elements the engine's verifier reads,
/// recovering the signer's key from the signature and `msg`. A signature from
/// which no key can be recovered is `InvalidSignatureEncoding`.
pub fn prepare_signature(raw: &RawSignature, msg: &[u64; 4]) -> (r: Result<Vec<u64>, CodecError>)
    ensures
        r is Ok <==> ecdsa_recovers(raw.view(), *msg),
        match r {
            Ok(p) => p@ == prepared_signature_of(raw.view(), *msg),
            Err(e) => e == CodecError::InvalidSignatureEncoding,
        },
{
    proof {
        use_type_invariant(raw);
    }
    if can_recover_key(&raw.bytes, msg) {
        Ok(prepare_ecdsa(&raw.bytes, msg))
    } else {
        Err(CodecError::InvalidSignatureEncoding)
    }
}

} // verus!

verus! {

/// Normalizing a valid uncompressed key and committing to the result depends
/// on the key alone: the same key always yields a 33-byte compressed key and
/// the same commitment.
pub proof fn lemma_uncompressed_commitment_deterministic(a: Seq<u8>, b: Seq<u8>)
    requires
        a.len() == UNCOMPRESSED_LEN,
        a[0] == UNCOMPRESSED_TAG,
        a == b,
    ensures
        normalized_key(a) is Some,
        normalized_key(a)->Some_0.len() == COMPRESSED_LEN,
        normalized_key(a) == normalized_key(b),
        public_key_commitment(a) == public_key_commitment(b),
{
}

/// A compressed key passes through normalization unchanged, so normalizing
/// twice is the same as normalizing once.
pub proof fn lemma_normalize_idempotent(b: Seq<u8>)
    requires
        normalized_key(b) is Some,
    ensures
        b.len() == COMPRESSED_LEN && is_compressed_tag(b[0]) ==> normalized_key(b) == Some(b),
        normalized_key(normalized_key(b)->Some_0) == normalized_key(b),
{
    let k = normalized_key(b)->Some_0;
    assert(k.len() == COMPRESSED_LEN);
    assert(is_compressed_tag(k[0]));
}

/// The prefix of a normalized uncompressed key follows the parity of the last
/// byte of Y: `0x02` when even, `0x03` when odd; X is kept.
pub proof fn lemma_uncompressed_prefix_parity(b: Seq<u8>)
    requires
        b.len() == UNCOMPRESSED_LEN,
        b[0] == UNCOMPRESSED_TAG,
    ensures
        normalized_key(b)->Some_0[0] == (if b[64] % 2 == 0 { 2u8 } else { 3u8 }),
        normalized_key(b)->Some_0.subrange(1, 33) == b.subrange(1, 33),
{
    let k = normalized_key(b)->Some_0;
    assert(k.subrange(1, 33) =~= b.subrange(1, 33));
}

/// An envelope shorter than 67 bytes, or one whose first byte is not the
/// ECDSA tag, is rejected.
pub proof fn lemma_bad_envelope_rejected(b: Seq<u8>)
    requires
        b.len() < SIGNATURE_ENVELOPE_MIN_LEN || b[0] != ECDSA_SCHEME_TAG,
    ensures
        !envelope_accepted(b),
{
}

} // verus!
