//! The propose/execute protocol: reading the approver layout of an account,
//! building the signing advice for each approver slot, and concluding what
//! the engine reported.

use crate::codec::{envelope_accepted, decode_external_signature, prepare_signature};
use crate::engine::{
    commit_summary, ecdsa_recovers, merge_of, merge_words, prepared_signature_of,
    summary_commitment_of,
};
use crate::error::MultisigError;
use crate::ops::MultisigOps;
use crate::hexcode::{
    hex_bytes, hex_decode, hex_encode, hex_prefix, hex_text, is_hex_text, trim_text_prefixes,
    without_prefixes,
};
use vstd::prelude::*;
use vstd::string::*;

verus! {

/// One entry of the engine's advice map: the advice key of an approver slot
/// and the prepared signature stored under it.
pub struct AdviceEntry {
    pub key: [u64; 4],
    pub value: Vec<u64>,
}

/// An advice entry as plain values.
pub open spec fn entry_view(e: AdviceEntry) -> ([u64; 4], Seq<u64>) {
    (e.key, e.value@)
}

pub open spec fn entries_view(v: Seq<AdviceEntry>) -> Seq<([u64; 4], Seq<u64>)> {
    v.map_values(|e: AdviceEntry| entry_view(e))
}

/// The number of approvers recorded in the second element of storage slot 0,
/// or `None` when it does not fit in `u32`.
pub open spec fn approver_count_of(slot0: [u64; 4]) -> Option<u32> {
    if slot0[1] <= u32::MAX {
        Some(slot0[1] as u32)
    } else {
        None
    }
}

/// Reads the approver count from the account's storage slot 0.
pub fn approver_count(slot0: &[u64; 4]) -> (r: Result<u32, MultisigError>)
    ensures
        match r {
            Ok(n) => approver_count_of(*slot0) == Some(n),
            Err(e) => approver_count_of(*slot0) is None && e == MultisigError::InvalidAccountStorage,
        },
{
    if slot0[1] <= u32::MAX as u64 {
        Ok(slot0[1] as u32)
    } else {
        Err(MultisigError::InvalidAccountStorage)
    }
}

/// The key under which storage slot 1 maps an approver index to its key commitment.
pub fn slot_index_key(index: u32) -> (r: [u64; 4])
    ensures
        r == [index as u64, 0u64, 0u64, 0u64],
{
    [index as u64, 0, 0, 0]
}

/// The signing message of a proposal: the commitment of its serialized summary.
pub fn signing_message(summary_bytes: &Vec<u8>) -> (r: Result<[u64; 4], MultisigError>)
    ensures
        match r {
            Ok(m) => summary_commitment_of(summary_bytes@) == Some(m),
            Err(e) => summary_commitment_of(summary_bytes@) is None && e == MultisigError::MalformedProposal,
        },
{
    match commit_summary(summary_bytes) {
        Some(m) => Ok(m),
        None => Err(MultisigError::MalformedProposal),
    }
}

/// The signature collected for a slot, if any; slots past the end have none.
pub open spec fn signature_at(sigs: Seq<Option<String>>, i: int) -> Option<String> {
    if 0 <= i < sigs.len() {
        sigs[i]
    } else {
        None
    }
}

/// What one approver slot contributes: nothing when it has no signature, an
/// advice entry when its signature decodes and a key can be recovered from
/// it, and an error naming the slot otherwise.
pub open spec fn slot_advice(
    commitment: [u64; 4],
    msg: [u64; 4],
    sig: Option<String>,
    slot: int,
) -> Result<Option<([u64; 4], Seq<u64>)>, MultisigError> {
    match sig {
        None => Ok(None),
        Some(text) => {
            let t = without_prefixes(text@, hex_prefix());
            let wire = hex_bytes(t);
            let raw = wire.subrange(1, 67);
            if is_hex_text(t) && envelope_accepted(wire) && ecdsa_recovers(raw, msg) {
                Ok(Some((merge_of(commitment, msg), prepared_signature_of(raw, msg))))
            } else {
                Err(MultisigError::InvalidSignatureEncoding(slot as usize))
            }
        },
    }
}

/// The advice of slots `0..n`, in slot order; the first failing slot decides the error.
pub open spec fn advice_for_slots(
    commitments: Seq<[u64; 4]>,
    msg: [u64; 4],
    sigs: Seq<Option<String>>,
    n: nat,
) -> Result<Seq<([u64; 4], Seq<u64>)>, MultisigError>
    decreases n,
{
    if n == 0 {
        Ok(Seq::empty())
    } else {
        match advice_for_slots(commitments, msg, sigs, (n - 1) as nat) {
            Err(e) => Err(e),
            Ok(prev) => match slot_advice(
                commitments[n - 1],
                msg,
                signature_at(sigs, n - 1),
                n - 1,
            ) {
                Err(e) => Err(e),
                Ok(None) => Ok(prev),
                Ok(Some(entry)) => Ok(prev.push(entry)),
            },
        }
    }
}

/// Once some slot fails, later slots leave the error as it is.
proof fn lemma_error_persists(
    commitments: Seq<[u64; 4]>,
    msg: [u64; 4],
    sigs: Seq<Option<String>>,
    n: nat,
    m: nat,
)
    requires
        n <= m,
        advice_for_slots(commitments, msg, sigs, n) is Err,
    ensures
        advice_for_slots(commitments, msg, sigs, m) == advice_for_slots(commitments, msg, sigs, n),
    decreases m - n,
{
    if m > n {
        lemma_error_persists(commitments, msg, sigs, n, (m - 1) as nat);
    }
}

/// The advice entry of one slot (see `slot_advice`).
fn advice_of_slot(commitment: &[u64; 4], msg: &[u64; 4], sig: &Option<String>, slot: usize) -> (r:
    Result<Option<AdviceEntry>, MultisigError>)
    ensures
        match r {
            Ok(Some(e)) => slot_advice(*commitment, *msg, *sig, slot as int) == Ok::<
                Option<([u64; 4], Seq<u64>)>,
                MultisigError,
            >(Some(entry_view(e))),
            Ok(None) => slot_advice(*commitment, *msg, *sig, slot as int) == Ok::<
                Option<([u64; 4], Seq<u64>)>,
                MultisigError,
            >(None),
            Err(e) => slot_advice(*commitment, *msg, *sig, slot as int) == Err::<
                Option<([u64; 4], Seq<u64>)>,
                MultisigError,
            >(e),
        },
{
    match sig {
        None => Ok(None),
        Some(text) => {
            proof {
                reveal_strlit("0x");
                assert("0x"@ =~= hex_prefix());
            }
            let t = trim_text_prefixes(text.as_str(), "0x");
            let wire = match hex_decode(t) {
                Ok(b) => b,
                Err(_) => return Err(MultisigError::InvalidSignatureEncoding(slot)),
            };
            let raw = match decode_external_signature(&wire) {
                Ok(s) => s,
                Err(_) => return Err(MultisigError::InvalidSignatureEncoding(slot)),
            };
            let prepared = match prepare_signature(&raw, msg) {
                Ok(p) => p,
                Err(_) => return Err(MultisigError::InvalidSignatureEncoding(slot)),
            };
            let key = merge_words(commitment, msg);
            Ok(Some(AdviceEntry { key, value: prepared }))
        },
    }
}

/// Builds the advice for every approver slot, in slot order. `slot_commitments`
/// holds the key commitment of each slot `0..count`; `signatures` is indexed by
/// slot, `None` where the approver has not signed, and entries past `count`
/// are ignored. A later signature for a slot simply replaces an earlier one in
/// the caller's array, so at most one entry per slot is produced. Whether
/// enough slots signed is left to the engine.
pub fn build_advice(
    slot_commitments: &Vec<[u64; 4]>,
    msg: &[u64; 4],
    signatures: &Vec<Option<String>>,
) -> (r: Result<Vec<AdviceEntry>, MultisigError>)
    ensures
        match r {
            Ok(v) => advice_for_slots(slot_commitments@, *msg, signatures@, slot_commitments@.len())
                == Ok::<Seq<([u64; 4], Seq<u64>)>, MultisigError>(entries_view(v@)),
            Err(e) => advice_for_slots(slot_commitments@, *msg, signatures@, slot_commitments@.len())
                == Err::<Seq<([u64; 4], Seq<u64>)>, MultisigError>(e),
        },
{
    let mut out: Vec<AdviceEntry> = Vec::new();
    assert(entries_view(out@) =~= Seq::empty());
    let mut i: usize = 0;
    while i < slot_commitments.len()
        invariant
            i <= slot_commitments@.len(),
            advice_for_slots(slot_commitments@, *msg, signatures@, i as nat) == Ok::<
                Seq<([u64; 4], Seq<u64>)>,
                MultisigError,
            >(entries_view(out@)),
        decreases slot_commitments@.len() - i,
    {
        let none: Option<String> = None;
        let sig: &Option<String> = if i < signatures.len() {
            &signatures[i]
        } else {
            &none
        };
        assert(*sig == signature_at(signatures@, i as int));
        match advice_of_slot(&slot_commitments[i], msg, sig, i) {
            Err(e) => {
                proof {
                    lemma_error_persists(
                        slot_commitments@,
                        *msg,
                        signatures@,
                        (i + 1) as nat,
                        slot_commitments@.len(),
                    );
                }
                return Err(e);
            },
            Ok(None) => {},
            Ok(Some(entry)) => {
                proof {
                    assert(entries_view(out@.push(entry)) =~= entries_view(out@).push(entry_view(entry)));
                }
                out.push(entry);
            },
        }
        i = i + 1;
    }
    Ok(out)
}

} // verus!

verus! {

/// How a commitment word is written as hex.
#[derive(PartialEq, Eq, Structural, Debug, Clone, Copy)]
pub enum CommitmentLayout {
    /// The word's 32 bytes, each element little-endian (the ledger's own word hex).
    WordBytes,
    /// Each element as 16 digits, most significant first.
    ElementDigits,
}

/// Byte `i` of a word: element `i / 8`, little-endian or big-endian within the element.
pub open spec fn word_byte(w: [u64; 4], i: int, layout: CommitmentLayout) -> u8 {
    let k = if layout == CommitmentLayout::WordBytes {
        i % 8
    } else {
        7 - i % 8
    };
    ((w[i / 8] >> ((8 * k) as u64)) & 0xffu64) as u8
}

pub open spec fn word_bytes(w: [u64; 4], layout: CommitmentLayout) -> Seq<u8> {
    Seq::new(32, |i: int| word_byte(w, i, layout))
}

/// A commitment as text: `0x` and the hex of its bytes.
pub open spec fn commitment_text(w: [u64; 4], layout: CommitmentLayout) -> Seq<char> {
    seq!['0', 'x'] + hex_text(word_bytes(w, layout))
}

/// Writes a commitment word as `0x`-prefixed lower-case hex.
pub fn commitment_hex(w: &[u64; 4], layout: CommitmentLayout) -> (r: String)
    ensures
        r@ == commitment_text(*w, layout),
{
    let mut bytes: Vec<u8> = Vec::with_capacity(32);
    let mut i: usize = 0;
    while i < 32
        invariant
            i <= 32,
            bytes@ == word_bytes(*w, layout).subrange(0, i as int),
        decreases 32 - i,
    {
        let k: usize = match layout {
            CommitmentLayout::WordBytes => i % 8,
            CommitmentLayout::ElementDigits => 7 - i % 8,
        };
        let b: u8 = ((w[i / 8] >> ((8 * k) as u64)) & 0xffu64) as u8;
        assert(b == word_byte(*w, i as int, layout));
        bytes.push(b);
        i = i + 1;
        assert(bytes@ =~= word_bytes(*w, layout).subrange(0, i as int));
    }
    assert(bytes@ =~= word_bytes(*w, layout));
    let digits = hex_encode(&bytes);
    let mut s = String::from_str("0x");
    proof {
        reveal_strlit("0x");
    }
    s.append(digits.as_str());
    assert(s@ =~= commitment_text(*w, layout));
    s
}

/// What the engine reported for a submitted request.
pub enum SubmitOutcome {
    /// The operation was finalized; its transaction ID.
    Finalized(String),
    /// The operation lacks authorization; the serialized summary to sign.
    Unauthorized(Vec<u8>),
    /// The engine failed for another reason; its message.
    Failed(String),
}

/// A proposal: the commitment to sign and the two blobs the caller keeps.
pub struct ProposalResult {
    pub summary_commitment: String,
    pub summary_bytes: Vec<u8>,
    pub request_bytes: Vec<u8>,
}

/// Concludes a propose dry run. Only an unauthorized outcome is a proposal;
/// a finalized one broke the dry-run contract and is a protocol violation,
/// and any other failure is a proposal error.
pub fn conclude_proposal(
    outcome: SubmitOutcome,
    request_bytes: Vec<u8>,
    layout: CommitmentLayout,
) -> (r: Result<ProposalResult, MultisigError>)
    ensures
        outcome is Finalized ==> r == Err::<ProposalResult, MultisigError>(
            MultisigError::ProtocolViolation,
        ),
        outcome matches SubmitOutcome::Failed(m) ==> r == Err::<ProposalResult, MultisigError>(
            MultisigError::ProposalError(m),
        ),
        outcome matches SubmitOutcome::Unauthorized(s) ==> match summary_commitment_of(s@) {
            None => r == Err::<ProposalResult, MultisigError>(MultisigError::MalformedProposal),
            Some(c) => r matches Ok(p) && p.summary_commitment@ == commitment_text(c, layout)
                && p.summary_bytes@ == s@ && p.request_bytes@ == request_bytes@,
        },
{
    let summary_bytes = match MultisigOps::propose_transaction(outcome) {
        Ok(s) => s,
        Err(e) => return Err(e),
    };
    let c = match signing_message(&summary_bytes) {
        Ok(c) => c,
        Err(e) => return Err(e),
    };
    let summary_commitment = commitment_hex(&c, layout);
    Ok(ProposalResult { summary_commitment, summary_bytes, request_bytes })
}

/// Concludes the submission of an advice-augmented request: a finalized
/// operation yields its transaction ID; an unauthorized one means the engine's
/// threshold check refused it; any other failure is the resource's.
pub fn conclude_execution(outcome: SubmitOutcome) -> (r: Result<String, MultisigError>)
    ensures
        outcome matches SubmitOutcome::Finalized(id) ==> r == Ok::<String, MultisigError>(id),
        outcome is Unauthorized ==> r == Err::<String, MultisigError>(
            MultisigError::AuthorizationError,
        ),
        outcome matches SubmitOutcome::Failed(m) ==> r == Err::<String, MultisigError>(
            MultisigError::ResourceError(m),
        ),
{
    match outcome {
        SubmitOutcome::Finalized(id) => Ok(id),
        SubmitOutcome::Unauthorized(_) => Err(MultisigError::AuthorizationError),
        SubmitOutcome::Failed(m) => Err(MultisigError::ResourceError(m)),
    }
}

} // verus!

verus! {

/// The number of slots among `0..n` that have a collected signature.
pub open spec fn signed_count(sigs: Seq<Option<String>>, n: nat) -> nat
    decreases n,
{
    if n == 0 {
        0
    } else {
        signed_count(sigs, (n - 1) as nat) + if signature_at(sigs, n - 1) is Some {
            1nat
        } else {
            0nat
        }
    }
}

/// Every slot is consulted and none is skipped: when the advice is built, it
/// holds exactly one entry per slot that has a signature, in slot order, and
/// the entry of slot `i` is keyed by the hash of that slot's commitment and
/// the message.
pub proof fn lemma_advice_one_entry_per_signed_slot(
    commitments: Seq<[u64; 4]>,
    msg: [u64; 4],
    sigs: Seq<Option<String>>,
    n: nat,
)
    requires
        n <= commitments.len(),
        advice_for_slots(commitments, msg, sigs, n) is Ok,
    ensures
        advice_for_slots(commitments, msg, sigs, n)->Ok_0.len() == signed_count(sigs, n),
        n > 0 && signature_at(sigs, n - 1) is Some ==> advice_for_slots(
            commitments,
            msg,
            sigs,
            n,
        )->Ok_0.last().0 == merge_of(commitments[n - 1], msg),
    decreases n,
{
    if n > 0 {
        lemma_advice_one_entry_per_signed_slot(commitments, msg, sigs, (n - 1) as nat);
    }
}

/// With no signature collected, building the advice succeeds and adds
/// nothing: execution goes on to the engine, whose own threshold check must
/// then refuse it, and `conclude_execution` reports that refusal as an
/// authorization error.
pub proof fn lemma_no_signatures_no_advice(
    commitments: Seq<[u64; 4]>,
    msg: [u64; 4],
    sigs: Seq<Option<String>>,
    n: nat,
)
    requires
        n <= commitments.len(),
        forall|i: int| 0 <= i < sigs.len() ==> #[trigger] sigs[i] is None,
    ensures
        advice_for_slots(commitments, msg, sigs, n) == Ok::<
            Seq<([u64; 4], Seq<u64>)>,
            MultisigError,
        >(Seq::empty()),
    decreases n,
{
    if n > 0 {
        lemma_no_signatures_no_advice(commitments, msg, sigs, (n - 1) as nat);
    }
}

/// Proposing is deterministic: two dry runs that hand back the same summary
/// give the same commitment text.
pub proof fn lemma_same_summary_same_commitment(
    s1: Seq<u8>,
    s2: Seq<u8>,
    layout: CommitmentLayout,
)
    requires
        s1 == s2,
        summary_commitment_of(s1) is Some,
    ensures
        summary_commitment_of(s2) is Some,
        commitment_text(summary_commitment_of(s1)->Some_0, layout) == commitment_text(
            summary_commitment_of(s2)->Some_0,
            layout,
        ),
{
}

} // verus!
