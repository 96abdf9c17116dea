//! The multisig operations of an account: validating its setup, deciding a
//! propose dry run, and preparing an execution.

use crate::authorizer::{
    advice_for_slots, approver_count, approver_count_of, build_advice, entries_view,
    signing_message, AdviceEntry, SubmitOutcome,
};
use crate::authorizer::lemma_no_signatures_no_advice;
use crate::engine::{merge_of, merge_words, summary_commitment_of};
use crate::ids::LedgerAccountId;
use crate::error::MultisigError;
use miden_lib::account::auth::AuthEcdsaK256KeccakMultisigConfig;
use miden_objects::account::auth::PublicKeyCommitment;
use miden_objects::{Felt, Word};
use vstd::prelude::*;

verus! {

/// The order of the ledger's prime field.
pub const FIELD_MODULUS: u64 = 0xffffffff00000001;

/// A word whose elements are all canonical field elements.
pub open spec fn is_canonical_word(w: [u64; 4]) -> bool {
    forall|k: int| 0 <= k < 4 ==> #[trigger] w[k] < FIELD_MODULUS
}

/// Approvers no two of which are equal.
pub open spec fn pairwise_distinct(approvers: Seq<[u64; 4]>) -> bool {
    forall|i: int, j: int| 0 <= i < j < approvers.len() ==> approvers[i] != approvers[j]
}

/// A configuration the ledger accepts: a threshold between 1 and the number
/// of approvers, and canonical, pairwise distinct approver commitments.
pub open spec fn valid_setup(approvers: Seq<[u64; 4]>, threshold: u32) -> bool {
    &&& 1 <= threshold
    &&& threshold as int <= approvers.len()
    &&& approvers.len() <= u32::MAX
    &&& forall|i: int| 0 <= i < approvers.len() ==> is_canonical_word(#[trigger] approvers[i])
    &&& pairwise_distinct(approvers)
}

/// Relies on miden-lib's `AuthEcdsaK256KeccakMultisigConfig::new`, which
/// accepts exactly a threshold between 1 and the number of approvers and
/// approvers that are distinct as words (elements compared as field elements,
/// which for canonical elements is comparison of the integers).
#[verifier::external_body]
fn multisig_config_accepts(approvers: &Vec<[u64; 4]>, threshold: u32) -> (r: bool)
    ensures
        r ==> 1 <= threshold && threshold as int <= approvers@.len(),
        r ==> pairwise_distinct(approvers@),
        threshold == 0 || threshold as int > approvers@.len() ==> !r,
        valid_setup(approvers@, threshold) ==> r,
{
    let commitments: Vec<PublicKeyCommitment> = approvers.iter().map(|w| {
        PublicKeyCommitment::from(Word::new([Felt::new(w[0]), Felt::new(w[1]), Felt::new(w[2]), Felt::new(w[3])]))
    }).collect();
    AuthEcdsaK256KeccakMultisigConfig::new(commitments, threshold).is_ok()
}

/// A validated account configuration: approvers in slot order and a threshold.
pub struct MultisigSetup {
    pub approvers: Vec<[u64; 4]>,
    pub threshold: u32,
}

/// The advice of an execution: the account's approver count from storage
/// slot 0 must match the slot commitments read from storage slot 1, and every
/// collected signature of those slots must be usable.
pub open spec fn execution_advice(
    slot0: [u64; 4],
    slot_commitments: Seq<[u64; 4]>,
    summary: Seq<u8>,
    signatures: Seq<Option<String>>,
) -> Result<Seq<([u64; 4], Seq<u64>)>, MultisigError> {
    match summary_commitment_of(summary) {
        None => Err(MultisigError::MalformedProposal),
        Some(msg) => match approver_count_of(slot0) {
            None => Err(MultisigError::InvalidAccountStorage),
            Some(n) => if n as int != slot_commitments.len() {
                Err(MultisigError::InvalidAccountStorage)
            } else {
                advice_for_slots(slot_commitments, msg, signatures, n as nat)
            },
        },
    }
}

/// Seed of the random coin that draws the serial number of a payment note: a
/// hash of the payment itself (sender, recipient, faucet, amount and the
/// note's position in the batch), so that proposing the same payment twice
/// against the same account state yields the same summary and commitment.
pub fn payment_note_seed(
    sender: LedgerAccountId,
    recipient: LedgerAccountId,
    faucet: LedgerAccountId,
    amount: u64,
    index: u64,
) -> (r: [u64; 4])
    ensures
        r == merge_of(
            [sender.prefix, sender.suffix, recipient.prefix, recipient.suffix],
            [faucet.prefix, faucet.suffix, amount, index],
        ),
{
    merge_words(
        &[sender.prefix, sender.suffix, recipient.prefix, recipient.suffix],
        &[faucet.prefix, faucet.suffix, amount, index],
    )
}

/// Executing with no collected signature adds no advice: once the summary
/// parses and storage holds a commitment for each of its approvers, every
/// slot is consulted, nothing is added, and the request goes to the engine,
/// whose own threshold check must then refuse it.
pub proof fn lemma_execute_without_signatures(
    slot0: [u64; 4],
    slot_commitments: Seq<[u64; 4]>,
    summary: Seq<u8>,
    signatures: Seq<Option<String>>,
)
    requires
        summary_commitment_of(summary) is Some,
        approver_count_of(slot0) == Some(slot_commitments.len() as u32),
        slot_commitments.len() <= u32::MAX,
        forall|i: int| 0 <= i < signatures.len() ==> #[trigger] signatures[i] is None,
    ensures
        execution_advice(slot0, slot_commitments, summary, signatures) == Ok::<
            Seq<([u64; 4], Seq<u64>)>,
            MultisigError,
        >(Seq::empty()),
{
    let msg = summary_commitment_of(summary)->Some_0;
    lemma_no_signatures_no_advice(slot_commitments, msg, signatures, slot_commitments.len());
}

/// Operations on a multisig account.
pub struct MultisigOps;

impl MultisigOps {
    /// Validates the configuration of a new account: at least one approver
    /// must be required, no more than there are, and no approver twice.
    pub fn setup_account(approvers: Vec<[u64; 4]>, threshold: u32) -> (r: Result<
        MultisigSetup,
        MultisigError,
    >)
        ensures
            r matches Ok(s) ==> s.approvers@ == approvers@ && s.threshold == threshold && 1
                <= threshold <= approvers@.len(),
            r matches Err(e) ==> e == MultisigError::ConfigError,
            valid_setup(approvers@, threshold) ==> r is Ok,
            threshold == 0 || threshold as int > approvers@.len() ==> r is Err,
            !pairwise_distinct(approvers@) ==> r is Err,
    {
        if multisig_config_accepts(&approvers, threshold) {
            Ok(MultisigSetup { approvers, threshold })
        } else {
            Err(MultisigError::ConfigError)
        }
    }

    /// Decides a propose dry run: the engine must report the operation
    /// unauthorized, handing back the summary to sign. A finalized operation
    /// would have bypassed approval and is a protocol violation.
    pub fn propose_transaction(outcome: SubmitOutcome) -> (r: Result<Vec<u8>, MultisigError>)
        ensures
            outcome is Finalized ==> r == Err::<Vec<u8>, MultisigError>(
                MultisigError::ProtocolViolation,
            ),
            outcome matches SubmitOutcome::Failed(m) ==> r == Err::<Vec<u8>, MultisigError>(
                MultisigError::ProposalError(m),
            ),
            outcome matches SubmitOutcome::Unauthorized(s) ==> r == Ok::<Vec<u8>, MultisigError>(
                s,
            ),
    {
        match outcome {
            SubmitOutcome::Finalized(_) => Err(MultisigError::ProtocolViolation),
            SubmitOutcome::Failed(m) => Err(MultisigError::ProposalError(m)),
            SubmitOutcome::Unauthorized(s) => Ok(s),
        }
    }

    /// Prepares the execution of a proposal: recomputes the signing message
    /// from the summary, reads the approver count from storage slot 0, and
    /// builds the advice of every slot from the slot commitments (storage slot
    /// 1) and the slot-indexed signatures. The request is then submitted with
    /// this advice; the engine checks the threshold.
    pub fn execute_transaction(
        slot0: &[u64; 4],
        slot_commitments: &Vec<[u64; 4]>,
        summary_bytes: &Vec<u8>,
        signatures: &Vec<Option<String>>,
    ) -> (r: Result<Vec<AdviceEntry>, MultisigError>)
        ensures
            match r {
                Ok(v) => execution_advice(*slot0, slot_commitments@, summary_bytes@, signatures@)
                    == Ok::<Seq<([u64; 4], Seq<u64>)>, MultisigError>(entries_view(v@)),
                Err(e) => execution_advice(*slot0, slot_commitments@, summary_bytes@, signatures@)
                    == Err::<Seq<([u64; 4], Seq<u64>)>, MultisigError>(e),
            },
    {
        let msg = match signing_message(summary_bytes) {
            Ok(m) => m,
            Err(e) => return Err(e),
        };
        let n = match approver_count(slot0) {
            Ok(n) => n,
            Err(e) => return Err(e),
        };
        if n as usize != slot_commitments.len() {
            return Err(MultisigError::InvalidAccountStorage);
        }
        build_advice(slot_commitments, &msg, signatures)
    }
}

} // verus!
