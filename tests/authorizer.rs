use miden_objects::account::auth::Signature;
use miden_objects::account::{AccountDelta, AccountId, AccountStorageDelta, AccountVaultDelta};
use miden_objects::transaction::{InputNote, InputNotes, OutputNotes, TransactionSummary};
use miden_objects::crypto::dsa::ecdsa_k256_keccak::SecretKey;
use miden_objects::utils::Serializable;
use miden_objects::{Felt, Hasher, Word};
use stateless_multisig_server::authorizer::{
    approver_count, build_advice, commitment_hex, conclude_execution, conclude_proposal,
    signing_message, slot_index_key, CommitmentLayout, SubmitOutcome,
};
use stateless_multisig_server::codec::public_key_from_hex;
use stateless_multisig_server::error::MultisigError;
use stateless_multisig_server::ids::LedgerAccountId;
use stateless_multisig_server::ops::{payment_note_seed, MultisigOps};

fn word(w: &[u64; 4]) -> Word {
    Word::new([Felt::new(w[0]), Felt::new(w[1]), Felt::new(w[2]), Felt::new(w[3])])
}

fn words(w: Word) -> [u64; 4] {
    [w[0].as_int(), w[1].as_int(), w[2].as_int(), w[3].as_int()]
}

fn envelope_hex(sk: &SecretKey, msg: &[u64; 4]) -> String {
    let mut wire = vec![1u8];
    wire.extend(sk.sign(word(msg)).to_bytes());
    format!("0x{}", hex::encode(wire))
}

fn approvers(n: usize) -> (Vec<SecretKey>, Vec<[u64; 4]>) {
    let keys: Vec<SecretKey> = (0..n).map(|_| SecretKey::new()).collect();
    let commitments = keys
        .iter()
        .map(|k| public_key_from_hex(&hex::encode(k.public_key().to_bytes())).unwrap())
        .collect();
    (keys, commitments)
}

#[test]
fn two_of_three_advice_has_entries_for_signed_slots_only() {
    let (keys, commitments) = approvers(3);
    let msg = [100u64, 200, 300, 400];
    let sigs = vec![Some(envelope_hex(&keys[0], &msg)), None, Some(envelope_hex(&keys[2], &msg))];
    let advice = build_advice(&commitments, &msg, &sigs).unwrap();
    assert_eq!(advice.len(), 2);
    let key0 = words(Hasher::merge(&[word(&commitments[0]), word(&msg)]));
    let key2 = words(Hasher::merge(&[word(&commitments[2]), word(&msg)]));
    assert_eq!(advice[0].key, key0);
    assert_eq!(advice[1].key, key2);
    let sig0 = SecretKey::sign(&keys[0], word(&msg));
    let expected0: Vec<u64> = Signature::EcdsaK256Keccak(sig0)
        .to_prepared_signature(word(&msg))
        .iter()
        .map(|f| f.as_int())
        .collect();
    assert_eq!(advice[0].value, expected0);
}

#[test]
fn zero_signatures_give_no_advice() {
    let (_, commitments) = approvers(3);
    let advice = build_advice(&commitments, &[1, 2, 3, 4], &vec![None, None, None]).unwrap();
    assert!(advice.is_empty());
    let advice = build_advice(&commitments, &[1, 2, 3, 4], &vec![]).unwrap();
    assert!(advice.is_empty());
}

#[test]
fn signatures_beyond_the_approver_count_are_ignored() {
    let (keys, commitments) = approvers(2);
    let msg = [9u64, 9, 9, 9];
    let sigs = vec![None, Some(envelope_hex(&keys[1], &msg)), Some("garbage".to_string())];
    let advice = build_advice(&commitments, &msg, &sigs).unwrap();
    assert_eq!(advice.len(), 1);
}

#[test]
fn malformed_signature_names_its_slot() {
    let (keys, commitments) = approvers(3);
    let msg = [1u64, 1, 1, 1];
    let sigs = vec![Some(envelope_hex(&keys[0], &msg)), Some("0x02aa".to_string()), None];
    assert_eq!(
        build_advice(&commitments, &msg, &sigs).err(),
        Some(MultisigError::InvalidSignatureEncoding(1))
    );
    let mut wrong_tag = vec![2u8];
    wrong_tag.extend([0u8; 66]);
    let sigs = vec![None, None, Some(hex::encode(wrong_tag))];
    assert_eq!(
        build_advice(&commitments, &msg, &sigs).err(),
        Some(MultisigError::InvalidSignatureEncoding(2))
    );
    let sigs = vec![Some("0xnothex".to_string())];
    assert_eq!(
        build_advice(&commitments, &msg, &sigs).err(),
        Some(MultisigError::InvalidSignatureEncoding(0))
    );
}

#[test]
fn signature_with_invalid_recovery_id_is_rejected() {
    let (keys, commitments) = approvers(1);
    let msg = [4u64, 3, 2, 1];
    let mut wire = vec![1u8];
    wire.extend(keys[0].sign(word(&msg)).to_bytes());
    wire[65] = 9;
    let sigs = vec![Some(hex::encode(wire))];
    assert_eq!(
        build_advice(&commitments, &msg, &sigs).err(),
        Some(MultisigError::InvalidSignatureEncoding(0))
    );
}

#[test]
fn approver_count_reads_second_element_of_slot_zero() {
    assert_eq!(approver_count(&[0, 3, 0, 0]), Ok(3));
    assert_eq!(approver_count(&[7, 0, 9, 9]), Ok(0));
    assert_eq!(approver_count(&[0, u32::MAX as u64, 0, 0]), Ok(u32::MAX));
    assert_eq!(
        approver_count(&[0, u32::MAX as u64 + 1, 0, 0]),
        Err(MultisigError::InvalidAccountStorage)
    );
    assert_eq!(slot_index_key(2), [2, 0, 0, 0]);
}

#[test]
fn commitment_hex_layouts() {
    let w = [1u64, 0x0102030405060708, 0, u64::MAX];
    let le = commitment_hex(&w, CommitmentLayout::WordBytes);
    assert_eq!(
        le,
        "0x01000000000000000807060504030201".to_string() + "0000000000000000" + "ffffffffffffffff"
    );
    let be = commitment_hex(&w, CommitmentLayout::ElementDigits);
    assert_eq!(
        be,
        "0x00000000000000010102030405060708".to_string() + "0000000000000000" + "ffffffffffffffff"
    );
}

#[test]
fn commitment_hex_matches_word_to_hex() {
    let w = [11u64, 22, 33, 0xdeadbeef];
    assert_eq!(commitment_hex(&w, CommitmentLayout::WordBytes), word(&w).to_hex());
}

#[test]
fn finalized_dry_run_is_a_protocol_violation() {
    let r = conclude_proposal(
        SubmitOutcome::Finalized("0xabc".to_string()),
        vec![1, 2],
        CommitmentLayout::WordBytes,
    );
    assert_eq!(r.err(), Some(MultisigError::ProtocolViolation));
    assert_eq!(
        MultisigOps::propose_transaction(SubmitOutcome::Finalized("x".to_string())),
        Err(MultisigError::ProtocolViolation)
    );
}

#[test]
fn failed_dry_run_is_a_proposal_error() {
    let r = conclude_proposal(
        SubmitOutcome::Failed("bad note".to_string()),
        vec![],
        CommitmentLayout::ElementDigits,
    );
    assert_eq!(r.err(), Some(MultisigError::ProposalError("bad note".to_string())));
}

#[test]
fn unparsable_summary_is_malformed() {
    let r = conclude_proposal(
        SubmitOutcome::Unauthorized(vec![1, 2, 3]),
        vec![],
        CommitmentLayout::WordBytes,
    );
    assert_eq!(r.err(), Some(MultisigError::MalformedProposal));
    assert_eq!(signing_message(&vec![]), Err(MultisigError::MalformedProposal));
    assert_eq!(
        MultisigOps::propose_transaction(SubmitOutcome::Unauthorized(vec![1, 2, 3])),
        Ok(vec![1, 2, 3])
    );
}

#[test]
fn execution_outcomes() {
    assert_eq!(
        conclude_execution(SubmitOutcome::Finalized("0x77".to_string())),
        Ok("0x77".to_string())
    );
    assert_eq!(
        conclude_execution(SubmitOutcome::Unauthorized(vec![])),
        Err(MultisigError::AuthorizationError)
    );
    assert_eq!(
        conclude_execution(SubmitOutcome::Failed("rpc down".to_string())),
        Err(MultisigError::ResourceError("rpc down".to_string()))
    );
}

#[test]
fn execute_needs_a_parsable_summary_and_matching_slots() {
    let r = MultisigOps::execute_transaction(&[0, 2, 0, 0], &vec![[0; 4]; 2], &vec![0u8; 3], &vec![]);
    assert_eq!(r.err(), Some(MultisigError::MalformedProposal));
}

#[test]
fn setup_checks_threshold_and_duplicates() {
    let (_, c) = approvers(3);
    assert_eq!(MultisigOps::setup_account(c.clone(), 0).err(), Some(MultisigError::ConfigError));
    assert_eq!(MultisigOps::setup_account(c.clone(), 4).err(), Some(MultisigError::ConfigError));
    let dup = vec![c[0], c[1], c[0]];
    assert_eq!(MultisigOps::setup_account(dup, 2).err(), Some(MultisigError::ConfigError));
    let ok = MultisigOps::setup_account(c.clone(), 2).unwrap();
    assert_eq!(ok.threshold, 2);
    assert_eq!(ok.approvers, c);
}

fn sample_summary(salt: u64) -> TransactionSummary {
    let id = AccountId::from_hex("0x6d449e4034fadca075d1976fef7e38").unwrap();
    let delta = AccountDelta::new(
        id,
        AccountStorageDelta::default(),
        AccountVaultDelta::default(),
        Felt::new(0),
    )
    .unwrap();
    TransactionSummary::new(
        delta,
        InputNotes::<InputNote>::new(vec![]).unwrap(),
        OutputNotes::new(vec![]).unwrap(),
        word(&[salt, 0, 0, 0]),
    )
}

#[test]
fn proposal_commitment_is_the_summary_commitment() {
    let s = sample_summary(1);
    let bytes = s.to_bytes();
    assert_eq!(signing_message(&bytes), Ok(words(s.to_commitment())));
    let p = conclude_proposal(
        SubmitOutcome::Unauthorized(bytes.clone()),
        vec![9],
        CommitmentLayout::WordBytes,
    )
    .unwrap();
    assert_eq!(p.summary_commitment, s.to_commitment().to_hex());
    assert_eq!(p.summary_bytes, bytes);
    assert_eq!(p.request_bytes, vec![9]);
}

#[test]
fn identical_dry_runs_give_identical_commitments() {
    let again = |salt: u64| {
        conclude_proposal(
            SubmitOutcome::Unauthorized(sample_summary(salt).to_bytes()),
            vec![],
            CommitmentLayout::ElementDigits,
        )
        .unwrap()
        .summary_commitment
    };
    assert_eq!(again(5), again(5));
    assert_ne!(again(5), again(6));
}

#[test]
fn execute_two_of_three_from_summary_and_storage() {
    let (keys, commitments) = approvers(3);
    let summary = sample_summary(3).to_bytes();
    let msg = signing_message(&summary).unwrap();
    let sigs = vec![Some(envelope_hex(&keys[0], &msg)), None, Some(envelope_hex(&keys[2], &msg))];
    let advice = MultisigOps::execute_transaction(&[0, 3, 0, 0], &commitments, &summary, &sigs).unwrap();
    assert_eq!(advice.len(), 2);
    assert_eq!(advice[0].key, words(Hasher::merge(&[word(&commitments[0]), word(&msg)])));
    assert_eq!(advice[1].key, words(Hasher::merge(&[word(&commitments[2]), word(&msg)])));
    assert_eq!(
        MultisigOps::execute_transaction(&[0, 2, 0, 0], &commitments, &summary, &sigs).err(),
        Some(MultisigError::InvalidAccountStorage)
    );
    let none = MultisigOps::execute_transaction(&[0, 3, 0, 0], &commitments, &summary, &vec![]).unwrap();
    assert!(none.is_empty());
}

#[test]
fn payment_seed_is_a_hash_of_the_payment() {
    let s = LedgerAccountId { prefix: 1, suffix: 2 };
    let r = LedgerAccountId { prefix: 3, suffix: 4 };
    let f = LedgerAccountId { prefix: 5, suffix: 6 };
    let seed = payment_note_seed(s, r, f, 100, 0);
    assert_eq!(seed, words(Hasher::merge(&[word(&[1, 2, 3, 4]), word(&[5, 6, 100, 0])])));
    assert_eq!(seed, payment_note_seed(s, r, f, 100, 0));
    assert_ne!(seed, payment_note_seed(s, r, f, 100, 1));
    assert_ne!(seed, payment_note_seed(s, r, f, 101, 0));
}

#[test]
fn valid_setup_with_canonical_distinct_approvers_succeeds() {
    let approvers = vec![[1u64, 0, 0, 0], [2, 0, 0, 0], [0, 0, 0, 1]];
    for t in 1..=3u32 {
        let s = MultisigOps::setup_account(approvers.clone(), t).unwrap();
        assert_eq!(s.threshold, t);
    }
    assert!(MultisigOps::setup_account(vec![], 1).is_err());
}
