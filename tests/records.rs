use miden_objects::account::AccountId;
use stateless_multisig_server::authorizer::ProposalResult;
use stateless_multisig_server::error::MultisigError;
use stateless_multisig_server::ids::{normalize_note_id, parse_account_id, LedgerAccountId};
use stateless_multisig_server::records::{
    AccountAsset, BatchPayoutRecipient, CreateBatchSendProposalRequest,
    ExecuteTransactionResponse, HealthResponse, ProposeTransactionResponse,
};
use stateless_multisig_server::orders::swap_note_inputs;
use stateless_multisig_server::storage::{
    MultisigAccountInfo, MultisigStorage, ProposalStatus, TransactionProposal,
};
use std::collections::HashMap;

fn proposal(status: ProposalStatus) -> TransactionProposal {
    TransactionProposal {
        proposal_id: "prop-a".to_string(),
        account_id: "a1".to_string(),
        description: String::new(),
        summary_commitment: "0x00".to_string(),
        summary_bytes: vec![],
        request_bytes: vec![],
        signatures: HashMap::new(),
        status,
        created_at: 0,
        note_ids: vec![],
    }
}

#[test]
fn signatures_by_slot_with_overwrite() {
    let mut p = proposal(ProposalStatus::Pending);
    assert_eq!(p.add_signature(2, "aa".to_string()), Ok(()));
    assert_eq!(p.add_signature(0, "bb".to_string()), Ok(()));
    assert_eq!(p.add_signature(2, "cc".to_string()), Ok(()));
    assert!(p.check_threshold(2));
    assert!(!p.check_threshold(3));
    assert_eq!(
        p.get_signatures_hex(4),
        vec![Some("bb".to_string()), None, Some("cc".to_string()), None]
    );
    assert_eq!(p.get_signatures_hex(0), Vec::<Option<String>>::new());
}

#[test]
fn signatures_only_while_pending() {
    let mut p = proposal(ProposalStatus::Executed);
    assert_eq!(p.add_signature(0, "aa".to_string()), Err(MultisigError::ProposalNotPending));
    assert!(p.signatures.is_empty());
    assert!(p.check_threshold(0));
}

#[test]
fn account_ids_in_hex_bech32_and_address_form() {
    let expected = AccountId::from_hex("0x6d449e4034fadca075d1976fef7e38").unwrap();
    let hex = parse_account_id("0x6d449e4034fadca075d1976fef7e38").unwrap();
    assert_eq!(hex.prefix, expected.prefix().as_u64());
    assert_eq!(hex.suffix, expected.suffix().as_int());
    let bech = parse_account_id("mm1apk5f8jqxnadegr46xtklmm78qhdgkwc").unwrap();
    assert_eq!(bech, hex);
    let address = parse_account_id("mm1apk5f8jqxnadegr46xtklmm78qhdgkwc_qpgqqwcfx0p").unwrap();
    assert_eq!(address, hex);
    assert_eq!(parse_account_id("mtst1nothing"), Err(MultisigError::InvalidAccountId));
    assert_eq!(parse_account_id("0x12"), Err(MultisigError::InvalidAccountId));
    assert_eq!(parse_account_id(""), Err(MultisigError::InvalidAccountId));
}

#[test]
fn note_ids_get_a_hex_prefix() {
    assert_eq!(normalize_note_id("abcd"), "0xabcd");
    assert_eq!(normalize_note_id("0xabcd"), "0xabcd");
    assert_eq!(normalize_note_id("0Xabcd"), "0Xabcd");
    assert_eq!(normalize_note_id(""), "0x");
}

#[test]
fn proposal_blobs_are_hex_encoded() {
    let r = ProposeTransactionResponse::from_proposal(ProposalResult {
        summary_commitment: "0x01".to_string(),
        summary_bytes: vec![0x00, 0xab, 0xff],
        request_bytes: vec![0x10],
    });
    assert_eq!(r.summary_commitment, "0x01");
    assert_eq!(r.summary_bytes_hex, "00abff");
    assert_eq!(r.request_bytes_hex, "10");
}

#[test]
fn execution_failure_is_reported_as_data() {
    let ok = ExecuteTransactionResponse::from_result(Ok("0xtx".to_string()));
    assert!(ok.success);
    assert_eq!(ok.transaction_id, Some("0xtx".to_string()));
    assert_eq!(ok.error, None);
    let err = ExecuteTransactionResponse::from_result(Err("not enough signatures".to_string()));
    assert!(!err.success);
    assert_eq!(err.transaction_id, None);
    assert_eq!(err.error, Some("not enough signatures".to_string()));
}

#[test]
fn batch_needs_a_recipient() {
    let empty = CreateBatchSendProposalRequest { account_id: "a".to_string(), recipients: vec![] };
    assert_eq!(empty.validate(), Err(MultisigError::NoRecipients));
    let one = CreateBatchSendProposalRequest {
        account_id: "a".to_string(),
        recipients: vec![BatchPayoutRecipient {
            recipient_id: "r".to_string(),
            faucet_id: "f".to_string(),
            amount: 100,
        }],
    };
    assert_eq!(one.validate(), Ok(()));
}

#[test]
fn health_and_balances() {
    let h = HealthResponse::ok(42);
    assert_eq!(h.status, "ok");
    assert_eq!(h.sync_height, 42);
    let b = AccountAsset { faucet_id: "f".to_string(), amount: 7 }.to_balance_info();
    assert_eq!(b.faucet_id, "f");
    assert_eq!(b.amount, 7);
}

#[test]
fn request_errors_are_told_apart() {
    assert!(MultisigError::InvalidKeyEncoding.is_request_error());
    assert!(MultisigError::AuthorizationError.is_request_error());
    assert!(!MultisigError::ProtocolViolation.is_request_error());
    assert!(!MultisigError::ResourceError("x".to_string()).is_request_error());
}

fn account(id: &str, approvers: usize, threshold: u32) -> MultisigAccountInfo {
    MultisigAccountInfo {
        account_id: id.to_string(),
        approvers: (0..approvers).map(|i| format!("c{}", i)).collect(),
        original_public_keys: vec![],
        threshold,
        created_at: 1,
    }
}

fn proposal_for(id: &str, account_id: &str) -> TransactionProposal {
    let mut p = proposal(ProposalStatus::Pending);
    p.proposal_id = id.to_string();
    p.account_id = account_id.to_string();
    p
}

#[test]
fn store_accounts_replace_by_id() {
    let mut s = MultisigStorage::new();
    s.add_account(account("a", 3, 2));
    s.add_account(account("b", 1, 1));
    s.add_account(account("a", 2, 1));
    assert_eq!(s.list_accounts().len(), 2);
    assert_eq!(s.get_account(&"a".to_string()).unwrap().threshold, 1);
    assert!(s.get_account(&"z".to_string()).is_none());
}

#[test]
fn store_proposals_signatures_and_threshold() {
    let mut s = MultisigStorage::new();
    s.add_account(account("a", 3, 2));
    assert_eq!(s.create_proposal(proposal_for("prop-a", "a")), Ok("prop-a".to_string()));
    assert_eq!(s.create_proposal(proposal_for("prop-b", "b")), Ok("prop-b".to_string()));
    assert_eq!(s.create_proposal(proposal_for("prop-c", "a")), Ok("prop-c".to_string()));
    assert_eq!(s.create_proposal(proposal_for("prop-a", "a")), Err(MultisigError::DuplicateProposal));
    let ids: Vec<String> = s
        .get_account_proposals(&"a".to_string())
        .iter()
        .map(|p| p.proposal_id.clone())
        .collect();
    assert_eq!(ids, vec!["prop-a".to_string(), "prop-c".to_string()]);
    let first = "prop-a".to_string();
    assert_eq!(s.check_threshold(&first), Ok(false));
    assert_eq!(s.add_signature(&first, 0, "s0".to_string()), Ok(()));
    assert_eq!(s.add_signature(&first, 2, "s2".to_string()), Ok(()));
    assert_eq!(s.check_threshold(&first), Ok(true));
    assert_eq!(
        s.get_signatures_hex(&first),
        Ok(vec![Some("s0".to_string()), None, Some("s2".to_string())])
    );
    assert_eq!(s.update_proposal_status(&first, ProposalStatus::Executed), Ok(()));
    assert_eq!(s.get_proposal(&first).unwrap().status, ProposalStatus::Executed);
    assert_eq!(
        s.add_signature(&first, 1, "s1".to_string()),
        Err(MultisigError::ProposalNotPending)
    );
    let missing = "nope".to_string();
    assert_eq!(s.add_signature(&missing, 0, "x".to_string()), Err(MultisigError::ProposalNotFound));
    assert_eq!(s.check_threshold(&"prop-b".to_string()), Err(MultisigError::AccountNotFound));
    assert_eq!(
        s.update_proposal_status(&missing, ProposalStatus::Failed),
        Err(MultisigError::ProposalNotFound)
    );
}

#[test]
fn swap_note_inputs_layout() {
    let r = swap_note_inputs(&[1, 2, 3, 4], 99, 7, LedgerAccountId { prefix: 11, suffix: 12 });
    assert_eq!(r, vec![1, 2, 3, 4, 99, 7, 0, 0, 0, 0, 12, 11]);
}

#[test]
fn store_signature_on_pending_proposal_replaces_slot() {
    let mut s = MultisigStorage::new();
    s.add_account(account("acct", 2, 1));
    assert_eq!(s.create_proposal(proposal_for("prop-x", "acct")), Ok("prop-x".to_string()));
    let id = "prop-x".to_string();
    assert_eq!(s.add_signature(&id, 1, "old".to_string()), Ok(()));
    assert_eq!(s.add_signature(&id, 1, "new".to_string()), Ok(()));
    assert_eq!(s.get_signatures_hex(&id), Ok(vec![None, Some("new".to_string())]));
    assert_eq!(s.check_threshold(&id), Ok(true));
    assert_eq!(s.get_signatures_hex(&"none".to_string()), Err(MultisigError::ProposalNotFound));
}
