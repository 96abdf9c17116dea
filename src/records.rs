//! Requests and responses exchanged with callers, as plain records.

use crate::authorizer::ProposalResult;
use crate::error::MultisigError;
use crate::hexcode::{hex_encode, hex_text};
use crate::storage::AssetInfo;
use vstd::prelude::*;
use vstd::string::*;

verus! {

/// Liveness report: a status word and the ledger height the resource has synced to.
pub struct HealthResponse {
    pub status: String,
    pub sync_height: u32,
}

impl HealthResponse {
    /// The report of a resource that answered with its height.
    pub fn ok(sync_height: u32) -> (r: HealthResponse)
        ensures
            r.status@ == seq!['o', 'k'],
            r.sync_height == sync_height,
    {
        proof {
            reveal_strlit("ok");
        }
        let status = String::from_str("ok");
        assert(status@ =~= seq!['o', 'k']);
        HealthResponse { status, sync_height }
    }
}

/// Asks for a new multisig account: its approvers' public keys (hex) and its threshold.
pub struct CreateMultisigRequest {
    pub threshold: u32,
    pub public_keys: Vec<String>,
}

pub struct CreateMultisigResponse {
    pub account_id: String,
}

pub struct GetNotesResponse {
    pub notes: Vec<NoteInfo>,
}

/// A note the account can consume.
pub struct NoteInfo {
    pub note_id: String,
    pub assets: Vec<AssetInfo>,
    pub sender: Option<String>,
    pub note_type: String,
}

/// Proposes consuming the given notes into the account.
pub struct CreateConsumeProposalRequest {
    pub account_id: String,
    pub note_ids: Vec<String>,
}

/// Proposes paying `amount` of the faucet's asset to one recipient.
pub struct CreateSendProposalRequest {
    pub account_id: String,
    pub recipient_id: String,
    pub faucet_id: String,
    pub amount: u64,
}

/// One recipient of a batch payment.
#[derive(Clone)]
pub struct BatchPayoutRecipient {
    pub recipient_id: String,
    pub faucet_id: String,
    pub amount: u64,
}

/// Proposes paying several recipients in one operation.
pub struct CreateBatchSendProposalRequest {
    pub account_id: String,
    pub recipients: Vec<BatchPayoutRecipient>,
}

impl CreateBatchSendProposalRequest {
    /// A batch must name at least one recipient.
    pub fn validate(&self) -> (r: Result<(), MultisigError>)
        ensures
            r is Ok <==> self.recipients@.len() > 0,
            r matches Err(e) ==> e == MultisigError::NoRecipients,
    {
        if self.recipients.len() == 0 {
            Err(MultisigError::NoRecipients)
        } else {
            Ok(())
        }
    }
}

/// Asks to mint `amount` of a faucet's asset to an account, with no multisig gate.
pub struct MintRequest {
    pub account_id: String,
    pub faucet_id: String,
    pub amount: u64,
}

pub struct MintResponse {
    pub transaction_id: String,
}

/// A proposal as the caller receives it: the commitment to sign and the two blobs as hex.
pub struct ProposeTransactionResponse {
    pub summary_commitment: String,
    pub summary_bytes_hex: String,
    pub request_bytes_hex: String,
}

impl ProposeTransactionResponse {
    /// Writes a proposal's blobs as lower-case hex.
    pub fn from_proposal(p: ProposalResult) -> (r: ProposeTransactionResponse)
        ensures
            r.summary_commitment@ == p.summary_commitment@,
            r.summary_bytes_hex@ == hex_text(p.summary_bytes@),
            r.request_bytes_hex@ == hex_text(p.request_bytes@),
    {
        let summary_bytes_hex = hex_encode(&p.summary_bytes);
        let request_bytes_hex = hex_encode(&p.request_bytes);
        ProposeTransactionResponse {
            summary_commitment: p.summary_commitment,
            summary_bytes_hex,
            request_bytes_hex,
        }
    }
}

/// The result of an execution: a transaction ID on success, a message otherwise.
pub struct ExecuteTransactionResponse {
    pub success: bool,
    pub transaction_id: Option<String>,
    pub error: Option<String>,
}

impl ExecuteTransactionResponse {
    /// Reports an execution result as data; a failure is not a transport error.
    pub fn from_result(result: Result<String, String>) -> (r: ExecuteTransactionResponse)
        ensures
            match result {
                Ok(id) => r.success && r.transaction_id == Some(id) && r.error is None,
                Err(m) => !r.success && r.transaction_id is None && r.error == Some(m),
            },
    {
        match result {
            Ok(id) => ExecuteTransactionResponse {
                success: true,
                transaction_id: Some(id),
                error: None,
            },
            Err(m) => ExecuteTransactionResponse {
                success: false,
                transaction_id: None,
                error: Some(m),
            },
        }
    }
}

pub struct AccountBalanceInfo {
    pub faucet_id: String,
    pub amount: u64,
}

pub struct GetBalancesResponse {
    pub balances: Vec<AccountBalanceInfo>,
}

/// Asks to execute a proposal with the signatures collected so far, indexed by approver slot.
pub struct ExecuteTransactionRequest {
    pub account_id: String,
    pub request_bytes_hex: String,
    pub summary_bytes_hex: String,
    pub signatures_hex: Vec<Option<String>>,
    pub public_keys_hex: Vec<String>,
}

/// An order for the swap relay.
pub struct SubmitOrderRequest {
    pub account_id: String,
    pub faucet_id_in: String,
    pub amount_in: u64,
    pub faucet_id_out: String,
    pub min_amount_out: u64,
    pub recipient_account_id: String,
    pub deadline: u64,
}

pub struct SubmitOrderResponse {
    pub success: bool,
    pub message: String,
    pub order_id: Option<String>,
    pub p2id_note: Option<String>,
}

/// A consumable note as the execution resource reports it.
pub struct NoteInfoResponse {
    pub note_id: String,
    pub assets: Vec<(String, u64)>,
    pub sender: Option<String>,
}

/// An asset balance of an account.
pub struct AccountAsset {
    pub faucet_id: String,
    pub amount: u64,
}

impl AccountAsset {
    /// The balance as reported to callers.
    pub fn to_balance_info(self) -> (r: AccountBalanceInfo)
        ensures
            r.faucet_id == self.faucet_id,
            r.amount == self.amount,
    {
        AccountBalanceInfo { faucet_id: self.faucet_id, amount: self.amount }
    }
}

} // verus!
