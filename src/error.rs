//! Errors of the authorization core.

use vstd::prelude::*;

verus! {

/// What can go wrong while proposing or executing a multisig operation.
#[derive(Debug, Clone, PartialEq, Eq)]
pub enum MultisigError {
    /// A public key is not hex text of a 33-byte compressed or 65-byte
    /// uncompressed secp256k1 point.
    InvalidKeyEncoding,
    /// The signature collected for the given approver slot is malformed.
    InvalidSignatureEncoding(usize),
    /// The account's storage does not hold a valid approver layout.
    InvalidAccountStorage,
    /// An account ID is neither an address, a bech32 ID nor a hex ID.
    InvalidAccountId,
    /// The serialized request or summary of a proposal does not parse.
    MalformedProposal,
    /// The account configuration (approvers, threshold) is not acceptable.
    ConfigError,
    /// A batch payment names no recipient.
    NoRecipients,
    /// No stored proposal has the given ID.
    ProposalNotFound,
    /// No stored account has the given ID.
    AccountNotFound,
    /// A proposal with the same ID is already stored.
    DuplicateProposal,
    /// Signatures can only be added to a pending proposal.
    ProposalNotPending,
    /// A dry run that must not finalize did finalize.
    ProtocolViolation,
    /// The execution resource failed; its own message.
    ResourceError(String),
    /// No proposal could be built; the engine's message.
    ProposalError(String),
    /// The engine's own threshold check refused the operation.
    AuthorizationError,
}

impl MultisigError {
    /// Whether the error is reported to the caller as a fault of the request
    /// rather than of the server: a broken engine or storage contract and a
    /// failing resource are the server's.
    pub fn is_request_error(&self) -> (r: bool)
        ensures
            r <==> !(self is ProtocolViolation || self is ResourceError
                || self is InvalidAccountStorage),
    {
        match self {
            MultisigError::ProtocolViolation => false,
            MultisigError::ResourceError(_) => false,
            MultisigError::InvalidAccountStorage => false,
            _ => true,
        }
    }
}

} // verus!
