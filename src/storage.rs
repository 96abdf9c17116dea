//! Records a caller keeps about multisig accounts and their proposals, with
//! the queries the protocol needs on them.

use crate::error::MultisigError;
use std::collections::HashMap;
use vstd::prelude::*;

verus! {

broadcast use vstd::std_specs::hash::group_hash_axioms;

/// A multisig account as its owner records it.
pub struct MultisigAccountInfo {
    pub account_id: String,
    /// Key commitments of the approvers, as hex, in slot order.
    pub approvers: Vec<String>,
    /// The approvers' public keys as they were given, in slot order.
    pub original_public_keys: Vec<String>,
    pub threshold: u32,
    pub created_at: u64,
}

/// Where a proposal stands.
#[derive(PartialEq, Eq, Structural, Debug, Clone, Copy)]
pub enum ProposalStatus {
    Pending,
    Ready,
    Executed,
    Failed,
}

/// A proposal waiting for signatures.
pub struct TransactionProposal {
    pub proposal_id: String,
    pub account_id: String,
    pub description: String,
    pub summary_commitment: String,
    pub summary_bytes: Vec<u8>,
    pub request_bytes: Vec<u8>,
    /// Signatures (hex) by approver slot.
    pub signatures: HashMap<usize, String>,
    pub status: ProposalStatus,
    pub created_at: u64,
    pub note_ids: Vec<String>,
}

/// A consumable note with its assets.
pub struct ConsumableNoteInfo {
    pub note_id: String,
    pub assets: Vec<AssetInfo>,
    pub sender: Option<String>,
    pub note_type: String,
}

/// An amount of one faucet's asset.
pub struct AssetInfo {
    pub faucet_id: String,
    pub amount: u64,
}

/// The signature of slot `i` in a slot-indexed map, if any.
pub open spec fn slot_signature(m: Map<usize, String>, i: usize) -> Option<String> {
    if m.contains_key(i) {
        Some(m[i])
    } else {
        None
    }
}

impl TransactionProposal {
    /// Records the signature of an approver slot while the proposal is
    /// pending; a second signature for the same slot replaces the first.
    pub fn add_signature(&mut self, approver_index: usize, signature_hex: String) -> (r: Result<
        (),
        MultisigError,
    >)
        ensures
            r is Ok <==> old(self).status == ProposalStatus::Pending,
            r is Ok ==> final(self).signatures@ == old(self).signatures@.insert(
                approver_index,
                signature_hex,
            ),
            r is Err ==> final(self).signatures@ == old(self).signatures@,
            r matches Err(e) ==> e == MultisigError::ProposalNotPending,
            final(self).status == old(self).status,
            final(self).proposal_id == old(self).proposal_id,
            final(self).account_id == old(self).account_id,
    {
        if self.status != ProposalStatus::Pending {
            return Err(MultisigError::ProposalNotPending);
        }
        self.signatures.insert(approver_index, signature_hex);
        Ok(())
    }

    /// Whether at least `threshold` slots have signed.
    pub fn check_threshold(&self, threshold: u32) -> (r: bool)
        ensures
            r == (self.signatures@.len() >= threshold),
    {
        self.signatures.len() >= threshold as usize
    }

    /// The collected signatures as a slot-indexed array of `approver_count`
    /// entries, `None` for slots that have not signed.
    pub fn get_signatures_hex(&self, approver_count: usize) -> (r: Vec<Option<String>>)
        ensures
            r@.len() == approver_count,
            forall|i: int| 0 <= i < approver_count ==> #[trigger] r@[i] == slot_signature(
                self.signatures@,
                i as usize,
            ),
    {
        let mut out: Vec<Option<String>> = Vec::with_capacity(approver_count);
        let mut i: usize = 0;
        while i < approver_count
            invariant
                i <= approver_count,
                out@.len() == i,
                forall|j: int| 0 <= j < i ==> #[trigger] out@[j] == slot_signature(
                    self.signatures@,
                    j as usize,
                ),
            decreases approver_count - i,
        {
            let entry: Option<String> = match self.signatures.get(&i) {
                Some(s) => Some(s.clone()),
                None => None,
            };
            out.push(entry);
            i = i + 1;
        }
        out
    }
}

} // verus!

verus! {

pub open spec fn unique_account_ids(s: Seq<MultisigAccountInfo>) -> bool {
    forall|i: int, j: int|
        0 <= i < j < s.len() ==> (#[trigger] s[i]).account_id@ != (#[trigger] s[j]).account_id@
}

pub open spec fn unique_proposal_ids(s: Seq<TransactionProposal>) -> bool {
    forall|i: int, j: int|
        0 <= i < j < s.len() ==> (#[trigger] s[i]).proposal_id@ != (#[trigger] s[j]).proposal_id@
}

/// Accounts and proposals a caller keeps, each identified by a unique ID.
pub struct MultisigStorage {
    accounts: Vec<MultisigAccountInfo>,
    proposals: Vec<TransactionProposal>,
}

impl MultisigStorage {
    pub closed spec fn accounts_spec(self) -> Seq<MultisigAccountInfo> {
        self.accounts@
    }

    /// Proposals in the order they were created.
    pub closed spec fn proposals_spec(self) -> Seq<TransactionProposal> {
        self.proposals@
    }

    /// Whether a stored proposal has this ID.
    pub open spec fn has_proposal(self, id: Seq<char>) -> bool {
        exists|i: int|
            0 <= i < self.proposals_spec().len() && (#[trigger] self.proposals_spec()[i]).proposal_id@
                == id
    }

    /// Whether a stored account has this ID.
    pub open spec fn has_account(self, id: Seq<char>) -> bool {
        exists|j: int|
            0 <= j < self.accounts_spec().len() && (#[trigger] self.accounts_spec()[j]).account_id@
                == id
    }

    /// Whether the proposal with this ID is stored and its account is too.
    pub open spec fn has_proposal_and_account(self, id: Seq<char>) -> bool {
        exists|i: int|
            0 <= i < self.proposals_spec().len() && (#[trigger] self.proposals_spec()[i]).proposal_id@
                == id && self.has_account(self.proposals_spec()[i].account_id@)
    }

    /// No two accounts and no two proposals share an ID.
    pub open spec fn wf(self) -> bool {
        unique_account_ids(self.accounts_spec()) && unique_proposal_ids(self.proposals_spec())
    }

    /// An empty store.
    pub fn new() -> (r: MultisigStorage)
        ensures
            r.wf(),
            r.accounts_spec() == Seq::<MultisigAccountInfo>::empty(),
            r.proposals_spec() == Seq::<TransactionProposal>::empty(),
    {
        MultisigStorage { accounts: Vec::new(), proposals: Vec::new() }
    }

    /// In a well-formed store, a proposal ID names one position only.
    proof fn lemma_proposal_unique(self, i: int)
        requires
            self.wf(),
            0 <= i < self.proposals_spec().len(),
        ensures
            forall|k: int|
                0 <= k < self.proposals_spec().len() && (#[trigger] self.proposals_spec()[k]).proposal_id@
                    == self.proposals_spec()[i].proposal_id@ ==> k == i,
    {
        assert forall|k: int|
            0 <= k < self.proposals_spec().len() && (#[trigger] self.proposals_spec()[k]).proposal_id@
                == self.proposals_spec()[i].proposal_id@ implies k == i by {
            if k < i {
                assert(self.proposals_spec()[k].proposal_id@ != self.proposals_spec()[i].proposal_id@);
            } else if k > i {
                assert(self.proposals_spec()[i].proposal_id@ != self.proposals_spec()[k].proposal_id@);
            }
        }
    }

    /// Position of the account with the given ID.
    fn account_position(&self, account_id: &String) -> (r: Option<usize>)
        ensures
            match r {
                Some(i) => i < self.accounts@.len() && self.accounts@[i as int].account_id@
                    == account_id@,
                None => forall|i: int|
                    0 <= i < self.accounts@.len() ==> (#[trigger] self.accounts@[i]).account_id@
                        != account_id@,
            },
    {
        let mut i: usize = 0;
        while i < self.accounts.len()
            invariant
                i <= self.accounts@.len(),
                forall|j: int| 0 <= j < i ==> (#[trigger] self.accounts@[j]).account_id@ != account_id@,
            decreases self.accounts@.len() - i,
        {
            if self.accounts[i].account_id == *account_id {
                return Some(i);
            }
            i = i + 1;
        }
        None
    }

    /// Position of the proposal with the given ID.
    fn proposal_position(&self, proposal_id: &String) -> (r: Option<usize>)
        ensures
            match r {
                Some(i) => i < self.proposals@.len() && self.proposals@[i as int].proposal_id@
                    == proposal_id@,
                None => forall|i: int|
                    0 <= i < self.proposals@.len() ==> (#[trigger] self.proposals@[i]).proposal_id@
                        != proposal_id@,
            },
    {
        let mut i: usize = 0;
        while i < self.proposals.len()
            invariant
                i <= self.proposals@.len(),
                forall|j: int|
                    0 <= j < i ==> (#[trigger] self.proposals@[j]).proposal_id@ != proposal_id@,
            decreases self.proposals@.len() - i,
        {
            if self.proposals[i].proposal_id == *proposal_id {
                return Some(i);
            }
            i = i + 1;
        }
        None
    }

    /// Stores an account, replacing the account with the same ID if there is one.
    pub fn add_account(&mut self, info: MultisigAccountInfo)
        requires
            old(self).wf(),
        ensures
            final(self).wf(),
            final(self).proposals_spec() == old(self).proposals_spec(),
            (exists|i: int|
                0 <= i < old(self).accounts_spec().len() && (#[trigger] old(
                    self,
                ).accounts_spec()[i]).account_id@ == info.account_id@ && final(self).accounts_spec()
                    == old(self).accounts_spec().update(i, info)) || ((forall|i: int|
                0 <= i < old(self).accounts_spec().len() ==> (#[trigger] old(
                    self,
                ).accounts_spec()[i]).account_id@ != info.account_id@) && final(self).accounts_spec()
                == old(self).accounts_spec().push(info)),
    {
        let ghost before = self.accounts@;
        match self.account_position(&info.account_id) {
            Some(i) => {
                let ghost id = info.account_id@;
                let _ = self.accounts.remove(i);
                self.accounts.insert(i, info);
                proof {
                    assert(self.accounts@ =~= before.update(i as int, info));
                    assert(old(self).accounts_spec()[i as int].account_id@ == id);
                    assert forall|a: int, b: int|
                        0 <= a < b < self.accounts@.len() implies (
                        #[trigger] self.accounts@[a]).account_id@ != (
                        #[trigger] self.accounts@[b]).account_id@ by {
                        assert(old(self).accounts_spec()[a].account_id@ != old(
                            self,
                        ).accounts_spec()[b].account_id@);
                    }
                }
            },
            None => {
                self.accounts.push(info);
                proof {
                    assert forall|a: int, b: int|
                        0 <= a < b < self.accounts@.len() implies (
                        #[trigger] self.accounts@[a]).account_id@ != (
                        #[trigger] self.accounts@[b]).account_id@ by {
                        if b < before.len() {
                            assert(old(self).accounts_spec()[a].account_id@ != old(
                                self,
                            ).accounts_spec()[b].account_id@);
                        } else {
                            assert(before[a].account_id@ != info.account_id@);
                        }
                    }
                }
            },
        }
    }

    /// The account with the given ID, if stored.
    pub fn get_account(&self, account_id: &String) -> (r: Option<&MultisigAccountInfo>)
        ensures
            match r {
                Some(a) => self.accounts_spec().contains(*a) && a.account_id@ == account_id@,
                None => forall|i: int|
                    0 <= i < self.accounts_spec().len() ==> (
                    #[trigger] self.accounts_spec()[i]).account_id@ != account_id@,
            },
    {
        match self.account_position(account_id) {
            Some(i) => {
                assert(self.accounts@[i as int] == self.accounts@[i as int]);
                Some(&self.accounts[i])
            },
            None => None,
        }
    }

    /// All stored accounts.
    pub fn list_accounts(&self) -> (r: &Vec<MultisigAccountInfo>)
        ensures
            r@ == self.accounts_spec(),
    {
        &self.accounts
    }

    /// Stores a new proposal and returns its ID. An ID already in use is
    /// refused rather than overwritten, so that a proposal's collected
    /// signatures are never silently replaced and every ID names one proposal.
    pub fn create_proposal(&mut self, proposal: TransactionProposal) -> (r: Result<
        String,
        MultisigError,
    >)
        requires
            old(self).wf(),
        ensures
            final(self).wf(),
            final(self).accounts_spec() == old(self).accounts_spec(),
            r is Ok <==> forall|i: int|
                0 <= i < old(self).proposals_spec().len() ==> (
                #[trigger] old(self).proposals_spec()[i]).proposal_id@ != proposal.proposal_id@,
            r matches Ok(id) ==> id@ == proposal.proposal_id@ && final(self).proposals_spec()
                == old(self).proposals_spec().push(proposal),
            r matches Err(e) ==> e == MultisigError::DuplicateProposal && final(self).proposals_spec()
                == old(self).proposals_spec(),
    {
        match self.proposal_position(&proposal.proposal_id) {
            Some(_) => Err(MultisigError::DuplicateProposal),
            None => {
                let id = proposal.proposal_id.clone();
                let ghost before = self.proposals@;
                let ghost fresh = proposal;
                self.proposals.push(proposal);
                proof {
                    assert forall|a: int, b: int|
                        0 <= a < b < self.proposals@.len() implies (
                        #[trigger] self.proposals@[a]).proposal_id@ != (
                        #[trigger] self.proposals@[b]).proposal_id@ by {
                        if b < before.len() {
                            assert(old(self).proposals_spec()[a].proposal_id@ != old(
                                self,
                            ).proposals_spec()[b].proposal_id@);
                        } else {
                            assert(before[a].proposal_id@ != fresh.proposal_id@);
                        }
                    }
                }
                Ok(id)
            },
        }
    }

    /// The proposal with the given ID, if stored.
    pub fn get_proposal(&self, proposal_id: &String) -> (r: Option<&TransactionProposal>)
        ensures
            match r {
                Some(p) => self.proposals_spec().contains(*p) && p.proposal_id@ == proposal_id@,
                None => forall|i: int|
                    0 <= i < self.proposals_spec().len() ==> (
                    #[trigger] self.proposals_spec()[i]).proposal_id@ != proposal_id@,
            },
    {
        match self.proposal_position(proposal_id) {
            Some(i) => Some(&self.proposals[i]),
            None => None,
        }
    }

    /// The proposals of an account, in the order they were created.
    pub fn get_account_proposals(&self, account_id: &String) -> (r: Vec<&TransactionProposal>)
        ensures
            r@.map_values(|p: &TransactionProposal| *p) == self.proposals_spec().filter(
                |p: TransactionProposal| p.account_id@ == account_id@,
            ),
    {
        let mut out: Vec<&TransactionProposal> = Vec::new();
        let mut i: usize = 0;
        while i < self.proposals.len()
            invariant
                i <= self.proposals@.len(),
                out@.map_values(|p: &TransactionProposal| *p) == self.proposals@.subrange(
                    0,
                    i as int,
                ).filter(|p: TransactionProposal| p.account_id@ == account_id@),
            decreases self.proposals@.len() - i,
        {
            let ghost prev = self.proposals@.subrange(0, i as int);
            proof {
                assert(self.proposals@.subrange(0, i + 1) =~= prev.push(self.proposals@[i as int]));
                prev.lemma_filter_push(self.proposals@[i as int], |p: TransactionProposal| p.account_id@ == account_id@);
            }
            if self.proposals[i].account_id == *account_id {
                let ghost before = out@;
                out.push(&self.proposals[i]);
                proof {
                    assert(out@.map_values(|p: &TransactionProposal| *p) =~= before.map_values(
                        |p: &TransactionProposal| *p,
                    ).push(self.proposals@[i as int]));
                }
            }
            i = i + 1;
        }
        proof {
            assert(self.proposals@.subrange(0, self.proposals@.len() as int) =~= self.proposals@);
        }
        out
    }

    /// Records an approver's signature on a pending proposal.
    pub fn add_signature(
        &mut self,
        proposal_id: &String,
        approver_index: usize,
        signature_hex: String,
    ) -> (r: Result<(), MultisigError>)
        requires
            old(self).wf(),
        ensures
            final(self).wf(),
            final(self).accounts_spec() == old(self).accounts_spec(),
            final(self).proposals_spec().len() == old(self).proposals_spec().len(),
            r is Ok <==> exists|i: int|
                0 <= i < old(self).proposals_spec().len() && (#[trigger] old(
                    self,
                ).proposals_spec()[i]).proposal_id@ == proposal_id@ && old(self).proposals_spec()[i].status
                    == ProposalStatus::Pending,
            r == Err::<(), MultisigError>(MultisigError::ProposalNotFound) <==> !old(
                self,
            ).has_proposal(proposal_id@),
            r == Err::<(), MultisigError>(MultisigError::ProposalNotPending) <==> exists|i: int|
                0 <= i < old(self).proposals_spec().len() && (#[trigger] old(
                    self,
                ).proposals_spec()[i]).proposal_id@ == proposal_id@ && old(self).proposals_spec()[i].status
                    != ProposalStatus::Pending,
            r is Err ==> r == Err::<(), MultisigError>(MultisigError::ProposalNotFound) || r == Err::<
                (),
                MultisigError,
            >(MultisigError::ProposalNotPending),
            r is Err ==> final(self).proposals_spec() == old(self).proposals_spec(),
            r is Ok ==> exists|i: int|
                0 <= i < old(self).proposals_spec().len() && (#[trigger] old(
                    self,
                ).proposals_spec()[i]).proposal_id@ == proposal_id@ && old(self).proposals_spec()[i].status
                    == ProposalStatus::Pending && final(self).proposals_spec()[i].signatures@ == old(
                    self,
                ).proposals_spec()[i].signatures@.insert(approver_index, signature_hex)
                    && final(self).proposals_spec() == old(self).proposals_spec().update(
                    i,
                    final(self).proposals_spec()[i],
                ),
    {
        let i = match self.proposal_position(proposal_id) {
            Some(i) => i,
            None => return Err(MultisigError::ProposalNotFound),
        };
        if self.proposals[i].status != ProposalStatus::Pending {
            proof {
                assert forall|k: int|
                    0 <= k < old(self).proposals_spec().len() && (#[trigger] old(
                        self,
                    ).proposals_spec()[k]).proposal_id@ == proposal_id@ implies k == i by {
                    if k < i {
                        assert(old(self).proposals_spec()[k].proposal_id@ != old(
                            self,
                        ).proposals_spec()[i as int].proposal_id@);
                    } else if k > i {
                        assert(old(self).proposals_spec()[i as int].proposal_id@ != old(
                            self,
                        ).proposals_spec()[k].proposal_id@);
                    }
                }
                assert(old(self).proposals_spec()[i as int].proposal_id@ == proposal_id@);
            }
            return Err(MultisigError::ProposalNotPending);
        }
        let ghost before = self.proposals@;
        let mut p = self.proposals.remove(i);
        let r = p.add_signature(approver_index, signature_hex);
        let ghost updated = p;
        self.proposals.insert(i, p);
        proof {
            assert(self.proposals@ =~= before.update(i as int, updated));
            assert forall|a: int, b: int|
                0 <= a < b < self.proposals@.len() implies (#[trigger] self.proposals@[a]).proposal_id@
                != (#[trigger] self.proposals@[b]).proposal_id@ by {
                assert(old(self).proposals_spec()[a].proposal_id@ != old(
                    self,
                ).proposals_spec()[b].proposal_id@);
            }
            assert(old(self).proposals_spec()[i as int].proposal_id@ == proposal_id@);
        }
        r
    }

    /// Sets the status of a proposal.
    pub fn update_proposal_status(&mut self, proposal_id: &String, status: ProposalStatus) -> (r:
        Result<(), MultisigError>)
        requires
            old(self).wf(),
        ensures
            final(self).wf(),
            final(self).accounts_spec() == old(self).accounts_spec(),
            final(self).proposals_spec().len() == old(self).proposals_spec().len(),
            r is Err <==> forall|i: int|
                0 <= i < old(self).proposals_spec().len() ==> (
                #[trigger] old(self).proposals_spec()[i]).proposal_id@ != proposal_id@,
            r matches Err(e) ==> e == MultisigError::ProposalNotFound && final(self).proposals_spec()
                == old(self).proposals_spec(),
            r is Ok ==> exists|i: int|
                0 <= i < old(self).proposals_spec().len() && (#[trigger] old(
                    self,
                ).proposals_spec()[i]).proposal_id@ == proposal_id@ && final(self).proposals_spec()[i].status
                    == status && final(self).proposals_spec()[i].signatures@ == old(
                    self,
                ).proposals_spec()[i].signatures@ && final(self).proposals_spec() == old(
                    self,
                ).proposals_spec().update(i, final(self).proposals_spec()[i]),
    {
        let i = match self.proposal_position(proposal_id) {
            Some(i) => i,
            None => return Err(MultisigError::ProposalNotFound),
        };
        let ghost before = self.proposals@;
        let mut p = self.proposals.remove(i);
        p.status = status;
        let ghost updated = p;
        self.proposals.insert(i, p);
        proof {
            assert(self.proposals@ =~= before.update(i as int, updated));
            assert forall|a: int, b: int|
                0 <= a < b < self.proposals@.len() implies (#[trigger] self.proposals@[a]).proposal_id@
                != (#[trigger] self.proposals@[b]).proposal_id@ by {
                assert(old(self).proposals_spec()[a].proposal_id@ != old(
                    self,
                ).proposals_spec()[b].proposal_id@);
            }
            assert(old(self).proposals_spec()[i as int].proposal_id@ == proposal_id@);
        }
        Ok(())
    }

    /// Whether a proposal has collected at least its account's threshold of signatures.
    pub fn check_threshold(&self, proposal_id: &String) -> (r: Result<bool, MultisigError>)
        requires
            self.wf(),
        ensures
            match r {
                Ok(b) => exists|i: int, j: int|
                    0 <= i < self.proposals_spec().len() && 0 <= j < self.accounts_spec().len()
                        && (#[trigger] self.proposals_spec()[i]).proposal_id@ == proposal_id@ && (
                    #[trigger] self.accounts_spec()[j]).account_id@
                        == self.proposals_spec()[i].account_id@ && b == (
                    self.proposals_spec()[i].signatures@.len()
                        >= self.accounts_spec()[j].threshold),
                Err(e) => e == MultisigError::ProposalNotFound || e
                    == MultisigError::AccountNotFound,
            },
            r is Ok <==> self.has_proposal_and_account(proposal_id@),
            r matches Err(e) && e == MultisigError::ProposalNotFound <==> !self.has_proposal(
                proposal_id@,
            ),
            r matches Err(e) && e == MultisigError::AccountNotFound <==> self.has_proposal(
                proposal_id@,
            ) && !self.has_proposal_and_account(proposal_id@),
            r is Ok <==> self.has_proposal_and_account(proposal_id@),
            r matches Err(e) && e == MultisigError::ProposalNotFound <==> !self.has_proposal(
                proposal_id@,
            ),
            r matches Err(e) && e == MultisigError::AccountNotFound <==> self.has_proposal(
                proposal_id@,
            ) && !self.has_proposal_and_account(proposal_id@),
    {
        let i = match self.proposal_position(proposal_id) {
            Some(i) => i,
            None => return Err(MultisigError::ProposalNotFound),
        };
        let p = &self.proposals[i];
        let j = match self.account_position(&p.account_id) {
            Some(j) => j,
            None => {
                proof {
                    self.lemma_proposal_unique(i as int);
                    assert(self.proposals_spec()[i as int].proposal_id@ == proposal_id@);
                    assert(!self.has_account(self.proposals_spec()[i as int].account_id@));
                }
                return Err(MultisigError::AccountNotFound);
            },
        };
        let b = p.check_threshold(self.accounts[j].threshold);
        assert(self.proposals_spec()[i as int].proposal_id@ == proposal_id@);
        assert(self.accounts_spec()[j as int].account_id@ == self.proposals_spec()[i as int].account_id@);
        Ok(b)
    }

    /// A proposal's signatures as a slot-indexed array, one entry per approver
    /// of its account, `None` for slots that have not signed.
    pub fn get_signatures_hex(&self, proposal_id: &String) -> (r: Result<
        Vec<Option<String>>,
        MultisigError,
    >)
        requires
            self.wf(),
        ensures
            match r {
                Ok(v) => exists|i: int, j: int|
                    0 <= i < self.proposals_spec().len() && 0 <= j < self.accounts_spec().len()
                        && (#[trigger] self.proposals_spec()[i]).proposal_id@ == proposal_id@ && (
                    #[trigger] self.accounts_spec()[j]).account_id@
                        == self.proposals_spec()[i].account_id@ && v@.len()
                        == self.accounts_spec()[j].approvers@.len() && forall|k: int|
                        0 <= k < v@.len() ==> #[trigger] v@[k] == slot_signature(
                            self.proposals_spec()[i].signatures@,
                            k as usize,
                        ),
                Err(e) => e == MultisigError::ProposalNotFound || e
                    == MultisigError::AccountNotFound,
            },
    {
        let i = match self.proposal_position(proposal_id) {
            Some(i) => i,
            None => return Err(MultisigError::ProposalNotFound),
        };
        let p = &self.proposals[i];
        let j = match self.account_position(&p.account_id) {
            Some(j) => j,
            None => {
                proof {
                    self.lemma_proposal_unique(i as int);
                    assert(self.proposals_spec()[i as int].proposal_id@ == proposal_id@);
                    assert(!self.has_account(self.proposals_spec()[i as int].account_id@));
                }
                return Err(MultisigError::AccountNotFound);
            },
        };
        let v = p.get_signatures_hex(self.accounts[j].approvers.len());
        assert(self.proposals_spec()[i as int].proposal_id@ == proposal_id@);
        assert(self.accounts_spec()[j as int].account_id@ == self.proposals_spec()[i as int].account_id@);
        Ok(v)
    }
}

} // verus!
