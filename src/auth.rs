//! Signatures collected outside the engine, kept by approver key commitment
//! until the engine asks for them.

use crate::codec::RawSignature;
use vstd::prelude::*;

verus! {

/// Whether two words are equal, element by element.
fn same_word(a: &[u64; 4], b: &[u64; 4]) -> (r: bool)
    ensures
        r == (*a == *b),
{
    let r = a[0] == b[0] && a[1] == b[1] && a[2] == b[2] && a[3] == b[3];
    proof {
        if r {
            assert(a@ =~= b@);
            assert(*a =~= *b);
        }
    }
    r
}

/// Pre-collected signatures, one per key commitment.
pub struct MultisigAuthenticator {
    entries: Vec<([u64; 4], RawSignature)>,
}

/// The signatures of a list of pairs as a map; a later pair for the same
/// commitment replaces an earlier one.
pub open spec fn pairs_map(pairs: Seq<([u64; 4], RawSignature)>) -> Map<[u64; 4], Seq<u8>>
    decreases pairs.len(),
{
    if pairs.len() == 0 {
        Map::empty()
    } else {
        pairs_map(pairs.drop_last()).insert(pairs.last().0, pairs.last().1.view())
    }
}

impl MultisigAuthenticator {
    /// The signature bytes held for each commitment.
    pub closed spec fn view(self) -> Map<[u64; 4], Seq<u8>> {
        Map::new(
            |c: [u64; 4]| exists|i: int| 0 <= i < self.entries@.len() && self.entries@[i].0 == c,
            |c: [u64; 4]|
                self.entries@[choose|i: int| 0 <= i < self.entries@.len() && self.entries@[i].0 == c].1.view(),
        )
    }

    /// No commitment is held twice.
    pub closed spec fn wf(self) -> bool {
        forall|i: int, j: int|
            0 <= i < j < self.entries@.len() ==> (#[trigger] self.entries@[i]).0 != (
            #[trigger] self.entries@[j]).0
    }

    /// An authenticator with no signatures.
    pub fn new() -> (r: MultisigAuthenticator)
        ensures
            r.wf(),
            r.view() == Map::<[u64; 4], Seq<u8>>::empty(),
    {
        let r = MultisigAuthenticator { entries: Vec::new() };
        assert(r.view() =~= Map::<[u64; 4], Seq<u8>>::empty());
        r
    }

    /// Holds `signature` for `commitment`, replacing any earlier one.
    pub fn add_signature(&mut self, commitment: [u64; 4], signature: RawSignature)
        requires
            old(self).wf(),
        ensures
            final(self).wf(),
            final(self).view() == old(self).view().insert(commitment, signature.view()),
    {
        let ghost sig_view = signature.view();
        let mut i: usize = 0;
        while i < self.entries.len()
            invariant
                i <= self.entries@.len(),
                self.entries@ == old(self).entries@,
                old(self).wf(),
                sig_view == signature.view(),
                forall|j: int| 0 <= j < i ==> (#[trigger] self.entries@[j]).0 != commitment,
            decreases self.entries@.len() - i,
        {
            if same_word(&self.entries[i].0, &commitment) {
                let ghost before = self.entries@;
                let _ = self.entries.remove(i);
                self.entries.insert(i, (commitment, signature));
                proof {
                    assert(self.entries@ =~= before.update(i as int, (commitment, signature)));
                    assert forall|a: int, b: int|
                        0 <= a < b < self.entries@.len() implies (#[trigger] self.entries@[a]).0
                        != (#[trigger] self.entries@[b]).0 by {
                        assert(before[a].0 != before[b].0);
                    }
                    self.lemma_view_at(i as int);
                    assert forall|c: [u64; 4]| #[trigger] self.view().contains_key(c) <==> old(
                        self,
                    ).view().insert(commitment, sig_view).contains_key(c) by {
                        if old(self).view().contains_key(c) {
                            let k = choose|k: int| 0 <= k < before.len() && before[k].0 == c;
                            assert(self.entries@[k].0 == c);
                        }
                        if self.view().contains_key(c) {
                            let k = choose|k: int| 0 <= k < self.entries@.len() && self.entries@[k].0 == c;
                            if k != i {
                                assert(before[k].0 == c);
                            }
                        }
                    }
                    assert forall|c: [u64; 4]| #[trigger] self.view().contains_key(c) implies self.view()[c]
                        == old(self).view().insert(commitment, sig_view)[c] by {
                        let k = choose|k: int| 0 <= k < self.entries@.len() && self.entries@[k].0 == c;
                        self.lemma_view_at(k);
                        if k != i {
                            old(self).lemma_view_at(k);
                            if k < i {
                                assert(old(self).entries@[k].0 != old(self).entries@[i as int].0);
                            } else {
                                assert(old(self).entries@[i as int].0 != old(self).entries@[k].0);
                            }
                        }
                    }
                    assert(self.view() =~= old(self).view().insert(commitment, sig_view));
                }
                return;
            }
            i = i + 1;
        }
        let ghost before = self.entries@;
        self.entries.push((commitment, signature));
        proof {
            let n = before.len() as int;
            assert forall|a: int, b: int|
                0 <= a < b < self.entries@.len() implies (#[trigger] self.entries@[a]).0 != (
                #[trigger] self.entries@[b]).0 by {
                if b < n {
                    assert(before[a].0 != before[b].0);
                }
            }
            self.lemma_view_at(n);
            assert forall|c: [u64; 4]| #[trigger] self.view().contains_key(c) <==> old(
                self,
            ).view().insert(commitment, sig_view).contains_key(c) by {
                if old(self).view().contains_key(c) {
                    let k = choose|k: int| 0 <= k < before.len() && before[k].0 == c;
                    assert(self.entries@[k].0 == c);
                }
            }
            assert forall|c: [u64; 4]| #[trigger] self.view().contains_key(c) implies self.view()[c]
                == old(self).view().insert(commitment, sig_view)[c] by {
                let k = choose|k: int| 0 <= k < self.entries@.len() && self.entries@[k].0 == c;
                self.lemma_view_at(k);
                if k != n {
                    old(self).lemma_view_at(k);
                }
            }
            assert(self.view() =~= old(self).view().insert(commitment, sig_view));
        }
    }

    /// With unique commitments, the view at an entry's commitment is that entry's signature.
    proof fn lemma_view_at(self, k: int)
        requires
            self.wf(),
            0 <= k < self.entries@.len(),
        ensures
            self.view().contains_key(self.entries@[k].0),
            self.view()[self.entries@[k].0] == self.entries@[k].1.view(),
    {
        let c = self.entries@[k].0;
        let j = choose|i: int| 0 <= i < self.entries@.len() && self.entries@[i].0 == c;
        if j != k {
            if j < k {
                assert(self.entries@[j].0 != self.entries@[k].0);
            } else {
                assert(self.entries@[k].0 != self.entries@[j].0);
            }
        }
    }

    /// An authenticator holding the given pairs; for a commitment that
    /// appears twice the later signature is kept.
    pub fn from_signatures(signatures: Vec<([u64; 4], RawSignature)>) -> (r: MultisigAuthenticator)
        ensures
            r.wf(),
            r.view() == pairs_map(signatures@),
    {
        let mut r = MultisigAuthenticator::new();
        let mut rest = signatures;
        let ghost all = rest@;
        let n = rest.len();
        let mut i: usize = 0;
        while i < n
            invariant
                n == all.len(),
                i <= n,
                rest@ == all.subrange(i as int, n as int),
                r.wf(),
                r.view() == pairs_map(all.subrange(0, i as int)),
            decreases n - i,
        {
            let pair = rest.remove(0);
            proof {
                assert(pair == all[i as int]);
                assert(rest@ =~= all.subrange(i + 1, n as int));
                assert(all.subrange(0, i + 1).drop_last() =~= all.subrange(0, i as int));
            }
            r.add_signature(pair.0, pair.1);
            i = i + 1;
        }
        proof {
            assert(all.subrange(0, n as int) =~= all);
        }
        r
    }

    /// The signature held for `commitment`, if any.
    pub fn get_signature(&self, commitment: &[u64; 4]) -> (r: Option<&RawSignature>)
        requires
            self.wf(),
        ensures
            match r {
                Some(s) => self.view().contains_key(*commitment) && self.view()[*commitment]
                    == s.view(),
                None => !self.view().contains_key(*commitment),
            },
    {
        let mut i: usize = 0;
        while i < self.entries.len()
            invariant
                i <= self.entries@.len(),
                self.wf(),
                forall|j: int| 0 <= j < i ==> (#[trigger] self.entries@[j]).0 != *commitment,
            decreases self.entries@.len() - i,
        {
            if same_word(&self.entries[i].0, commitment) {
                proof {
                    self.lemma_view_at(i as int);
                }
                return Some(&self.entries[i].1);
            }
            i = i + 1;
        }
        None
    }
}

} // verus!
