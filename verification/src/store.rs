//! Durable epoch/round-indexed ledger store.
//!
//! Keyed write-once storage for blocks, quorum certificates and per-epoch
//! ledger infos, read by the external query interfaces. Every key is
//! written at most once: rewriting a key with different content is
//! rejected; rewriting it with identical content is an idempotent no-op.
//! Reads are read-after-write consistent: the lookup specifications below
//! are exact, so any read issued after a successful write observes it.

use vstd::prelude::*;
use crate::aggregator::QuorumCertificate;
use crate::types::{Block, LedgerInfo, LedgerInfoV};

verus! {

/// A key was about to be rewritten with different content.
#[derive(Clone, Copy, Debug, PartialEq, Eq)]
pub struct StoreConsistencyError;

/// A stored block, keyed by (epoch, round).
#[derive(Debug)]
pub struct BlockEntry {
    pub epoch: u64,
    pub round: u64,
    pub block: Block,
}

/// A stored certificate, keyed by (epoch, round).
#[derive(Debug)]
pub struct QcEntry {
    pub epoch: u64,
    pub round: u64,
    pub qc: QuorumCertificate,
}

/// A stored ledger info, keyed by epoch.
#[derive(Debug)]
pub struct LedgerInfoEntry {
    pub epoch: u64,
    pub ledger_info: LedgerInfo,
}

/// The stored block under (epoch, round), if any.
pub open spec fn lookup_block(s: Seq<BlockEntry>, epoch: u64, round: u64) -> Option<Block>
    decreases s.len(),
{
    if s.len() == 0 {
        None
    } else if s.last().epoch == epoch && s.last().round == round {
        Some(s.last().block)
    } else {
        lookup_block(s.drop_last(), epoch, round)
    }
}

/// The stored certificate under (epoch, round), if any.
pub open spec fn lookup_qc(s: Seq<QcEntry>, epoch: u64, round: u64) -> Option<QuorumCertificate>
    decreases s.len(),
{
    if s.len() == 0 {
        None
    } else if s.last().epoch == epoch && s.last().round == round {
        Some(s.last().qc)
    } else {
        lookup_qc(s.drop_last(), epoch, round)
    }
}

/// The stored ledger info under `epoch`, if any.
pub open spec fn lookup_ledger_info(s: Seq<LedgerInfoEntry>, epoch: u64) -> Option<LedgerInfo>
    decreases s.len(),
{
    if s.len() == 0 {
        None
    } else if s.last().epoch == epoch {
        Some(s.last().ledger_info)
    } else {
        lookup_ledger_info(s.drop_last(), epoch)
    }
}

/// Durable keyed store for certified consensus data; single writer,
/// concurrent readers.
#[derive(Debug)]
pub struct LedgerStore {
    pub blocks: Vec<BlockEntry>,
    pub qcs: Vec<QcEntry>,
    pub ledger_infos: Vec<LedgerInfoEntry>,
}

impl LedgerStore {
    /// Every key is held by at most one entry (write-once discipline).
    pub open spec fn wf(self) -> bool {
        &&& forall|i: int, j: int|
            0 <= i < self.blocks@.len() && 0 <= j < self.blocks@.len() && i != j
                ==> !((#[trigger] self.blocks@[i]).epoch == (#[trigger] self.blocks@[j]).epoch
                && self.blocks@[i].round == self.blocks@[j].round)
        &&& forall|i: int, j: int|
            0 <= i < self.qcs@.len() && 0 <= j < self.qcs@.len() && i != j
                ==> !((#[trigger] self.qcs@[i]).epoch == (#[trigger] self.qcs@[j]).epoch
                && self.qcs@[i].round == self.qcs@[j].round)
        &&& forall|i: int, j: int|
            0 <= i < self.ledger_infos@.len() && 0 <= j < self.ledger_infos@.len() && i != j
                ==> (#[trigger] self.ledger_infos@[i]).epoch
                != (#[trigger] self.ledger_infos@[j]).epoch
    }

    /// An empty store.
    pub fn new() -> (r: LedgerStore)
        ensures
            r.wf(),
            r.blocks@.len() == 0,
            r.qcs@.len() == 0,
            r.ledger_infos@.len() == 0,
    {
        LedgerStore { blocks: Vec::new(), qcs: Vec::new(), ledger_infos: Vec::new() }
    }
}

/// An absent key matches no entry.
proof fn lemma_lookup_block_none(s: Seq<BlockEntry>, epoch: u64, round: u64)
    requires
        lookup_block(s, epoch, round) is None,
    ensures
        forall|i: int|
            0 <= i < s.len() ==> !((#[trigger] s[i]).epoch == epoch && s[i].round == round),
    decreases s.len(),
{
    if s.len() > 0 {
        lemma_lookup_block_none(s.drop_last(), epoch, round);
        assert forall|i: int|
            0 <= i < s.len() implies !((#[trigger] s[i]).epoch == epoch && s[i].round
            == round) by {
            if i < s.len() - 1 {
                assert(s.drop_last()[i] == s[i]);
            }
        }
    }
}

/// An absent key matches no entry.
proof fn lemma_lookup_qc_none(s: Seq<QcEntry>, epoch: u64, round: u64)
    requires
        lookup_qc(s, epoch, round) is None,
    ensures
        forall|i: int|
            0 <= i < s.len() ==> !((#[trigger] s[i]).epoch == epoch && s[i].round == round),
    decreases s.len(),
{
    if s.len() > 0 {
        lemma_lookup_qc_none(s.drop_last(), epoch, round);
        assert forall|i: int|
            0 <= i < s.len() implies !((#[trigger] s[i]).epoch == epoch && s[i].round
            == round) by {
            if i < s.len() - 1 {
                assert(s.drop_last()[i] == s[i]);
            }
        }
    }
}

/// An absent key matches no entry.
proof fn lemma_lookup_ledger_info_none(s: Seq<LedgerInfoEntry>, epoch: u64)
    requires
        lookup_ledger_info(s, epoch) is None,
    ensures
        forall|i: int| 0 <= i < s.len() ==> (#[trigger] s[i]).epoch != epoch,
    decreases s.len(),
{
    if s.len() > 0 {
        lemma_lookup_ledger_info_none(s.drop_last(), epoch);
        assert forall|i: int| 0 <= i < s.len() implies (#[trigger] s[i]).epoch != epoch by {
            if i < s.len() - 1 {
                assert(s.drop_last()[i] == s[i]);
            }
        }
    }
}

impl LedgerStore {
    /// Reads the block stored under (epoch, round); `None` is a read miss,
    /// not an error.
    pub fn get_block(&self, epoch: u64, round: u64) -> (r: Option<&Block>)
        ensures
            r is Some <==> lookup_block(self.blocks@, epoch, round) is Some,
            (r matches Some(b) ==> lookup_block(self.blocks@, epoch, round) matches Some(b2) && b@
                == b2@),
    {
        proof {
            assert(self.blocks@.subrange(0, self.blocks@.len() as int) =~= self.blocks@);
        }
        let mut i = self.blocks.len();
        while i > 0
            invariant
                i <= self.blocks@.len(),
                lookup_block(self.blocks@.subrange(0, i as int), epoch, round) == lookup_block(
                    self.blocks@,
                    epoch,
                    round,
                ),
            decreases i,
        {
            i = i - 1;
            proof {
                assert(self.blocks@.subrange(0, i + 1).last() == self.blocks@[i as int]);
                assert(self.blocks@.subrange(0, i + 1).drop_last() =~= self.blocks@.subrange(
                    0,
                    i as int,
                ));
            }
            if self.blocks[i].epoch == epoch && self.blocks[i].round == round {
                return Some(&self.blocks[i].block);
            }
        }
        proof {
            assert(self.blocks@.subrange(0, 0) =~= Seq::<BlockEntry>::empty());
        }
        None
    }

    /// Reads the certificate stored under (epoch, round).
    pub fn get_qc(&self, epoch: u64, round: u64) -> (r: Option<&QuorumCertificate>)
        ensures
            r is Some <==> lookup_qc(self.qcs@, epoch, round) is Some,
            (r matches Some(qc) ==> lookup_qc(self.qcs@, epoch, round) matches Some(qc2)
                && qc.ledger_info@ == qc2.ledger_info@
                && qc.signatures.signers@ == qc2.signatures.signers@
                && qc.signatures.signatures.deep_view() == qc2.signatures.signatures.deep_view()),
    {
        proof {
            assert(self.qcs@.subrange(0, self.qcs@.len() as int) =~= self.qcs@);
        }
        let mut i = self.qcs.len();
        while i > 0
            invariant
                i <= self.qcs@.len(),
                lookup_qc(self.qcs@.subrange(0, i as int), epoch, round) == lookup_qc(
                    self.qcs@,
                    epoch,
                    round,
                ),
            decreases i,
        {
            i = i - 1;
            proof {
                assert(self.qcs@.subrange(0, i + 1).last() == self.qcs@[i as int]);
                assert(self.qcs@.subrange(0, i + 1).drop_last() =~= self.qcs@.subrange(
                    0,
                    i as int,
                ));
            }
            if self.qcs[i].epoch == epoch && self.qcs[i].round == round {
                return Some(&self.qcs[i].qc);
            }
        }
        proof {
            assert(self.qcs@.subrange(0, 0) =~= Seq::<QcEntry>::empty());
        }
        None
    }

    /// Reads the ledger info stored for `epoch`.
    pub fn get_ledger_info_by_epoch(&self, epoch: u64) -> (r: Option<&LedgerInfo>)
        ensures
            r is Some <==> lookup_ledger_info(self.ledger_infos@, epoch) is Some,
            (r matches Some(li) ==> lookup_ledger_info(self.ledger_infos@, epoch) matches Some(li2)
                && li@ == li2@),
    {
        proof {
            assert(self.ledger_infos@.subrange(0, self.ledger_infos@.len() as int)
                =~= self.ledger_infos@);
        }
        let mut i = self.ledger_infos.len();
        while i > 0
            invariant
                i <= self.ledger_infos@.len(),
                lookup_ledger_info(self.ledger_infos@.subrange(0, i as int), epoch)
                    == lookup_ledger_info(self.ledger_infos@, epoch),
            decreases i,
        {
            i = i - 1;
            proof {
                assert(self.ledger_infos@.subrange(0, i + 1).last()
                    == self.ledger_infos@[i as int]);
                assert(self.ledger_infos@.subrange(0, i + 1).drop_last()
                    =~= self.ledger_infos@.subrange(0, i as int));
            }
            if self.ledger_infos[i].epoch == epoch {
                return Some(&self.ledger_infos[i].ledger_info);
            }
        }
        proof {
            assert(self.ledger_infos@.subrange(0, 0) =~= Seq::<LedgerInfoEntry>::empty());
        }
        None
    }

    /// The number of validators that the epoch's stored ledger info carries
    /// in its next-epoch validator set, if both are present.
    pub fn get_validator_count_by_epoch(&self, epoch: u64) -> (r: Option<u64>)
        ensures
            r is Some <==> (lookup_ledger_info(self.ledger_infos@, epoch) matches Some(li)
                && li@.commit_info.next_epoch_state is Some),
            (r matches Some(n) ==> lookup_ledger_info(self.ledger_infos@, epoch) matches Some(li)
                && li@.commit_info.next_epoch_state matches Some(es) && n == es.validators.len()),
    {
        match self.get_ledger_info_by_epoch(epoch) {
            None => None,
            Some(li) => match &li.commit_info.next_epoch_state {
                None => None,
                Some(es) => Some(es.validators.len() as u64),
            },
        }
    }

    /// Stores `block` under (epoch, round). Write-once: an occupied key is
    /// rejected with [`StoreConsistencyError`] unless the content is
    /// identical, in which case the write is an idempotent no-op.
    pub fn put_block(&mut self, epoch: u64, round: u64, block: Block) -> (r: Result<
        (),
        StoreConsistencyError,
    >)
        requires
            old(self).wf(),
        ensures
            final(self).wf(),
            final(self).qcs == old(self).qcs,
            final(self).ledger_infos == old(self).ledger_infos,
            (r is Err <==> (lookup_block(old(self).blocks@, epoch, round) matches Some(b) && b@
                != block@)),
            r is Err ==> *final(self) == *old(self),
            r is Ok ==> (lookup_block(final(self).blocks@, epoch, round) matches Some(b) && b@
                == block@),
            forall|e2: u64, r2: u64|
                !(e2 == epoch && r2 == round) ==> lookup_block(final(self).blocks@, e2, r2)
                    == lookup_block(old(self).blocks@, e2, r2),
    {
        let existing = self.get_block(epoch, round);
        match existing {
            Some(b) => {
                if b.equals(&block) {
                    Ok(())
                } else {
                    Err(StoreConsistencyError)
                }
            }
            None => {
                proof {
                    lemma_lookup_block_none(self.blocks@, epoch, round);
                }
                let ghost pre = self.blocks@;
                self.blocks.push(BlockEntry { epoch, round, block });
                proof {
                    assert(self.blocks@.drop_last() =~= pre);
                    assert forall|e2: u64, r2: u64| !(e2 == epoch && r2 == round)
                        implies lookup_block(self.blocks@, e2, r2) == lookup_block(
                        pre,
                        e2,
                        r2,
                    ) by {
                        assert(self.blocks@.last().epoch == epoch);
                    }
                }
                Ok(())
            }
        }
    }

    /// Stores `qc` under (epoch, round), write-once as for blocks; equal
    /// content means equal certified claim, signers and signatures.
    pub fn put_qc(&mut self, epoch: u64, round: u64, qc: QuorumCertificate) -> (r: Result<
        (),
        StoreConsistencyError,
    >)
        requires
            old(self).wf(),
        ensures
            final(self).wf(),
            final(self).blocks == old(self).blocks,
            final(self).ledger_infos == old(self).ledger_infos,
            (r is Err <==> (lookup_qc(old(self).qcs@, epoch, round) matches Some(q)
                && !(q.ledger_info@ == qc.ledger_info@
                && q.signatures.signers@ == qc.signatures.signers@
                && q.signatures.signatures.deep_view() == qc.signatures.signatures.deep_view()))),
            r is Err ==> *final(self) == *old(self),
            r is Ok ==> (lookup_qc(final(self).qcs@, epoch, round) matches Some(q)
                && q.ledger_info@ == qc.ledger_info@
                && q.signatures.signers@ == qc.signatures.signers@
                && q.signatures.signatures.deep_view() == qc.signatures.signatures.deep_view()),
            forall|e2: u64, r2: u64|
                !(e2 == epoch && r2 == round) ==> lookup_qc(final(self).qcs@, e2, r2) == lookup_qc(
                    old(self).qcs@,
                    e2,
                    r2,
                ),
    {
        let existing = self.get_qc(epoch, round);
        match existing {
            Some(q) => {
                if qc_content_eq(q, &qc) {
                    Ok(())
                } else {
                    Err(StoreConsistencyError)
                }
            }
            None => {
                proof {
                    lemma_lookup_qc_none(self.qcs@, epoch, round);
                }
                let ghost pre = self.qcs@;
                self.qcs.push(QcEntry { epoch, round, qc });
                proof {
                    assert(self.qcs@.drop_last() =~= pre);
                    assert forall|e2: u64, r2: u64| !(e2 == epoch && r2 == round)
                        implies lookup_qc(self.qcs@, e2, r2) == lookup_qc(pre, e2, r2) by {
                        assert(self.qcs@.last().epoch == epoch);
                    }
                }
                Ok(())
            }
        }
    }

    /// Stores the epoch's ledger info, write-once per epoch.
    pub fn put_ledger_info(&mut self, epoch: u64, ledger_info: LedgerInfo) -> (r: Result<
        (),
        StoreConsistencyError,
    >)
        requires
            old(self).wf(),
        ensures
            final(self).wf(),
            final(self).blocks == old(self).blocks,
            final(self).qcs == old(self).qcs,
            (r is Err <==> (lookup_ledger_info(old(self).ledger_infos@, epoch) matches Some(li)
                && li@ != ledger_info@)),
            r is Err ==> *final(self) == *old(self),
            r is Ok ==> (lookup_ledger_info(final(self).ledger_infos@, epoch) matches Some(li)
                && li@ == ledger_info@),
            forall|e2: u64|
                e2 != epoch ==> lookup_ledger_info(final(self).ledger_infos@, e2)
                    == lookup_ledger_info(old(self).ledger_infos@, e2),
    {
        let existing = self.get_ledger_info_by_epoch(epoch);
        match existing {
            Some(li) => {
                if li.equals(&ledger_info) {
                    Ok(())
                } else {
                    Err(StoreConsistencyError)
                }
            }
            None => {
                proof {
                    lemma_lookup_ledger_info_none(self.ledger_infos@, epoch);
                }
                let ghost pre = self.ledger_infos@;
                self.ledger_infos.push(LedgerInfoEntry { epoch, ledger_info });
                proof {
                    assert(self.ledger_infos@.drop_last() =~= pre);
                    assert forall|e2: u64| e2 != epoch implies lookup_ledger_info(
                        self.ledger_infos@,
                        e2,
                    ) == lookup_ledger_info(pre, e2) by {
                        assert(self.ledger_infos@.last().epoch == epoch);
                    }
                }
                Ok(())
            }
        }
    }

    /// The stored ledger info with the highest (epoch, round), where epoch
    /// is compared first; `None` only while nothing is stored.
    pub fn latest_ledger_info(&self) -> (r: Option<&LedgerInfo>)
        ensures
            r is Some <==> self.ledger_infos@.len() > 0,
            (r matches Some(li) ==> exists|i: int|
                0 <= i < self.ledger_infos@.len()
                    && li@ == (#[trigger] self.ledger_infos@[i]).ledger_info@),
            (r matches Some(li) ==> forall|i: int|
                0 <= i < self.ledger_infos@.len() ==> later_or_equal(
                    li@,
                    (#[trigger] self.ledger_infos@[i]).ledger_info@,
                )),
    {
        if self.ledger_infos.len() == 0 {
            return None;
        }
        let mut best: usize = 0;
        for i in 1..self.ledger_infos.len()
            invariant
                best < i <= self.ledger_infos@.len(),
                forall|j: int|
                    0 <= j < i ==> later_or_equal(
                        self.ledger_infos@[best as int].ledger_info@,
                        (#[trigger] self.ledger_infos@[j]).ledger_info@,
                    ),
        {
            let cand = &self.ledger_infos[i].ledger_info;
            let cur = &self.ledger_infos[best].ledger_info;
            let cand_later = cand.commit_info.epoch > cur.commit_info.epoch
                || (cand.commit_info.epoch == cur.commit_info.epoch && cand.commit_info.round
                >= cur.commit_info.round);
            if cand_later {
                best = i;
            }
        }
        Some(&self.ledger_infos[best].ledger_info)
    }
}

/// Whether `a` committed at the same or a later (epoch, round) than `b`,
/// epoch compared first.
pub open spec fn later_or_equal(a: LedgerInfoV, b: LedgerInfoV) -> bool {
    ||| a.commit_info.epoch > b.commit_info.epoch
    ||| (a.commit_info.epoch == b.commit_info.epoch && a.commit_info.round >= b.commit_info.round)
}

/// Whether two certificates hold the same content: same certified claim,
/// same contributing authors, same signatures.
pub fn qc_content_eq(a: &QuorumCertificate, b: &QuorumCertificate) -> (r: bool)
    ensures
        r <==> (a.ledger_info@ == b.ledger_info@ && a.signatures.signers@ == b.signatures.signers@
            && a.signatures.signatures.deep_view() == b.signatures.signatures.deep_view()),
{
    if !a.ledger_info.equals(&b.ledger_info) {
        return false;
    }
    if !authors_eq(&a.signatures.signers, &b.signatures.signers) {
        return false;
    }
    signature_lists_eq(&a.signatures.signatures, &b.signatures.signatures)
}

/// Element-wise equality of two identity lists.
fn authors_eq(a: &Vec<crate::types::Author>, b: &Vec<crate::types::Author>) -> (r: bool)
    ensures
        r <==> a@ == b@,
{
    if a.len() != b.len() {
        return false;
    }
    for i in 0..a.len()
        invariant
            a@.len() == b@.len(),
            forall|j: int| 0 <= j < i ==> a@[j] == b@[j],
    {
        if !a[i].equals(&b[i]) {
            return false;
        }
    }
    proof {
        assert(a@ =~= b@);
    }
    true
}

/// Element-wise equality of two signature lists.
fn signature_lists_eq(a: &Vec<Vec<u8>>, b: &Vec<Vec<u8>>) -> (r: bool)
    ensures
        r <==> a.deep_view() == b.deep_view(),
{
    if a.len() != b.len() {
        proof {
            assert(a.deep_view().len() != b.deep_view().len());
        }
        return false;
    }
    for i in 0..a.len()
        invariant
            a@.len() == b@.len(),
            forall|j: int| 0 <= j < i ==> a.deep_view()[j] == b.deep_view()[j],
    {
        if !crate::types::bytes_eq(&a[i], &b[i]) {
            proof {
                assert(a.deep_view()[i as int] =~= a@[i as int]@);
                assert(b.deep_view()[i as int] =~= b@[i as int]@);
            }
            return false;
        }
        proof {
            assert(a.deep_view()[i as int] =~= a@[i as int]@);
            assert(b.deep_view()[i as int] =~= b@[i as int]@);
        }
    }
    proof {
        assert(a.deep_view() =~= b.deep_view());
    }
    true
}

} // verus!
