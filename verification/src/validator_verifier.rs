//! Epoch-scoped validator-set verifier.
//!
//! A [`ValidatorVerifier`] is built once per epoch from the epoch's resolved
//! validator set and is never mutated afterwards: every signature and quorum
//! check is scoped to exactly one epoch's instance, so validator sets cannot
//! be mixed across epochs.

use vstd::prelude::*;
use crate::crypto::{ed25519_verify, signature_checks};
use crate::types::{Author, ValidatorConsensusInfo, ValidatorConsensusInfoV};

verus! {

/// Why a signature or vote was rejected.
#[derive(Clone, Copy, Debug, PartialEq, Eq)]
pub enum VerifyError {
    /// The author is absent from the epoch's validator set.
    UnknownAuthor,
    /// The signature does not verify against the author's public key and
    /// the exact byte serialization of the claimed message.
    InvalidSignature,
}

/// The aggregated signature of a quorum certificate: the contributing
/// authors and, positionally, each author's signature over the certified
/// ledger info.
#[derive(Debug, PartialEq, Eq)]
pub struct AggregateSignature {
    pub signers: Vec<Author>,
    pub signatures: Vec<Vec<u8>>,
}

/// Sum of the voting powers of a validator list.
pub open spec fn sum_powers(s: Seq<ValidatorConsensusInfoV>) -> int
    decreases s.len(),
{
    if s.len() == 0 {
        0
    } else {
        sum_powers(s.drop_last()) + s.last().voting_power
    }
}

/// Whether a validator list holds pairwise-distinct addresses.
pub open spec fn distinct_addresses(s: Seq<ValidatorConsensusInfoV>) -> bool {
    forall|i: int, j: int|
        0 <= i < s.len() && 0 <= j < s.len() && i != j ==> #[trigger] s[i].address != #[trigger] s[j].address
}

/// Epoch-scoped validator set: identities, public keys, voting powers and
/// the quorum threshold derived from the total power. Immutable once built.
#[derive(Debug, PartialEq, Eq)]
pub struct ValidatorVerifier {
    pub epoch: u64,
    pub validators: Vec<ValidatorConsensusInfo>,
    pub total_voting_power: u128,
    pub quorum_threshold: u128,
}

impl ValidatorVerifier {
    /// The validator records, as a mathematical sequence.
    pub open spec fn spec_validators(self) -> Seq<ValidatorConsensusInfoV> {
        self.validators.deep_view()
    }

    /// The epoch this verifier is scoped to.
    pub open spec fn spec_epoch(self) -> u64 {
        self.epoch
    }

    /// Total voting power of the epoch's validator set.
    pub open spec fn spec_total_voting_power(self) -> u128 {
        self.total_voting_power
    }

    /// The quorum threshold: the smallest `Q` with `3 * Q > 2 * T`.
    pub open spec fn spec_quorum_threshold(self) -> u128 {
        self.quorum_threshold
    }

    /// Whether `a` is the address of a validator of this epoch.
    pub open spec fn contains_author(self, a: Seq<u8>) -> bool {
        exists|i: int|
            0 <= i < self.spec_validators().len() && (#[trigger] self.spec_validators()[i]).address
                == a
    }

    /// The index of the validator with address `a` (meaningful only when
    /// `contains_author(a)` holds; unique under well-formedness).
    pub open spec fn author_index(self, a: Seq<u8>) -> int {
        choose|i: int|
            0 <= i < self.spec_validators().len() && (#[trigger] self.spec_validators()[i]).address
                == a
    }

    /// The voting power of `a`; an address outside the set contributes 0.
    pub open spec fn spec_power_of(self, a: Seq<u8>) -> u64 {
        if self.contains_author(a) {
            self.spec_validators()[self.author_index(a)].voting_power
        } else {
            0
        }
    }

    /// The public key recorded for `a`.
    pub open spec fn spec_public_key_of(self, a: Seq<u8>) -> Seq<u8> {
        self.spec_validators()[self.author_index(a)].public_key
    }

    /// Sum of the recorded voting powers of `authors`, in order; addresses
    /// outside the set contribute 0.
    pub open spec fn authors_power(self, authors: Seq<Seq<u8>>) -> int
        decreases authors.len(),
    {
        if authors.len() == 0 {
            0
        } else {
            self.authors_power(authors.drop_last()) + self.spec_power_of(authors.last())
        }
    }

    /// Well-formedness: addresses are pairwise distinct, each record holds
    /// its own position, the total is the sum of the recorded powers, and
    /// the threshold is `floor(2 * T / 3) + 1`.
    pub open spec fn wf(self) -> bool {
        &&& distinct_addresses(self.spec_validators())
        &&& forall|i: int|
            0 <= i < self.spec_validators().len()
                ==> (#[trigger] self.spec_validators()[i]).index == i
        &&& self.total_voting_power as int == sum_powers(self.spec_validators())
        &&& self.quorum_threshold as int == 2 * (self.total_voting_power as int) / 3 + 1
    }

    /// Under well-formedness, a validator found at position `i` is the one
    /// `author_index` names, so its power and key are the recorded ones.
    pub proof fn lemma_index_of_found(self, i: int)
        requires
            self.wf(),
            0 <= i < self.spec_validators().len(),
        ensures
            self.contains_author(self.spec_validators()[i].address),
            self.author_index(self.spec_validators()[i].address) == i,
            self.spec_power_of(self.spec_validators()[i].address)
                == self.spec_validators()[i].voting_power,
            self.spec_public_key_of(self.spec_validators()[i].address)
                == self.spec_validators()[i].public_key,
    {
        let a = self.spec_validators()[i].address;
        assert(self.contains_author(a));
        let j = self.author_index(a);
        assert(0 <= j < self.spec_validators().len() && self.spec_validators()[j].address == a);
        if i != j {
            assert(self.spec_validators()[i].address != self.spec_validators()[j].address);
        }
    }

    /// Looks up the position of `author` in the validator list.
    fn find_author(&self, author: &Author) -> (r: Option<usize>)
        requires
            self.wf(),
        ensures
            r is Some ==> {
                &&& (r->0 as int) < self.spec_validators().len()
                &&& self.spec_validators()[r->0 as int].address == author@
                &&& self.author_index(author@) == r->0 as int
            },
            r is Some <==> self.contains_author(author@),
    {
        for i in 0..self.validators.len()
            invariant
                self.wf(),
                forall|j: int| 0 <= j < i ==> (#[trigger] self.spec_validators()[j]).address != author@,
        {
            if self.validators[i].address.equals(author) {
                proof {
                    self.lemma_index_of_found(i as int);
                }
                return Some(i);
            }
        }
        None
    }

    /// Verifies `signature` over `message` on behalf of `author`: fails
    /// with `UnknownAuthor` when the author is outside the epoch's set, and
    /// with `InvalidSignature` when the signature does not check under the
    /// author's recorded public key.
    pub fn verify_signature(&self, author: &Author, message: &Vec<u8>, signature: &Vec<u8>) -> (r:
        Result<(), VerifyError>)
        requires
            self.wf(),
        ensures
            r is Ok <==> self.contains_author(author@) && signature_checks(
                self.spec_public_key_of(author@),
                message@,
                signature@,
            ),
            r == Err::<(), VerifyError>(VerifyError::UnknownAuthor) <==> !self.contains_author(
                author@,
            ),
            r == Err::<(), VerifyError>(VerifyError::InvalidSignature) <==> self.contains_author(
                author@,
            ) && !signature_checks(self.spec_public_key_of(author@), message@, signature@),
    {
        match self.find_author(author) {
            None => Err(VerifyError::UnknownAuthor),
            Some(i) => {
                if ed25519_verify(&self.validators[i].public_key, message, signature) {
                    Ok(())
                } else {
                    Err(VerifyError::InvalidSignature)
                }
            }
        }
    }

    /// The recorded voting power of `author`; 0 outside the set.
    pub fn voting_power_of_author(&self, author: &Author) -> (r: u64)
        requires
            self.wf(),
        ensures
            r == self.spec_power_of(author@),
    {
        match self.find_author(author) {
            None => 0,
            Some(i) => self.validators[i].voting_power,
        }
    }

    /// Sum of the recorded voting powers of `authors` (an address outside
    /// the set contributes 0; a repeated address is counted each time).
    pub fn voting_power_of(&self, authors: &Vec<Author>) -> (r: u128)
        requires
            self.wf(),
        ensures
            r as int == self.authors_power(authors.deep_view()),
    {
        let ghost all = authors.deep_view();
        let mut total: u128 = 0;
        for i in 0..authors.len()
            invariant
                self.wf(),
                all == authors.deep_view(),
                total as int == self.authors_power(all.subrange(0, i as int)),
                total as int <= i * (u64::MAX as int),
        {
            let p = self.voting_power_of_author(&authors[i]);
            proof {
                assert((i + 1) * (u64::MAX as int) < 0x100000000000000000000000000000000int)
                    by (nonlinear_arith)
                    requires
                        0 <= i,
                        i + 1 <= 0x10000000000000000int,
                ;
                assert(i * (u64::MAX as int) + (u64::MAX as int) == (i + 1) * (u64::MAX as int))
                    by (nonlinear_arith);
                assert(all.subrange(0, i + 1).drop_last() =~= all.subrange(0, i as int));
                assert(all.subrange(0, i + 1).last() == all[i as int]);
            }
            total = total + (p as u128);
        }
        proof {
            assert(all.subrange(0, all.len() as int) =~= all);
        }
        total
    }

    /// Whether the combined voting power of `authors` meets the quorum
    /// threshold of this epoch.
    pub fn has_quorum(&self, authors: &Vec<Author>) -> (r: bool)
        requires
            self.wf(),
        ensures
            r <==> self.authors_power(authors.deep_view()) >= self.spec_quorum_threshold() as int,
    {
        self.voting_power_of(authors) >= self.quorum_threshold
    }

    /// Batch-verifies an aggregated signature: every contributing author
    /// must be in the epoch's set, and each author's signature must check
    /// over `message` under that author's recorded public key.
    pub fn verify_aggregate(&self, agg: &AggregateSignature, message: &Vec<u8>) -> (r: Result<
        (),
        VerifyError,
    >)
        requires
            self.wf(),
        ensures
            r is Ok <==> {
                &&& agg.signers.deep_view().len() == agg.signatures.deep_view().len()
                &&& forall|i: int|
                    0 <= i < agg.signers.deep_view().len() ==> self.contains_author(
                        #[trigger] agg.signers.deep_view()[i],
                    )
                &&& forall|i: int|
                    0 <= i < agg.signers.deep_view().len() ==> signature_checks(
                        self.spec_public_key_of(#[trigger] agg.signers.deep_view()[i]),
                        message@,
                        agg.signatures.deep_view()[i],
                    )
            },
            r == Err::<(), VerifyError>(VerifyError::UnknownAuthor) <==> exists|i: int|
                0 <= i < agg.signers.deep_view().len() && !self.contains_author(
                    #[trigger] agg.signers.deep_view()[i],
                ),
    {
        let ghost signers = agg.signers.deep_view();
        let ghost sigs = agg.signatures.deep_view();
        for i in 0..agg.signers.len()
            invariant
                self.wf(),
                signers == agg.signers.deep_view(),
                forall|j: int| 0 <= j < i ==> self.contains_author(#[trigger] signers[j]),
        {
            if self.find_author(&agg.signers[i]).is_none() {
                proof {
                    assert(!self.contains_author(signers[i as int]));
                }
                return Err(VerifyError::UnknownAuthor);
            }
            proof {
                assert(self.contains_author(signers[i as int]));
            }
        }
        if agg.signers.len() != agg.signatures.len() {
            proof {
                assert(signers.len() != sigs.len());
            }
            return Err(VerifyError::InvalidSignature);
        }
        for i in 0..agg.signers.len()
            invariant
                self.wf(),
                signers == agg.signers.deep_view(),
                sigs == agg.signatures.deep_view(),
                signers.len() == sigs.len(),
                agg.signers@.len() == agg.signatures@.len(),
                forall|j: int| 0 <= j < signers.len() ==> self.contains_author(#[trigger] signers[j]),
                forall|j: int|
                    0 <= j < i ==> signature_checks(
                        self.spec_public_key_of(#[trigger] signers[j]),
                        message@,
                        sigs[j],
                    ),
        {
            let idx = match self.find_author(&agg.signers[i]) {
                Some(idx) => idx,
                None => {
                    proof {
                        assert(signers[i as int] == agg.signers@[i as int]@);
                        assert(self.contains_author(signers[i as int]));
                        assert(false);
                    }
                    return Err(VerifyError::InvalidSignature);
                }
            };
            if !ed25519_verify(&self.validators[idx].public_key, message, &agg.signatures[i]) {
                proof {
                    assert(signers[i as int] == agg.signers@[i as int]@);
                    assert(sigs[i as int] == agg.signatures@[i as int]@);
                    assert(self.spec_public_key_of(signers[i as int])
                        == self.validators@[idx as int].public_key@);
                    assert(!signature_checks(
                        self.spec_public_key_of(signers[i as int]),
                        message@,
                        sigs[i as int],
                    ));
                }
                return Err(VerifyError::InvalidSignature);
            }
            proof {
                assert(signers[i as int] == agg.signers@[i as int]@);
                assert(sigs[i as int] == agg.signatures@[i as int]@);
                assert(self.spec_public_key_of(signers[i as int])
                    == self.validators@[idx as int].public_key@);
            }
        }
        Ok(())
    }

    /// Total voting power of the epoch's validator set.
    pub fn total_voting_power(&self) -> (r: u128)
        ensures
            r == self.spec_total_voting_power(),
    {
        self.total_voting_power
    }

    /// Number of validators in the epoch's set.
    pub fn validator_count(&self) -> (r: usize)
        ensures
            r == self.spec_validators().len(),
    {
        self.validators.len()
    }

    /// The quorum threshold `floor(2 * T / 3) + 1` of this epoch.
    pub fn quorum_threshold(&self) -> (r: u128)
        ensures
            r == self.spec_quorum_threshold(),
    {
        self.quorum_threshold
    }

    /// The epoch this verifier is scoped to.
    pub fn epoch(&self) -> (r: u64)
        ensures
            r == self.spec_epoch(),
    {
        self.epoch
    }

    /// The validator records of the epoch, in index order.
    pub fn validator_infos(&self) -> (r: &Vec<ValidatorConsensusInfo>)
        ensures
            r.deep_view() == self.spec_validators(),
    {
        &self.validators
    }

    /// Builds the epoch's verifier from its resolved validator set.
    ///
    /// Succeeds exactly when the addresses are pairwise distinct (validator
    /// identities are unique within an epoch); the records are kept in
    /// order, each stamped with its position, and the total voting power
    /// and quorum threshold are computed from the set.
    pub fn new(epoch: u64, validators: Vec<ValidatorConsensusInfo>) -> (r: Option<
        ValidatorVerifier,
    >)
        ensures
            r is Some <==> distinct_addresses(validators.deep_view()),
            r matches Some(v) ==> {
                &&& v.wf()
                &&& v.spec_epoch() == epoch
                &&& v.spec_validators().len() == validators.deep_view().len()
                &&& forall|i: int|
                    0 <= i < validators.deep_view().len() ==> #[trigger] v.spec_validators()[i]
                        == (ValidatorConsensusInfoV {
                        index: i as u64,
                        ..validators.deep_view()[i]
                    })
            },
    {
        let ghost input = validators.deep_view();
        let n = validators.len();
        for i in 0..n
            invariant
                n == validators@.len(),
                input == validators.deep_view(),
                forall|a: int, b: int|
                    0 <= a < i && a < b < n ==> (#[trigger] input[a]).address
                        != (#[trigger] input[b]).address,
        {
            for j in (i + 1)..n
                invariant
                    i < n == validators@.len(),
                    input == validators.deep_view(),
                    forall|b: int| i < b < j ==> (#[trigger] input[b]).address != input[i as int].address,
            {
                if validators[i].address.equals(&validators[j].address) {
                    proof {
                        assert(input[i as int].address == input[j as int].address);
                        assert(!distinct_addresses(input));
                    }
                    return None;
                }
            }
        }
        proof {
            assert(distinct_addresses(input));
        }

        let mut indexed: Vec<ValidatorConsensusInfo> = Vec::new();
        let mut total: u128 = 0;
        for i in 0..n
            invariant
                n == validators@.len(),
                input == validators.deep_view(),
                indexed@.len() == i,
                forall|j: int|
                    0 <= j < i ==> #[trigger] indexed.deep_view()[j] == (ValidatorConsensusInfoV {
                        index: j as u64,
                        ..input[j]
                    }),
                total as int == sum_powers(indexed.deep_view()),
                total as int <= i * (u64::MAX as int),
        {
            let ghost pre = indexed.deep_view();
            let mut record = validators[i].clone();
            record.index = i as u64;
            let p = record.voting_power;
            indexed.push(record);
            proof {
                assert((i + 1) * (u64::MAX as int) < 0x100000000000000000000000000000000int)
                    by (nonlinear_arith)
                    requires
                        0 <= i,
                        i + 1 <= 0x10000000000000000int,
                ;
                assert(i * (u64::MAX as int) + (u64::MAX as int) == (i + 1) * (u64::MAX as int))
                    by (nonlinear_arith);
                assert(indexed.deep_view().drop_last() =~= pre);
                assert(indexed.deep_view().last() == (ValidatorConsensusInfoV {
                    index: i as u64,
                    ..input[i as int]
                }));
                assert forall|j: int| 0 <= j < i + 1 implies #[trigger] indexed.deep_view()[j]
                    == (ValidatorConsensusInfoV { index: j as u64, ..input[j] }) by {
                    if j < i {
                        assert(indexed.deep_view().drop_last()[j] == indexed.deep_view()[j]);
                        assert(pre[j] == (ValidatorConsensusInfoV { index: j as u64, ..input[j] }));
                    } else {
                        assert(indexed.deep_view()[j] == indexed.deep_view().last());
                    }
                }
            }
            total = total + (p as u128);
        }

        let t3 = total / 3;
        let rem = total % 3;
        let quorum: u128 = if rem == 2 {
            t3 * 2 + 2
        } else {
            t3 * 2 + 1
        };
        proof {
            assert(total as int == 3 * (t3 as int) + (rem as int));
            assert(quorum as int == 2 * (total as int) / 3 + 1) by (nonlinear_arith)
                requires
                    total as int == 3 * (t3 as int) + (rem as int),
                    0 <= rem < 3,
                    quorum as int == if rem == 2 {
                        2 * (t3 as int) + 2
                    } else {
                        2 * (t3 as int) + 1
                    },
            ;
        }
        let verifier = ValidatorVerifier {
            epoch,
            validators: indexed,
            total_voting_power: total,
            quorum_threshold: quorum,
        };
        proof {
            assert(verifier.spec_validators().len() == input.len());
            assert(distinct_addresses(verifier.spec_validators()));
        }
        Some(verifier)
    }
}

/// The combined voting power of a prefix of an author list never exceeds
/// the combined power of the whole list.
pub proof fn lemma_authors_power_prefix(v: ValidatorVerifier, s: Seq<Seq<u8>>, k: int)
    requires
        0 <= k <= s.len(),
    ensures
        v.authors_power(s.subrange(0, k)) <= v.authors_power(s),
    decreases s.len() - k,
{
    if k == s.len() {
        assert(s.subrange(0, k) =~= s);
    } else {
        lemma_authors_power_prefix(v, s.drop_last(), k);
        assert(s.drop_last().subrange(0, k) =~= s.subrange(0, k));
        assert(v.authors_power(s) == v.authors_power(s.drop_last())
            + v.spec_power_of(s.last()));
    }
}


/// Removing the author at position `i` lowers the combined power by
/// exactly that author's power.
proof fn lemma_authors_power_remove(v: ValidatorVerifier, s: Seq<Seq<u8>>, i: int)
    requires
        0 <= i < s.len(),
    ensures
        v.authors_power(s.remove(i)) == v.authors_power(s) - v.spec_power_of(s[i]),
    decreases s.len(),
{
    if i == s.len() - 1 {
        assert(s.remove(i) =~= s.drop_last());
    } else {
        assert(s.remove(i).drop_last() =~= s.drop_last().remove(i));
        assert(s.remove(i).last() == s.last());
        lemma_authors_power_remove(v, s.drop_last(), i);
        assert(s.drop_last()[i] == s[i]);
    }
}

/// Law: the combined voting power of a list of authors depends only on
/// which authors it holds, and how often, never on their order. Two vote
/// arrival orders that count the same authors accumulate the same power.
pub proof fn lemma_authors_power_order_independent(
    v: ValidatorVerifier,
    s1: Seq<Seq<u8>>,
    s2: Seq<Seq<u8>>,
)
    requires
        s1.to_multiset() == s2.to_multiset(),
    ensures
        v.authors_power(s1) == v.authors_power(s2),
    decreases s1.len(),
{
    broadcast use vstd::seq_lib::group_to_multiset_ensures;

    if s1.len() == 0 {
        assert(s2.len() == s2.to_multiset().len());
        assert(s2.len() == 0);
    } else {
        let x = s1.last();
        assert(s1.contains(x));
        assert(s2.to_multiset().count(x) > 0);
        assert(s2.contains(x));
        let i = choose|i: int| 0 <= i < s2.len() && s2[i] == x;
        lemma_authors_power_remove(v, s2, i);
        assert(s1.drop_last().push(x) =~= s1);
        assert(s1.drop_last().push(x).to_multiset() =~= s1.drop_last().to_multiset().insert(x));
        assert(s2.remove(i).to_multiset() =~= s2.to_multiset().remove(x));
        assert(s1.drop_last().to_multiset() =~= s2.remove(i).to_multiset());
        lemma_authors_power_order_independent(v, s1.drop_last(), s2.remove(i));
    }
}

} // verus!
