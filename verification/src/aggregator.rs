//! Per-(epoch, round) commit-vote aggregation.
//!
//! A [`QuorumAggregator`] collects verified commit votes for one target
//! ledger info, detects equivocation, de-duplicates authors, and produces a
//! [`QuorumCertificate`] exactly once, when the accumulated voting power of
//! the distinct contributing authors first meets the epoch's quorum
//! threshold.

use vstd::prelude::*;
use crate::codec::enc_ledger_info;
use crate::commit_vote::{CommitVote, CommitVoteV};
use crate::crypto::signature_checks;
use crate::types::{clone_bytes, Author, LedgerInfo};
use crate::validator_verifier::{AggregateSignature, ValidatorVerifier, VerifyError};

verus! {

/// Copies a list of validator identities.
fn clone_authors(v: &Vec<Author>) -> (r: Vec<Author>)
    ensures
        r@ == v@,
{
    let mut r: Vec<Author> = Vec::new();
    for i in 0..v.len()
        invariant
            r@ =~= v@.subrange(0, i as int),
    {
        r.push(v[i]);
    }
    proof {
        assert(r@ =~= v@);
    }
    r
}

/// Copies a list of signatures; the copy's deep view equals the original's.
fn clone_signature_list(v: &Vec<Vec<u8>>) -> (r: Vec<Vec<u8>>)
    ensures
        r.deep_view() == v.deep_view(),
{
    let mut r: Vec<Vec<u8>> = Vec::new();
    for i in 0..v.len()
        invariant
            r@.len() == i,
            forall|j: int| 0 <= j < i ==> r.deep_view()[j] == v.deep_view()[j],
    {
        let ghost pre = r;
        let c = clone_bytes(&v[i]);
        r.push(c);
        proof {
            assert forall|j: int| 0 <= j < i + 1 implies r.deep_view()[j] == v.deep_view()[j] by {
                if j == i {
                    assert(r@[j] == c);
                } else {
                    assert(r@[j] == pre@[j]);
                }
            }
        }
    }
    proof {
        assert(r.deep_view() =~= v.deep_view());
    }
    r
}

/// An aggregated finality proof: the certified ledger info together with
/// the contributing authors' signatures over its canonical serialization.
#[derive(Debug, PartialEq, Eq)]
pub struct QuorumCertificate {
    pub ledger_info: LedgerInfo,
    pub signatures: AggregateSignature,
}

impl Clone for QuorumCertificate {
    fn clone(&self) -> (r: Self)
        ensures
            r.ledger_info@ == self.ledger_info@,
            r.signatures.signers@ == self.signatures.signers@,
            r.signatures.signatures.deep_view() == self.signatures.signatures.deep_view(),
    {
        QuorumCertificate {
            ledger_info: self.ledger_info.clone(),
            signatures: AggregateSignature {
                signers: clone_authors(&self.signatures.signers),
                signatures: clone_signature_list(&self.signatures.signatures),
            },
        }
    }
}

impl QuorumCertificate {
    /// The certified finality claim.
    pub fn ledger_info(&self) -> (r: &LedgerInfo)
        ensures
            r@ == self.ledger_info@,
    {
        &self.ledger_info
    }

    /// The epoch the certificate belongs to.
    pub fn epoch(&self) -> (r: u64)
        ensures
            r == self.ledger_info@.commit_info.epoch,
    {
        self.ledger_info.epoch()
    }

    /// The round the certificate commits.
    pub fn round(&self) -> (r: u64)
        ensures
            r == self.ledger_info@.commit_info.round,
    {
        self.ledger_info.round()
    }

    /// The contributing authors and their signatures.
    pub fn signatures(&self) -> (r: &AggregateSignature)
        ensures
            r == &self.signatures,
    {
        &self.signatures
    }

    /// Checks a certificate against an epoch's validator set, as when a
    /// certificate is read back from storage: the aggregated signature must
    /// verify over the certified ledger info's canonical serialization, and
    /// the contributing authors must carry quorum voting power.
    pub fn verify(&self, validator: &ValidatorVerifier) -> (r: bool)
        requires
            validator.wf(),
        ensures
            r <==> {
                &&& self.signatures.signers.deep_view().len()
                    == self.signatures.signatures.deep_view().len()
                &&& forall|i: int|
                    0 <= i < self.signatures.signers.deep_view().len() ==> validator.contains_author(
                        #[trigger] self.signatures.signers.deep_view()[i],
                    )
                &&& forall|i: int|
                    0 <= i < self.signatures.signers.deep_view().len() ==> signature_checks(
                        validator.spec_public_key_of(
                            #[trigger] self.signatures.signers.deep_view()[i],
                        ),
                        enc_ledger_info(self.ledger_info@),
                        self.signatures.signatures.deep_view()[i],
                    )
                &&& validator.authors_power(self.signatures.signers.deep_view())
                    >= validator.spec_quorum_threshold() as int
            },
    {
        let message = crate::codec::ledger_info_bytes(&self.ledger_info);
        if validator.verify_aggregate(&self.signatures, &message).is_err() {
            return false;
        }
        validator.has_quorum(&self.signatures.signers)
    }
}

/// The closed set of states of a vote aggregator.
#[derive(Debug)]
pub enum AggregatorState {
    /// Still collecting votes; no quorum yet.
    Collecting,
    /// Quorum was reached; the certificate is fixed and never changes.
    Certified(QuorumCertificate),
    /// The round was superseded; votes are still acknowledged but no
    /// certificate will ever be produced.
    Abandoned,
}

/// The outcome of delivering one vote to an aggregator.
#[derive(Debug)]
pub enum AddOutcome {
    /// The vote was recorded; quorum is not yet reached.
    Added,
    /// An identical repeat vote from an author already counted; no-op.
    Duplicate,
    /// The vote was recorded after the round was already certified.
    AlreadyCertified,
    /// This vote raised the accumulated power to the quorum threshold;
    /// the new, unique certificate.
    Certified(QuorumCertificate),
    /// The vote was recorded after the round was abandoned.
    Abandoned,
}

/// Why a vote was rejected without being recorded.
#[derive(Debug)]
pub enum AggregatorError {
    /// The author is not in the epoch's validator set.
    UnknownAuthor,
    /// The signature does not verify over the claimed ledger info.
    InvalidSignature,
    /// The author signed a conflicting claim for this round: the target
    /// claim and the conflicting one, surfaced for safety-violation
    /// handling.
    Equivocation { author: Author, first: LedgerInfo, second: LedgerInfo },
}

/// Per-(epoch, round, target ledger info) vote aggregation state machine.
///
/// Concurrent vote deliveries serialize on the exclusive reference that
/// [`Self::add_vote`] takes: the caller guards each aggregator with its
/// own exclusion mechanism, one critical section per round, so the
/// `Collecting` to `Certified` transition happens exactly once.
#[derive(Debug)]
pub struct QuorumAggregator {
    pub verifier: ValidatorVerifier,
    pub target: LedgerInfo,
    pub signers: Vec<Author>,
    pub signatures: Vec<Vec<u8>>,
    pub power: u128,
    pub state: AggregatorState,
}

impl QuorumAggregator {
    /// The identities that have been counted so far, in arrival order.
    pub open spec fn spec_signers(self) -> Seq<Seq<u8>> {
        self.signers.deep_view()
    }

    /// The epoch's quorum threshold.
    pub open spec fn spec_quorum(self) -> int {
        self.verifier.spec_quorum_threshold() as int
    }

    /// Whether `a` has already been counted.
    pub open spec fn has_voted(self, a: Seq<u8>) -> bool {
        exists|i: int| 0 <= i < self.spec_signers().len() && #[trigger] self.spec_signers()[i] == a
    }

    /// Whether the vote verifies under the aggregator's epoch verifier.
    pub open spec fn vote_verifies(self, vote: CommitVoteV) -> bool {
        &&& self.verifier.contains_author(vote.author)
        &&& signature_checks(
            self.verifier.spec_public_key_of(vote.author),
            enc_ledger_info(vote.ledger_info),
            vote.signature,
        )
    }

    /// Whether the vote claims exactly the aggregator's target ledger info.
    pub open spec fn matches_target(self, vote: CommitVoteV) -> bool {
        vote.ledger_info == self.target@
    }

    /// A vote is accepted (recorded) when it verifies, claims the target,
    /// and its author has not been counted yet.
    pub open spec fn accepts(self, vote: CommitVoteV) -> bool {
        &&& self.vote_verifies(vote)
        &&& self.matches_target(vote)
        &&& !self.has_voted(vote.author)
    }

    /// What holds of a fixed certificate: it certifies the target, its
    /// contributing authors are the counted ones up to the moment of
    /// certification (a prefix of the current ones), they are distinct,
    /// known to the epoch, each signature checks, and their combined power
    /// meets the quorum threshold.
    pub open spec fn certificate_wf(self, qc: QuorumCertificate) -> bool {
        let signers = qc.signatures.signers.deep_view();
        &&& qc.ledger_info@ == self.target@
        &&& signers.len() <= self.spec_signers().len()
        &&& signers == self.spec_signers().subrange(0, signers.len() as int)
        &&& signers.len() == qc.signatures.signatures.deep_view().len()
        &&& self.verifier.authors_power(signers) >= self.spec_quorum()
    }

    /// Well-formedness, preserved by every operation: counted authors are
    /// distinct members of the epoch whose signatures over the target
    /// check, the accumulated power is exactly their combined voting
    /// power, and a fixed certificate satisfies [`Self::certificate_wf`].
    pub open spec fn wf(self) -> bool {
        &&& self.verifier.wf()
        &&& self.spec_signers().len() == self.signatures.deep_view().len()
        &&& forall|i: int, j: int|
            0 <= i < self.spec_signers().len() && 0 <= j < self.spec_signers().len() && i != j
                ==> #[trigger] self.spec_signers()[i] != #[trigger] self.spec_signers()[j]
        &&& forall|i: int|
            0 <= i < self.spec_signers().len() ==> self.verifier.contains_author(
                #[trigger] self.spec_signers()[i],
            )
        &&& forall|i: int|
            0 <= i < self.spec_signers().len() ==> signature_checks(
                self.verifier.spec_public_key_of(#[trigger] self.spec_signers()[i]),
                enc_ledger_info(self.target@),
                self.signatures.deep_view()[i],
            )
        &&& self.power as int == self.verifier.authors_power(self.spec_signers())
        &&& self.power as int <= self.spec_signers().len() * (u64::MAX as int)
        &&& (self.state matches AggregatorState::Certified(qc) ==> self.certificate_wf(qc))
    }

    /// Starts collecting votes for `target` under the epoch verifier.
    pub fn new(verifier: ValidatorVerifier, target: LedgerInfo) -> (r: QuorumAggregator)
        requires
            verifier.wf(),
        ensures
            r.wf(),
            r.verifier == verifier,
            r.target == target,
            r.spec_signers().len() == 0,
            r.power == 0,
            r.state is Collecting,
    {
        let r = QuorumAggregator {
            verifier,
            target,
            signers: Vec::new(),
            signatures: Vec::new(),
            power: 0,
            state: AggregatorState::Collecting,
        };
        proof {
            assert(r.spec_signers() =~= Seq::<Seq<u8>>::empty());
        }
        r
    }

    /// Whether `author` has already been counted.
    fn author_has_voted(&self, author: &Author) -> (r: bool)
        ensures
            r <==> self.has_voted(author@),
    {
        for i in 0..self.signers.len()
            invariant
                forall|j: int| 0 <= j < i ==> #[trigger] self.spec_signers()[j] != author@,
        {
            if self.signers[i].equals(author) {
                proof {
                    assert(self.spec_signers()[i as int] == author@);
                }
                return true;
            }
        }
        false
    }

    /// The fixed certificate, once the round is certified. Never becomes
    /// empty again and never changes afterwards.
    pub fn certificate(&self) -> (r: Option<&QuorumCertificate>)
        ensures
            r is Some <==> self.state is Certified,
            (r matches Some(qc) ==> self.state matches AggregatorState::Certified(qc2) && qc2
                == *qc),
    {
        match &self.state {
            AggregatorState::Certified(qc) => Some(qc),
            _ => None,
        }
    }

    /// Marks the round superseded (timeout or epoch change). Advisory: an
    /// already certified round keeps its certificate; otherwise no
    /// certificate will ever be produced, while late votes are still
    /// acknowledged without corrupting state.
    pub fn abandon(&mut self)
        requires
            old(self).wf(),
        ensures
            final(self).wf(),
            old(self).state is Certified ==> *final(self) == *old(self),
            !(old(self).state is Certified) ==> {
                &&& final(self).state is Abandoned
                &&& final(self).verifier == old(self).verifier
                &&& final(self).target == old(self).target
                &&& final(self).signers == old(self).signers
                &&& final(self).signatures == old(self).signatures
                &&& final(self).power == old(self).power
            },
    {
        let certified = match &self.state {
            AggregatorState::Certified(_) => true,
            _ => false,
        };
        if !certified {
            self.state = AggregatorState::Abandoned;
        }
    }

    /// Delivers one vote.
    ///
    /// A vote that fails verification or conflicts with the target is
    /// rejected without touching any state. A repeated author is an
    /// idempotent no-op. An accepted vote is recorded and its author's
    /// power counted once; when the accumulated power first reaches the
    /// quorum threshold the aggregator transitions to `Certified` exactly
    /// once and hands out the new certificate.
    #[verifier::rlimit(100)]
    #[verifier::spinoff_prover]
    pub fn add_vote(&mut self, vote: &CommitVote) -> (r: Result<AddOutcome, AggregatorError>)
        requires
            old(self).wf(),
        ensures
            final(self).wf(),
            final(self).verifier == old(self).verifier,
            final(self).target == old(self).target,
            // rejected or duplicate votes leave the aggregator untouched
            !old(self).accepts(vote@) ==> *final(self) == *old(self),
            // the error cases, each if and only if
            (r == Err::<AddOutcome, AggregatorError>(AggregatorError::UnknownAuthor)
                <==> !old(self).verifier.contains_author(vote@.author)),
            (r == Err::<AddOutcome, AggregatorError>(AggregatorError::InvalidSignature)
                <==> old(self).verifier.contains_author(vote@.author) && !signature_checks(
                old(self).verifier.spec_public_key_of(vote@.author),
                enc_ledger_info(vote@.ledger_info),
                vote@.signature,
            )),
            ((r matches Err(AggregatorError::Equivocation { .. })) <==> old(self).vote_verifies(
                vote@,
            ) && !old(self).matches_target(vote@)),
            (r matches Err(AggregatorError::Equivocation { author, first, second }) ==> author@
                == vote@.author && first@ == old(self).target@ && second@ == vote@.ledger_info),
            // the idempotent duplicate case, if and only if
            (r matches Ok(AddOutcome::Duplicate) <==> old(self).vote_verifies(vote@) && old(
                self,
            ).matches_target(vote@) && old(self).has_voted(vote@.author)),
            // an accepted vote is recorded and counted exactly once
            old(self).accepts(vote@) ==> {
                &&& final(self).signers@ == old(self).signers@.push(vote.author)
                &&& final(self).signatures.deep_view() == old(self).signatures.deep_view().push(
                    vote@.signature,
                )
                &&& final(self).power as int == old(self).power as int + old(
                    self,
                ).verifier.spec_power_of(vote@.author) as int
            },
            // a certified aggregator stays certified, with the same
            // certificate; late valid votes are acknowledged
            old(self).state is Certified ==> final(self).state == old(self).state,
            (r matches Ok(AddOutcome::AlreadyCertified) <==> old(self).accepts(vote@) && old(
                self,
            ).state is Certified),
            // an abandoned aggregator never certifies
            old(self).state is Abandoned ==> final(self).state is Abandoned,
            (r matches Ok(AddOutcome::Abandoned) <==> old(self).accepts(vote@) && old(
                self,
            ).state is Abandoned),
            // certification happens exactly when this vote first raises the
            // accumulated power to the threshold
            (r matches Ok(AddOutcome::Certified(_)) <==> old(self).accepts(vote@) && old(
                self,
            ).state is Collecting && old(self).power as int + old(self).verifier.spec_power_of(
                vote@.author,
            ) as int >= old(self).spec_quorum()),
            (r matches Ok(AddOutcome::Certified(qc)) ==> final(self).state matches
                AggregatorState::Certified(qc2) && qc.ledger_info@ == qc2.ledger_info@
                && qc.signatures.signers@ == qc2.signatures.signers@
                && qc.signatures.signatures.deep_view() == qc2.signatures.signatures.deep_view()
                && qc.ledger_info@ == old(self).target@
                && qc.signatures.signers@ == final(self).signers@),
            (r matches Ok(AddOutcome::Added) <==> old(self).accepts(vote@) && old(
                self,
            ).state is Collecting && (old(self).power as int + old(self).verifier.spec_power_of(
                vote@.author,
            ) as int) < old(self).spec_quorum()),
            (r matches Ok(AddOutcome::Added) ==> final(self).state is Collecting),
    {
        match vote.verify(&self.verifier) {
            Err(VerifyError::UnknownAuthor) => {
                return Err(AggregatorError::UnknownAuthor);
            }
            Err(VerifyError::InvalidSignature) => {
                return Err(AggregatorError::InvalidSignature);
            }
            Ok(()) => {}
        }
        if !self.target.equals(vote.ledger_info()) {
            return Err(
                AggregatorError::Equivocation {
                    author: vote.author(),
                    first: self.target.clone(),
                    second: vote.ledger_info().clone(),
                },
            );
        }
        if self.author_has_voted(&vote.author) {
            return Ok(AddOutcome::Duplicate);
        }
        Ok(self.record_accepted(vote))
    }

    /// Records an accepted vote: counts its author once and performs the
    /// state transition the new accumulated power calls for.
    #[verifier::rlimit(100)]
    #[verifier::spinoff_prover]
    fn record_accepted(&mut self, vote: &CommitVote) -> (r: AddOutcome)
        requires
            old(self).wf(),
            old(self).accepts(vote@),
        ensures
            final(self).wf(),
            final(self).verifier == old(self).verifier,
            final(self).target == old(self).target,
            final(self).signers@ == old(self).signers@.push(vote.author),
            final(self).signatures.deep_view() == old(self).signatures.deep_view().push(
                vote@.signature,
            ),
            final(self).power as int == old(self).power as int + old(
                self,
            ).verifier.spec_power_of(vote@.author) as int,
            old(self).state is Certified ==> final(self).state == old(self).state,
            (r is AlreadyCertified <==> old(self).state is Certified),
            old(self).state is Abandoned ==> final(self).state is Abandoned,
            (r is Abandoned <==> old(self).state is Abandoned),
            (r is Certified <==> old(self).state is Collecting && old(self).power as int + old(
                self,
            ).verifier.spec_power_of(vote@.author) as int >= old(self).spec_quorum()),
            (r matches AddOutcome::Certified(qc) ==> final(self).state matches
                AggregatorState::Certified(qc2) && qc.ledger_info@ == qc2.ledger_info@
                && qc.signatures.signers@ == qc2.signatures.signers@
                && qc.signatures.signatures.deep_view() == qc2.signatures.signatures.deep_view()
                && qc.ledger_info@ == old(self).target@
                && qc.signatures.signers@ == final(self).signers@),
            (r is Added <==> old(self).state is Collecting && (old(self).power as int + old(
                self,
            ).verifier.spec_power_of(vote@.author) as int) < old(self).spec_quorum()),
            (r is Added ==> final(self).state is Collecting),
            !(r is Duplicate),
    {
        let p = self.verifier.voting_power_of_author(&vote.author);
        let n = self.signers.len();
        proof {
            assert((n + 1) * (u64::MAX as int) < 0x100000000000000000000000000000000int)
                by (nonlinear_arith)
                requires
                    0 <= n,
                    n + 1 <= 0x10000000000000000int,
            ;
            assert(n * (u64::MAX as int) + (u64::MAX as int) == (n + 1) * (u64::MAX as int))
                by (nonlinear_arith);
        }
        let ghost pre = *self;
        self.signers.push(vote.author);
        let sig = clone_bytes(&vote.signature);
        self.signatures.push(sig);
        self.power = self.power + (p as u128);
        proof {
            assert(self.spec_signers().drop_last() =~= pre.spec_signers());
            assert(self.spec_signers().last() == vote@.author);
            assert(self.signatures.deep_view() =~~= pre.signatures.deep_view().push(
                vote@.signature,
            ));
            assert(self.spec_signers() =~= pre.spec_signers().push(vote@.author));
            assert(self.verifier.authors_power(self.spec_signers()) == pre.verifier.authors_power(
                pre.spec_signers(),
            ) + self.verifier.spec_power_of(vote@.author));
        }

        let already_certified = match &self.state {
            AggregatorState::Certified(_) => true,
            _ => false,
        };
        if already_certified {
            proof {
                Self::lemma_push_preserves_wf(*self, pre, vote@);
                assert(self.state == pre.state);
                if self.state is Certified {
                    let qc = self.state->0;
                    let len = qc.signatures.signers.deep_view().len() as int;
                    assert(qc.signatures.signers.deep_view() =~= self.spec_signers().subrange(
                        0,
                        len,
                    ));
                }
            }
            return AddOutcome::AlreadyCertified;
        }
        let abandoned = match &self.state {
            AggregatorState::Abandoned => true,
            _ => false,
        };
        if abandoned {
            proof {
                Self::lemma_push_preserves_wf(*self, pre, vote@);
            }
            return AddOutcome::Abandoned;
        }
        if self.power >= self.verifier.quorum_threshold() {
            let qc = QuorumCertificate {
                ledger_info: self.target.clone(),
                signatures: AggregateSignature {
                    signers: clone_authors(&self.signers),
                    signatures: clone_signature_list(&self.signatures),
                },
            };
            let out = qc.clone();
            proof {
                Self::lemma_push_preserves_wf(*self, pre, vote@);
                assert(qc.signatures.signers.deep_view() =~= self.spec_signers());
                assert(qc.signatures.signers.deep_view() =~= self.spec_signers().subrange(
                    0,
                    self.spec_signers().len() as int,
                ));
                assert(out.signatures.signers.deep_view() =~= qc.signatures.signers.deep_view());
            }
            self.state = AggregatorState::Certified(qc);
            AddOutcome::Certified(out)
        } else {
            proof {
                Self::lemma_push_preserves_wf(*self, pre, vote@);
            }
            AddOutcome::Added
        }
    }

    /// After recording an accepted vote, every well-formedness clause that
    /// speaks of the counted authors still holds.
    proof fn lemma_push_preserves_wf(post: QuorumAggregator, pre: QuorumAggregator, vote: CommitVoteV)
        requires
            pre.wf(),
            pre.accepts(vote),
            post.verifier == pre.verifier,
            post.target == pre.target,
            post.spec_signers() == pre.spec_signers().push(vote.author),
            post.signatures.deep_view() == pre.signatures.deep_view().push(vote.signature),
            post.power as int == pre.power as int + pre.verifier.spec_power_of(vote.author) as int,
            post.power as int == post.verifier.authors_power(post.spec_signers()),
        ensures
            post.spec_signers().len() == post.signatures.deep_view().len(),
            forall|i: int, j: int|
                0 <= i < post.spec_signers().len() && 0 <= j < post.spec_signers().len() && i != j
                    ==> #[trigger] post.spec_signers()[i] != #[trigger] post.spec_signers()[j],
            forall|i: int|
                0 <= i < post.spec_signers().len() ==> post.verifier.contains_author(
                    #[trigger] post.spec_signers()[i],
                ),
            forall|i: int|
                0 <= i < post.spec_signers().len() ==> signature_checks(
                    post.verifier.spec_public_key_of(#[trigger] post.spec_signers()[i]),
                    enc_ledger_info(post.target@),
                    post.signatures.deep_view()[i],
                ),
            post.power as int <= post.spec_signers().len() * (u64::MAX as int),
    {
        let s = post.spec_signers();
        let n = pre.spec_signers().len() as int;
        assert forall|i: int, j: int| 0 <= i < s.len() && 0 <= j < s.len() && i != j implies
            #[trigger] s[i] != #[trigger] s[j] by {
            if i < n && j < n {
                assert(pre.spec_signers()[i] != pre.spec_signers()[j]);
            } else if i == n {
                assert(s[j] == pre.spec_signers()[j]);
                assert(!pre.has_voted(vote.author));
            } else if j == n {
                assert(s[i] == pre.spec_signers()[i]);
                assert(!pre.has_voted(vote.author));
            }
        }
        assert forall|i: int| 0 <= i < s.len() implies post.verifier.contains_author(
            #[trigger] s[i],
        ) by {
            if i < n {
                assert(pre.verifier.contains_author(pre.spec_signers()[i]));
            }
        }
        assert forall|i: int| 0 <= i < s.len() implies signature_checks(
            post.verifier.spec_public_key_of(#[trigger] s[i]),
            enc_ledger_info(post.target@),
            post.signatures.deep_view()[i],
        ) by {
            if i < n {
                assert(signature_checks(
                    pre.verifier.spec_public_key_of(pre.spec_signers()[i]),
                    enc_ledger_info(pre.target@),
                    pre.signatures.deep_view()[i],
                ));
            } else {
                assert(vote.ledger_info == pre.target@);
            }
        }
        assert(post.power as int <= (n + 1) * (u64::MAX as int)) by (nonlinear_arith)
            requires
                post.power as int <= n * (u64::MAX as int) + (u64::MAX as int),
                0 <= n,
        ;
    }

    /// Law: an aggregator whose accumulated voting power is below the
    /// epoch's quorum threshold holds no certificate — in whatever order,
    /// and from whichever authors, its votes arrived.
    pub proof fn lemma_below_quorum_no_certificate(self)
        requires
            self.wf(),
            (self.power as int) < self.spec_quorum(),
        ensures
            !(self.state is Certified),
    {
        if self.state is Certified {
            let qc = self.state->0;
            let signers = qc.signatures.signers.deep_view();
            crate::validator_verifier::lemma_authors_power_prefix(
                self.verifier,
                self.spec_signers(),
                signers.len() as int,
            );
            assert(false);
        }
    }

    /// Law: a certificate is only ever fixed for the aggregator's own
    /// target, and only once its contributing authors carry at least the
    /// epoch's quorum of voting power.
    pub proof fn lemma_certificate_has_quorum(self)
        requires
            self.wf(),
            self.state is Certified,
        ensures
            self.state->0.ledger_info@ == self.target@,
            self.verifier.authors_power(self.state->0.signatures.signers.deep_view())
                >= self.spec_quorum(),
    {
    }
}

} // verus!
