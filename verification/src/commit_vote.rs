//! One validator's signed claim that a specific ledger state is final for a
//! given (epoch, round).

use vstd::prelude::*;
use crate::codec::{enc_ledger_info, ledger_info_bytes};
use crate::crypto::{public_key_of, signature_checks, signature_of};
use crate::signer::ValidatorSigner;
use crate::types::{Author, BlockInfo, LedgerInfo, LedgerInfoV};
use crate::validator_verifier::{ValidatorVerifier, VerifyError};

verus! {

/// Mathematical view of a [`CommitVote`].
#[verifier::ext_equal]
pub ghost struct CommitVoteV {
    pub author: Seq<u8>,
    pub ledger_info: LedgerInfoV,
    pub signature: Seq<u8>,
}

/// A commit vote: author, the finality claim it signs, and the signature
/// over the claim's canonical byte serialization. Immutable after creation.
#[derive(Debug, PartialEq, Eq)]
pub struct CommitVote {
    pub author: Author,
    pub ledger_info: LedgerInfo,
    pub signature: Vec<u8>,
}

impl View for CommitVote {
    type V = CommitVoteV;

    open spec fn view(&self) -> CommitVoteV {
        CommitVoteV {
            author: self.author@,
            ledger_info: self.ledger_info@,
            signature: self.signature@,
        }
    }
}

impl Clone for CommitVote {
    fn clone(&self) -> (r: Self)
        ensures
            r@ == self@,
    {
        CommitVote {
            author: self.author,
            ledger_info: self.ledger_info.clone(),
            signature: crate::types::clone_bytes(&self.signature),
        }
    }
}

impl CommitVote {
    /// Generates a new commit vote by signing `ledger_info_placeholder`
    /// with the validator's own key. Deterministic given identical inputs.
    pub fn new(
        author: Author,
        ledger_info_placeholder: LedgerInfo,
        validator_signer: &ValidatorSigner,
    ) -> (r: CommitVote)
        requires
            validator_signer.wf(),
        ensures
            r@.author == author@,
            r@.ledger_info == ledger_info_placeholder@,
            r@.signature == signature_of(
                validator_signer.private_key@,
                enc_ledger_info(ledger_info_placeholder@),
            ),
            signature_checks(
                public_key_of(validator_signer.private_key@),
                enc_ledger_info(ledger_info_placeholder@),
                r@.signature,
            ),
    {
        let signature = validator_signer.sign_ledger_info(&ledger_info_placeholder);
        Self::new_with_signature(author, ledger_info_placeholder, signature)
    }

    /// Generates a new commit vote carrying the given signature over
    /// `ledger_info`.
    pub fn new_with_signature(author: Author, ledger_info: LedgerInfo, signature: Vec<u8>) -> (r:
        CommitVote)
        ensures
            r@.author == author@,
            r@.ledger_info == ledger_info@,
            r@.signature == signature@,
    {
        Self { author, ledger_info, signature }
    }

    /// The author of the commit vote.
    pub fn author(&self) -> (r: Author)
        ensures
            r@ == self@.author,
    {
        self.author
    }

    /// The finality claim this vote signs.
    pub fn ledger_info(&self) -> (r: &LedgerInfo)
        ensures
            r@ == self@.ledger_info,
    {
        &self.ledger_info
    }

    /// The signature of the vote.
    pub fn signature(&self) -> (r: &Vec<u8>)
        ensures
            r@ == self@.signature,
    {
        &self.signature
    }

    /// The round the vote commits.
    pub fn round(&self) -> (r: u64)
        ensures
            r == self@.ledger_info.commit_info.round,
    {
        self.ledger_info.round()
    }

    /// The epoch the vote belongs to.
    pub fn epoch(&self) -> (r: u64)
        ensures
            r == self@.ledger_info.commit_info.epoch,
    {
        self.ledger_info.epoch()
    }

    /// Verifies the vote against the epoch's validator set: fails with
    /// `UnknownAuthor` when the author is not in the set, and with
    /// `InvalidSignature` when the signature does not verify against the
    /// author's public key and the exact byte serialization of the ledger
    /// info. Side-effect-free.
    pub fn verify(&self, validator: &ValidatorVerifier) -> (r: Result<(), VerifyError>)
        requires
            validator.wf(),
        ensures
            r is Ok <==> validator.contains_author(self@.author) && signature_checks(
                validator.spec_public_key_of(self@.author),
                enc_ledger_info(self@.ledger_info),
                self@.signature,
            ),
            r == Err::<(), VerifyError>(VerifyError::UnknownAuthor) <==> !validator.contains_author(
                self@.author,
            ),
            r == Err::<(), VerifyError>(VerifyError::InvalidSignature)
                <==> validator.contains_author(self@.author) && !signature_checks(
                validator.spec_public_key_of(self@.author),
                enc_ledger_info(self@.ledger_info),
                self@.signature,
            ),
    {
        let message = ledger_info_bytes(&self.ledger_info);
        validator.verify_signature(&self.author, &message, &self.signature)
    }

    /// The commit target embedded in the vote's ledger info.
    pub fn commit_info(&self) -> (r: &BlockInfo)
        ensures
            r@ == self@.ledger_info.commit_info,
    {
        self.ledger_info.commit_info()
    }

    /// Whether `other` is the same vote: same author, same claim, same
    /// signature.
    pub fn equals(&self, other: &CommitVote) -> (r: bool)
        ensures
            r <==> self@ == other@,
    {
        let r = self.author.equals(&other.author) && self.ledger_info.equals(&other.ledger_info)
            && crate::types::bytes_eq(&self.signature, &other.signature);
        proof {
            if r {
                assert(self@ =~= other@);
            }
        }
        r
    }
}

} // verus!
