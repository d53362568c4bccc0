//! A validator's signing identity: its address and its 32-byte secret key.

use vstd::prelude::*;
use crate::codec::{enc_ledger_info, ledger_info_bytes};
use crate::crypto::{ed25519_public_key, ed25519_sign, public_key_of, signature_checks, signature_of};
use crate::types::{Author, LedgerInfo};

verus! {

/// Signs finality claims on behalf of one validator.
#[derive(Debug, PartialEq, Eq)]
pub struct ValidatorSigner {
    pub author: Author,
    pub private_key: Vec<u8>,
}

impl ValidatorSigner {
    /// The secret key has the scheme's fixed 32-byte length.
    pub open spec fn wf(self) -> bool {
        self.private_key@.len() == 32
    }

    /// Builds a signer; succeeds exactly when the key has the scheme's
    /// 32-byte length.
    pub fn new(author: Author, private_key: Vec<u8>) -> (r: Option<ValidatorSigner>)
        ensures
            r is Some <==> private_key@.len() == 32,
            r matches Some(s) ==> {
                &&& s.wf()
                &&& s.author@ == author@
                &&& s.private_key@ == private_key@
            },
    {
        if private_key.len() == 32 {
            Some(ValidatorSigner { author, private_key })
        } else {
            None
        }
    }

    /// The validator identity this signer signs for.
    pub fn author(&self) -> (r: Author)
        ensures
            r@ == self.author@,
    {
        self.author
    }

    /// The public key corresponding to the signer's secret key.
    pub fn public_key(&self) -> (r: Vec<u8>)
        requires
            self.wf(),
        ensures
            r@ == public_key_of(self.private_key@),
            r@.len() == 32,
    {
        ed25519_public_key(&self.private_key)
    }

    /// Signs the canonical byte serialization of `ledger_info`.
    /// Deterministic: the same key and claim always give the same bytes.
    pub fn sign_ledger_info(&self, ledger_info: &LedgerInfo) -> (r: Vec<u8>)
        requires
            self.wf(),
        ensures
            r@ == signature_of(self.private_key@, enc_ledger_info(ledger_info@)),
            r@.len() == 64,
            signature_checks(
                public_key_of(self.private_key@),
                enc_ledger_info(ledger_info@),
                r@,
            ),
    {
        let message = ledger_info_bytes(ledger_info);
        ed25519_sign(&self.private_key, &message)
    }
}

} // verus!
