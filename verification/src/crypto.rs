//! Trusted boundary to the Ed25519 signature scheme.
//!
//! Signing, public-key derivation and verification are pure functions of
//! their byte-string arguments; their results are named here and everything
//! the library proves about signatures goes through these names. The three
//! wrappers are the only code that touches the signature crate.

use vstd::prelude::*;

verus! {

/// The signature that the holder of the 32-byte secret key `sk` produces
/// over `msg`. RFC 8032 signing is deterministic, so this is a pure
/// function of the two byte strings.
pub uninterp spec fn signature_of(sk: Seq<u8>, msg: Seq<u8>) -> Seq<u8>;

/// The 32-byte public key derived from the 32-byte secret key `sk`.
pub uninterp spec fn public_key_of(sk: Seq<u8>) -> Seq<u8>;

/// Whether Ed25519 verification accepts `sig` as a signature over `msg`
/// under the public key bytes `pk`; false when `pk` or `sig` do not parse
/// as a key or signature. A pure function of the three byte strings.
pub uninterp spec fn signature_checks(pk: Seq<u8>, msg: Seq<u8>, sig: Seq<u8>) -> bool;

/// Relies on `ed25519_dalek::SigningKey::sign`: deterministic in secret key
/// and message (RFC 8032), always 64 bytes, and the produced signature
/// verifies under the key's own public key.
#[verifier::external_body]
pub fn ed25519_sign(sk: &Vec<u8>, msg: &Vec<u8>) -> (r: Vec<u8>)
    requires
        sk@.len() == 32,
    ensures
        r@ == signature_of(sk@, msg@),
        r@.len() == 64,
        signature_checks(public_key_of(sk@), msg@, r@),
{
    let mut key = [0u8; 32];
    key.copy_from_slice(sk.as_slice());
    let signing_key = ed25519_dalek::SigningKey::from_bytes(&key);
    let sig = ed25519_dalek::Signer::sign(&signing_key, msg.as_slice());
    sig.to_vec()
}

/// Relies on `ed25519_dalek::SigningKey::verifying_key`: the public key is
/// a function of the secret key alone and encodes in 32 bytes.
#[verifier::external_body]
pub fn ed25519_public_key(sk: &Vec<u8>) -> (r: Vec<u8>)
    requires
        sk@.len() == 32,
    ensures
        r@ == public_key_of(sk@),
        r@.len() == 32,
{
    let mut key = [0u8; 32];
    key.copy_from_slice(sk.as_slice());
    let signing_key = ed25519_dalek::SigningKey::from_bytes(&key);
    signing_key.verifying_key().to_bytes().to_vec()
}

/// Relies on `ed25519_dalek::VerifyingKey::verify`: acceptance is a
/// function of public-key bytes, message and signature bytes alone;
/// byte strings that do not parse as a key or signature are rejected.
#[verifier::external_body]
pub fn ed25519_verify(pk: &Vec<u8>, msg: &Vec<u8>, sig: &Vec<u8>) -> (r: bool)
    ensures
        r == signature_checks(pk@, msg@, sig@),
{
    if pk.len() != 32 || sig.len() != 64 {
        return false;
    }
    let mut key = [0u8; 32];
    key.copy_from_slice(pk.as_slice());
    let vk = match ed25519_dalek::VerifyingKey::from_bytes(&key) {
        Ok(vk) => vk,
        Err(_) => {
            return false;
        }
    };
    let mut sig_bytes = [0u8; 64];
    sig_bytes.copy_from_slice(sig.as_slice());
    let signature = ed25519_dalek::Signature::from_bytes(&sig_bytes);
    ed25519_dalek::Verifier::verify(&vk, msg.as_slice(), &signature).is_ok()
}

} // verus!
