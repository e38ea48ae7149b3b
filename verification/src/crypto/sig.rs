//! Signatures with Dilithium5. The scheme itself is not this library's: it
//! hands byte strings in and takes byte strings out.

use pqcrypto_dilithium::dilithium5;
use pqcrypto_traits::sign::{DetachedSignature, PublicKey, SecretKey};
use vstd::prelude::*;

verus! {

/// Length of a Dilithium5 public key.
pub const DILITHIUM5_PUBLIC_KEY_BYTES: usize = 2592;

/// Length of a Dilithium5 secret key.
pub const DILITHIUM5_SECRET_KEY_BYTES: usize = 4896;

/// Length of a Dilithium5 signature.
pub const DILITHIUM5_SIGNATURE_BYTES: usize = 4627;

/// A Dilithium5 key pair.
pub struct SigKeyPair {
    pub public_key: Vec<u8>,
    pub secret_key: Vec<u8>,
}

/// The bytes of a detached signature.
pub struct Signature {
    pub bytes: Vec<u8>,
}

/// The Dilithium5 signature of a message under a secret key. Signing draws
/// nothing at random: the same key and message give the same signature.
pub uninterp spec fn dilithium5_signature(secret_key: Seq<u8>, message: Seq<u8>) -> Seq<u8>;

/// Whether Dilithium5 takes a signature for a message under a public key.
pub uninterp spec fn dilithium5_accepts(
    signature: Seq<u8>,
    message: Seq<u8>,
    public_key: Seq<u8>,
) -> bool;

/// Runs `pqcrypto_dilithium::dilithium5::keypair`, which draws a fresh pair.
/// Claimed of it: the lengths of the two keys.
#[verifier::external_body]
fn pq_dilithium_keypair() -> (pair: (Vec<u8>, Vec<u8>))
    ensures
        pair.0@.len() == DILITHIUM5_PUBLIC_KEY_BYTES,
        pair.1@.len() == DILITHIUM5_SECRET_KEY_BYTES,
{
    let (pk, sk) = dilithium5::keypair();
    (pk.as_bytes().to_vec(), sk.as_bytes().to_vec())
}

/// Runs `pqcrypto_dilithium::dilithium5::detached_sign` with the key that
/// `SecretKey::from_bytes` makes of `sk`, which takes 4896 bytes and nothing
/// else. The signature depends on key and message alone: it is named, and
/// its length, which is always the same, is claimed.
#[verifier::external_body]
fn pq_dilithium_sign(sk: &[u8], message: &[u8]) -> (sig: Vec<u8>)
    requires
        sk@.len() == DILITHIUM5_SECRET_KEY_BYTES,
    ensures
        sig@ == dilithium5_signature(sk@, message@),
        sig@.len() == DILITHIUM5_SIGNATURE_BYTES,
{
    let secret_key = dilithium5::SecretKey::from_bytes(sk).expect("a key of 4896 bytes");
    dilithium5::detached_sign(message, &secret_key).as_bytes().to_vec()
}

/// Runs `pqcrypto_dilithium::dilithium5::verify_detached_signature` with
/// the signature that `DetachedSignature::from_bytes` makes of `sig`, which
/// takes up to 4627 bytes, and the key that `PublicKey::from_bytes` makes of
/// `pk`, which takes 2592 bytes. The verdict depends on the three alone: it
/// is named. Claimed besides: a signature of another length than 4627 is
/// refused.
#[verifier::external_body]
fn pq_dilithium_verify(sig: &[u8], pk: &[u8], message: &[u8]) -> (ok: bool)
    requires
        sig@.len() <= DILITHIUM5_SIGNATURE_BYTES,
        pk@.len() == DILITHIUM5_PUBLIC_KEY_BYTES,
    ensures
        ok == dilithium5_accepts(sig@, message@, pk@),
        sig@.len() != DILITHIUM5_SIGNATURE_BYTES ==> !ok,
{
    let signature = dilithium5::DetachedSignature::from_bytes(sig).expect("at most 4627 bytes");
    let public_key = dilithium5::PublicKey::from_bytes(pk).expect("a key of 2592 bytes");
    dilithium5::verify_detached_signature(&signature, message, &public_key).is_ok()
}

/// Generates a fresh Dilithium5 key pair.
pub fn generate_dilithium_keys() -> (pair: SigKeyPair)
    ensures
        pair.public_key@.len() == DILITHIUM5_PUBLIC_KEY_BYTES,
        pair.secret_key@.len() == DILITHIUM5_SECRET_KEY_BYTES,
{
    let (public_key, secret_key) = pq_dilithium_keypair();
    SigKeyPair { public_key, secret_key }
}

/// Signs a message with a Dilithium5 secret key. The same key and message
/// always give the same signature.
pub fn sign_message(sk: &[u8], message: &[u8]) -> (sig: Signature)
    requires
        sk@.len() == DILITHIUM5_SECRET_KEY_BYTES,
    ensures
        sig.bytes@ == dilithium5_signature(sk@, message@),
        sig.bytes@.len() == DILITHIUM5_SIGNATURE_BYTES,
{
    Signature { bytes: pq_dilithium_sign(sk, message) }
}

/// Verifies a detached signature against a message and a public key.
pub fn verify_message(sig: &[u8], pk: &[u8], message: &[u8]) -> (ok: bool)
    requires
        sig@.len() <= DILITHIUM5_SIGNATURE_BYTES,
        pk@.len() == DILITHIUM5_PUBLIC_KEY_BYTES,
    ensures
        ok == dilithium5_accepts(sig@, message@, pk@),
        sig@.len() != DILITHIUM5_SIGNATURE_BYTES ==> !ok,
{
    pq_dilithium_verify(sig, pk, message)
}

} // verus!
