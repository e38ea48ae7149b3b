//! Key encapsulation with Kyber1024 and NTRU-HPS 4096-821. The two
//! mechanisms themselves are not this library's: it hands byte strings in
//! and takes byte strings out.

use pqcrypto_kyber::kyber1024;
use pqcrypto_ntru::ntruhps4096821;
use pqcrypto_traits::kem::{Ciphertext, PublicKey, SecretKey, SharedSecret};
use vstd::prelude::*;

verus! {

/// Length of a Kyber1024 public key.
pub const KYBER1024_PUBLIC_KEY_BYTES: usize = 1568;

/// Length of a Kyber1024 secret key.
pub const KYBER1024_SECRET_KEY_BYTES: usize = 3168;

/// Length of a Kyber1024 ciphertext.
pub const KYBER1024_CIPHERTEXT_BYTES: usize = 1568;

/// Length of an NTRU-HPS 4096-821 public key.
pub const NTRU_PUBLIC_KEY_BYTES: usize = 1230;

/// Length of an NTRU-HPS 4096-821 secret key.
pub const NTRU_SECRET_KEY_BYTES: usize = 1590;

/// Length of an NTRU-HPS 4096-821 ciphertext.
pub const NTRU_CIPHERTEXT_BYTES: usize = 1230;

/// Length of the secret that either mechanism agrees on.
pub const SHARED_SECRET_BYTES: usize = 32;

/// A key pair of a key-encapsulation mechanism.
pub struct KemKeyPair {
    pub public_key: Vec<u8>,
    pub secret_key: Vec<u8>,
}

/// What encapsulation gives: the ciphertext for the other party, and the
/// secret that both will share.
pub struct KemCipher {
    pub ciphertext: Vec<u8>,
    pub shared_secret: Vec<u8>,
}

/// The secret that Kyber1024 decapsulation finds in a ciphertext under a
/// secret key.
pub uninterp spec fn kyber1024_decapsulation(ciphertext: Seq<u8>, secret_key: Seq<u8>) -> Seq<u8>;

/// The secret that NTRU-HPS 4096-821 decapsulation finds in a ciphertext
/// under a secret key.
pub uninterp spec fn ntru_decapsulation(ciphertext: Seq<u8>, secret_key: Seq<u8>) -> Seq<u8>;

/// Runs `pqcrypto_kyber::kyber1024::keypair`, which draws a fresh pair.
/// Claimed of it: the lengths of the two keys.
#[verifier::external_body]
fn pq_kyber_keypair() -> (pair: (Vec<u8>, Vec<u8>))
    ensures
        pair.0@.len() == KYBER1024_PUBLIC_KEY_BYTES,
        pair.1@.len() == KYBER1024_SECRET_KEY_BYTES,
{
    let (pk, sk) = kyber1024::keypair();
    (pk.as_bytes().to_vec(), sk.as_bytes().to_vec())
}

/// Runs `pqcrypto_kyber::kyber1024::encapsulate` on the key that
/// `PublicKey::from_bytes` makes of `pk`, which takes 1568 bytes and nothing
/// else. Encapsulation draws at random. Claimed of it: the lengths of the
/// secret and of the ciphertext, in that order.
#[verifier::external_body]
fn pq_kyber_encapsulate(pk: &[u8]) -> (out: (Vec<u8>, Vec<u8>))
    requires
        pk@.len() == KYBER1024_PUBLIC_KEY_BYTES,
    ensures
        out.0@.len() == SHARED_SECRET_BYTES,
        out.1@.len() == KYBER1024_CIPHERTEXT_BYTES,
{
    let public_key = kyber1024::PublicKey::from_bytes(pk).expect("a key of 1568 bytes");
    let (ss, ct) = kyber1024::encapsulate(&public_key);
    (ss.as_bytes().to_vec(), ct.as_bytes().to_vec())
}

/// Runs `pqcrypto_kyber::kyber1024::decapsulate` on the ciphertext and the
/// secret key that `from_bytes` makes of 1568 and of 3168 bytes. The secret
/// depends on these two alone: it is named, and its length is claimed.
#[verifier::external_body]
fn pq_kyber_decapsulate(ct: &[u8], sk: &[u8]) -> (ss: Vec<u8>)
    requires
        ct@.len() == KYBER1024_CIPHERTEXT_BYTES,
        sk@.len() == KYBER1024_SECRET_KEY_BYTES,
    ensures
        ss@ == kyber1024_decapsulation(ct@, sk@),
        ss@.len() == SHARED_SECRET_BYTES,
{
    let ciphertext = kyber1024::Ciphertext::from_bytes(ct).expect("a ciphertext of 1568 bytes");
    let secret_key = kyber1024::SecretKey::from_bytes(sk).expect("a key of 3168 bytes");
    kyber1024::decapsulate(&ciphertext, &secret_key).as_bytes().to_vec()
}

/// Runs `pqcrypto_ntru::ntruhps4096821::keypair`, which draws a fresh pair.
/// Claimed of it: the lengths of the two keys.
#[verifier::external_body]
fn pq_ntru_keypair() -> (pair: (Vec<u8>, Vec<u8>))
    ensures
        pair.0@.len() == NTRU_PUBLIC_KEY_BYTES,
        pair.1@.len() == NTRU_SECRET_KEY_BYTES,
{
    let (pk, sk) = ntruhps4096821::keypair();
    (pk.as_bytes().to_vec(), sk.as_bytes().to_vec())
}

/// Runs `pqcrypto_ntru::ntruhps4096821::encapsulate` on the key that
/// `PublicKey::from_bytes` makes of `pk`, which takes 1230 bytes and nothing
/// else. Encapsulation draws at random. Claimed of it: the lengths of the
/// secret and of the ciphertext, in that order.
#[verifier::external_body]
fn pq_ntru_encapsulate(pk: &[u8]) -> (out: (Vec<u8>, Vec<u8>))
    requires
        pk@.len() == NTRU_PUBLIC_KEY_BYTES,
    ensures
        out.0@.len() == SHARED_SECRET_BYTES,
        out.1@.len() == NTRU_CIPHERTEXT_BYTES,
{
    let public_key = ntruhps4096821::PublicKey::from_bytes(pk).expect("a key of 1230 bytes");
    let (ss, ct) = ntruhps4096821::encapsulate(&public_key);
    (ss.as_bytes().to_vec(), ct.as_bytes().to_vec())
}

/// Runs `pqcrypto_ntru::ntruhps4096821::decapsulate` on the ciphertext and
/// the secret key that `from_bytes` makes of 1230 and of 1590 bytes. The
/// secret depends on these two alone: it is named, and its length is
/// claimed.
#[verifier::external_body]
fn pq_ntru_decapsulate(ct: &[u8], sk: &[u8]) -> (ss: Vec<u8>)
    requires
        ct@.len() == NTRU_CIPHERTEXT_BYTES,
        sk@.len() == NTRU_SECRET_KEY_BYTES,
    ensures
        ss@ == ntru_decapsulation(ct@, sk@),
        ss@.len() == SHARED_SECRET_BYTES,
{
    let ciphertext = ntruhps4096821::Ciphertext::from_bytes(ct).expect("a ciphertext of 1230 bytes");
    let secret_key = ntruhps4096821::SecretKey::from_bytes(sk).expect("a key of 1590 bytes");
    ntruhps4096821::decapsulate(&ciphertext, &secret_key).as_bytes().to_vec()
}

/// Generates a fresh Kyber1024 key pair.
pub fn generate_kyber_keys() -> (pair: KemKeyPair)
    ensures
        pair.public_key@.len() == KYBER1024_PUBLIC_KEY_BYTES,
        pair.secret_key@.len() == KYBER1024_SECRET_KEY_BYTES,
{
    let (public_key, secret_key) = pq_kyber_keypair();
    KemKeyPair { public_key, secret_key }
}

/// Encapsulates a fresh secret to a Kyber1024 public key.
pub fn kyber_encapsulate(pk: &[u8]) -> (cipher: KemCipher)
    requires
        pk@.len() == KYBER1024_PUBLIC_KEY_BYTES,
    ensures
        cipher.ciphertext@.len() == KYBER1024_CIPHERTEXT_BYTES,
        cipher.shared_secret@.len() == SHARED_SECRET_BYTES,
{
    let (shared_secret, ciphertext) = pq_kyber_encapsulate(pk);
    KemCipher { ciphertext, shared_secret }
}

/// Recovers the secret of a Kyber1024 ciphertext with the secret key.
pub fn kyber_decapsulate(ct: &[u8], sk: &[u8]) -> (ss: Vec<u8>)
    requires
        ct@.len() == KYBER1024_CIPHERTEXT_BYTES,
        sk@.len() == KYBER1024_SECRET_KEY_BYTES,
    ensures
        ss@ == kyber1024_decapsulation(ct@, sk@),
        ss@.len() == SHARED_SECRET_BYTES,
{
    pq_kyber_decapsulate(ct, sk)
}

/// Generates a fresh NTRU-HPS 4096-821 key pair.
pub fn generate_ntru_keys() -> (pair: KemKeyPair)
    ensures
        pair.public_key@.len() == NTRU_PUBLIC_KEY_BYTES,
        pair.secret_key@.len() == NTRU_SECRET_KEY_BYTES,
{
    let (public_key, secret_key) = pq_ntru_keypair();
    KemKeyPair { public_key, secret_key }
}

/// Encapsulates a fresh secret to an NTRU-HPS 4096-821 public key.
pub fn ntru_encapsulate(pk: &[u8]) -> (cipher: KemCipher)
    requires
        pk@.len() == NTRU_PUBLIC_KEY_BYTES,
    ensures
        cipher.ciphertext@.len() == NTRU_CIPHERTEXT_BYTES,
        cipher.shared_secret@.len() == SHARED_SECRET_BYTES,
{
    let (shared_secret, ciphertext) = pq_ntru_encapsulate(pk);
    KemCipher { ciphertext, shared_secret }
}

/// Recovers the secret of an NTRU-HPS 4096-821 ciphertext with the secret
/// key.
pub fn ntru_decapsulate(ct: &[u8], sk: &[u8]) -> (ss: Vec<u8>)
    requires
        ct@.len() == NTRU_CIPHERTEXT_BYTES,
        sk@.len() == NTRU_SECRET_KEY_BYTES,
    ensures
        ss@ == ntru_decapsulation(ct@, sk@),
        ss@.len() == SHARED_SECRET_BYTES,
{
    pq_ntru_decapsulate(ct, sk)
}

} // verus!
