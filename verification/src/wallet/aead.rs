//! The cipher: AES-256-GCM with a 96-bit nonce and a 128-bit tag that ends
//! the ciphertext, over a payload and bytes that are authenticated with it.

use aes_gcm::aead::{Aead, KeyInit, Payload};
use aes_gcm::{Aes256Gcm, Key, Nonce};
use vstd::prelude::*;
use crate::wallet::format::TAG_LEN;
use crate::wallet::secret::EncryptionKey;

verus! {

/// The greatest length of a payload, and of authenticated data, that the
/// cipher takes: 64 GiB.
pub const MAX_CIPHER_INPUT: u64 = 0x10_0000_0000;

/// The authentication tag did not verify. A wrong password and a damaged
/// container both end here, and nothing tells them apart.
#[derive(Debug, Clone, Copy, PartialEq, Eq, Structural)]
pub struct AuthenticationError;

/// The AES-256-GCM ciphertext, tag appended, of a payload under a key, a
/// nonce and authenticated data.
pub uninterp spec fn aes256_gcm_seal(
    key: Seq<u8>,
    nonce: Seq<u8>,
    plaintext: Seq<u8>,
    aad: Seq<u8>,
) -> Seq<u8>;

/// What AES-256-GCM decryption gives for a ciphertext under a key, a nonce
/// and authenticated data: the payload, or nothing where it refuses.
pub uninterp spec fn aes256_gcm_open(
    key: Seq<u8>,
    nonce: Seq<u8>,
    ciphertext: Seq<u8>,
    aad: Seq<u8>,
) -> Option<Seq<u8>>;

/// Runs `aead::Aead::encrypt` of `aes_gcm::Aes256Gcm`, which refuses a
/// payload or authenticated data over 64 GiB and nothing else: `requires`
/// leaves those out. Claimed of what it returns: it is the named ciphertext;
/// it is 16 bytes longer than the payload; and decryption under the same
/// key, nonce and authenticated data gives the payload back, which is what
/// makes the cipher a cipher.
#[verifier::external_body]
fn aes_gcm_encrypt(
    key: &[u8; 32],
    nonce: &[u8; 12],
    plaintext: &[u8],
    aad: &[u8],
) -> (ct: Vec<u8>)
    requires
        cipher_takes(plaintext@.len(), aad@.len()),
    ensures
        ct@ == aes256_gcm_seal(key@, nonce@, plaintext@, aad@),
        ct@.len() == plaintext@.len() + TAG_LEN,
        aes256_gcm_open(key@, nonce@, ct@, aad@) == Some(plaintext@),
{
    Aes256Gcm::new(Key::<Aes256Gcm>::from_slice(key))
        .encrypt(Nonce::from_slice(nonce), Payload { msg: plaintext, aad })
        .expect("payload and authenticated data are within the limits of GCM")
}

/// Runs `aead::Aead::decrypt` of `aes_gcm::Aes256Gcm`. Claimed of what it
/// returns: it is the named result; a ciphertext shorter than the tag is
/// refused; and a payload that comes out is 16 bytes shorter than the
/// ciphertext. Which ciphertexts verify is not claimed.
#[verifier::external_body]
fn aes_gcm_decrypt(
    key: &[u8; 32],
    nonce: &[u8; 12],
    ciphertext: &[u8],
    aad: &[u8],
) -> (r: Option<Vec<u8>>)
    ensures
        r is Some <==> aes256_gcm_open(key@, nonce@, ciphertext@, aad@) is Some,
        r matches Some(pt) ==> aes256_gcm_open(key@, nonce@, ciphertext@, aad@) == Some(pt@),
        r matches Some(pt) ==> pt@.len() + TAG_LEN == ciphertext@.len(),
        ciphertext@.len() < TAG_LEN ==> r is None,
{
    Aes256Gcm::new(Key::<Aes256Gcm>::from_slice(key))
        .decrypt(Nonce::from_slice(nonce), Payload { msg: ciphertext, aad })
        .ok()
}

/// Whether the cipher takes a payload and authenticated data of these lengths.
pub open spec fn cipher_takes(plaintext_len: nat, aad_len: nat) -> bool {
    plaintext_len <= MAX_CIPHER_INPUT && aad_len <= MAX_CIPHER_INPUT
}

/// Tells whether the cipher takes a payload and authenticated data of these
/// lengths.
pub fn fits_cipher(plaintext_len: usize, aad_len: usize) -> (yes: bool)
    ensures
        yes == cipher_takes(plaintext_len as nat, aad_len as nat),
{
    plaintext_len as u64 <= MAX_CIPHER_INPUT && aad_len as u64 <= MAX_CIPHER_INPUT
}

/// Encrypts a payload and authenticates `aad` with it. The nonce must be
/// fresh for this key: no contract can say so, the caller has to see to it.
pub fn encrypt(key: &EncryptionKey, nonce: &[u8; 12], plaintext: &[u8], aad: &[u8]) -> (ct: Vec<
    u8,
>)
    requires
        cipher_takes(plaintext@.len(), aad@.len()),
    ensures
        ct@ == aes256_gcm_seal(key@, nonce@, plaintext@, aad@),
        ct@.len() == plaintext@.len() + TAG_LEN,
        aes256_gcm_open(key@, nonce@, ct@, aad@) == Some(plaintext@),
{
    aes_gcm_encrypt(key.expose(), nonce, plaintext, aad)
}

/// Decrypts a ciphertext, all or nothing: the payload where the tag verifies
/// for this key, nonce and `aad`, the error where it does not.
pub fn decrypt(key: &EncryptionKey, nonce: &[u8; 12], ciphertext: &[u8], aad: &[u8]) -> (r: Result<
    Vec<u8>,
    AuthenticationError,
>)
    ensures
        match r {
            Ok(pt) => {
                &&& aes256_gcm_open(key@, nonce@, ciphertext@, aad@) == Some(pt@)
                &&& pt@.len() + TAG_LEN == ciphertext@.len()
            },
            Err(_) => aes256_gcm_open(key@, nonce@, ciphertext@, aad@) is None,
        },
        ciphertext@.len() < TAG_LEN ==> r is Err,
{
    match aes_gcm_decrypt(key.expose(), nonce, ciphertext, aad) {
        Some(pt) => Ok(pt),
        None => Err(AuthenticationError),
    }
}

/// Decrypts as `decrypt` does and wipes the key, whatever the outcome: a
/// key serves one decryption.
pub fn decrypt_once(
    key: &mut EncryptionKey,
    nonce: &[u8; 12],
    ciphertext: &[u8],
    aad: &[u8],
) -> (r: Result<Vec<u8>, AuthenticationError>)
    ensures
        match r {
            Ok(pt) => {
                &&& aes256_gcm_open(old(key)@, nonce@, ciphertext@, aad@) == Some(pt@)
                &&& pt@.len() + TAG_LEN == ciphertext@.len()
            },
            Err(_) => aes256_gcm_open(old(key)@, nonce@, ciphertext@, aad@) is None,
        },
        final(key).is_wiped(),
{
    let r = decrypt(key, nonce, ciphertext, aad);
    key.wipe();
    r
}

/// Encrypts as `encrypt` does and wipes the key: a key serves one
/// encryption.
pub fn encrypt_once(
    key: &mut EncryptionKey,
    nonce: &[u8; 12],
    plaintext: &[u8],
    aad: &[u8],
) -> (ct: Vec<u8>)
    requires
        cipher_takes(plaintext@.len(), aad@.len()),
    ensures
        ct@ == aes256_gcm_seal(old(key)@, nonce@, plaintext@, aad@),
        ct@.len() == plaintext@.len() + TAG_LEN,
        aes256_gcm_open(old(key)@, nonce@, ct@, aad@) == Some(plaintext@),
        final(key).is_wiped(),
{
    let ct = encrypt(key, nonce, plaintext, aad);
    key.wipe();
    ct
}

} // verus!
