//! What the commands do with a loaded wallet: sign a message and check the
//! signature at once, verify a signature, and make the keys of a new wallet.

use vstd::prelude::*;
use crate::crypto::kem::{
    generate_kyber_keys, generate_ntru_keys, KYBER1024_PUBLIC_KEY_BYTES,
    KYBER1024_SECRET_KEY_BYTES, NTRU_PUBLIC_KEY_BYTES, NTRU_SECRET_KEY_BYTES,
};
use crate::crypto::sig::{
    dilithium5_accepts, dilithium5_signature, generate_dilithium_keys, sign_message,
    verify_message, DILITHIUM5_PUBLIC_KEY_BYTES, DILITHIUM5_SECRET_KEY_BYTES,
    DILITHIUM5_SIGNATURE_BYTES,
};
use crate::wallet::bytes::copy_of;
use crate::wallet::record::{LoadedWallet, WalletSecretRecord};
use crate::wallet::secret::wipe_bytes;

verus! {

/// Why a key or a signature cannot be handed to the signature scheme.
#[derive(Debug, Clone, Copy, PartialEq, Eq, Structural)]
pub enum KeyError {
    /// The secret key has not the length of a Dilithium5 secret key.
    BadSecretKey,
    /// The public key has not the length of a Dilithium5 public key.
    BadPublicKey,
    /// The signature is longer than a Dilithium5 signature.
    SignatureTooLong,
}

/// A signature, and how it fared when it was checked at once.
pub struct SignReport {
    /// The detached signature.
    pub signature: Vec<u8>,
    /// Whether the signature verifies for the message.
    pub message_verifies: bool,
    /// Whether it verifies for the message with one bit changed, which it
    /// should not.
    pub tampered_verifies: bool,
}

/// A message that differs from `message` in one bit, or in one byte where
/// `message` is empty.
pub open spec fn tampered(message: Seq<u8>) -> Seq<u8> {
    if message.len() == 0 {
        seq![1u8]
    } else {
        message.update(0, message[0] ^ 1u8)
    }
}

/// Changes one bit of a message: the lowest of its first byte. An empty
/// message becomes the one byte 1.
pub fn tamper(message: &[u8]) -> (out: Vec<u8>)
    ensures
        out@ == tampered(message@),
        out@ != message@,
{
    let mut out: Vec<u8> = copy_of(message);
    if out.len() == 0 {
        out.push(1);
    } else {
        let first: u8 = out[0];
        out.set(0, first ^ 1);
        assert(first ^ 1u8 != first) by (bit_vector);
    }
    out
}

/// What signing with a wallet gives.
pub open spec fn sign_report_of(pair_pk: Seq<u8>, pair_sk: Seq<u8>, message: Seq<u8>) -> Result<
    (Seq<u8>, bool, bool),
    KeyError,
> {
    if pair_sk.len() != DILITHIUM5_SECRET_KEY_BYTES {
        Err(KeyError::BadSecretKey)
    } else if pair_pk.len() != DILITHIUM5_PUBLIC_KEY_BYTES {
        Err(KeyError::BadPublicKey)
    } else {
        let signature = dilithium5_signature(pair_sk, message);
        Ok(
            (
                signature,
                dilithium5_accepts(signature, message, pair_pk),
                dilithium5_accepts(signature, tampered(message), pair_pk),
            ),
        )
    }
}

/// Signs a message with the key pair of a wallet, and checks the signature
/// against the message and against the message with one bit changed. The
/// secret key is wiped before this returns, whatever the outcome.
pub fn sign_with_wallet(wallet: &mut LoadedWallet, message: &[u8]) -> (r: Result<
    SignReport,
    KeyError,
>)
    ensures
        match r {
            Ok(report) => sign_report_of(old(wallet).pk@, old(wallet).sk@, message@) == Ok::<
                (Seq<u8>, bool, bool),
                KeyError,
            >((report.signature@, report.message_verifies, report.tampered_verifies)),
            Err(e) => sign_report_of(old(wallet).pk@, old(wallet).sk@, message@) == Err::<
                (Seq<u8>, bool, bool),
                KeyError,
            >(e),
        },
        final(wallet).sk@.len() == 0,
        final(wallet).pk@ == old(wallet).pk@,
{
    if wallet.sk.len() != DILITHIUM5_SECRET_KEY_BYTES {
        wipe_bytes(&mut wallet.sk);
        return Err(KeyError::BadSecretKey);
    }
    if wallet.pk.len() != DILITHIUM5_PUBLIC_KEY_BYTES {
        wipe_bytes(&mut wallet.sk);
        return Err(KeyError::BadPublicKey);
    }
    let signature = sign_message(wallet.sk.as_slice(), message);
    wipe_bytes(&mut wallet.sk);
    let message_verifies = verify_message(
        signature.bytes.as_slice(),
        wallet.pk.as_slice(),
        message,
    );
    let changed = tamper(message);
    let tampered_verifies = verify_message(
        signature.bytes.as_slice(),
        wallet.pk.as_slice(),
        changed.as_slice(),
    );
    Ok(SignReport { signature: signature.bytes, message_verifies, tampered_verifies })
}

/// What checking a signature gives.
pub open spec fn signature_check_of(signature: Seq<u8>, public_key: Seq<u8>, message: Seq<u8>) -> Result<
    bool,
    KeyError,
> {
    if signature.len() > DILITHIUM5_SIGNATURE_BYTES {
        Err(KeyError::SignatureTooLong)
    } else if public_key.len() != DILITHIUM5_PUBLIC_KEY_BYTES {
        Err(KeyError::BadPublicKey)
    } else {
        Ok(dilithium5_accepts(signature, message, public_key))
    }
}

/// Checks a signature against a message and the public key of a wallet.
pub fn check_signature(signature: &[u8], public_key: &[u8], message: &[u8]) -> (r: Result<
    bool,
    KeyError,
>)
    ensures
        r == signature_check_of(signature@, public_key@, message@),
{
    if signature.len() > DILITHIUM5_SIGNATURE_BYTES {
        return Err(KeyError::SignatureTooLong);
    }
    if public_key.len() != DILITHIUM5_PUBLIC_KEY_BYTES {
        return Err(KeyError::BadPublicKey);
    }
    Ok(verify_message(signature, public_key, message))
}

/// Makes the keys of a new wallet: a fresh pair of each of the three
/// schemes.
pub fn generate_record() -> (record: WalletSecretRecord)
    ensures
        record@.kyber_public.len() == KYBER1024_PUBLIC_KEY_BYTES,
        record@.kyber_secret.len() == KYBER1024_SECRET_KEY_BYTES,
        record@.ntru_public.len() == NTRU_PUBLIC_KEY_BYTES,
        record@.ntru_secret.len() == NTRU_SECRET_KEY_BYTES,
        record@.dilithium_public.len() == DILITHIUM5_PUBLIC_KEY_BYTES,
        record@.dilithium_secret.len() == DILITHIUM5_SECRET_KEY_BYTES,
{
    let kyber = generate_kyber_keys();
    let ntru = generate_ntru_keys();
    let dilithium = generate_dilithium_keys();
    WalletSecretRecord {
        kyber_public: kyber.public_key,
        kyber_secret: kyber.secret_key,
        ntru_public: ntru.public_key,
        ntru_secret: ntru.secret_key,
        dilithium_public: dilithium.public_key,
        dilithium_secret: dilithium.secret_key,
    }
}

} // verus!
