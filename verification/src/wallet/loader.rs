//! Loading a wallet: decode the container, derive the key, decrypt, read the
//! record. And the way back: sealing a record into a new container.

use rand::RngCore;
use vstd::prelude::*;
use crate::wallet::aead::{
    aes256_gcm_open, aes256_gcm_seal, cipher_takes, decrypt_once, encrypt_once, fits_cipher,
};
use crate::wallet::container::{decode, sealed_payload_of, Container, SealedPayload};
use crate::wallet::envelope::{
    encode, encoding, has_magic, lemma_decode_inverts_encode, EnvelopeHeader, FormatError,
    WalletEnvelope,
};
use crate::wallet::format::{HEADER_LEN, KDF_ID_ARGON2ID, MAGIC, VERSION};
use crate::wallet::kdf::{derive_key, derived_key, kdf_rejection, CostParams, KdfError};
use crate::wallet::record::{
    legacy_public_key_of_payload, legacy_record_of_payload, parse_legacy_public_key,
    parse_legacy_record, parse_record, payload_of, record_of_payload, LoadedWallet, RecordModel,
    WalletSecretRecord,
};
use crate::wallet::secret::{wipe_bytes, Password};

verus! {

/// Why a wallet could not be loaded. No variant carries a byte of a secret.
#[derive(Debug, Clone, Copy, PartialEq, Eq)]
pub enum LoadError {
    /// The bytes are no container. No key was derived.
    Format(FormatError),
    /// The key derivation refuses the costs or the salt.
    Kdf(KdfError),
    /// The tag did not verify: a wrong password, or a damaged container.
    Authentication,
    /// The tag verified, yet the plaintext is no record.
    Deserialization,
}

/// Why a record could not be sealed.
#[derive(Debug, Clone, Copy, PartialEq, Eq)]
pub enum SealError {
    /// The key derivation refuses the costs.
    Kdf(KdfError),
    /// The plaintext is longer than the cipher takes.
    PayloadTooLong,
}

/// What opening gives: the key is derived from the password under the salt
/// and the costs of the container, and the ciphertext is decrypted under
/// that key, the nonce and the authenticated data of the container.
pub open spec fn opening(s: SealedPayload, password: Seq<u8>) -> Result<Seq<u8>, LoadError> {
    match kdf_rejection(password.len(), s.salt.len(), s.costs) {
        Some(e) => Err(LoadError::Kdf(e)),
        None => match aes256_gcm_open(
            derived_key(password, s.salt, s.costs),
            s.nonce,
            s.ciphertext,
            s.aad,
        ) {
            Some(plaintext) => Ok(plaintext),
            None => Err(LoadError::Authentication),
        },
    }
}

/// What loading gives: the container is decoded, opened, and its plaintext
/// read as the record of its layout.
pub open spec fn loading(data: Seq<u8>, password: Seq<u8>) -> Result<RecordModel, LoadError> {
    match sealed_payload_of(data) {
        Err(e) => Err(LoadError::Format(e)),
        Ok(s) => match opening(s, password) {
            Err(e) => Err(e),
            Ok(plaintext) => match (if has_magic(data) {
                record_of_payload(plaintext)
            } else {
                legacy_record_of_payload(plaintext)
            }) {
                Some(record) => Ok(record),
                None => Err(LoadError::Deserialization),
            },
        },
    }
}

/// What loading the public signature key gives. It asks less of a plaintext
/// of the text layout than loading the record does: the secret key may be
/// missing.
pub open spec fn loading_public_key(data: Seq<u8>, password: Seq<u8>) -> Result<
    Seq<u8>,
    LoadError,
> {
    match sealed_payload_of(data) {
        Err(e) => Err(LoadError::Format(e)),
        Ok(s) => match opening(s, password) {
            Err(e) => Err(e),
            Ok(plaintext) => match (if has_magic(data) {
                match record_of_payload(plaintext) {
                    Some(record) => Some(record.dilithium_public),
                    None => None,
                }
            } else {
                legacy_public_key_of_payload(plaintext)
            }) {
                Some(public) => Ok(public),
                None => Err(LoadError::Deserialization),
            },
        },
    }
}

/// Bytes that are no container are refused as such whatever the password:
/// the refusal comes before any key is derived.
pub proof fn lemma_format_errors_ignore_password(
    data: Seq<u8>,
    password: Seq<u8>,
    other: Seq<u8>,
)
    requires
        sealed_payload_of(data) is Err,
    ensures
        loading(data, password) == loading(data, other),
        loading(data, password) matches Err(LoadError::Format(_)),
        loading_public_key(data, password) == loading_public_key(data, other),
        loading_public_key(data, password) matches Err(LoadError::Format(_)),
{
}

/// A wallet that loads for signing loads for verifying, and with the same
/// public key.
pub proof fn lemma_public_key_of_loaded_wallet(data: Seq<u8>, password: Seq<u8>)
    requires
        loading(data, password) is Ok,
    ensures
        loading_public_key(data, password) == Ok::<Seq<u8>, LoadError>(
            loading(data, password)->Ok_0.dilithium_public,
        ),
{
}

/// Opens a container: derives the key and decrypts. The key is wiped before
/// this returns, on every path. A wrong password is found out by the
/// cipher and nowhere before.
pub fn open_container(container: &Container, password: &Password) -> (r: Result<
    Vec<u8>,
    LoadError,
>)
    ensures
        match r {
            Ok(plaintext) => opening(container.sealed(), password@) == Ok::<Seq<u8>, LoadError>(
                plaintext@,
            ),
            Err(e) => opening(container.sealed(), password@) == Err::<Seq<u8>, LoadError>(e),
        },
{
    let mut key = match derive_key(password, container.salt(), container.costs()) {
        Ok(key) => key,
        Err(e) => {
            return Err(LoadError::Kdf(e));
        },
    };
    let aad: Vec<u8> = container.aad();
    let r = decrypt_once(&mut key, container.nonce(), container.ciphertext(), aad.as_slice());
    match r {
        Ok(plaintext) => Ok(plaintext),
        Err(_) => Err(LoadError::Authentication),
    }
}

/// Loads a wallet from the bytes of its container: either the whole record
/// as it was stored, or one error and nothing else. The plaintext is wiped
/// before this returns.
pub fn load(data: &[u8], password: &Password) -> (r: Result<WalletSecretRecord, LoadError>)
    ensures
        match r {
            Ok(record) => loading(data@, password@) == Ok::<RecordModel, LoadError>(record@),
            Err(e) => loading(data@, password@) == Err::<RecordModel, LoadError>(e),
        },
{
    let container = match decode(data) {
        Ok(container) => container,
        Err(e) => {
            return Err(LoadError::Format(e));
        },
    };
    let mut plaintext = match open_container(&container, password) {
        Ok(plaintext) => plaintext,
        Err(e) => {
            return Err(e);
        },
    };
    let parsed = match container {
        Container::Binary(_) => parse_record(plaintext.as_slice()),
        Container::Legacy(_) => parse_legacy_record(plaintext.as_slice()),
    };
    wipe_bytes(&mut plaintext);
    match parsed {
        Ok(record) => Ok(record),
        Err(_) => Err(LoadError::Deserialization),
    }
}

/// Loads the signature key pair of a wallet, for signing.
pub fn load_wallet(data: &[u8], password: &Password) -> (r: Result<LoadedWallet, LoadError>)
    ensures
        match r {
            Ok(pair) => {
                &&& loading(data@, password@) matches Ok(record)
                &&& pair.pk@ == record.dilithium_public
                &&& pair.sk@ == record.dilithium_secret
            },
            Err(e) => loading(data@, password@) == Err::<RecordModel, LoadError>(e),
        },
{
    match load(data, password) {
        Ok(record) => Ok(record.into_signing_pair()),
        Err(e) => Err(e),
    }
}

/// Loads the public signature key of a wallet, for verifying.
pub fn load_public_key(data: &[u8], password: &Password) -> (r: Result<Vec<u8>, LoadError>)
    ensures
        match r {
            Ok(public) => loading_public_key(data@, password@) == Ok::<Seq<u8>, LoadError>(
                public@,
            ),
            Err(e) => loading_public_key(data@, password@) == Err::<Seq<u8>, LoadError>(e),
        },
{
    let container = match decode(data) {
        Ok(container) => container,
        Err(e) => {
            return Err(LoadError::Format(e));
        },
    };
    let mut plaintext = match open_container(&container, password) {
        Ok(plaintext) => plaintext,
        Err(e) => {
            return Err(e);
        },
    };
    let parsed = match container {
        Container::Binary(_) => match parse_record(plaintext.as_slice()) {
            Ok(record) => {
                let mut record = record;
                record.wipe_secrets();
                Ok(record.dilithium_public)
            },
            Err(e) => Err(e),
        },
        Container::Legacy(_) => parse_legacy_public_key(plaintext.as_slice()),
    };
    wipe_bytes(&mut plaintext);
    match parsed {
        Ok(public) => Ok(public),
        Err(_) => Err(LoadError::Deserialization),
    }
}

/// The header of a new container.
pub open spec fn new_header(costs: CostParams, salt: [u8; 16], nonce: [u8; 12]) -> EnvelopeHeader {
    EnvelopeHeader { magic: MAGIC, version: VERSION, kdf_id: KDF_ID_ARGON2ID, costs, salt, nonce }
}

/// What sealing gives: the plaintext, encrypted under the key of the
/// password with the header as authenticated data, behind header and nonce.
pub open spec fn sealing(
    plaintext: Seq<u8>,
    password: Seq<u8>,
    costs: CostParams,
    salt: [u8; 16],
    nonce: [u8; 12],
) -> Result<Seq<u8>, SealError> {
    match kdf_rejection(password.len(), salt@.len(), costs) {
        Some(e) => Err(SealError::Kdf(e)),
        None => if !cipher_takes(plaintext.len(), HEADER_LEN as nat) {
            Err(SealError::PayloadTooLong)
        } else {
            let header = new_header(costs, salt, nonce);
            Ok(
                encoding(
                    header,
                    aes256_gcm_seal(
                        derived_key(password, salt@, costs),
                        nonce@,
                        plaintext,
                        header.aad_spec(),
                    ),
                ),
            )
        },
    }
}

/// Whether `r` is the outcome `expected`, the bytes taken by their view.
pub open spec fn is_seal_outcome(
    r: Result<Vec<u8>, SealError>,
    expected: Result<Seq<u8>, SealError>,
) -> bool {
    match r {
        Ok(bytes) => expected == Ok::<Seq<u8>, SealError>(bytes@),
        Err(e) => expected == Err::<Seq<u8>, SealError>(e),
    }
}

/// Whether `bytes` are a container that opens under `password` to
/// `plaintext`.
pub open spec fn opens_to(bytes: Seq<u8>, password: Seq<u8>, plaintext: Seq<u8>) -> bool {
    &&& sealed_payload_of(bytes) matches Ok(s)
    &&& opening(s, password) == Ok::<Seq<u8>, LoadError>(plaintext)
}

/// Fills an array through `rand::RngCore::fill_bytes` of
/// `rand::thread_rng()`, the cryptographically secure generator of the
/// thread. Nothing is claimed of the bytes.
#[verifier::external_body]
fn random_bytes<const N: usize>() -> (out: [u8; N]) {
    let mut out = [0u8; N];
    rand::thread_rng().fill_bytes(&mut out);
    out
}

/// Seals a plaintext into a new binary container under the given salt and
/// nonce. The nonce must not have served this password and salt before. The
/// key is wiped before this returns. What comes out opens, under the same
/// password, to the plaintext that went in.
pub fn seal_payload(
    plaintext: &[u8],
    password: &Password,
    costs: CostParams,
    salt: [u8; 16],
    nonce: [u8; 12],
) -> (r: Result<Vec<u8>, SealError>)
    ensures
        is_seal_outcome(r, sealing(plaintext@, password@, costs, salt, nonce)),
        r matches Ok(bytes) ==> opens_to(bytes@, password@, plaintext@),
{
    let mut key = match derive_key(password, salt.as_slice(), costs) {
        Ok(key) => key,
        Err(e) => {
            return Err(SealError::Kdf(e));
        },
    };
    if !fits_cipher(plaintext.len(), HEADER_LEN) {
        key.wipe();
        return Err(SealError::PayloadTooLong);
    }
    let header = EnvelopeHeader::new(costs, salt, nonce);
    let aad: Vec<u8> = header.aad();
    let ciphertext = encrypt_once(&mut key, &header.nonce, plaintext, aad.as_slice());
    let envelope = WalletEnvelope { header, ciphertext };
    let bytes = encode(&envelope);
    proof {
        lemma_decode_inverts_encode(header, envelope.ciphertext@);
        Container::Binary(envelope).lemma_sealed(bytes@);
    }
    Ok(bytes)
}

/// Seals a record into a new binary container under the given salt and
/// nonce. The plaintext is wiped before this returns.
pub fn seal_record(
    record: &WalletSecretRecord,
    password: &Password,
    costs: CostParams,
    salt: [u8; 16],
    nonce: [u8; 12],
) -> (r: Result<Vec<u8>, SealError>)
    ensures
        is_seal_outcome(r, sealing(payload_of(record@), password@, costs, salt, nonce)),
        r matches Ok(bytes) ==> opens_to(bytes@, password@, payload_of(record@)),
{
    let mut plaintext = record.to_payload();
    let r = seal_payload(plaintext.as_slice(), password, costs, salt, nonce);
    wipe_bytes(&mut plaintext);
    r
}

/// Seals a record into a new binary container, under a salt and a nonce
/// drawn afresh from the secure random generator.
pub fn generate_container(
    record: &WalletSecretRecord,
    password: &Password,
    costs: CostParams,
) -> (r: Result<Vec<u8>, SealError>)
    ensures
        exists|salt: [u8; 16], nonce: [u8; 12]|
            is_seal_outcome(
                r,
                #[trigger] sealing(payload_of(record@), password@, costs, salt, nonce),
            ),
        r matches Ok(bytes) ==> opens_to(bytes@, password@, payload_of(record@)),
{
    let salt: [u8; 16] = random_bytes::<16>();
    let nonce: [u8; 12] = random_bytes::<12>();
    seal_record(record, password, costs, salt, nonce)
}

} // verus!
