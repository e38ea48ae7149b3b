//! The secret record that a container protects: three key pairs, each a
//! public and a secret byte string.

use sha2::{Digest, Sha256};
use vstd::prelude::*;
use crate::wallet::bytes::copy_of;
use crate::wallet::json::{
    blob_fields_view, field_named, find_blob, find_text, json_blob_fields, json_of_blob_fields,
    json_text_fields, lemma_first_named_at, read_blob_fields, read_text_fields, text_fields_view,
    write_blob_fields,
};
use crate::wallet::secret::{wipe_bytes, wipe_text};
use crate::wallet::text::{decode_hex_field, field_decoding};

verus! {

/// The decrypted content of a wallet. The secret fields are never shown:
/// only a fingerprint of a public field is.
pub struct WalletSecretRecord {
    pub kyber_public: Vec<u8>,
    pub kyber_secret: Vec<u8>,
    pub ntru_public: Vec<u8>,
    pub ntru_secret: Vec<u8>,
    pub dilithium_public: Vec<u8>,
    pub dilithium_secret: Vec<u8>,
}

/// What a record holds.
pub struct RecordModel {
    pub kyber_public: Seq<u8>,
    pub kyber_secret: Seq<u8>,
    pub ntru_public: Seq<u8>,
    pub ntru_secret: Seq<u8>,
    pub dilithium_public: Seq<u8>,
    pub dilithium_secret: Seq<u8>,
}

impl View for WalletSecretRecord {
    type V = RecordModel;

    open spec fn view(&self) -> RecordModel {
        RecordModel {
            kyber_public: self.kyber_public@,
            kyber_secret: self.kyber_secret@,
            ntru_public: self.ntru_public@,
            ntru_secret: self.ntru_secret@,
            dilithium_public: self.dilithium_public@,
            dilithium_secret: self.dilithium_secret@,
        }
    }
}

/// The signature key pair of a wallet, which is all that signing needs.
pub struct LoadedWallet {
    pub pk: Vec<u8>,
    pub sk: Vec<u8>,
}

/// The plaintext of a container is not a record.
#[derive(Debug, Clone, Copy, PartialEq, Eq, Structural)]
pub struct DeserializationError;

/// The six named fields of a record.
pub open spec fn record_fields(r: RecordModel) -> Seq<(Seq<char>, Seq<u8>)> {
    seq![
        ("dilithium_public"@, r.dilithium_public),
        ("dilithium_secret"@, r.dilithium_secret),
        ("kyber_public"@, r.kyber_public),
        ("kyber_secret"@, r.kyber_secret),
        ("ntru_public"@, r.ntru_public),
        ("ntru_secret"@, r.ntru_secret),
    ]
}

/// The record that named fields make up: each of the six names must occur.
pub open spec fn record_of_fields(fields: Seq<(Seq<char>, Seq<u8>)>) -> Option<RecordModel> {
    match (
        field_named(fields, "kyber_public"@),
        field_named(fields, "kyber_secret"@),
        field_named(fields, "ntru_public"@),
        field_named(fields, "ntru_secret"@),
        field_named(fields, "dilithium_public"@),
        field_named(fields, "dilithium_secret"@),
    ) {
        (Some(kp), Some(ks), Some(np), Some(ns), Some(dp), Some(ds)) => Some(
            RecordModel {
                kyber_public: kp,
                kyber_secret: ks,
                ntru_public: np,
                ntru_secret: ns,
                dilithium_public: dp,
                dilithium_secret: ds,
            },
        ),
        _ => None,
    }
}

/// The plaintext that a record is stored as.
pub open spec fn payload_of(r: RecordModel) -> Seq<u8> {
    json_of_blob_fields(record_fields(r))
}

/// The record that a plaintext of the binary layout holds, if it holds one:
/// a JSON map that has each of the six fields as a byte string.
pub open spec fn record_of_payload(plaintext: Seq<u8>) -> Option<RecordModel> {
    match json_blob_fields(plaintext) {
        Some(fields) => record_of_fields(fields),
        None => None,
    }
}

/// The signature pair that text fields hold, if they hold one: the fields
/// `dilithium_public` and `dilithium_secret`, both hexadecimal.
pub open spec fn pair_of_text_fields(fields: Seq<(Seq<char>, Seq<char>)>) -> Option<
    (Seq<u8>, Seq<u8>),
> {
    match (field_named(fields, "dilithium_public"@), field_named(fields, "dilithium_secret"@)) {
        (Some(public_text), Some(secret_text)) => match field_decoding(public_text) {
            None => None,
            Some(public) => match field_decoding(secret_text) {
                None => None,
                Some(secret) => Some((public, secret)),
            },
        },
        _ => None,
    }
}

/// The public signature key that text fields hold, if they hold one: the
/// field `dilithium_public`, hexadecimal.
pub open spec fn public_key_of_text_fields(fields: Seq<(Seq<char>, Seq<char>)>) -> Option<
    Seq<u8>,
> {
    match field_named(fields, "dilithium_public"@) {
        None => None,
        Some(public_text) => field_decoding(public_text),
    }
}

/// The record that a plaintext of the text layout holds, if it holds one: a
/// JSON map of texts whose fields `dilithium_public` and `dilithium_secret`
/// are hexadecimal. That layout yields the signature pair and nothing else.
pub open spec fn legacy_record_of_payload(plaintext: Seq<u8>) -> Option<RecordModel> {
    match json_text_fields(plaintext) {
        None => None,
        Some(fields) => match pair_of_text_fields(fields) {
            None => None,
            Some(pair) => Some(
                RecordModel {
                    kyber_public: Seq::empty(),
                    kyber_secret: Seq::empty(),
                    ntru_public: Seq::empty(),
                    ntru_secret: Seq::empty(),
                    dilithium_public: pair.0,
                    dilithium_secret: pair.1,
                },
            ),
        },
    }
}

/// The public signature key that a plaintext of the text layout holds, if
/// it holds one: the field `dilithium_public`, a hexadecimal text.
pub open spec fn legacy_public_key_of_payload(plaintext: Seq<u8>) -> Option<Seq<u8>> {
    match json_text_fields(plaintext) {
        None => None,
        Some(fields) => public_key_of_text_fields(fields),
    }
}

/// Reading the fields that were written for a record gives the record.
pub proof fn lemma_record_of_its_fields(r: RecordModel)
    ensures
        record_of_fields(record_fields(r)) == Some(r),
{
    reveal_strlit("kyber_public");
    reveal_strlit("kyber_secret");
    reveal_strlit("ntru_public");
    reveal_strlit("ntru_secret");
    reveal_strlit("dilithium_public");
    reveal_strlit("dilithium_secret");
    let f = record_fields(r);
    assert("dilithium_public"@[10] != "dilithium_secret"@[10]);
    assert("kyber_public"@[6] != "kyber_secret"@[6]);
    assert("ntru_public"@[5] != "ntru_secret"@[5]);
    lemma_first_named_at(f, "dilithium_public"@, 0);
    lemma_first_named_at(f, "dilithium_secret"@, 1);
    lemma_first_named_at(f, "kyber_public"@, 2);
    lemma_first_named_at(f, "kyber_secret"@, 3);
    lemma_first_named_at(f, "ntru_public"@, 4);
    lemma_first_named_at(f, "ntru_secret"@, 5);
}

/// The SHA-256 digest of `data`.
pub uninterp spec fn sha256(data: Seq<u8>) -> Seq<u8>;

/// Runs `sha2::Sha256::digest`. The digest depends on the data alone: it is
/// named, and nothing else is claimed of it.
#[verifier::external_body]
fn sha256_digest(data: &[u8]) -> (out: [u8; 32])
    ensures
        out@ == sha256(data@),
{
    Sha256::digest(data).into()
}

/// The fingerprint of a public key: the first four bytes of its digest. It
/// is safe to show, and is all of a record that may be shown.
pub open spec fn fingerprint_of(public_key: Seq<u8>) -> Seq<u8> {
    sha256(public_key).subrange(0, 4)
}

/// Computes the fingerprint of a public key.
pub fn fingerprint(public_key: &[u8]) -> (fp: [u8; 4])
    ensures
        fp@ == fingerprint_of(public_key@),
{
    let digest: [u8; 32] = sha256_digest(public_key);
    let fp: [u8; 4] = [digest[0], digest[1], digest[2], digest[3]];
    fp
}

/// Wipes every byte string of `fields` and lets them go.
fn discard_fields(fields: Vec<(String, Vec<u8>)>) {
    let mut fields = fields;
    while fields.len() > 0
        decreases fields@.len(),
    {
        match fields.pop() {
            Some(field) => {
                let mut blob: Vec<u8> = field.1;
                wipe_bytes(&mut blob);
            },
            None => {},
        }
    }
}

/// Wipes every text of `fields` and lets them go.
fn discard_text_fields(fields: Vec<(String, String)>) {
    let mut fields = fields;
    while fields.len() > 0
        decreases fields@.len(),
    {
        match fields.pop() {
            Some(field) => {
                let mut text: String = field.1;
                wipe_text(&mut text);
            },
            None => {},
        }
    }
}

impl WalletSecretRecord {
    /// The fingerprints of the three public keys, in the order Kyber, NTRU,
    /// Dilithium.
    pub fn fingerprints(&self) -> (fps: ([u8; 4], [u8; 4], [u8; 4]))
        ensures
            fps.0@ == fingerprint_of(self@.kyber_public),
            fps.1@ == fingerprint_of(self@.ntru_public),
            fps.2@ == fingerprint_of(self@.dilithium_public),
    {
        (
            fingerprint(self.kyber_public.as_slice()),
            fingerprint(self.ntru_public.as_slice()),
            fingerprint(self.dilithium_public.as_slice()),
        )
    }

    /// Wipes the three secret keys; the public keys stay.
    pub fn wipe_secrets(&mut self)
        ensures
            final(self)@.kyber_secret.len() == 0,
            final(self)@.ntru_secret.len() == 0,
            final(self)@.dilithium_secret.len() == 0,
            final(self)@.kyber_public == old(self)@.kyber_public,
            final(self)@.ntru_public == old(self)@.ntru_public,
            final(self)@.dilithium_public == old(self)@.dilithium_public,
    {
        wipe_bytes(&mut self.kyber_secret);
        wipe_bytes(&mut self.ntru_secret);
        wipe_bytes(&mut self.dilithium_secret);
    }

    /// The six named fields of the record, each a copy.
    pub fn to_fields(&self) -> (fields: Vec<(String, Vec<u8>)>)
        ensures
            blob_fields_view(fields@) == record_fields(self@),
    {
        let mut fields: Vec<(String, Vec<u8>)> = Vec::new();
        fields.push(("dilithium_public".to_owned(), copy_of(self.dilithium_public.as_slice())));
        fields.push(("dilithium_secret".to_owned(), copy_of(self.dilithium_secret.as_slice())));
        fields.push(("kyber_public".to_owned(), copy_of(self.kyber_public.as_slice())));
        fields.push(("kyber_secret".to_owned(), copy_of(self.kyber_secret.as_slice())));
        fields.push(("ntru_public".to_owned(), copy_of(self.ntru_public.as_slice())));
        fields.push(("ntru_secret".to_owned(), copy_of(self.ntru_secret.as_slice())));
        fields
    }

    /// The plaintext that the record is stored as: the JSON map of its six
    /// fields.
    pub fn to_payload(&self) -> (payload: Vec<u8>)
        ensures
            payload@ == payload_of(self@),
    {
        let fields = self.to_fields();
        let payload = write_blob_fields(&fields);
        discard_fields(fields);
        payload
    }

    /// The signature pair of the record, which is all that signing needs.
    /// The rest of the record is wiped.
    pub fn into_signing_pair(self) -> (pair: LoadedWallet)
        ensures
            pair.pk@ == self@.dilithium_public,
            pair.sk@ == self@.dilithium_secret,
    {
        let mut record = self;
        wipe_bytes(&mut record.kyber_secret);
        wipe_bytes(&mut record.ntru_secret);
        LoadedWallet { pk: record.dilithium_public, sk: record.dilithium_secret }
    }
}

/// Makes a record of named fields, each of the six names being needed.
pub fn record_from_fields(fields: &Vec<(String, Vec<u8>)>) -> (r: Option<WalletSecretRecord>)
    ensures
        match r {
            Some(record) => record_of_fields(blob_fields_view(fields@)) == Some(record@),
            None => record_of_fields(blob_fields_view(fields@)) is None,
        },
{
    let kp = find_blob(fields, "kyber_public");
    let ks = find_blob(fields, "kyber_secret");
    let np = find_blob(fields, "ntru_public");
    let ns = find_blob(fields, "ntru_secret");
    let dp = find_blob(fields, "dilithium_public");
    let ds = find_blob(fields, "dilithium_secret");
    match (kp, ks, np, ns, dp, ds) {
        (Some(kp), Some(ks), Some(np), Some(ns), Some(dp), Some(ds)) => Some(
            WalletSecretRecord {
                kyber_public: copy_of(kp.as_slice()),
                kyber_secret: copy_of(ks.as_slice()),
                ntru_public: copy_of(np.as_slice()),
                ntru_secret: copy_of(ns.as_slice()),
                dilithium_public: copy_of(dp.as_slice()),
                dilithium_secret: copy_of(ds.as_slice()),
            },
        ),
        _ => None,
    }
}

/// Reads the record out of a plaintext of the binary layout.
pub fn parse_record(plaintext: &[u8]) -> (r: Result<WalletSecretRecord, DeserializationError>)
    ensures
        match r {
            Ok(record) => record_of_payload(plaintext@) == Some(record@),
            Err(_) => record_of_payload(plaintext@) is None,
        },
{
    match read_blob_fields(plaintext) {
        None => Err(DeserializationError),
        Some(fields) => {
            let r = record_from_fields(&fields);
            discard_fields(fields);
            match r {
                Some(record) => Ok(record),
                None => Err(DeserializationError),
            }
        },
    }
}

/// Reads the record out of a plaintext of the text layout.
pub fn parse_legacy_record(plaintext: &[u8]) -> (r: Result<
    WalletSecretRecord,
    DeserializationError,
>)
    ensures
        match r {
            Ok(record) => legacy_record_of_payload(plaintext@) == Some(record@),
            Err(_) => legacy_record_of_payload(plaintext@) is None,
        },
{
    let fields = match read_text_fields(plaintext) {
        Some(fields) => fields,
        None => {
            return Err(DeserializationError);
        },
    };
    let pair = pair_from_text_fields(&fields);
    discard_text_fields(fields);
    match pair {
        Some((public, secret)) => Ok(
            WalletSecretRecord {
                kyber_public: Vec::new(),
                kyber_secret: Vec::new(),
                ntru_public: Vec::new(),
                ntru_secret: Vec::new(),
                dilithium_public: public,
                dilithium_secret: secret,
            },
        ),
        None => Err(DeserializationError),
    }
}

/// Decodes the signature pair out of text fields.
fn pair_from_text_fields(fields: &Vec<(String, String)>) -> (r: Option<(Vec<u8>, Vec<u8>)>)
    ensures
        match r {
            Some(pair) => pair_of_text_fields(text_fields_view(fields@)) == Some(
                (pair.0@, pair.1@),
            ),
            None => pair_of_text_fields(text_fields_view(fields@)) is None,
        },
{
    let (public_text, secret_text) = match (
        find_text(fields, "dilithium_public"),
        find_text(fields, "dilithium_secret"),
    ) {
        (Some(p), Some(s)) => (p, s),
        _ => {
            return None;
        },
    };
    let public = match decode_hex_field(public_text.as_str()) {
        Some(public) => public,
        None => {
            return None;
        },
    };
    match decode_hex_field(secret_text.as_str()) {
        Some(secret) => Some((public, secret)),
        None => None,
    }
}

/// Decodes the public signature key out of text fields.
fn public_key_from_text_fields(fields: &Vec<(String, String)>) -> (r: Option<Vec<u8>>)
    ensures
        match r {
            Some(public) => public_key_of_text_fields(text_fields_view(fields@)) == Some(public@),
            None => public_key_of_text_fields(text_fields_view(fields@)) is None,
        },
{
    match find_text(fields, "dilithium_public") {
        Some(public_text) => decode_hex_field(public_text.as_str()),
        None => None,
    }
}

/// Reads the public signature key out of a plaintext of the text layout.
pub fn parse_legacy_public_key(plaintext: &[u8]) -> (r: Result<Vec<u8>, DeserializationError>)
    ensures
        match r {
            Ok(public) => legacy_public_key_of_payload(plaintext@) == Some(public@),
            Err(_) => legacy_public_key_of_payload(plaintext@) is None,
        },
{
    let fields = match read_text_fields(plaintext) {
        Some(fields) => fields,
        None => {
            return Err(DeserializationError);
        },
    };
    let public = public_key_from_text_fields(&fields);
    discard_text_fields(fields);
    match public {
        Some(public) => Ok(public),
        None => Err(DeserializationError),
    }
}

} // verus!
