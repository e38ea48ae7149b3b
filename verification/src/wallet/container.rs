//! The two container layouts as one type: the binary layout, which opens
//! with the magic, and the text layout, a JSON record of hexadecimal fields.

use vstd::prelude::*;
use crate::wallet::bytes::{append, le_value, take_array};
use crate::wallet::envelope::{
    binary_rejection, ciphertext_of, decode_binary, has_magic, is_header_of,
    lemma_encode_inverts_decode, starts_with_magic, FormatError, WalletEnvelope,
};
use crate::wallet::format::{
    CIPHERTEXT_OFFSET, HEADER_LEN, LEGACY_AAD, M_COST_OFFSET, NONCE_LEN, P_COST_OFFSET,
    SALT_OFFSET, T_COST_OFFSET,
};
use crate::wallet::json::{field_named, find_text, json_text_fields, read_text_fields};
use crate::wallet::kdf::{legacy_costs, CostParams};
use crate::wallet::text::{decode_hex_field, field_decoding};

verus! {

/// A container of the text layout, its three fields decoded. It stores no
/// costs: the layout implies them.
#[derive(Debug)]
pub struct LegacyEnvelope {
    pub salt: Vec<u8>,
    pub nonce: [u8; 12],
    pub ciphertext: Vec<u8>,
}

/// What a container of the text layout holds.
pub struct LegacyModel {
    pub salt: Seq<u8>,
    pub nonce: Seq<u8>,
    pub ciphertext: Seq<u8>,
}

impl View for LegacyEnvelope {
    type V = LegacyModel;

    open spec fn view(&self) -> LegacyModel {
        LegacyModel { salt: self.salt@, nonce: self.nonce@, ciphertext: self.ciphertext@ }
    }
}

/// A container of either layout.
#[derive(Debug)]
pub enum Container {
    Binary(WalletEnvelope),
    Legacy(LegacyEnvelope),
}

/// What the text layout makes of `data`: the three decoded fields, or the
/// first reason why it is no container. The fields are read in the order
/// salt, nonce, ciphertext, and the nonce is measured before the ciphertext
/// is decoded.
pub open spec fn legacy_decoding(data: Seq<u8>) -> Result<LegacyModel, FormatError> {
    match json_text_fields(data) {
        None => Err(FormatError::LegacyNotARecord),
        Some(fields) => match (
            field_named(fields, "salt"@),
            field_named(fields, "nonce"@),
            field_named(fields, "ciphertext"@),
        ) {
            (Some(salt_text), Some(nonce_text), Some(ciphertext_text)) => match field_decoding(
                salt_text,
            ) {
                None => Err(FormatError::LegacyBadHex),
                Some(salt) => match field_decoding(nonce_text) {
                    None => Err(FormatError::LegacyBadHex),
                    Some(nonce) => if nonce.len() != NONCE_LEN {
                        Err(FormatError::LegacyBadNonce)
                    } else {
                        match field_decoding(ciphertext_text) {
                            None => Err(FormatError::LegacyBadHex),
                            Some(ciphertext) => Ok(LegacyModel { salt, nonce, ciphertext }),
                        }
                    },
                },
            },
            _ => Err(FormatError::LegacyMissingField),
        },
    }
}

/// Everything that key derivation and cipher are handed for a container.
pub struct SealedPayload {
    pub costs: CostParams,
    pub salt: Seq<u8>,
    pub nonce: Seq<u8>,
    pub aad: Seq<u8>,
    pub ciphertext: Seq<u8>,
}

/// What the binary layout hands on of bytes that it accepts: the
/// authenticated data are the first 34 bytes as they stand.
pub open spec fn binary_payload(data: Seq<u8>) -> SealedPayload {
    SealedPayload {
        costs: CostParams {
            m_cost_kib: le_value(data.subrange(M_COST_OFFSET as int, T_COST_OFFSET as int)) as u32,
            t_cost: le_value(data.subrange(T_COST_OFFSET as int, P_COST_OFFSET as int)) as u32,
            p_cost: le_value(data.subrange(P_COST_OFFSET as int, SALT_OFFSET as int)) as u32,
        },
        salt: data.subrange(SALT_OFFSET as int, HEADER_LEN as int),
        nonce: data.subrange(HEADER_LEN as int, CIPHERTEXT_OFFSET as int),
        aad: data.subrange(0, HEADER_LEN as int),
        ciphertext: ciphertext_of(data),
    }
}

/// What the text layout hands on of a container: the costs and the
/// authenticated data are fixed.
pub open spec fn legacy_payload(env: LegacyModel) -> SealedPayload {
    SealedPayload {
        costs: legacy_costs(),
        salt: env.salt,
        nonce: env.nonce,
        aad: LEGACY_AAD@,
        ciphertext: env.ciphertext,
    }
}

/// What `data` is read as: the binary layout where it opens with the magic,
/// the text layout where it does not.
pub open spec fn sealed_payload_of(data: Seq<u8>) -> Result<SealedPayload, FormatError> {
    if has_magic(data) {
        match binary_rejection(data) {
            Some(e) => Err(e),
            None => Ok(binary_payload(data)),
        }
    } else {
        match legacy_decoding(data) {
            Ok(env) => Ok(legacy_payload(env)),
            Err(e) => Err(e),
        }
    }
}

/// The reason why `data` is no container; `None` where it is one.
pub open spec fn decode_rejection(data: Seq<u8>) -> Option<FormatError> {
    match sealed_payload_of(data) {
        Ok(_) => None,
        Err(e) => Some(e),
    }
}

impl Container {
    /// `self` is what `data` holds, read by the layout that `data` opens as.
    pub open spec fn is_decoding_of(&self, data: Seq<u8>) -> bool {
        match self {
            Container::Binary(env) => {
                &&& has_magic(data)
                &&& binary_rejection(data) is None
                &&& env.header.wf()
                &&& is_header_of(env.header, data)
                &&& env.ciphertext@ == ciphertext_of(data)
            },
            Container::Legacy(env) => {
                &&& !has_magic(data)
                &&& legacy_decoding(data) == Ok::<LegacyModel, FormatError>(env@)
            },
        }
    }

    /// Everything that key derivation and cipher are handed for `self`.
    pub open spec fn sealed(&self) -> SealedPayload {
        SealedPayload {
            costs: self.costs_spec(),
            salt: self.salt_spec(),
            nonce: self.nonce_spec(),
            aad: self.aad_spec(),
            ciphertext: self.ciphertext_spec(),
        }
    }

    /// A container read from `data` hands on what the layout of `data` says.
    pub proof fn lemma_sealed(&self, data: Seq<u8>)
        requires
            self.is_decoding_of(data),
        ensures
            sealed_payload_of(data) == Ok::<SealedPayload, FormatError>(self.sealed()),
    {
        match self {
            Container::Binary(env) => {
                lemma_encode_inverts_decode(env.header, data);
            },
            Container::Legacy(_) => {},
        }
    }

    /// The costs of the key derivation: stored, or implied by the layout.
    pub open spec fn costs_spec(&self) -> CostParams {
        match self {
            Container::Binary(env) => env.header.costs,
            Container::Legacy(_) => legacy_costs(),
        }
    }

    /// The salt of the key derivation.
    pub open spec fn salt_spec(&self) -> Seq<u8> {
        match self {
            Container::Binary(env) => env.header.salt@,
            Container::Legacy(env) => env.salt@,
        }
    }

    /// The nonce of the cipher.
    pub open spec fn nonce_spec(&self) -> Seq<u8> {
        match self {
            Container::Binary(env) => env.header.nonce@,
            Container::Legacy(env) => env.nonce@,
        }
    }

    /// The bytes that are authenticated with the ciphertext: the header of
    /// the binary layout, a fixed label in the text layout.
    pub open spec fn aad_spec(&self) -> Seq<u8> {
        match self {
            Container::Binary(env) => env.header.aad_spec(),
            Container::Legacy(_) => LEGACY_AAD@,
        }
    }

    /// The ciphertext, tag included.
    pub open spec fn ciphertext_spec(&self) -> Seq<u8> {
        match self {
            Container::Binary(env) => env.ciphertext@,
            Container::Legacy(env) => env.ciphertext@,
        }
    }

    /// The costs of the key derivation.
    pub fn costs(&self) -> (c: CostParams)
        ensures
            c == self.costs_spec(),
    {
        match self {
            Container::Binary(env) => env.header.costs,
            Container::Legacy(_) => CostParams::legacy(),
        }
    }

    /// The salt of the key derivation.
    pub fn salt(&self) -> (s: &[u8])
        ensures
            s@ == self.salt_spec(),
    {
        match self {
            Container::Binary(env) => env.header.salt.as_slice(),
            Container::Legacy(env) => env.salt.as_slice(),
        }
    }

    /// The nonce of the cipher.
    pub fn nonce(&self) -> (n: &[u8; 12])
        ensures
            n@ == self.nonce_spec(),
    {
        match self {
            Container::Binary(env) => &env.header.nonce,
            Container::Legacy(env) => &env.nonce,
        }
    }

    /// The bytes that are authenticated with the ciphertext.
    pub fn aad(&self) -> (a: Vec<u8>)
        ensures
            a@ == self.aad_spec(),
    {
        match self {
            Container::Binary(env) => env.header.aad(),
            Container::Legacy(_) => {
                let mut a: Vec<u8> = Vec::new();
                append(&mut a, LEGACY_AAD.as_slice());
                a
            },
        }
    }

    /// The ciphertext, tag included.
    pub fn ciphertext(&self) -> (c: &[u8])
        ensures
            c@ == self.ciphertext_spec(),
    {
        match self {
            Container::Binary(env) => env.ciphertext.as_slice(),
            Container::Legacy(env) => env.ciphertext.as_slice(),
        }
    }
}

/// Reads a container of the text layout: a JSON record whose fields `salt`,
/// `nonce` and `ciphertext` are hexadecimal texts.
pub fn decode_legacy(data: &[u8]) -> (r: Result<LegacyEnvelope, FormatError>)
    ensures
        match r {
            Ok(env) => legacy_decoding(data@) == Ok::<LegacyModel, FormatError>(env@),
            Err(e) => legacy_decoding(data@) == Err::<LegacyModel, FormatError>(e),
        },
{
    let fields = match read_text_fields(data) {
        Some(fields) => fields,
        None => {
            return Err(FormatError::LegacyNotARecord);
        },
    };
    let salt_text = find_text(&fields, "salt");
    let nonce_text = find_text(&fields, "nonce");
    let ciphertext_text = find_text(&fields, "ciphertext");
    let (salt_text, nonce_text, ciphertext_text) = match (salt_text, nonce_text, ciphertext_text) {
        (Some(s), Some(n), Some(c)) => (s, n, c),
        _ => {
            return Err(FormatError::LegacyMissingField);
        },
    };
    let salt = match decode_hex_field(salt_text.as_str()) {
        Some(salt) => salt,
        None => {
            return Err(FormatError::LegacyBadHex);
        },
    };
    let nonce_bytes = match decode_hex_field(nonce_text.as_str()) {
        Some(nonce) => nonce,
        None => {
            return Err(FormatError::LegacyBadHex);
        },
    };
    if nonce_bytes.len() != NONCE_LEN {
        return Err(FormatError::LegacyBadNonce);
    }
    let ciphertext = match decode_hex_field(ciphertext_text.as_str()) {
        Some(ciphertext) => ciphertext,
        None => {
            return Err(FormatError::LegacyBadHex);
        },
    };
    let nonce: [u8; 12] = take_array::<12>(nonce_bytes.as_slice(), 0);
    assert(nonce@ =~= nonce_bytes@);
    Ok(LegacyEnvelope { salt, nonce, ciphertext })
}

/// Reads a container of either layout. Bytes that open with the magic are
/// read as the binary layout; any others as the text layout.
pub fn decode(data: &[u8]) -> (r: Result<Container, FormatError>)
    ensures
        match r {
            Ok(container) => {
                &&& container.is_decoding_of(data@)
                &&& sealed_payload_of(data@) == Ok::<SealedPayload, FormatError>(
                    container.sealed(),
                )
            },
            Err(e) => sealed_payload_of(data@) == Err::<SealedPayload, FormatError>(e),
        },
{
    if starts_with_magic(data) {
        match decode_binary(data) {
            Ok(env) => {
                let container = Container::Binary(env);
                proof {
                    container.lemma_sealed(data@);
                }
                Ok(container)
            },
            Err(e) => Err(e),
        }
    } else {
        match decode_legacy(data) {
            Ok(env) => Ok(Container::Legacy(env)),
            Err(e) => Err(e),
        }
    }
}

} // verus!
