//! The binary container layout: a fixed-width authenticated header, the
//! nonce, and the ciphertext with its tag.

use vstd::prelude::*;
use crate::wallet::bytes::{
    append, le_bytes, le_value, lemma_le_bytes_of_value, lemma_le_value_of_bytes, tail, take_array,
    u32_from_le, u32_to_le,
};
use crate::wallet::format::{
    CIPHERTEXT_OFFSET, HEADER_LEN, KDF_ID_ARGON2ID, KDF_ID_OFFSET, MAGIC, M_COST_OFFSET,
    P_COST_OFFSET, SALT_OFFSET, T_COST_OFFSET, VERSION, VERSION_OFFSET,
};
use crate::wallet::kdf::CostParams;

verus! {

/// Why a byte string is not a container.
#[derive(Debug, Clone, Copy, PartialEq, Eq, Structural)]
pub enum FormatError {
    /// Shorter than header and nonce together.
    Truncated,
    /// The first four bytes are not the magic.
    BadMagic,
    /// The version byte, which is not the supported one.
    UnsupportedVersion(u8),
    /// The key-derivation identifier, which is not the supported one.
    UnsupportedKdf(u8),
    /// Not a text record of text fields.
    LegacyNotARecord,
    /// The text record lacks `salt`, `nonce` or `ciphertext`.
    LegacyMissingField,
    /// A field of the text record is not hexadecimal.
    LegacyBadHex,
    /// The nonce of the text record is not twelve bytes long.
    LegacyBadNonce,
}

/// The fields that precede the ciphertext of a binary container.
#[derive(Debug, Clone, Copy)]
pub struct EnvelopeHeader {
    pub magic: [u8; 4],
    pub version: u8,
    pub kdf_id: u8,
    pub costs: CostParams,
    pub salt: [u8; 16],
    pub nonce: [u8; 12],
}

/// A binary container: header and ciphertext, tag included.
#[derive(Debug)]
pub struct WalletEnvelope {
    pub header: EnvelopeHeader,
    pub ciphertext: Vec<u8>,
}

impl EnvelopeHeader {
    /// A header says what this library reads: the magic, the supported
    /// version and the supported key derivation.
    pub open spec fn wf(&self) -> bool {
        &&& self.magic@ == MAGIC@
        &&& self.version == VERSION
        &&& self.kdf_id == KDF_ID_ARGON2ID
    }

    /// The authenticated bytes: every field but the nonce, in layout order.
    pub open spec fn aad_spec(&self) -> Seq<u8> {
        self.magic@ + seq![self.version, self.kdf_id] + le_bytes(self.costs.m_cost_kib)
            + le_bytes(self.costs.t_cost) + le_bytes(self.costs.p_cost) + self.salt@
    }

    /// The header of a new container.
    pub fn new(costs: CostParams, salt: [u8; 16], nonce: [u8; 12]) -> (h: EnvelopeHeader)
        ensures
            h.wf(),
            h.costs == costs,
            h.salt == salt,
            h.nonce == nonce,
    {
        EnvelopeHeader { magic: MAGIC, version: VERSION, kdf_id: KDF_ID_ARGON2ID, costs, salt, nonce }
    }

    /// The bytes that the cipher authenticates along with the ciphertext.
    pub fn aad(&self) -> (out: Vec<u8>)
        ensures
            out@ == self.aad_spec(),
            out@.len() == HEADER_LEN,
    {
        let mut out: Vec<u8> = Vec::new();
        append(&mut out, self.magic.as_slice());
        out.push(self.version);
        out.push(self.kdf_id);
        let m: [u8; 4] = u32_to_le(self.costs.m_cost_kib);
        append(&mut out, m.as_slice());
        let t: [u8; 4] = u32_to_le(self.costs.t_cost);
        append(&mut out, t.as_slice());
        let p: [u8; 4] = u32_to_le(self.costs.p_cost);
        append(&mut out, p.as_slice());
        append(&mut out, self.salt.as_slice());
        out
    }
}

/// The bytes of the container that holds `header` and `ciphertext`.
pub open spec fn encoding(header: EnvelopeHeader, ciphertext: Seq<u8>) -> Seq<u8> {
    header.aad_spec() + header.nonce@ + ciphertext
}

/// The first reason, in the order of the checks, why `b` is no binary
/// container; `None` where it is one.
pub open spec fn binary_rejection(b: Seq<u8>) -> Option<FormatError> {
    if b.len() < CIPHERTEXT_OFFSET {
        Some(FormatError::Truncated)
    } else if b.subrange(0, 4) != MAGIC@ {
        Some(FormatError::BadMagic)
    } else if b[VERSION_OFFSET as int] != VERSION {
        Some(FormatError::UnsupportedVersion(b[VERSION_OFFSET as int]))
    } else if b[KDF_ID_OFFSET as int] != KDF_ID_ARGON2ID {
        Some(FormatError::UnsupportedKdf(b[KDF_ID_OFFSET as int]))
    } else {
        None
    }
}

/// Each field of `h` is what stands at its offset in `b`.
pub open spec fn is_header_of(h: EnvelopeHeader, b: Seq<u8>) -> bool {
    &&& b.len() >= CIPHERTEXT_OFFSET
    &&& h.magic@ == b.subrange(0, 4)
    &&& h.version == b[VERSION_OFFSET as int]
    &&& h.kdf_id == b[KDF_ID_OFFSET as int]
    &&& h.costs.m_cost_kib == le_value(b.subrange(M_COST_OFFSET as int, T_COST_OFFSET as int))
    &&& h.costs.t_cost == le_value(b.subrange(T_COST_OFFSET as int, P_COST_OFFSET as int))
    &&& h.costs.p_cost == le_value(b.subrange(P_COST_OFFSET as int, SALT_OFFSET as int))
    &&& h.salt@ == b.subrange(SALT_OFFSET as int, HEADER_LEN as int)
    &&& h.nonce@ == b.subrange(HEADER_LEN as int, CIPHERTEXT_OFFSET as int)
}

/// What follows header and nonce in `b`.
pub open spec fn ciphertext_of(b: Seq<u8>) -> Seq<u8> {
    b.subrange(CIPHERTEXT_OFFSET as int, b.len() as int)
}

/// Whether the first four bytes of `b` are the magic.
pub open spec fn has_magic(b: Seq<u8>) -> bool {
    b.len() >= 4 && b.subrange(0, 4) == MAGIC@
}

/// Tells whether `data` opens with the magic of the binary layout.
pub fn starts_with_magic(data: &[u8]) -> (yes: bool)
    ensures
        yes == has_magic(data@),
{
    if data.len() < 4 {
        return false;
    }
    let yes = data[0] == MAGIC[0] && data[1] == MAGIC[1] && data[2] == MAGIC[2] && data[3]
        == MAGIC[3];
    proof {
        if yes {
            assert(data@.subrange(0, 4) =~= MAGIC@);
        }
    }
    yes
}

/// Writes a container out: header, nonce, ciphertext.
pub fn encode(envelope: &WalletEnvelope) -> (out: Vec<u8>)
    ensures
        out@ == encoding(envelope.header, envelope.ciphertext@),
{
    let mut out: Vec<u8> = envelope.header.aad();
    append(&mut out, envelope.header.nonce.as_slice());
    append(&mut out, envelope.ciphertext.as_slice());
    out
}

/// Reads a binary container. The checks run in a fixed order: length, magic,
/// version, key-derivation identifier; the first that fails gives the error.
pub fn decode_binary(data: &[u8]) -> (r: Result<WalletEnvelope, FormatError>)
    ensures
        match r {
            Ok(env) => {
                &&& binary_rejection(data@) is None
                &&& env.header.wf()
                &&& is_header_of(env.header, data@)
                &&& env.ciphertext@ == ciphertext_of(data@)
            },
            Err(e) => binary_rejection(data@) == Some(e),
        },
{
    if data.len() < CIPHERTEXT_OFFSET {
        return Err(FormatError::Truncated);
    }
    if !starts_with_magic(data) {
        return Err(FormatError::BadMagic);
    }
    let version: u8 = data[VERSION_OFFSET];
    if version != VERSION {
        return Err(FormatError::UnsupportedVersion(version));
    }
    let kdf_id: u8 = data[KDF_ID_OFFSET];
    if kdf_id != KDF_ID_ARGON2ID {
        return Err(FormatError::UnsupportedKdf(kdf_id));
    }
    let header = EnvelopeHeader {
        magic: take_array::<4>(data, 0),
        version,
        kdf_id,
        costs: CostParams {
            m_cost_kib: u32_from_le(data, M_COST_OFFSET),
            t_cost: u32_from_le(data, T_COST_OFFSET),
            p_cost: u32_from_le(data, P_COST_OFFSET),
        },
        salt: take_array::<16>(data, SALT_OFFSET),
        nonce: take_array::<12>(data, HEADER_LEN),
    };
    let ciphertext: Vec<u8> = tail(data, CIPHERTEXT_OFFSET);
    Ok(WalletEnvelope { header, ciphertext })
}

/// Decoding inverts encoding: the bytes written for a well-formed header and
/// a ciphertext are accepted, and give back that header and that ciphertext.
pub proof fn lemma_decode_inverts_encode(h: EnvelopeHeader, ciphertext: Seq<u8>)
    requires
        h.wf(),
    ensures
        binary_rejection(encoding(h, ciphertext)) is None,
        is_header_of(h, encoding(h, ciphertext)),
        ciphertext_of(encoding(h, ciphertext)) == ciphertext,
        encoding(h, ciphertext).len() == CIPHERTEXT_OFFSET + ciphertext.len(),
        encoding(h, ciphertext).subrange(0, HEADER_LEN as int) == h.aad_spec(),
{
    let b = encoding(h, ciphertext);
    lemma_le_value_of_bytes(h.costs.m_cost_kib);
    lemma_le_value_of_bytes(h.costs.t_cost);
    lemma_le_value_of_bytes(h.costs.p_cost);
    assert(b.subrange(0, 4) =~= h.magic@);
    assert(b.subrange(M_COST_OFFSET as int, T_COST_OFFSET as int) =~= le_bytes(
        h.costs.m_cost_kib,
    ));
    assert(b.subrange(T_COST_OFFSET as int, P_COST_OFFSET as int) =~= le_bytes(h.costs.t_cost));
    assert(b.subrange(P_COST_OFFSET as int, SALT_OFFSET as int) =~= le_bytes(h.costs.p_cost));
    assert(b.subrange(SALT_OFFSET as int, HEADER_LEN as int) =~= h.salt@);
    assert(b.subrange(HEADER_LEN as int, CIPHERTEXT_OFFSET as int) =~= h.nonce@);
}

/// Encoding inverts decoding: a header read from accepted bytes is
/// well-formed, and writing it out with the ciphertext gives those bytes.
pub proof fn lemma_encode_inverts_decode(h: EnvelopeHeader, b: Seq<u8>)
    requires
        binary_rejection(b) is None,
        is_header_of(h, b),
    ensures
        h.wf(),
        encoding(h, ciphertext_of(b)) == b,
        h.aad_spec() == b.subrange(0, HEADER_LEN as int),
{
    lemma_le_bytes_of_value(b.subrange(M_COST_OFFSET as int, T_COST_OFFSET as int));
    lemma_le_bytes_of_value(b.subrange(T_COST_OFFSET as int, P_COST_OFFSET as int));
    lemma_le_bytes_of_value(b.subrange(P_COST_OFFSET as int, SALT_OFFSET as int));
}

/// Nothing in a container escapes the cipher: two accepted byte strings that
/// differ anywhere differ in the authenticated header, in the nonce or in
/// the ciphertext that decryption is handed.
pub proof fn lemma_tampering_reaches_cipher(
    h1: EnvelopeHeader,
    b1: Seq<u8>,
    h2: EnvelopeHeader,
    b2: Seq<u8>,
)
    requires
        binary_rejection(b1) is None,
        binary_rejection(b2) is None,
        is_header_of(h1, b1),
        is_header_of(h2, b2),
        b1 != b2,
    ensures
        h1.aad_spec() != h2.aad_spec() || h1.nonce@ != h2.nonce@ || ciphertext_of(b1)
            != ciphertext_of(b2),
{
    lemma_encode_inverts_decode(h1, b1);
    lemma_encode_inverts_decode(h2, b2);
}

/// A change to one byte of the authenticated header changes the
/// authenticated data, whatever else the two containers hold.
pub proof fn lemma_header_byte_is_authenticated(
    h1: EnvelopeHeader,
    b1: Seq<u8>,
    h2: EnvelopeHeader,
    b2: Seq<u8>,
    at: int,
)
    requires
        binary_rejection(b1) is None,
        binary_rejection(b2) is None,
        is_header_of(h1, b1),
        is_header_of(h2, b2),
        0 <= at < HEADER_LEN,
        b1[at] != b2[at],
    ensures
        h1.aad_spec() != h2.aad_spec(),
{
    lemma_encode_inverts_decode(h1, b1);
    lemma_encode_inverts_decode(h2, b2);
}

} // verus!
