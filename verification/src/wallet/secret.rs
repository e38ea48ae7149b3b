//! Buffers that hold secrets, and the wiping that ends their life.
//!
//! None of these types can be printed, compared or copied by accident: they
//! derive nothing. Whoever holds one wipes it when done with it.

use vstd::prelude::*;
use vstd::string::StringSliceAdditionalSpecFns;
use zeroize::Zeroize;

verus! {

/// `n` zero bytes.
pub open spec fn zeros(n: nat) -> Seq<u8> {
    Seq::new(n, |i: int| 0u8)
}

/// Overwrites an array with zeros through `zeroize::Zeroize::zeroize`, which
/// the optimiser may not remove. Claimed of it: every byte is zero afterwards.
#[verifier::external_body]
fn zeroize_array<const N: usize>(buf: &mut [u8; N])
    ensures
        final(buf)@ == zeros(N as nat),
{
    buf.zeroize();
}

/// Overwrites a vector with zeros through `zeroize::Zeroize::zeroize`, which
/// zeroes the elements and the spare capacity and then clears the vector.
/// Claimed of it: the vector is empty afterwards.
#[verifier::external_body]
fn zeroize_vec(buf: &mut Vec<u8>)
    ensures
        final(buf)@.len() == 0,
{
    buf.zeroize();
}

/// Overwrites a text with zeros through `zeroize::Zeroize::zeroize`, which
/// zeroes its bytes and then clears it. Claimed of it: the text is empty
/// afterwards.
#[verifier::external_body]
fn zeroize_text(text: &mut String)
    ensures
        final(text)@.len() == 0,
{
    text.zeroize();
}

/// Wipes a buffer that held a secret: its bytes are overwritten with zeros,
/// and it is left empty.
pub fn wipe_bytes(buf: &mut Vec<u8>)
    ensures
        final(buf)@.len() == 0,
{
    zeroize_vec(buf);
}

/// Wipes a text that held a secret: its bytes are overwritten with zeros,
/// and it is left empty.
pub fn wipe_text(text: &mut String)
    ensures
        final(text)@.len() == 0,
{
    zeroize_text(text);
}

/// A password, as the bytes that are hashed.
pub struct Password {
    bytes: Vec<u8>,
}

impl View for Password {
    type V = Seq<u8>;

    closed spec fn view(&self) -> Seq<u8> {
        self.bytes@
    }
}

impl Password {
    /// Takes over the bytes of a password.
    pub fn new(bytes: Vec<u8>) -> (p: Password)
        ensures
            p@ == bytes@,
    {
        Password { bytes }
    }

    /// The password that a text stands for: its UTF-8 bytes.
    pub fn from_text(text: &str) -> (p: Password)
        ensures
            p@ == text.spec_bytes(),
    {
        let raw: &[u8] = text.as_bytes();
        let mut bytes: Vec<u8> = Vec::new();
        crate::wallet::bytes::append(&mut bytes, raw);
        Password { bytes }
    }

    /// The bytes, for the hashing stage.
    pub fn expose(&self) -> (out: &[u8])
        ensures
            out@ == self@,
    {
        self.bytes.as_slice()
    }

    /// Destroys the password.
    pub fn wipe(&mut self)
        ensures
            final(self)@.len() == 0,
    {
        zeroize_vec(&mut self.bytes);
    }
}

/// The output of the password-hashing stage. It feeds the expansion stage and
/// nothing else: no cipher takes one.
pub struct MasterKey {
    bytes: [u8; 32],
}

impl View for MasterKey {
    type V = Seq<u8>;

    closed spec fn view(&self) -> Seq<u8> {
        self.bytes@
    }
}

impl MasterKey {
    /// Whether the key has been overwritten with zeros.
    pub open spec fn is_wiped(&self) -> bool {
        self@ == zeros(32)
    }

    /// Takes over the bytes of a master key.
    pub fn from_bytes(bytes: [u8; 32]) -> (k: MasterKey)
        ensures
            k@ == bytes@,
    {
        MasterKey { bytes }
    }

    /// The bytes, for the expansion stage.
    pub fn expose(&self) -> (out: &[u8; 32])
        ensures
            out@ == self@,
    {
        &self.bytes
    }

    /// Overwrites the key with zeros.
    pub fn wipe(&mut self)
        ensures
            final(self).is_wiped(),
    {
        zeroize_array(&mut self.bytes);
    }

    /// A master key is 32 bytes long.
    pub proof fn lemma_len(&self)
        ensures
            self@.len() == 32,
    {
    }
}

/// The key that the cipher is run with.
pub struct EncryptionKey {
    bytes: [u8; 32],
}

impl View for EncryptionKey {
    type V = Seq<u8>;

    closed spec fn view(&self) -> Seq<u8> {
        self.bytes@
    }
}

impl EncryptionKey {
    /// Whether the key has been overwritten with zeros.
    pub open spec fn is_wiped(&self) -> bool {
        self@ == zeros(32)
    }

    /// Takes over the bytes of an encryption key.
    pub fn from_bytes(bytes: [u8; 32]) -> (k: EncryptionKey)
        ensures
            k@ == bytes@,
    {
        EncryptionKey { bytes }
    }

    /// The bytes, for the cipher.
    pub fn expose(&self) -> (out: &[u8; 32])
        ensures
            out@ == self@,
    {
        &self.bytes
    }

    /// Overwrites the key with zeros.
    pub fn wipe(&mut self)
        ensures
            final(self).is_wiped(),
    {
        zeroize_array(&mut self.bytes);
    }

    /// An encryption key is 32 bytes long.
    pub proof fn lemma_len(&self)
        ensures
            self@.len() == 32,
    {
    }
}

} // verus!
