//! The key-derivation chain: a memory-hard hash of the password, then a
//! domain-separated expansion into the key that the cipher sees.

use argon2::{Algorithm, Argon2, Params, Version};
use hkdf::Hkdf;
use sha2::Sha256;
use vstd::prelude::*;
use crate::wallet::format::{
    DEFAULT_M_COST_KIB, DEFAULT_P_COST, DEFAULT_T_COST, KEY_LABEL, LEGACY_M_COST_KIB,
    LEGACY_P_COST, LEGACY_T_COST,
};
use crate::wallet::secret::{EncryptionKey, MasterKey, Password};

verus! {

/// The three cost parameters of the password-hashing stage.
#[derive(Debug, Clone, Copy, PartialEq, Eq, Structural)]
pub struct CostParams {
    /// Working memory, in KiB.
    pub m_cost_kib: u32,
    /// Number of passes over the memory.
    pub t_cost: u32,
    /// Number of lanes.
    pub p_cost: u32,
}

impl CostParams {
    /// The parameters that a new container is written with.
    pub fn standard() -> (c: CostParams)
        ensures
            c.m_cost_kib == DEFAULT_M_COST_KIB,
            c.t_cost == DEFAULT_T_COST,
            c.p_cost == DEFAULT_P_COST,
    {
        CostParams {
            m_cost_kib: DEFAULT_M_COST_KIB,
            t_cost: DEFAULT_T_COST,
            p_cost: DEFAULT_P_COST,
        }
    }

    /// The parameters that the text layout implies, since it stores none.
    pub fn legacy() -> (c: CostParams)
        ensures
            c == legacy_costs(),
    {
        CostParams {
            m_cost_kib: LEGACY_M_COST_KIB,
            t_cost: LEGACY_T_COST,
            p_cost: LEGACY_P_COST,
        }
    }
}

/// The parameters that the text layout implies.
pub open spec fn legacy_costs() -> CostParams {
    CostParams {
        m_cost_kib: LEGACY_M_COST_KIB,
        t_cost: LEGACY_T_COST,
        p_cost: LEGACY_P_COST,
    }
}

/// The least memory cost, in KiB, that the hashing stage takes.
pub const MIN_M_COST_KIB: u32 = 8;

/// The memory cost, in KiB, that each lane needs at least.
pub const M_COST_PER_LANE_KIB: u32 = 8;

/// The greatest number of lanes that the hashing stage takes.
pub const MAX_P_COST: u32 = 0xFF_FFFF;

/// The greatest memory cost, in KiB, that this library hashes with: 1 GiB.
/// The costs of a container are read before anything vouches for them, and
/// the hashing stage allocates what they say.
pub const MAX_M_COST_KIB: u32 = 0x10_0000;

/// The greatest time cost that this library hashes with. Together with the
/// limit on the memory it bounds how long a container can keep the hashing
/// stage busy before anything vouches for its header.
pub const MAX_T_COST: u32 = 1024;

/// The least salt length that the hashing stage takes.
pub const MIN_SALT_LEN: usize = 8;

/// The greatest length of a password or a salt that the hashing stage takes.
pub const MAX_INPUT_LEN: usize = 0xFFFF_FFFF;

/// Why the key-derivation chain refuses its input.
#[derive(Debug, Clone, Copy, PartialEq, Eq, Structural)]
pub enum KdfError {
    /// The memory cost is under the minimum, or under 8 KiB for each lane.
    MemoryTooLittle,
    /// No pass over the memory.
    TimeTooSmall,
    /// No lane.
    ThreadsTooFew,
    /// More lanes than the hashing stage takes.
    ThreadsTooMany,
    /// The memory cost is over the 1 GiB that this library hashes with.
    MemoryTooLarge,
    /// The time cost is over the 1024 passes that this library hashes with.
    TimeTooLarge,
    /// The password is longer than the hashing stage takes.
    PasswordTooLong,
    /// The salt is shorter than 8 bytes.
    SaltTooShort,
    /// The salt is longer than the hashing stage takes.
    SaltTooLong,
}

/// The first reason why a password and a salt of these lengths are not
/// hashed under these costs; `None` where they are. The costs come first,
/// in the order in which the hashing stage checks them, then the limits of
/// this library on memory and time, then the lengths.
pub open spec fn kdf_rejection(password_len: nat, salt_len: nat, c: CostParams) -> Option<
    KdfError,
> {
    if c.m_cost_kib < MIN_M_COST_KIB {
        Some(KdfError::MemoryTooLittle)
    } else if c.m_cost_kib < M_COST_PER_LANE_KIB * c.p_cost {
        Some(KdfError::MemoryTooLittle)
    } else if c.t_cost < 1 {
        Some(KdfError::TimeTooSmall)
    } else if c.p_cost < 1 {
        Some(KdfError::ThreadsTooFew)
    } else if c.p_cost > MAX_P_COST {
        Some(KdfError::ThreadsTooMany)
    } else if c.m_cost_kib > MAX_M_COST_KIB {
        Some(KdfError::MemoryTooLarge)
    } else if c.t_cost > MAX_T_COST {
        Some(KdfError::TimeTooLarge)
    } else if password_len > MAX_INPUT_LEN {
        Some(KdfError::PasswordTooLong)
    } else if salt_len < MIN_SALT_LEN {
        Some(KdfError::SaltTooShort)
    } else if salt_len > MAX_INPUT_LEN {
        Some(KdfError::SaltTooLong)
    } else {
        None
    }
}

/// The 32-byte Argon2id hash, version 0x13, of a password under a salt and
/// three costs, without secret key or associated data.
pub uninterp spec fn argon2id_v19(
    password: Seq<u8>,
    salt: Seq<u8>,
    m_cost_kib: u32,
    t_cost: u32,
    p_cost: u32,
) -> Seq<u8>;

/// The first 32 bytes of HKDF with SHA-256: extraction of `ikm` under `salt`,
/// then expansion under `info`.
pub uninterp spec fn hkdf_sha256_32(salt: Seq<u8>, ikm: Seq<u8>, info: Seq<u8>) -> Seq<u8>;

/// The master key of a password: the output of the hashing stage.
pub open spec fn master_key_of(password: Seq<u8>, salt: Seq<u8>, c: CostParams) -> Seq<u8> {
    argon2id_v19(password, salt, c.m_cost_kib, c.t_cost, c.p_cost)
}

/// The encryption key that a master key expands to under a salt.
pub open spec fn expanded_key(master: Seq<u8>, salt: Seq<u8>) -> Seq<u8> {
    hkdf_sha256_32(salt, master, KEY_LABEL@)
}

/// The encryption key of a password: the whole chain.
pub open spec fn derived_key(password: Seq<u8>, salt: Seq<u8>, c: CostParams) -> Seq<u8> {
    expanded_key(master_key_of(password, salt, c), salt)
}

/// Runs `argon2::Argon2::hash_password_into` for Argon2id, version 0x13, on
/// parameters made by `argon2::Params::new` without an output length, into 32
/// bytes. `requires` asks for input that neither of the two refuses, for no
/// more than 1 GiB of working memory, which the call allocates, and for no
/// more than 1024 passes. The hash is a function of password, salt and costs
/// alone: that function is named here, and nothing else is claimed of it.
#[verifier::external_body]
fn argon2id_hash(password: &[u8], salt: &[u8], costs: CostParams) -> (out: [u8; 32])
    requires
        kdf_rejection(password@.len(), salt@.len(), costs) is None,
    ensures
        out@ == argon2id_v19(password@, salt@, costs.m_cost_kib, costs.t_cost, costs.p_cost),
{
    let params = Params::new(costs.m_cost_kib, costs.t_cost, costs.p_cost, None)
        .expect("the costs are within the limits of Argon2");
    let mut out = [0u8; 32];
    Argon2::new(Algorithm::Argon2id, Version::V0x13, params)
        .hash_password_into(password, salt, &mut out)
        .expect("password and salt are within the limits of Argon2");
    out
}

/// Runs `hkdf::Hkdf::<Sha256>::new` with the salt and `expand` into 32 bytes,
/// a length that `expand` never refuses. The output is a function of salt,
/// input key and info alone: that function is named here.
#[verifier::external_body]
fn hkdf_expand(salt: &[u8], ikm: &[u8; 32], info: &[u8]) -> (okm: [u8; 32])
    ensures
        okm@ == hkdf_sha256_32(salt@, ikm@, info@),
{
    let mut okm = [0u8; 32];
    Hkdf::<Sha256>::new(Some(salt), ikm)
        .expand(info, &mut okm)
        .expect("32 bytes are within the output limit of HKDF");
    okm
}

/// Finds out whether the hashing stage takes this input, and why not.
pub fn check_kdf_input(password_len: usize, salt_len: usize, costs: CostParams) -> (r: Option<
    KdfError,
>)
    ensures
        r == kdf_rejection(password_len as nat, salt_len as nat, costs),
{
    if costs.m_cost_kib < MIN_M_COST_KIB {
        return Some(KdfError::MemoryTooLittle);
    }
    if costs.m_cost_kib / M_COST_PER_LANE_KIB < costs.p_cost {
        return Some(KdfError::MemoryTooLittle);
    }
    if costs.t_cost < 1 {
        return Some(KdfError::TimeTooSmall);
    }
    if costs.p_cost < 1 {
        return Some(KdfError::ThreadsTooFew);
    }
    if costs.p_cost > MAX_P_COST {
        return Some(KdfError::ThreadsTooMany);
    }
    if costs.m_cost_kib > MAX_M_COST_KIB {
        return Some(KdfError::MemoryTooLarge);
    }
    if costs.t_cost > MAX_T_COST {
        return Some(KdfError::TimeTooLarge);
    }
    if password_len > MAX_INPUT_LEN {
        return Some(KdfError::PasswordTooLong);
    }
    if salt_len < MIN_SALT_LEN {
        return Some(KdfError::SaltTooShort);
    }
    if salt_len > MAX_INPUT_LEN {
        return Some(KdfError::SaltTooLong);
    }
    None
}

/// The hashing stage: from password, salt and costs to the master key.
/// Costs and lengths that the stage does not take are reported, never
/// adjusted. A wrong password is no error here: it gives another key.
pub fn harden_password(password: &Password, salt: &[u8], costs: CostParams) -> (r: Result<
    MasterKey,
    KdfError,
>)
    ensures
        match r {
            Ok(master) => {
                &&& kdf_rejection(password@.len(), salt@.len(), costs) is None
                &&& master@ == master_key_of(password@, salt@, costs)
            },
            Err(e) => kdf_rejection(password@.len(), salt@.len(), costs) == Some(e),
        },
{
    let pw: &[u8] = password.expose();
    match check_kdf_input(pw.len(), salt.len(), costs) {
        Some(e) => Err(e),
        None => Ok(MasterKey::from_bytes(argon2id_hash(pw, salt, costs))),
    }
}

/// The expansion stage: from the master key to the encryption key, under the
/// same salt and the fixed label. The master key is wiped before this
/// returns.
pub fn expand_master_key(master: &mut MasterKey, salt: &[u8]) -> (key: EncryptionKey)
    ensures
        key@ == expanded_key(old(master)@, salt@),
        final(master).is_wiped(),
{
    let okm: [u8; 32] = hkdf_expand(salt, master.expose(), KEY_LABEL.as_slice());
    master.wipe();
    EncryptionKey::from_bytes(okm)
}

/// The whole chain: the encryption key of a password under a salt and costs.
/// The same three always give the same key.
pub fn derive_key(password: &Password, salt: &[u8], costs: CostParams) -> (r: Result<
    EncryptionKey,
    KdfError,
>)
    ensures
        match r {
            Ok(key) => {
                &&& kdf_rejection(password@.len(), salt@.len(), costs) is None
                &&& key@ == derived_key(password@, salt@, costs)
            },
            Err(e) => kdf_rejection(password@.len(), salt@.len(), costs) == Some(e),
        },
{
    match harden_password(password, salt, costs) {
        Err(e) => Err(e),
        Ok(master) => {
            let mut master = master;
            let key = expand_master_key(&mut master, salt);
            Ok(key)
        },
    }
}

} // verus!
