//! The constants of the container layouts, shared by everything that builds
//! or reads a container.

use vstd::prelude::*;

verus! {

/// The four bytes that open a binary container: `QSW1`.
pub const MAGIC: [u8; 4] = [0x51, 0x53, 0x57, 0x31];

/// The only layout version that is read or written.
pub const VERSION: u8 = 1;

/// The only key-derivation identifier that is read or written: Argon2id.
pub const KDF_ID_ARGON2ID: u8 = 1;

/// Length of the salt of a binary container.
pub const SALT_LEN: usize = 16;

/// Length of the nonce of either layout.
pub const NONCE_LEN: usize = 12;

/// Length of the authentication tag that ends every ciphertext.
pub const TAG_LEN: usize = 16;

/// Length of the symmetric keys.
pub const KEY_LEN: usize = 32;

/// Offset of the version byte.
pub const VERSION_OFFSET: usize = 4;

/// Offset of the key-derivation identifier.
pub const KDF_ID_OFFSET: usize = 5;

/// Offset of the memory cost.
pub const M_COST_OFFSET: usize = 6;

/// Offset of the time cost.
pub const T_COST_OFFSET: usize = 10;

/// Offset of the parallelism cost.
pub const P_COST_OFFSET: usize = 14;

/// Offset of the salt.
pub const SALT_OFFSET: usize = 18;

/// Length of the authenticated header, which is also the offset of the nonce.
pub const HEADER_LEN: usize = 34;

/// Offset of the ciphertext, and the least length of a binary container.
pub const CIPHERTEXT_OFFSET: usize = 46;

/// Memory cost, in KiB, that a new container is written with.
pub const DEFAULT_M_COST_KIB: u32 = 65536;

/// Time cost that a new container is written with.
pub const DEFAULT_T_COST: u32 = 3;

/// Parallelism cost that a new container is written with.
pub const DEFAULT_P_COST: u32 = 1;

/// Memory cost, in KiB, that the text layout implies.
pub const LEGACY_M_COST_KIB: u32 = 19456;

/// Time cost that the text layout implies.
pub const LEGACY_T_COST: u32 = 2;

/// Parallelism cost that the text layout implies.
pub const LEGACY_P_COST: u32 = 1;

/// The context label of the key expansion: `wallet-file-encryption v1`.
pub const KEY_LABEL: [u8; 25] = [
    0x77, 0x61, 0x6c, 0x6c, 0x65, 0x74, 0x2d, 0x66, 0x69, 0x6c, 0x65, 0x2d, 0x65,
    0x6e, 0x63, 0x72, 0x79, 0x70, 0x74, 0x69, 0x6f, 0x6e, 0x20, 0x76, 0x31,
];

/// The authenticated data of the text layout: `wallet-v1`.
pub const LEGACY_AAD: [u8; 9] = [0x77, 0x61, 0x6c, 0x6c, 0x65, 0x74, 0x2d, 0x76, 0x31];

} // verus!
