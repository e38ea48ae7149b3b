//! Quantum-secure wallet core: post-quantum key material, and the
//! password-protected container that keeps it at rest.

pub mod crypto;
pub mod wallet;
