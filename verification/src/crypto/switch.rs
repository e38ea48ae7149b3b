//! Fail-safe switching between key-encapsulation algorithms.

use vstd::prelude::*;

verus! {

/// The key-encapsulation algorithms a wallet can run on.
#[derive(Debug, Clone, Copy, PartialEq, Eq, Structural)]
pub enum KemAlgorithm {
    /// ML-KEM-1024 (Kyber1024)
    Kyber1024,
    /// NTRU-HPS 4096-821
    NtruHps4096_821,
}

/// The signature algorithms a wallet can run on.
#[derive(Debug, Clone, Copy, PartialEq, Eq, Structural)]
pub enum SigAlgorithm {
    /// ML-DSA-5 (Dilithium5)
    Dilithium5,
}

/// The algorithms currently selected.
#[derive(Debug, Clone, Copy)]
pub struct CryptoConfig {
    pub kem: KemAlgorithm,
    pub sig: SigAlgorithm,
}

/// The other key-encapsulation algorithm: the one to fall back to.
pub open spec fn other_kem(k: KemAlgorithm) -> KemAlgorithm {
    match k {
        KemAlgorithm::Kyber1024 => KemAlgorithm::NtruHps4096_821,
        KemAlgorithm::NtruHps4096_821 => KemAlgorithm::Kyber1024,
    }
}

impl Default for CryptoConfig {
    fn default() -> (cfg: Self)
        ensures
            cfg.kem == KemAlgorithm::Kyber1024,
            cfg.sig == SigAlgorithm::Dilithium5,
    {
        CryptoConfig { kem: KemAlgorithm::Kyber1024, sig: SigAlgorithm::Dilithium5 }
    }
}

impl CryptoConfig {
    /// Replaces the selected key-encapsulation algorithm by the other one and
    /// leaves the signature algorithm alone.
    pub fn switch_kem(&mut self)
        ensures
            final(self).kem == other_kem(old(self).kem),
            final(self).sig == old(self).sig,
    {
        self.kem = match self.kem {
            KemAlgorithm::Kyber1024 => KemAlgorithm::NtruHps4096_821,
            KemAlgorithm::NtruHps4096_821 => KemAlgorithm::Kyber1024,
        };
    }
}

/// Switching always changes the algorithm, and switching twice restores it.
pub proof fn lemma_switch_is_involution(k: KemAlgorithm)
    ensures
        other_kem(k) != k,
        other_kem(other_kem(k)) == k,
{
}

} // verus!
