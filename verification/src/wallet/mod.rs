//! The encrypted wallet container: key derivation, authenticated encryption,
//! the two on-disk layouts, and the loader that ties them together.

pub mod aead;
pub mod bytes;
pub mod container;
pub mod envelope;
pub mod format;
pub mod json;
pub mod kdf;
pub mod loader;
pub mod record;
pub mod secret;
pub mod signing;
pub mod text;
