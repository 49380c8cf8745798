//! Key derivation and key lifecycle for a file protected inside a
//! trusted-execution enclave.
//!
//! The crate manufactures the symmetric keys that protect a file's data
//! nodes and metadata header, and deterministically reconstructs a key
//! later from the public tag stored alongside the ciphertext.  It holds
//! a rotating master secret with a bounded usage budget, a metadata key
//! that is either caller-supplied or bound to the enclave's hardware
//! identity, and a facade that routes requests by purpose.

pub mod error;
pub mod kdf;
pub mod keygen;
pub mod master;
pub mod metadata;
pub mod primitives;
pub mod seal;
pub mod types;

pub use error::{FsError, FsResult};
pub use keygen::FsKeyGen;
pub use types::{CpuSvn, Key128bit, KeyId, KeyType, ReportInfo};

use vstd::prelude::*;

verus! {

/// Derivation of a fresh key for the given purpose and node; the returned
/// tag is the public value a caller persists alongside the ciphertext.
pub trait DeriveKey {
    fn derive_key(&mut self, key_type: KeyType, node_number: u64) -> FsResult<(Key128bit, KeyId)>;
}

/// Deterministic reconstruction of a previously derived key from its tag.
pub trait RestoreKey {
    fn restore_key(
        &self,
        key_type: KeyType,
        key_id: KeyId,
        cpu_svn: Option<CpuSvn>,
        isv_svn: Option<u16>,
    ) -> FsResult<Key128bit>;
}

} // verus!
