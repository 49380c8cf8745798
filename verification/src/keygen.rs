//! The key-generation facade: the single entry point surrounding code
//! uses.  It routes derivation requests by purpose — `Metadata` to the
//! metadata-key provider, `Master` and `Random` to the master-key
//! manager — and accepts restoration requests for the metadata key
//! alone: master- and random-derived keys are never restored from
//! persisted state.

use crate::error::{FsError, FsResult};
use crate::master;
use crate::master::MasterKey;
use crate::metadata;
use crate::metadata::MetadataKey;
use crate::types::{CpuSvn, Key128bit, KeyId, KeyType};
use crate::{DeriveKey, RestoreKey};
use vstd::prelude::*;

verus! {

/// One open file's key state: the rotating master key and the fixed
/// metadata-key provider, owned exclusively by the session that opened
/// the file.
#[derive(Clone, Copy, Debug)]
pub struct FsKeyGen {
    pub master_key: MasterKey,
    pub metadata_key: MetadataKey,
}

impl FsKeyGen {
    /// The master counter stays within its budget.
    pub open spec fn wf(self) -> bool {
        self.master_key.wf()
    }

    /// Opens a session: mints a fresh master key and wraps the
    /// caller-supplied metadata secret.  Without a caller secret the
    /// provider would need the enclave's ambient identity, which no
    /// runtime available to this library supplies; such a construction
    /// is reported as unsupported, and a caller holding an identity
    /// report opens the session with `new_with_report`.
    pub fn new(user_key: Option<Key128bit>) -> (r: FsResult<FsKeyGen>)
        ensures
            r matches Ok(g) ==> {
                &&& user_key matches Some(k) && g.metadata_key == MetadataKey::UserKey(k)
                &&& g.master_key.count == 0
                &&& g.wf()
            },
            r matches Err(e) ==> e == FsError::RandomnessUnavailable || (e
                == FsError::UnsupportedOperation && user_key is None),
            user_key is None ==> r is Err,
    {
        let master_key = match MasterKey::new() {
            Ok(m) => m,
            Err(e) => {
                return Err(e);
            },
        };
        let metadata_key = match MetadataKey::new(user_key) {
            Ok(m) => m,
            Err(e) => {
                return Err(e);
            },
        };
        Ok(FsKeyGen { master_key, metadata_key })
    }

    /// Opens a session whose metadata key is bound to the enclave
    /// identity captured in `report`.
    pub fn new_with_report(report: crate::types::ReportInfo) -> (r: FsResult<FsKeyGen>)
        ensures
            r matches Ok(g) ==> {
                &&& g.metadata_key == MetadataKey::CpuKey(report)
                &&& g.master_key.count == 0
                &&& g.wf()
            },
            r matches Err(e) ==> e == FsError::RandomnessUnavailable,
    {
        let master_key = match MasterKey::new() {
            Ok(m) => m,
            Err(e) => {
                return Err(e);
            },
        };
        Ok(FsKeyGen { master_key, metadata_key: MetadataKey::new_with_report(report) })
    }

    /// Zero-fills every raw secret the session holds; run before the
    /// session ends.
    pub fn erase(&mut self)
        ensures
            final(self).master_key.key@ == crate::types::zero_key_bytes(),
            final(self).master_key.count == 0,
            old(self).metadata_key is UserKey ==> (final(self).metadata_key
                matches MetadataKey::UserKey(k) && k@ == crate::types::zero_key_bytes()),
            old(self).metadata_key is CpuKey ==> final(self).metadata_key == old(
                self,
            ).metadata_key,
    {
        self.master_key.erase();
        self.metadata_key.erase();
    }
}

impl DeriveKey for FsKeyGen {
    /// Routes a derivation by purpose.  Singleton keys (the metadata key
    /// and the master key itself) are derived at node index zero; only
    /// `Random` derivations are scoped by the caller's node index.
    fn derive_key(&mut self, key_type: KeyType, node_number: u64) -> (r: FsResult<
        (Key128bit, KeyId),
    >)
        ensures
            key_type == KeyType::Metadata ==> {
                &&& metadata::metadata_derive_post(old(self).metadata_key, r)
                &&& *final(self) == *old(self)
            },
            key_type == KeyType::Master ==> {
                &&& master::update_post(old(self).master_key, final(self).master_key, r)
                &&& final(self).metadata_key == old(self).metadata_key
            },
            key_type == KeyType::Random ==> {
                &&& master::derive_random_post(
                    old(self).master_key,
                    final(self).master_key,
                    node_number,
                    r,
                )
                &&& final(self).metadata_key == old(self).metadata_key
            },
            old(self).wf() ==> final(self).wf(),
    {
        match key_type {
            KeyType::Metadata => self.metadata_key.derive_key(KeyType::Metadata, 0),
            KeyType::Master => self.master_key.derive_key(KeyType::Master, 0),
            KeyType::Random => self.master_key.derive_key(KeyType::Random, node_number),
        }
    }
}

impl RestoreKey for FsKeyGen {
    /// Accepts only the `Metadata` purpose — the one kind of key that is
    /// ever reconstructed from a persisted tag — and delegates to the
    /// metadata-key provider.
    fn restore_key(
        &self,
        key_type: KeyType,
        key_id: KeyId,
        cpu_svn: Option<CpuSvn>,
        isv_svn: Option<u16>,
    ) -> (r: FsResult<Key128bit>)
        ensures
            key_type != KeyType::Metadata ==> r == Err::<Key128bit, FsError>(
                FsError::InvalidArgument,
            ),
            key_type == KeyType::Metadata ==> metadata::metadata_restore_post(
                self.metadata_key,
                key_id,
                cpu_svn,
                isv_svn,
                r,
            ),
    {
        if !matches!(key_type, KeyType::Metadata) {
            return Err(FsError::InvalidArgument);
        }
        self.metadata_key.restore_key(key_type, key_id, cpu_svn, isv_svn)
    }
}

} // verus!
