//! The metadata-key provider: the single key protecting a file's
//! metadata header.  It wraps either a caller-supplied secret, from
//! which the key is derived through the KDF engine, or the enclave's
//! identity report, from which the hardware materializes a sealing key.
//! The provider is fixed for the life of an open file: no rotation.
//!
//! The hardware key instruction exists only inside an enclave, so this
//! build cannot execute the hardware-bound derivation itself: for that
//! variant the provider produces the exact, verified key request
//! (`derive_request`, `restore_request`) for the surrounding runtime to
//! issue, and the in-process `derive_key`/`restore_key` path reports the
//! operation as unsupported.

use crate::error::{FsError, FsResult};
use crate::kdf;
use crate::kdf::derived_key_of;
use crate::seal;
use crate::seal::{derive_request_spec, restore_request_spec, KeyRequestInfo};
use crate::types::{zero_key, zero_key_bytes, CpuSvn, Key128bit, KeyId, KeyType, ReportInfo};
use crate::{DeriveKey, RestoreKey};
use vstd::prelude::*;

verus! {

/// Either a caller-supplied 128-bit secret or the enclave identity a
/// hardware-bound key is scoped by.
#[derive(Clone, Copy, Debug)]
pub enum MetadataKey {
    UserKey(Key128bit),
    CpuKey(ReportInfo),
}

/// What a metadata derivation returns: from a user secret, a key derived
/// with the `Metadata` label at node index zero, failing only when the
/// random source does; from a hardware-bound provider, nothing in this
/// build — the hardware instruction is out of reach, and the caller
/// issues the request built by `derive_request` instead.
pub open spec fn metadata_derive_post(m: MetadataKey, r: FsResult<(Key128bit, KeyId)>) -> bool {
    match m {
        MetadataKey::UserKey(secret) => match r {
            Ok((key, key_id)) => key@ == derived_key_of(secret@, KeyType::Metadata, 0, key_id.id@),
            Err(e) => e == FsError::RandomnessUnavailable,
        },
        MetadataKey::CpuKey(_) => r == Err::<(Key128bit, KeyId), FsError>(
            FsError::UnsupportedOperation,
        ),
    }
}

/// What a metadata restoration returns: from a user secret, always the
/// key the supplied tag determines; from a hardware-bound provider,
/// an invalid-argument failure when either security-version number is
/// missing, and otherwise — in this build — the unsupported-operation
/// report, the caller issuing `restore_request`'s result instead.
pub open spec fn metadata_restore_post(
    m: MetadataKey,
    key_id: KeyId,
    cpu_svn: Option<CpuSvn>,
    isv_svn: Option<u16>,
    r: FsResult<Key128bit>,
) -> bool {
    match m {
        MetadataKey::UserKey(secret) => match r {
            Ok(key) => key@ == derived_key_of(secret@, KeyType::Metadata, 0, key_id.id@),
            Err(_) => false,
        },
        MetadataKey::CpuKey(_) => if cpu_svn is None || isv_svn is None {
            r == Err::<Key128bit, FsError>(FsError::InvalidArgument)
        } else {
            r == Err::<Key128bit, FsError>(FsError::UnsupportedOperation)
        },
    }
}

impl MetadataKey {
    /// Wraps a caller-supplied secret.  Without one, the provider would
    /// have to capture the enclave's ambient identity report, which no
    /// runtime available to this library can do: the request is reported
    /// as unsupported, and a caller holding a report uses
    /// `new_with_report`.
    pub fn new(user_key: Option<Key128bit>) -> (r: FsResult<MetadataKey>)
        ensures
            user_key matches Some(k) ==> r == Ok::<MetadataKey, FsError>(MetadataKey::UserKey(k)),
            user_key is None ==> r == Err::<MetadataKey, FsError>(FsError::UnsupportedOperation),
    {
        match user_key {
            Some(k) => Ok(MetadataKey::UserKey(k)),
            None => Err(FsError::UnsupportedOperation),
        }
    }

    /// Binds the provider to the enclave identity captured in `report`.
    pub fn new_with_report(report: ReportInfo) -> (r: MetadataKey)
        ensures
            r == MetadataKey::CpuKey(report),
    {
        MetadataKey::CpuKey(report)
    }

    /// For a hardware-bound provider: draws a fresh tag and builds the
    /// sealing-key request a derivation issues, for the surrounding
    /// runtime to execute.
    pub fn derive_request(&self) -> (r: FsResult<(KeyRequestInfo, KeyId)>)
        ensures
            self matches MetadataKey::UserKey(_) ==> r == Err::<(KeyRequestInfo, KeyId), FsError>(
                FsError::UnsupportedOperation,
            ),
            self matches MetadataKey::CpuKey(report) ==> {
                &&& r matches Ok((request, key_id)) ==> request == derive_request_spec(
                    *report,
                    key_id,
                )
                &&& r matches Err(e) ==> e == FsError::RandomnessUnavailable
            },
    {
        match self {
            MetadataKey::UserKey(_) => Err(FsError::UnsupportedOperation),
            MetadataKey::CpuKey(report) => {
                let key_id = match kdf::fresh_key_id() {
                    Ok(id) => id,
                    Err(e) => {
                        return Err(e);
                    },
                };
                Ok((seal::seal_request_for_derive(report, key_id), key_id))
            },
        }
    }

    /// For a hardware-bound provider: builds the sealing-key request a
    /// restoration issues from the persisted tag and the caller-supplied
    /// security versions.
    pub fn restore_request(
        &self,
        key_id: KeyId,
        cpu_svn: Option<CpuSvn>,
        isv_svn: Option<u16>,
    ) -> (r: FsResult<KeyRequestInfo>)
        ensures
            self matches MetadataKey::UserKey(_) ==> r == Err::<KeyRequestInfo, FsError>(
                FsError::UnsupportedOperation,
            ),
            self is CpuKey ==> {
                &&& r is Err <==> (cpu_svn is None || isv_svn is None)
                &&& r matches Err(e) ==> e == FsError::InvalidArgument
                &&& cpu_svn matches Some(c) ==> isv_svn matches Some(i) ==> r == Ok::<
                    KeyRequestInfo,
                    FsError,
                >(restore_request_spec(key_id, c, i))
            },
    {
        match self {
            MetadataKey::UserKey(_) => Err(FsError::UnsupportedOperation),
            MetadataKey::CpuKey(_) => seal::seal_request_for_restore(key_id, cpu_svn, isv_svn),
        }
    }

    /// Zero-fills a wrapped user secret; a hardware-bound provider holds
    /// no raw secret to wipe (the report is not itself confidential).
    pub fn erase(&mut self)
        ensures
            *old(self) is UserKey ==> (*final(self) matches MetadataKey::UserKey(k) && k@
                == zero_key_bytes()),
            *old(self) is CpuKey ==> *final(self) == *old(self),
    {
        match self {
            MetadataKey::UserKey(_) => {
                *self = MetadataKey::UserKey(zero_key());
            },
            MetadataKey::CpuKey(_) => {},
        }
    }
}

impl DeriveKey for MetadataKey {
    /// Owns the `Metadata` purpose exclusively; any other purpose is an
    /// invalid argument.  The provider itself never changes.
    fn derive_key(&mut self, key_type: KeyType, node_number: u64) -> (r: FsResult<
        (Key128bit, KeyId),
    >)
        ensures
            *final(self) == *old(self),
            key_type != KeyType::Metadata ==> r == Err::<(Key128bit, KeyId), FsError>(
                FsError::InvalidArgument,
            ),
            key_type == KeyType::Metadata ==> metadata_derive_post(*old(self), r),
    {
        let _ = node_number;
        if !matches!(key_type, KeyType::Metadata) {
            return Err(FsError::InvalidArgument);
        }
        match self {
            MetadataKey::UserKey(user_key) => kdf::derive_key(user_key, KeyType::Metadata, 0),
            MetadataKey::CpuKey(_) => Err(FsError::UnsupportedOperation),
        }
    }
}

impl RestoreKey for MetadataKey {
    /// Restores the metadata key its tag determines; only the `Metadata`
    /// purpose is accepted, and a hardware-bound restoration demands
    /// both security-version numbers explicitly.
    fn restore_key(
        &self,
        key_type: KeyType,
        key_id: KeyId,
        cpu_svn: Option<CpuSvn>,
        isv_svn: Option<u16>,
    ) -> (r: FsResult<Key128bit>)
        ensures
            key_type != KeyType::Metadata ==> r == Err::<Key128bit, FsError>(
                FsError::InvalidArgument,
            ),
            key_type == KeyType::Metadata ==> metadata_restore_post(
                *self,
                key_id,
                cpu_svn,
                isv_svn,
                r,
            ),
    {
        if !matches!(key_type, KeyType::Metadata) {
            return Err(FsError::InvalidArgument);
        }
        match self {
            MetadataKey::UserKey(user_key) => Ok(
                kdf::restore_key(user_key, KeyType::Metadata, 0, key_id),
            ),
            MetadataKey::CpuKey(_) => {
                if cpu_svn.is_none() {
                    return Err(FsError::InvalidArgument);
                }
                if isv_svn.is_none() {
                    return Err(FsError::InvalidArgument);
                }
                Err(FsError::UnsupportedOperation)
            },
        }
    }
}

} // verus!
