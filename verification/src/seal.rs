//! The hardware sealing-key request.  A hardware-bound metadata key is
//! materialized by the enclave hardware from a request scoped by a
//! sealing policy, the platform's security-version numbers and a
//! per-derivation tag used as the request's nonce.  The hardware answers
//! a given request deterministically on a given platform, so producing
//! the identical request is what makes a sealed key reproducible.  This
//! module builds and relates those requests; issuing one is an enclave
//! instruction that only the surrounding runtime can perform.

use crate::error::{FsError, FsResult};
use crate::types::{CpuSvn, KeyId, ReportInfo};
use vstd::prelude::*;

verus! {

/// Which enclave identity a sealing key is bound to.  Binding to the
/// signer, not the exact measurement, lets upgraded enclave versions
/// from the same signer unseal older data.
#[derive(Clone, Copy, Debug, PartialEq, Eq, Structural)]
pub enum SealPolicy {
    Signer,
    Measurement,
}

/// The request handed to the hardware key instruction, reduced to the
/// values this core decides: the sealing policy, the security-version
/// numbers that gate which keys are obtainable, and the tag serving as
/// the request nonce.
#[derive(Clone, Copy, Debug, PartialEq, Eq)]
pub struct KeyRequestInfo {
    pub key_policy: SealPolicy,
    pub cpu_svn: CpuSvn,
    pub isv_svn: u16,
    pub key_id: KeyId,
}

/// The request a fresh derivation issues: signer-bound sealing, the
/// report's current security versions, and the fresh tag as nonce.
pub open spec fn derive_request_spec(report: ReportInfo, key_id: KeyId) -> KeyRequestInfo {
    KeyRequestInfo {
        key_policy: SealPolicy::Signer,
        cpu_svn: report.cpu_svn,
        isv_svn: report.isv_svn,
        key_id,
    }
}

/// The request a restoration issues from the caller-supplied security
/// versions and the persisted tag.
pub open spec fn restore_request_spec(key_id: KeyId, cpu_svn: CpuSvn, isv_svn: u16) -> KeyRequestInfo {
    KeyRequestInfo { key_policy: SealPolicy::Signer, cpu_svn, isv_svn, key_id }
}

/// Builds the sealing-key request for a fresh derivation.
pub fn seal_request_for_derive(report: &ReportInfo, key_id: KeyId) -> (r: KeyRequestInfo)
    ensures
        r == derive_request_spec(*report, key_id),
{
    KeyRequestInfo {
        key_policy: SealPolicy::Signer,
        cpu_svn: report.cpu_svn,
        isv_svn: report.isv_svn,
        key_id,
    }
}

/// Builds the sealing-key request for a restoration.  The security
/// versions in effect at derivation time cannot be inferred from the
/// tag, so the caller must supply both explicitly; omitting either is an
/// invalid argument, not recoverable by retry.
pub fn seal_request_for_restore(
    key_id: KeyId,
    cpu_svn: Option<CpuSvn>,
    isv_svn: Option<u16>,
) -> (r: FsResult<KeyRequestInfo>)
    ensures
        r is Err <==> (cpu_svn is None || isv_svn is None),
        r matches Err(e) ==> e == FsError::InvalidArgument,
        cpu_svn matches Some(c) ==> isv_svn matches Some(i) ==> r == Ok::<
            KeyRequestInfo,
            FsError,
        >(restore_request_spec(key_id, c, i)),
{
    let cpu_svn = match cpu_svn {
        Some(c) => c,
        None => {
            return Err(FsError::InvalidArgument);
        },
    };
    let isv_svn = match isv_svn {
        Some(i) => i,
        None => {
            return Err(FsError::InvalidArgument);
        },
    };
    Ok(KeyRequestInfo { key_policy: SealPolicy::Signer, cpu_svn, isv_svn, key_id })
}

/// A restoration that supplies the security versions recorded at
/// derivation time, together with the original tag, issues the identical
/// hardware request as the derivation did — and the hardware, answering
/// a request deterministically on a given platform, hands back the
/// identical sealing key.
pub proof fn lemma_restore_request_matches_derive(report: ReportInfo, key_id: KeyId)
    ensures
        restore_request_spec(key_id, report.cpu_svn, report.isv_svn) == derive_request_spec(
            report,
            key_id,
        ),
{
}

} // verus!
