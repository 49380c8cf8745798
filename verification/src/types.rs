//! Plain value types shared by the key-generation components.

use vstd::prelude::*;

verus! {

/// A 128-bit symmetric key.  Raw key material: owners zero-fill it
/// before release.
pub type Key128bit = [u8; 16];

/// Which component serves a request, and which label the derivation
/// mixes into its context.
#[derive(Clone, Copy, Debug, PartialEq, Eq, Structural)]
pub enum KeyType {
    Metadata,
    Master,
    Random,
}

/// The public per-derivation tag (key id).  It parameterizes exactly one
/// derivation and must be persisted to permit restoration; it carries no
/// secret.
#[derive(Clone, Copy, Debug, PartialEq, Eq)]
pub struct KeyId {
    pub id: [u8; 16],
}

/// A hardware security-version number: the patch level of the platform
/// at the time a sealing key was produced.
#[derive(Clone, Copy, Debug, PartialEq, Eq)]
pub struct CpuSvn {
    pub svn: [u8; 16],
}

/// What the key logic reads out of an enclave's local identity report:
/// the security-version numbers in effect when the report was captured.
#[derive(Clone, Copy, Debug, PartialEq, Eq)]
pub struct ReportInfo {
    pub cpu_svn: CpuSvn,
    pub isv_svn: u16,
}

/// The all-zero key sequence used to bootstrap a fresh master secret.
pub open spec fn zero_key_bytes() -> Seq<u8> {
    Seq::new(16, |i| 0u8)
}

/// The all-zero 128-bit key.
pub fn zero_key() -> (k: Key128bit)
    ensures
        k@ == zero_key_bytes(),
{
    let k: Key128bit = [0u8; 16];
    proof {
        assert(k@ =~= zero_key_bytes());
    }
    k
}

} // verus!
