//! Error taxonomy of the key-generation core.  Every error is terminal
//! for the operation that raised it: no retry happens at this layer, and
//! a failed operation leaves the owning state unchanged.

use vstd::prelude::*;

verus! {

/// Why a key operation failed.
#[derive(Clone, Copy, Debug, PartialEq, Eq, Structural)]
pub enum FsError {
    /// The random source could not produce the requested bytes.
    RandomnessUnavailable,
    /// The underlying cryptographic primitive rejected the operation.
    CryptoOperationFailed,
    /// The operation is not offered by this component (for example,
    /// restoring a master-derived key).
    UnsupportedOperation,
    /// A caller passed a purpose the component does not own, or omitted
    /// a value the operation needs.
    InvalidArgument,
}

pub type FsResult<T> = Result<T, FsError>;

} // verus!
