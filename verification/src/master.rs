//! The rotating master key.  One live 128-bit secret amortizes key
//! generation across many derived per-node keys; a usage counter bounds
//! how many derivations any one secret serves, and once the budget is
//! exhausted the whole state is replaced by freshly minted material.

use crate::error::{FsError, FsResult};
use crate::kdf;
use crate::kdf::derived_key_of;
use crate::types::{zero_key, zero_key_bytes, CpuSvn, Key128bit, KeyId, KeyType};
use crate::{DeriveKey, RestoreKey};
use vstd::prelude::*;

verus! {

/// How many derivations one master secret may serve before rotation.
pub const MAX_USAGES: u32 = 65536;

/// The live master secret, the tag it was minted under, and how many
/// derivations it has served.
#[derive(Clone, Copy, Debug)]
pub struct MasterKey {
    pub key: Key128bit,
    pub key_id: KeyId,
    pub count: u32,
}

/// What holds between a master-key state before and after `update`, and
/// the returned pair: below the budget the call counts one use and hands
/// out the live secret; at the budget the whole state is replaced by a
/// fresh bootstrap derivation and the counter resets to zero.  A failed
/// rotation leaves the state untouched.
pub open spec fn update_post(
    pre: MasterKey,
    post: MasterKey,
    r: FsResult<(Key128bit, KeyId)>,
) -> bool {
    &&& pre.count < MAX_USAGES ==> {
        &&& r == Ok::<(Key128bit, KeyId), FsError>((pre.key, pre.key_id))
        &&& post.key == pre.key
        &&& post.key_id == pre.key_id
        &&& post.count == pre.count + 1
    }
    &&& pre.count >= MAX_USAGES ==> match r {
        Ok(pair) => {
            &&& post.count == 0
            &&& post.key@ == derived_key_of(zero_key_bytes(), KeyType::Master, 0, post.key_id.id@)
            &&& pair == (post.key, post.key_id)
        },
        Err(e) => {
            &&& post == pre
            &&& e == FsError::RandomnessUnavailable
        },
    }
}

/// What holds of a random per-node derivation: the returned key is
/// derived from the post-call live secret with the `Random` label and
/// the given node index, the usage budget moves as in `update_post`, and
/// any failure leaves the state untouched.
pub open spec fn derive_random_post(
    pre: MasterKey,
    post: MasterKey,
    node_number: u64,
    r: FsResult<(Key128bit, KeyId)>,
) -> bool {
    match r {
        Ok((key, key_id)) => {
            &&& key@ == derived_key_of(post.key@, KeyType::Random, node_number, key_id.id@)
            &&& pre.count < MAX_USAGES ==> {
                &&& post.key == pre.key
                &&& post.key_id == pre.key_id
                &&& post.count == pre.count + 1
            }
            &&& pre.count >= MAX_USAGES ==> {
                &&& post.count == 0
                &&& post.key@ == derived_key_of(
                    zero_key_bytes(),
                    KeyType::Master,
                    0,
                    post.key_id.id@,
                )
            }
        },
        Err(e) => {
            &&& post == pre
            &&& e == FsError::RandomnessUnavailable
        },
    }
}

/// The rotation boundary: a manager that has served fewer uses than the
/// budget keeps its secret and counts one more use; a successful call
/// made once the budget is exhausted hands out a freshly bootstrapped
/// secret with the counter reset to zero — rotation happens before the
/// call is counted, never earlier.
pub proof fn lemma_rotation_boundary(
    pre: MasterKey,
    post: MasterKey,
    r: FsResult<(Key128bit, KeyId)>,
)
    requires
        update_post(pre, post, r),
    ensures
        pre.count < MAX_USAGES ==> post.key == pre.key && post.count == pre.count + 1,
        pre.count >= MAX_USAGES && r is Ok ==> post.count == 0 && post.key@ == derived_key_of(
            zero_key_bytes(),
            KeyType::Master,
            0,
            post.key_id.id@,
        ),
{
}

impl MasterKey {
    /// The counter never exceeds its budget in any state this module
    /// hands out.
    pub open spec fn wf(self) -> bool {
        self.count <= MAX_USAGES
    }

    /// Mints a fresh master key: a bootstrap derivation under an all-zero
    /// input secret, whose security rests entirely on the freshness of
    /// the randomly drawn tag, with the usage counter at zero.
    pub fn new() -> (r: FsResult<MasterKey>)
        ensures
            r matches Ok(m) ==> {
                &&& m.count == 0
                &&& m.key@ == derived_key_of(zero_key_bytes(), KeyType::Master, 0, m.key_id.id@)
                &&& m.wf()
            },
            r matches Err(e) ==> e == FsError::RandomnessUnavailable,
    {
        let zero = zero_key();
        match kdf::derive_key(&zero, KeyType::Master, 0) {
            Ok((key, key_id)) => Ok(MasterKey { key, key_id, count: 0 }),
            Err(e) => Err(e),
        }
    }

    /// Counts one use of the live secret, rotating the whole state first
    /// when the budget is exhausted, and returns the (possibly fresh)
    /// secret and its tag.
    pub fn update(&mut self) -> (r: FsResult<(Key128bit, KeyId)>)
        ensures
            update_post(*old(self), *final(self), r),
            old(self).wf() ==> final(self).wf(),
    {
        if self.count >= MAX_USAGES {
            match Self::new() {
                Ok(fresh) => {
                    *self = fresh;
                },
                Err(e) => {
                    return Err(e);
                },
            }
        } else {
            self.count = self.count + 1;
        }
        Ok((self.key, self.key_id))
    }

    /// Zero-fills the raw secret and resets the counter; run before the
    /// owning session releases the state, so no secret bytes remain
    /// recoverable in the abandoned memory.
    pub fn erase(&mut self)
        ensures
            final(self).key@ == zero_key_bytes(),
            final(self).count == 0,
            final(self).key_id == old(self).key_id,
    {
        self.count = 0;
        self.key = zero_key();
    }
}

impl DeriveKey for MasterKey {
    /// Serves `Master` (the live secret itself) and `Random` (a per-node
    /// sub-key of the live secret); the `Metadata` purpose belongs to the
    /// metadata-key provider alone.  Every failure leaves the state
    /// unchanged and safe to retry.
    fn derive_key(&mut self, key_type: KeyType, node_number: u64) -> (r: FsResult<
        (Key128bit, KeyId),
    >)
        ensures
            key_type == KeyType::Master ==> update_post(*old(self), *final(self), r),
            key_type == KeyType::Random ==> derive_random_post(*old(self), *final(self), node_number, r),
            key_type == KeyType::Metadata ==> r == Err::<(Key128bit, KeyId), FsError>(
                FsError::UnsupportedOperation,
            ) && *final(self) == *old(self),
            old(self).wf() ==> final(self).wf(),
    {
        match key_type {
            KeyType::Master => self.update(),
            KeyType::Random => {
                // The new state commits only once the sub-key derivation
                // has succeeded, so a failed derivation leaves the
                // manager unchanged.
                let mut next = *self;
                let key = match next.update() {
                    Ok((key, _)) => key,
                    Err(e) => {
                        return Err(e);
                    },
                };
                match kdf::derive_key(&key, KeyType::Random, node_number) {
                    Ok(pair) => {
                        *self = next;
                        Ok(pair)
                    },
                    Err(e) => Err(e),
                }
            },
            KeyType::Metadata => Err(FsError::UnsupportedOperation),
        }
    }
}

impl RestoreKey for MasterKey {
    /// Master- and random-derived keys are never restored from persisted
    /// state: their tags identify no recoverable key at this layer.
    fn restore_key(
        &self,
        key_type: KeyType,
        key_id: KeyId,
        cpu_svn: Option<CpuSvn>,
        isv_svn: Option<u16>,
    ) -> (r: FsResult<Key128bit>)
        ensures
            r == Err::<Key128bit, FsError>(FsError::UnsupportedOperation),
    {
        let _ = key_type;
        let _ = key_id;
        let _ = cpu_svn;
        let _ = isv_svn;
        Err(FsError::UnsupportedOperation)
    }
}

} // verus!
