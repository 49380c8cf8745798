//! The key-derivation engine: a counter-mode construction over a
//! cipher-based MAC.  A derivation authenticates a fixed-layout context
//! (format index, purpose label, node index, tag, output length) under
//! the input secret; the MAC output is the derived key.  Supplying the
//! original tag reproduces the original key bit for bit, because the MAC
//! is a function of the secret and the context bytes alone.

use crate::error::{FsError, FsResult};
use crate::primitives::{aes_cmac, cmac_of, random_16_bytes};
use crate::types::{Key128bit, KeyId, KeyType};
use vstd::bytes::*;
use vstd::prelude::*;

verus! {

/// The purpose label mixed into every derivation context, as ASCII bytes:
/// `SGX-PROTECTED-FS-MASTER-KEY`, `SGX-PROTECTED-FS-RANDOM-KEY` or
/// `SGX-PROTECTED-FS-METADATA-KEY`.
pub open spec fn raw_label(key_type: KeyType) -> Seq<u8> {
    match key_type {
        KeyType::Master => seq![
            83u8, 71u8, 88u8, 45u8, 80u8, 82u8, 79u8, 84u8, 69u8, 67u8, 84u8, 69u8, 68u8, 45u8,
            70u8, 83u8, 45u8, 77u8, 65u8, 83u8, 84u8, 69u8, 82u8, 45u8, 75u8, 69u8, 89u8,
        ],
        KeyType::Random => seq![
            83u8, 71u8, 88u8, 45u8, 80u8, 82u8, 79u8, 84u8, 69u8, 67u8, 84u8, 69u8, 68u8, 45u8,
            70u8, 83u8, 45u8, 82u8, 65u8, 78u8, 68u8, 79u8, 77u8, 45u8, 75u8, 69u8, 89u8,
        ],
        KeyType::Metadata => seq![
            83u8, 71u8, 88u8, 45u8, 80u8, 82u8, 79u8, 84u8, 69u8, 67u8, 84u8, 69u8, 68u8, 45u8,
            70u8, 83u8, 45u8, 77u8, 69u8, 84u8, 65u8, 68u8, 65u8, 84u8, 65u8, 45u8, 75u8, 69u8,
            89u8,
        ],
    }
}

/// The 64-byte label field: the ASCII label, right-padded with zero bytes.
pub open spec fn label_field(key_type: KeyType) -> Seq<u8> {
    raw_label(key_type) + Seq::new((64 - raw_label(key_type).len()) as nat, |i: int| 0u8)
}

/// The exact byte sequence authenticated by the MAC, little-endian
/// throughout: a format index fixed to 1, the 64-byte label, a reserved
/// word, the node index, the 128-bit tag, the requested output length in
/// bits (128), and a final reserved word.  Any change to field order,
/// width or padding breaks the match between derivation and restoration.
pub open spec fn kdf_context_bytes(key_type: KeyType, node_number: u64, tag: Seq<u8>) -> Seq<u8> {
    spec_u32_to_le_bytes(1u32) + label_field(key_type) + spec_u32_to_le_bytes(0u32)
        + spec_u64_to_le_bytes(node_number) + tag + spec_u32_to_le_bytes(128u32)
        + spec_u32_to_le_bytes(0u32)
}

/// The key a derivation with the given secret, purpose, node index and
/// tag produces: the MAC of the context under the secret.
pub open spec fn derived_key_of(
    secret: Seq<u8>,
    key_type: KeyType,
    node_number: u64,
    tag: Seq<u8>,
) -> Seq<u8> {
    cmac_of(secret, kdf_context_bytes(key_type, node_number, tag))
}

/// Builds the 64-byte label field for the given purpose.
fn label_vec(key_type: KeyType) -> (v: Vec<u8>)
    ensures
        v@ == label_field(key_type),
        v@.len() == 64,
{
    let mut v: Vec<u8> = Vec::new();
    match key_type {
        KeyType::Master => {
            v.push(83u8); v.push(71u8); v.push(88u8); v.push(45u8); v.push(80u8); v.push(82u8);
            v.push(79u8); v.push(84u8); v.push(69u8); v.push(67u8); v.push(84u8); v.push(69u8);
            v.push(68u8); v.push(45u8); v.push(70u8); v.push(83u8); v.push(45u8); v.push(77u8);
            v.push(65u8); v.push(83u8); v.push(84u8); v.push(69u8); v.push(82u8); v.push(45u8);
            v.push(75u8); v.push(69u8); v.push(89u8);
        }
        KeyType::Random => {
            v.push(83u8); v.push(71u8); v.push(88u8); v.push(45u8); v.push(80u8); v.push(82u8);
            v.push(79u8); v.push(84u8); v.push(69u8); v.push(67u8); v.push(84u8); v.push(69u8);
            v.push(68u8); v.push(45u8); v.push(70u8); v.push(83u8); v.push(45u8); v.push(82u8);
            v.push(65u8); v.push(78u8); v.push(68u8); v.push(79u8); v.push(77u8); v.push(45u8);
            v.push(75u8); v.push(69u8); v.push(89u8);
        }
        KeyType::Metadata => {
            v.push(83u8); v.push(71u8); v.push(88u8); v.push(45u8); v.push(80u8); v.push(82u8);
            v.push(79u8); v.push(84u8); v.push(69u8); v.push(67u8); v.push(84u8); v.push(69u8);
            v.push(68u8); v.push(45u8); v.push(70u8); v.push(83u8); v.push(45u8); v.push(77u8);
            v.push(69u8); v.push(84u8); v.push(65u8); v.push(68u8); v.push(65u8); v.push(84u8);
            v.push(65u8); v.push(45u8); v.push(75u8); v.push(69u8); v.push(89u8);
        }
    }
    proof {
        assert(v@ =~= raw_label(key_type));
    }
    while v.len() < 64
        invariant
            raw_label(key_type).len() <= v@.len() <= 64,
            v@ =~= raw_label(key_type)
                + Seq::new((v@.len() - raw_label(key_type).len()) as nat, |i: int| 0u8),
        decreases 64 - v@.len(),
    {
        v.push(0u8);
        proof {
            assert(v@ =~= raw_label(key_type)
                + Seq::new((v@.len() - raw_label(key_type).len()) as nat, |i: int| 0u8));
        }
    }
    proof {
        assert(v@ =~= label_field(key_type));
    }
    v
}

/// Assembles the full derivation context for a purpose, node index and tag.
pub fn kdf_context(key_type: KeyType, node_number: u64, tag: &KeyId) -> (v: Vec<u8>)
    ensures
        v@ == kdf_context_bytes(key_type, node_number, tag.id@),
        v@.len() == 104,
{
    let mut v = u32_to_le_bytes(1u32);
    let mut label = label_vec(key_type);
    v.append(&mut label);
    let mut reserved1 = u32_to_le_bytes(0u32);
    v.append(&mut reserved1);
    let mut node = u64_to_le_bytes(node_number);
    v.append(&mut node);
    let mut tag_bytes = vstd::slice::slice_to_vec(vstd::array::array_as_slice(&tag.id));
    v.append(&mut tag_bytes);
    let mut out_len = u32_to_le_bytes(128u32);
    v.append(&mut out_len);
    let mut reserved2 = u32_to_le_bytes(0u32);
    v.append(&mut reserved2);
    v
}

/// Draws the fresh random 128-bit tag that parameterizes one derivation.
pub fn fresh_key_id() -> (r: FsResult<KeyId>)
    ensures
        r matches Err(e) ==> e == FsError::RandomnessUnavailable,
{
    match random_16_bytes() {
        Ok(bytes) => Ok(KeyId { id: bytes }),
        Err(_) => Err(FsError::RandomnessUnavailable),
    }
}

/// Derives a fresh key: draws a random 128-bit tag, authenticates the
/// context under `secret`, and returns the derived key with the tag a
/// caller must persist to restore it.  The random source is the only
/// place this engine can fail.
pub fn derive_key(secret: &Key128bit, key_type: KeyType, node_number: u64) -> (r: FsResult<
    (Key128bit, KeyId),
>)
    ensures
        r matches Ok((key, key_id)) ==> key@ == derived_key_of(
            secret@,
            key_type,
            node_number,
            key_id.id@,
        ),
        r matches Err(e) ==> e == FsError::RandomnessUnavailable,
{
    let key_id = match fresh_key_id() {
        Ok(key_id) => key_id,
        Err(e) => {
            return Err(e);
        },
    };
    let context = kdf_context(key_type, node_number, &key_id);
    let key = aes_cmac(secret, context.as_slice());
    Ok((key, key_id))
}

/// Restores a previously derived key from its tag: the identical MAC
/// computation with the supplied tag in place of a freshly drawn one.
/// No randomness is consulted, and the computation cannot fail.
pub fn restore_key(secret: &Key128bit, key_type: KeyType, node_number: u64, key_id: KeyId) -> (key:
    Key128bit)
    ensures
        key@ == derived_key_of(secret@, key_type, node_number, key_id.id@),
{
    let context = kdf_context(key_type, node_number, &key_id);
    aes_cmac(secret, context.as_slice())
}

/// Determinism of restoration: a restore that authenticates the same
/// secret, purpose, node index and tag as an earlier derivation yields
/// that derivation's key.
pub proof fn lemma_restore_reproduces_derived_key(
    secret: Seq<u8>,
    key_type: KeyType,
    node_number: u64,
    tag: Seq<u8>,
    derived: Seq<u8>,
    restored: Seq<u8>,
)
    requires
        derived == derived_key_of(secret, key_type, node_number, tag),
        restored == derived_key_of(secret, key_type, node_number, tag),
    ensures
        restored == derived,
{
}

} // verus!
