//! Behavioral tests of the key-derivation core, run with the real MAC
//! and random source linked.

use aes::Aes128;
use cmac::{Cmac, KeyInit, Mac};
use fs_keygen::error::FsError;
use fs_keygen::kdf;
use fs_keygen::master::MasterKey;
use fs_keygen::metadata::MetadataKey;
use fs_keygen::types::{CpuSvn, Key128bit, KeyId, KeyType, ReportInfo};
use fs_keygen::{DeriveKey, FsKeyGen, RestoreKey};
use std::collections::HashSet;

const MAX_USAGES: u32 = 65536;

fn sample_secret() -> Key128bit {
    [
        0x2b, 0x7e, 0x15, 0x16, 0x28, 0xae, 0xd2, 0xa6, 0xab, 0xf7, 0x15, 0x88, 0x09, 0xcf, 0x4f,
        0x3c,
    ]
}

fn sample_report() -> ReportInfo {
    ReportInfo {
        cpu_svn: CpuSvn {
            svn: [9, 8, 7, 6, 5, 4, 3, 2, 1, 0, 1, 2, 3, 4, 5, 6],
        },
        isv_svn: 3,
    }
}

/// Computes the reference AES-128-CMAC of `msg` under `key` directly
/// through the cipher crates, independently of the library.
fn reference_cmac(key: &Key128bit, msg: &[u8]) -> Key128bit {
    let mut mac = <Cmac<Aes128> as KeyInit>::new_from_slice(key).unwrap();
    Mac::update(&mut mac, msg);
    mac.finalize().into_bytes().into()
}

/// Assembles the 104-byte derivation context by hand, straight from its
/// documented layout.
fn reference_context(label: &str, node_number: u64, tag: &KeyId) -> Vec<u8> {
    let mut v = Vec::new();
    v.extend_from_slice(&1u32.to_le_bytes());
    let mut label_field = [0u8; 64];
    label_field[..label.len()].copy_from_slice(label.as_bytes());
    v.extend_from_slice(&label_field);
    v.extend_from_slice(&0u32.to_le_bytes());
    v.extend_from_slice(&node_number.to_le_bytes());
    v.extend_from_slice(&tag.id);
    v.extend_from_slice(&128u32.to_le_bytes());
    v.extend_from_slice(&0u32.to_le_bytes());
    v
}

#[test]
fn derive_then_restore_same_key() {
    let secret = sample_secret();
    let (key, tag) = kdf::derive_key(&secret, KeyType::Random, 7).unwrap();
    let restored = kdf::restore_key(&secret, KeyType::Random, 7, tag);
    assert_eq!(key, restored);
}

#[test]
fn metadata_roundtrip_through_facade() {
    let mut keygen = FsKeyGen::new(Some(sample_secret())).unwrap();
    let (key, tag) = keygen.derive_key(KeyType::Metadata, 0).unwrap();
    let restored = keygen.restore_key(KeyType::Metadata, tag, None, None).unwrap();
    assert_eq!(key, restored);
}

#[test]
fn restore_is_insensitive_to_node_number_given_for_metadata() {
    let mut keygen = FsKeyGen::new(Some(sample_secret())).unwrap();
    let (key, tag) = keygen.derive_key(KeyType::Metadata, 42).unwrap();
    let restored = keygen.restore_key(KeyType::Metadata, tag, None, None).unwrap();
    assert_eq!(key, restored);
}

#[test]
fn tag_freshness_over_many_derivations() {
    let mut keygen = FsKeyGen::new(Some(sample_secret())).unwrap();
    let mut tags: HashSet<[u8; 16]> = HashSet::new();
    for i in 0..10_000u64 {
        let (_, tag) = keygen.derive_key(KeyType::Random, i).unwrap();
        tags.insert(tag.id);
    }
    assert_eq!(tags.len(), 10_000);
}

#[test]
fn master_key_bootstraps_from_zero_secret() {
    let m = MasterKey::new().unwrap();
    assert_eq!(m.count, 0);
    let expected = kdf::restore_key(&[0u8; 16], KeyType::Master, 0, m.key_id);
    assert_eq!(m.key, expected);
}

#[test]
fn usage_below_budget_keeps_the_secret() {
    let mut m = MasterKey::new().unwrap();
    let original = m.key;
    let (key, _) = m.update().unwrap();
    assert_eq!(key, original);
    assert_eq!(m.key, original);
    assert_eq!(m.count, 1);
}

#[test]
fn rotation_at_usage_boundary() {
    let mut m = MasterKey::new().unwrap();
    // Exhaust the budget: each call below the bound increments and keeps
    // the secret; the call made at count == MAX_USAGES - 1 moves the
    // counter to the bound without rotating yet.
    let original = m.key;
    for _ in 0..MAX_USAGES {
        m.update().unwrap();
    }
    assert_eq!(m.count, MAX_USAGES);
    assert_eq!(m.key, original);
    // The next derivation rotates before counting: a fresh secret, and
    // the counter back at zero.
    let (sub_key, sub_tag) = m.derive_key(KeyType::Random, 5).unwrap();
    assert_eq!(m.count, 0);
    assert_ne!(m.key, original);
    // The sub-key is derived from the freshly rotated secret.
    let expected = kdf::restore_key(&m.key, KeyType::Random, 5, sub_tag);
    assert_eq!(sub_key, expected);
    // And the fresh secret itself is the bootstrap derivation.
    let fresh = kdf::restore_key(&[0u8; 16], KeyType::Master, 0, m.key_id);
    assert_eq!(m.key, fresh);
}

#[test]
fn random_derivation_counts_one_use() {
    let mut m = MasterKey::new().unwrap();
    let original = m.key;
    let (sub_key, sub_tag) = m.derive_key(KeyType::Random, 11).unwrap();
    assert_eq!(m.count, 1);
    assert_eq!(m.key, original);
    let expected = kdf::restore_key(&original, KeyType::Random, 11, sub_tag);
    assert_eq!(sub_key, expected);
}

#[test]
fn master_purpose_returns_the_live_secret() {
    let mut m = MasterKey::new().unwrap();
    let original = m.key;
    let original_tag = m.key_id;
    let (key, tag) = m.derive_key(KeyType::Master, 0).unwrap();
    assert_eq!(key, original);
    assert_eq!(tag, original_tag);
    assert_eq!(m.count, 1);
}

#[test]
fn master_rejects_metadata_purpose() {
    let mut m = MasterKey::new().unwrap();
    assert_eq!(
        m.derive_key(KeyType::Metadata, 0),
        Err(FsError::UnsupportedOperation)
    );
}

#[test]
fn master_never_restores() {
    let m = MasterKey::new().unwrap();
    let tag = KeyId { id: [0u8; 16] };
    for key_type in [KeyType::Metadata, KeyType::Master, KeyType::Random] {
        assert_eq!(
            m.restore_key(key_type, tag, None, None),
            Err(FsError::UnsupportedOperation)
        );
    }
}

#[test]
fn metadata_provider_rejects_master_and_random_purposes() {
    let mut md = MetadataKey::new(Some(sample_secret())).unwrap();
    assert_eq!(
        md.derive_key(KeyType::Master, 0),
        Err(FsError::InvalidArgument)
    );
    assert_eq!(
        md.derive_key(KeyType::Random, 4),
        Err(FsError::InvalidArgument)
    );
    let tag = KeyId { id: [1u8; 16] };
    assert_eq!(
        md.restore_key(KeyType::Random, tag, None, None),
        Err(FsError::InvalidArgument)
    );
}

#[test]
fn facade_restore_accepts_only_metadata_purpose() {
    let keygen = FsKeyGen::new(Some(sample_secret())).unwrap();
    let tag = KeyId { id: [2u8; 16] };
    assert_eq!(
        keygen.restore_key(KeyType::Master, tag, None, None),
        Err(FsError::InvalidArgument)
    );
    assert_eq!(
        keygen.restore_key(KeyType::Random, tag, None, None),
        Err(FsError::InvalidArgument)
    );
}

#[test]
fn construction_without_secret_or_identity_is_unsupported() {
    assert!(matches!(
        FsKeyGen::new(None),
        Err(FsError::UnsupportedOperation)
    ));
}

#[test]
fn master_key_zeroized_on_erase() {
    let mut m = MasterKey::new().unwrap();
    m.update().unwrap();
    assert_ne!(m.key, [0u8; 16]);
    m.erase();
    assert_eq!(m.key, [0u8; 16]);
    assert_eq!(m.count, 0);
}

#[test]
fn user_metadata_secret_zeroized_on_erase() {
    let mut md = MetadataKey::new(Some(sample_secret())).unwrap();
    md.erase();
    assert!(matches!(md, MetadataKey::UserKey(k) if k == [0u8; 16]));
}

#[test]
fn session_erase_wipes_every_secret() {
    let mut keygen = FsKeyGen::new(Some(sample_secret())).unwrap();
    keygen.derive_key(KeyType::Random, 1).unwrap();
    keygen.erase();
    assert_eq!(keygen.master_key.key, [0u8; 16]);
    assert_eq!(keygen.master_key.count, 0);
    assert!(matches!(keygen.metadata_key, MetadataKey::UserKey(k) if k == [0u8; 16]));
}

#[test]
fn hardware_restore_requires_both_svns() {
    let keygen = FsKeyGen::new_with_report(sample_report()).unwrap();
    let tag = KeyId { id: [3u8; 16] };
    let report = sample_report();
    assert_eq!(
        keygen.restore_key(KeyType::Metadata, tag, None, Some(report.isv_svn)),
        Err(FsError::InvalidArgument)
    );
    assert_eq!(
        keygen.restore_key(KeyType::Metadata, tag, Some(report.cpu_svn), None),
        Err(FsError::InvalidArgument)
    );
    assert_eq!(
        keygen.restore_key(KeyType::Metadata, tag, None, None),
        Err(FsError::InvalidArgument)
    );
    // With both versions supplied, the request is well-formed; issuing it
    // is the enclave instruction this build cannot execute in process.
    assert_eq!(
        keygen.restore_key(
            KeyType::Metadata,
            tag,
            Some(report.cpu_svn),
            Some(report.isv_svn)
        ),
        Err(FsError::UnsupportedOperation)
    );
}

#[test]
fn restore_request_reproduces_derive_request() {
    let report = sample_report();
    let md = MetadataKey::new_with_report(report);
    let (derive_request, tag) = md.derive_request().unwrap();
    let restore_request = md
        .restore_request(tag, Some(report.cpu_svn), Some(report.isv_svn))
        .unwrap();
    assert_eq!(restore_request, derive_request);
}

#[test]
fn hardware_requests_only_from_hardware_provider() {
    let md = MetadataKey::new(Some(sample_secret())).unwrap();
    assert_eq!(md.derive_request(), Err(FsError::UnsupportedOperation));
    let tag = KeyId { id: [4u8; 16] };
    assert_eq!(
        md.restore_request(tag, None, None),
        Err(FsError::UnsupportedOperation)
    );
}

#[test]
fn restore_request_without_svns_is_invalid() {
    let md = MetadataKey::new_with_report(sample_report());
    let tag = KeyId { id: [5u8; 16] };
    assert_eq!(
        md.restore_request(tag, None, Some(1)),
        Err(FsError::InvalidArgument)
    );
    assert_eq!(
        md.restore_request(tag, Some(sample_report().cpu_svn), None),
        Err(FsError::InvalidArgument)
    );
}

#[test]
fn context_layout_matches_documented_bytes() {
    let tag = KeyId {
        id: [
            0xde, 0xad, 0xbe, 0xef, 0x01, 0x23, 0x45, 0x67, 0x89, 0xab, 0xcd, 0xef, 0x10, 0x32,
            0x54, 0x76,
        ],
    };
    let node_number = 0x1122334455667788u64;
    let context = kdf::kdf_context(KeyType::Master, node_number, &tag);
    let expected = reference_context("SGX-PROTECTED-FS-MASTER-KEY", node_number, &tag);
    assert_eq!(context, expected);
    assert_eq!(context.len(), 104);

    let context = kdf::kdf_context(KeyType::Random, 0, &tag);
    let expected = reference_context("SGX-PROTECTED-FS-RANDOM-KEY", 0, &tag);
    assert_eq!(context, expected);

    let context = kdf::kdf_context(KeyType::Metadata, 0, &tag);
    let expected = reference_context("SGX-PROTECTED-FS-METADATA-KEY", 0, &tag);
    assert_eq!(context, expected);
}

#[test]
fn derived_key_is_the_mac_of_the_context() {
    let secret = sample_secret();
    let tag = KeyId { id: [6u8; 16] };
    let restored = kdf::restore_key(&secret, KeyType::Metadata, 0, tag);
    let expected = reference_cmac(
        &secret,
        &reference_context("SGX-PROTECTED-FS-METADATA-KEY", 0, &tag),
    );
    assert_eq!(restored, expected);
}

#[test]
fn purposes_produce_distinct_contexts() {
    let tag = KeyId { id: [7u8; 16] };
    let master = kdf::kdf_context(KeyType::Master, 0, &tag);
    let random = kdf::kdf_context(KeyType::Random, 0, &tag);
    let metadata = kdf::kdf_context(KeyType::Metadata, 0, &tag);
    assert_ne!(master, random);
    assert_ne!(master, metadata);
    assert_ne!(random, metadata);
}
