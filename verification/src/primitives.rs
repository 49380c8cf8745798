//! The two outside primitives the key-derivation core consumes: a
//! cipher-based MAC, treated as a deterministic pseudorandom function,
//! and the operating system's secure random source.  Only the items in
//! this module are trusted; everything built on them is verified.

use crate::types::Key128bit;
use aes::Aes128;
use cmac::{Cmac, KeyInit, Mac};
use vstd::prelude::*;

verus! {

/// The AES-128-CMAC authentication tag of `msg` under `key`: a function
/// of the two arguments alone, left unnamed beyond that.
pub uninterp spec fn cmac_of(key: Seq<u8>, msg: Seq<u8>) -> Seq<u8>;

/// Relies on `cmac::Cmac<aes::Aes128>` (AES-128-CMAC, NIST SP 800-38B):
/// the 16-byte tag is computed from the key and the message alone.
#[verifier::external_body]
pub(crate) fn aes_cmac(key: &Key128bit, msg: &[u8]) -> (r: Key128bit)
    ensures
        r@ == cmac_of(key@, msg@),
        r@.len() == 16,
{
    let mut mac = <Cmac<Aes128> as KeyInit>::new(key.into());
    Mac::update(&mut mac, msg);
    mac.finalize().into_bytes().into()
}

#[verifier::external_type_specification]
#[verifier::external_body]
pub struct ExGetrandomError(getrandom::Error);

/// Relies on `getrandom::fill`: the buffer is filled from the operating
/// system's cryptographically secure entropy source, or an error is
/// reported.  Nothing is promised of the bytes drawn.
#[verifier::external_body]
pub(crate) fn random_16_bytes() -> (r: Result<[u8; 16], getrandom::Error>) {
    let mut buf = [0u8; 16];
    getrandom::fill(&mut buf)?;
    Ok(buf)
}

} // verus!
