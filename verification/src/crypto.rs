//! Keys, derivations and hashes.

use hkdf::Hkdf;
use rand::rngs::OsRng;
use rand::TryRngCore;
use sha2::Digest;
use sha2::Sha256;
use vstd::prelude::*;

pub mod blake3;
pub mod encryption_stream;
pub mod file_key;
pub mod master_key;
pub mod nonce;
pub mod transfer_id;
pub mod x25519;

verus! {

/// `rand::rngs::OsRng::try_fill_bytes` on a fresh array.
///
/// Trusted: nothing is claimed of the bytes, which come from the operating
/// system; `None` stands for the generator's error.
#[verifier::external_body]
pub fn random_array<const N: usize>() -> (array: Option<[u8; N]>) {
    let mut array = [0u8; N];
    match OsRng.try_fill_bytes(array.as_mut_slice()) {
        Ok(()) => Some(array),
        Err(_) => None,
    }
}

/// The most bytes that one HKDF-SHA256 expansion yields: 255 blocks of the
/// hash's 32 bytes.
pub const HKDF_MAX_OUTPUT: usize = 8160;

/// The first `length` bytes of output keying material of HKDF-SHA256 for
/// input keying material `ikm`, no salt, and context `info`.
pub uninterp spec fn hkdf_sha256_okm(ikm: Seq<u8>, info: Seq<u8>, length: nat) -> Seq<u8>;

/// `hkdf::Hkdf::<sha2::Sha256>::new` with no salt, then `expand` into `N`
/// bytes: a fresh context for every call.
///
/// Trusted: the array holds the HKDF-SHA256 output for these inputs. `expand`
/// refuses more than 255 blocks, which the precondition leaves out.
#[verifier::external_body]
pub(crate) fn hkdf_sha256_expand<const N: usize>(ikm: &[u8], info: &[u8]) -> (okm: [u8; N])
    requires
        N <= HKDF_MAX_OUTPUT,
    ensures
        okm@ == hkdf_sha256_okm(ikm@, info@, N as nat),
{
    let hk = Hkdf::<Sha256>::new(None, ikm);
    let mut okm = [0u8; N];
    hk.expand(info, &mut okm).expect("valid length output");
    okm
}

/// The SHA-256 digest of `data`.
pub uninterp spec fn sha256_digest(data: Seq<u8>) -> Seq<u8>;

/// `sha2::Sha256::digest`.
///
/// Trusted: the array holds the SHA-256 digest of the input.
#[verifier::external_body]
pub(crate) fn sha256(data: &[u8]) -> (digest: [u8; 32])
    ensures
        digest@ == sha256_digest(data@),
{
    Sha256::digest(data).into()
}

} // verus!
