//! The nonce of the AEAD stream cipher.

use vstd::prelude::*;

use crate::crypto::hkdf_sha256_expand;
use crate::crypto::hkdf_sha256_okm;
use crate::crypto::master_key::MasterKey;

verus! {

/// The length of a stream nonce in bytes.
pub const AEAD_NONCE_LENGTH: usize = 19;

/// The context string of the nonce's derivation.
pub open spec fn aead_nonce_info() -> Seq<u8> {
    vstd::utf8::encode_utf8("flap_aead_stream_nonce"@)
}

/// A nonce for use in an AEAD stream cipher keyed per session.
///
/// It must be used once only, which holds as long as a ticket is a one-time
/// code. The Noise channel does not need it.
pub struct AeadStreamNonce([u8; 19]);

impl View for AeadStreamNonce {
    type V = Seq<u8>;

    closed spec fn view(&self) -> Seq<u8> {
        self.0@
    }
}

impl AeadStreamNonce {
    /// The bytes of the nonce.
    pub fn deref(&self) -> (bytes: &[u8])
        ensures
            bytes@ == self@,
    {
        self.0.as_slice()
    }
}

impl MasterKey {
    /// The session's stream nonce: HKDF-SHA256 of the master secret with no
    /// salt and the context `flap_aead_stream_nonce`, nineteen bytes.
    pub fn aead_nonce(&self) -> (nonce: AeadStreamNonce)
        ensures
            nonce@ == hkdf_sha256_okm(self@, aead_nonce_info(), AEAD_NONCE_LENGTH as nat),
    {
        let ikm = self.as_bytes();
        AeadStreamNonce(hkdf_sha256_expand::<19>(ikm.as_slice(), "flap_aead_stream_nonce".as_bytes()))
    }
}

} // verus!
