//! The key shared by every file of one session.

use vstd::prelude::*;

use crate::crypto::hkdf_sha256_expand;
use crate::crypto::hkdf_sha256_okm;
use crate::crypto::master_key::MasterKey;

verus! {

/// The length of a file key in bytes.
pub const FILE_KEY_LENGTH: usize = 32;

/// The context string of the file key's derivation.
pub open spec fn file_key_info() -> Seq<u8> {
    vstd::utf8::encode_utf8("flap_file_key"@)
}

/// This key is used for all files within one connection: it is the
/// pre-shared key of every handshake of the session.
pub struct FileKey([u8; 32]);

impl View for FileKey {
    type V = Seq<u8>;

    closed spec fn view(&self) -> Seq<u8> {
        self.0@
    }
}

impl FileKey {
    pub fn as_bytes(&self) -> (bytes: &[u8; 32])
        ensures
            bytes@ == self@,
    {
        &self.0
    }
}

impl MasterKey {
    /// The session's file key: HKDF-SHA256 of the master secret with no salt
    /// and the context `flap_file_key`, thirty-two bytes.
    pub fn file_key(&self) -> (key: FileKey)
        ensures
            key@ == hkdf_sha256_okm(self@, file_key_info(), FILE_KEY_LENGTH as nat),
    {
        let ikm = self.as_bytes();
        FileKey(hkdf_sha256_expand::<32>(ikm.as_slice(), "flap_file_key".as_bytes()))
    }
}

} // verus!
