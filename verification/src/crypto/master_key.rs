//! The secret that a sender generates and hands over inside its ticket.

use vstd::prelude::*;

use crate::crypto::random_array;
use crate::encoding::{array_from_slice, hex_decode, hex_decoding, hex_encode, hex_encoding};
use crate::error::Error;

verus! {

/// The length of a master secret in bytes.
pub const MASTER_KEY_LENGTH: usize = 32;

/// Thirty-two random bytes, generated once per sender. It never travels on
/// the wire: it is written into the ticket and fed to the key derivations.
#[derive(Clone, Copy)]
pub struct MasterKey(pub(crate) [u8; 32]);

impl View for MasterKey {
    type V = Seq<u8>;

    closed spec fn view(&self) -> Seq<u8> {
        self.0@
    }
}

impl MasterKey {
    /// The text of a ticket's last segment for a secret with these bytes.
    pub open spec fn spec_encode(bytes: Seq<u8>) -> Seq<char> {
        hex_encoding(bytes)
    }

    /// The secret that `text` spells: sixty-four lower-case hexadecimal
    /// digits, nothing else.
    pub open spec fn spec_parse(text: Seq<char>) -> Option<Seq<u8>> {
        match hex_decoding(text) {
            Some(bytes) => if bytes.len() == MASTER_KEY_LENGTH {
                Some(bytes)
            } else {
                None
            },
            None => None,
        }
    }

    /// A secret always has thirty-two bytes.
    pub proof fn lemma_length(self)
        ensures
            self@.len() == MASTER_KEY_LENGTH,
    {
    }

    /// Parsing the text of a secret gives the secret back.
    pub proof fn lemma_parse_encode(bytes: Seq<u8>)
        requires
            bytes.len() == MASTER_KEY_LENGTH,
        ensures
            Self::spec_parse(Self::spec_encode(bytes)) == Some(bytes),
    {
        crate::encoding::lemma_hex_roundtrip(bytes);
    }

    /// Text that parses is the text of the secret it parses to.
    pub proof fn lemma_encode_parse(text: Seq<char>)
        requires
            Self::spec_parse(text) is Some,
        ensures
            Self::spec_encode(Self::spec_parse(text).unwrap()) == text,
            text.len() == 2 * MASTER_KEY_LENGTH,
    {
        crate::encoding::lemma_hex_canonical(text);
    }

    /// A fresh secret from the operating system's random generator.
    /// Fails with `Unknown` where the generator does.
    pub fn generate() -> (res: Result<MasterKey, Error>)
        ensures
            res matches Err(e) ==> e == Error::Unknown,
    {
        Self::from_entropy(random_array::<32>())
    }

    /// The secret made of what the random generator handed out.
    pub fn from_entropy(entropy: Option<[u8; 32]>) -> (res: Result<MasterKey, Error>)
        ensures
            match entropy {
                Some(bytes) => res matches Ok(key) && key@ == bytes@,
                None => res == Err::<MasterKey, Error>(Error::Unknown),
            },
    {
        match entropy {
            Some(bytes) => Ok(MasterKey(bytes)),
            None => Err(Error::Unknown),
        }
    }

    /// The secret with the given bytes.
    pub fn from_bytes(bytes: [u8; 32]) -> (key: MasterKey)
        ensures
            key@ == bytes@,
    {
        MasterKey(bytes)
    }

    /// The bytes of the secret, for the key derivations.
    pub fn as_bytes(&self) -> (bytes: &[u8; 32])
        ensures
            bytes@ == self@,
    {
        &self.0
    }

    /// The secret as it stands in a ticket: lower-case hexadecimal.
    pub fn encode_to_string(&self) -> (text: String)
        ensures
            text@ == Self::spec_encode(self@),
    {
        hex_encode(self.0.as_slice())
    }

    /// Reads a secret from a ticket's last segment. Anything but sixty-four
    /// lower-case hexadecimal digits is a `MasterKeyParseError`.
    pub fn from_str(s: &str) -> (res: Result<MasterKey, Error>)
        ensures
            match res {
                Ok(key) => Self::spec_parse(s@) == Some(key@),
                Err(e) => e == Error::MasterKeyParseError && Self::spec_parse(s@) is None,
            },
    {
        match hex_decode(s) {
            Some(bytes) => {
                if bytes.len() == MASTER_KEY_LENGTH {
                    Ok(MasterKey(array_from_slice::<32>(bytes.as_slice())))
                } else {
                    Err(Error::MasterKeyParseError)
                }
            },
            None => Err(Error::MasterKeyParseError),
        }
    }

    /// What a debug rendering of a secret shows in place of its bytes.
    pub open spec fn spec_debug_string() -> Seq<char> {
        "MasterKey(\"[REDACTED]\")"@
    }

    /// The debug rendering of a secret. It is the same for every secret: the
    /// bytes are never shown.
    pub fn debug_string(&self) -> (text: String)
        ensures
            text@ == Self::spec_debug_string(),
    {
        "MasterKey(\"[REDACTED]\")".to_owned()
    }
}

} // verus!
