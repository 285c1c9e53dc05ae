//! The metadata that announces a file.
//!
//! On the wire it is the file's size as eight big-endian bytes, followed by
//! the file's name in UTF-8, and at most 8 kB in all.

use vstd::prelude::*;
use vstd::utf8::{decode_utf8, encode_utf8, valid_utf8};

use crate::encoding::{be_u64, from_be_u64, get_u64, put_slice, put_u64};
use crate::error::Error;

verus! {

/// The most bytes that encoded metadata may take.
pub const MAX_METADATA_LENGTH_ALLOWED: u64 = 8192;

/// Basic file metadata structure. Only single files are announced.
#[derive(Debug, Hash, PartialEq, Eq)]
pub struct FlapFileMetadata {
    pub file_size: u64,
    pub file_name: String,
}

/// What metadata says: a size and a name.
pub struct MetadataView {
    pub file_size: u64,
    pub file_name: Seq<char>,
}

impl View for FlapFileMetadata {
    type V = MetadataView;

    open spec fn view(&self) -> MetadataView {
        MetadataView { file_size: self.file_size, file_name: self.file_name@ }
    }
}

impl Clone for FlapFileMetadata {
    fn clone(&self) -> (copy: Self)
        ensures
            copy == *self,
    {
        FlapFileMetadata { file_size: self.file_size, file_name: self.file_name.clone() }
    }
}

impl MetadataView {
    /// The bytes that announce this file.
    pub open spec fn encoding(self) -> Seq<u8> {
        be_u64(self.file_size) + encode_utf8(self.file_name)
    }

    /// Whether the encoding fits the limit.
    pub open spec fn fits(self) -> bool {
        self.encoding().len() <= MAX_METADATA_LENGTH_ALLOWED
    }

    /// What `bytes` announce, if they are metadata: at least a size, at most
    /// the limit, and a name in well-formed UTF-8.
    pub open spec fn decoding(bytes: Seq<u8>) -> Option<MetadataView> {
        if 8 <= bytes.len() <= MAX_METADATA_LENGTH_ALLOWED && valid_utf8(bytes.skip(8)) {
            Some(
                MetadataView {
                    file_size: from_be_u64(bytes),
                    file_name: decode_utf8(bytes.skip(8)),
                },
            )
        } else {
            None
        }
    }

    /// Decoding the encoding of metadata that fits gives the metadata back.
    pub proof fn lemma_decode_encode(self)
        requires
            self.fits(),
        ensures
            Self::decoding(self.encoding()) == Some(self),
    {
        let bytes = self.encoding();
        crate::encoding::lemma_be_u64_roundtrip(self.file_size);
        assert(bytes.skip(8) =~= encode_utf8(self.file_name));
        assert(bytes.take(8) =~= be_u64(self.file_size));
        assert(from_be_u64(bytes) == from_be_u64(bytes.take(8)));
        vstd::utf8::encode_utf8_valid_utf8(self.file_name);
        vstd::utf8::encode_utf8_decode_utf8(self.file_name);
    }

    /// Bytes that decode are the encoding of what they decode to, and that
    /// fits the limit.
    pub proof fn lemma_encode_decode(bytes: Seq<u8>)
        requires
            Self::decoding(bytes) is Some,
        ensures
            Self::decoding(bytes).unwrap().encoding() == bytes,
            Self::decoding(bytes).unwrap().fits(),
    {
        let decoded = Self::decoding(bytes).unwrap();
        crate::encoding::lemma_from_be_u64_roundtrip(bytes.take(8));
        assert(from_be_u64(bytes) == from_be_u64(bytes.take(8)));
        vstd::utf8::decode_utf8_encode_utf8(bytes.skip(8));
        assert(bytes.take(8) + bytes.skip(8) =~= bytes);
    }
}

/// `String::from_utf8`.
///
/// Trusted: the call succeeds exactly on well-formed UTF-8, and the string is
/// then the text that the bytes encode.
#[verifier::external_body]
fn string_from_utf8(bytes: Vec<u8>) -> (text: Option<String>)
    ensures
        text is Some <==> valid_utf8(bytes@),
        text matches Some(s) ==> s@ == decode_utf8(bytes@),
{
    String::from_utf8(bytes).ok()
}

impl FlapFileMetadata {
    /// The metadata of a file with this name and size. A name so long that
    /// the encoding would exceed the limit is refused with
    /// `SerializationError`.
    pub fn new(file_name: String, file_size: u64) -> (res: Result<FlapFileMetadata, Error>)
        ensures
            match res {
                Ok(metadata) => {
                    &&& metadata@ == (MetadataView { file_size, file_name: file_name@ })
                    &&& metadata@.fits()
                },
                Err(e) => {
                    &&& e == Error::SerializationError
                    &&& !(MetadataView { file_size, file_name: file_name@ }).fits()
                },
            },
    {
        let name_length = file_name.as_str().as_bytes().len();
        if name_length > 8184 {
            Err(Error::SerializationError)
        } else {
            Ok(FlapFileMetadata { file_size, file_name })
        }
    }

    /// Whether the encoding of this metadata fits the limit.
    pub fn fits(&self) -> (fits: bool)
        ensures
            fits == self@.fits(),
    {
        self.file_name.as_str().as_bytes().len() <= 8184
    }

    /// Reads metadata. Fewer than eight bytes, more than the limit, or a
    /// name that is not UTF-8 is a `SerializationError`.
    pub fn from_bytes(bytes: &[u8]) -> (res: Result<FlapFileMetadata, Error>)
        ensures
            match res {
                Ok(metadata) => MetadataView::decoding(bytes@) == Some(metadata@),
                Err(e) => e == Error::SerializationError && MetadataView::decoding(bytes@) is None,
            },
    {
        if bytes.len() < 8 || bytes.len() > 8192 {
            return Err(Error::SerializationError);
        }
        let file_size = get_u64(bytes);
        let name = vstd::slice::slice_to_vec(vstd::slice::slice_subrange(bytes, 8, bytes.len()));
        assert(name@ =~= bytes@.skip(8));
        match string_from_utf8(name) {
            Some(file_name) => Ok(FlapFileMetadata { file_size, file_name }),
            None => Err(Error::SerializationError),
        }
    }

    pub fn to_bytes(self) -> (bytes: Vec<u8>)
        ensures
            bytes@ == self@.encoding(),
    {
        let mut metadata_bytes: Vec<u8> = Vec::new();
        put_u64(&mut metadata_bytes, self.file_size);
        put_slice(&mut metadata_bytes, self.file_name.as_str().as_bytes());
        assert(metadata_bytes@ =~= self@.encoding());
        metadata_bytes
    }
}

} // verus!
