//! The frames of the transfer protocol.
//!
//! A frame is one byte that says which kind it is, followed by the data of
//! that kind:
//!
//! | tag  | frame               | data                                  |
//! |------|---------------------|---------------------------------------|
//! | 0x01 | `FileData`          | raw bytes of the file                 |
//! | 0x02 | `PleaseSendFile`    | the offset to resume at, u64 BE       |
//! | 0x03 | `IWillSendThisFile` | encoded metadata                      |
//! | 0x04 | `TransferComplete`  | the hash of the whole file, 32 bytes  |
//!
//! A serialized frame is never longer than one Noise message.

use vstd::prelude::*;

use crate::crypto::blake3::FileHash;
use crate::encoding::{array_from_slice, be_u64, from_be_u64, get_u64, put_slice, put_u64};
use crate::error::Error;
use crate::fs::metadata::{FlapFileMetadata, MetadataView};

verus! {

/// The most bytes of one Noise message.
pub const MAX_NOISE_MESSAGE_LENGTH: usize = 65535;

/// The most bytes of data that a frame can carry behind its tag.
pub const MAX_FRAME_OPTIONAL_DATA_SIZE: usize = 65534;

pub const TAG_FILE_DATA: u8 = 0x01;

pub const TAG_PLEASE_SEND_FILE: u8 = 0x02;

pub const TAG_I_WILL_SEND_THIS_FILE: u8 = 0x03;

pub const TAG_TRANSFER_COMPLETE: u8 = 0x04;

#[derive(Debug, Clone, PartialEq, Eq)]
pub enum Frame {
    // msg = 0x01
    FileData(Vec<u8>),
    // msg = 0x02
    PleaseSendFile(u64),
    // msg = 0x03
    IWillSendThisFile(FlapFileMetadata),
    // msg = 0x04
    TransferComplete(FileHash),
}

/// What a frame says.
pub enum FrameView {
    FileData(Seq<u8>),
    PleaseSendFile(u64),
    IWillSendThisFile(MetadataView),
    TransferComplete(Seq<u8>),
}

impl View for Frame {
    type V = FrameView;

    open spec fn view(&self) -> FrameView {
        match self {
            Frame::FileData(bytes) => FrameView::FileData(bytes@),
            Frame::PleaseSendFile(offset) => FrameView::PleaseSendFile(*offset),
            Frame::IWillSendThisFile(metadata) => FrameView::IWillSendThisFile(metadata@),
            Frame::TransferComplete(hash) => FrameView::TransferComplete(hash@),
        }
    }
}

/// [(u8)(data)]
/// (u8) is the tag
/// (data) is optional data according to tag
/// Note: Size of `SerializedFrame` is always equal or less than 65535 (fits in u16)
pub type SerializedFrame = Vec<u8>;

impl FrameView {
    /// Whether the frame is within the size bounds: its data fits behind a
    /// tag in one message, metadata fits its own limit, a hash has
    /// thirty-two bytes.
    pub open spec fn within_bounds(self) -> bool {
        match self {
            FrameView::FileData(bytes) => bytes.len() <= MAX_FRAME_OPTIONAL_DATA_SIZE,
            FrameView::PleaseSendFile(_) => true,
            FrameView::IWillSendThisFile(metadata) => metadata.fits(),
            FrameView::TransferComplete(hash) => hash.len() == 32,
        }
    }

    /// The tag of the frame.
    pub open spec fn tag(self) -> u8 {
        match self {
            FrameView::FileData(_) => TAG_FILE_DATA,
            FrameView::PleaseSendFile(_) => TAG_PLEASE_SEND_FILE,
            FrameView::IWillSendThisFile(_) => TAG_I_WILL_SEND_THIS_FILE,
            FrameView::TransferComplete(_) => TAG_TRANSFER_COMPLETE,
        }
    }

    /// The data of the frame, as it follows the tag.
    pub open spec fn data(self) -> Seq<u8> {
        match self {
            FrameView::FileData(bytes) => bytes,
            FrameView::PleaseSendFile(offset) => be_u64(offset),
            FrameView::IWillSendThisFile(metadata) => metadata.encoding(),
            FrameView::TransferComplete(hash) => hash,
        }
    }

    /// The serialized frame.
    pub open spec fn encoding(self) -> Seq<u8> {
        seq![self.tag()] + self.data()
    }

    /// The frame that `bytes` hold, if they hold one: a known tag, followed
    /// by data of exactly the shape that the tag asks for, within one
    /// message.
    pub open spec fn decoding(bytes: Seq<u8>) -> Option<FrameView> {
        if bytes.len() == 0 || bytes.len() > MAX_NOISE_MESSAGE_LENGTH {
            None
        } else if bytes[0] == TAG_FILE_DATA {
            Some(FrameView::FileData(bytes.skip(1)))
        } else if bytes[0] == TAG_PLEASE_SEND_FILE {
            if bytes.len() == 9 {
                Some(FrameView::PleaseSendFile(from_be_u64(bytes.skip(1))))
            } else {
                None
            }
        } else if bytes[0] == TAG_I_WILL_SEND_THIS_FILE {
            match MetadataView::decoding(bytes.skip(1)) {
                Some(metadata) => Some(FrameView::IWillSendThisFile(metadata)),
                None => None,
            }
        } else if bytes[0] == TAG_TRANSFER_COMPLETE {
            if bytes.len() == 33 {
                Some(FrameView::TransferComplete(bytes.skip(1)))
            } else {
                None
            }
        } else {
            None
        }
    }

    /// A frame within the size bounds is never longer than one message.
    pub proof fn lemma_encoding_length(self)
        requires
            self.within_bounds(),
        ensures
            1 <= self.encoding().len() <= MAX_NOISE_MESSAGE_LENGTH,
    {
    }

    /// Reading a serialized frame gives the frame back, for every frame
    /// within the size bounds.
    pub proof fn lemma_decode_encode(self)
        requires
            self.within_bounds(),
        ensures
            Self::decoding(self.encoding()) == Some(self),
    {
        let bytes = self.encoding();
        assert(bytes.skip(1) =~= self.data());
        assert(bytes[0] == self.tag());
        match self {
            FrameView::FileData(data) => {},
            FrameView::PleaseSendFile(offset) => {
                crate::encoding::lemma_be_u64_roundtrip(offset);
            },
            FrameView::IWillSendThisFile(metadata) => {
                metadata.lemma_decode_encode();
            },
            FrameView::TransferComplete(hash) => {},
        }
    }

    /// Bytes that are read as a frame are the serialization of that frame,
    /// and the frame is within the size bounds: no two byte strings stand
    /// for the same frame.
    pub proof fn lemma_encode_decode(bytes: Seq<u8>)
        requires
            Self::decoding(bytes) is Some,
        ensures
            Self::decoding(bytes).unwrap().encoding() == bytes,
            Self::decoding(bytes).unwrap().within_bounds(),
    {
        let frame = Self::decoding(bytes).unwrap();
        assert(seq![bytes[0]] + bytes.skip(1) =~= bytes);
        match frame {
            FrameView::FileData(data) => {},
            FrameView::PleaseSendFile(offset) => {
                crate::encoding::lemma_from_be_u64_roundtrip(bytes.skip(1));
            },
            FrameView::IWillSendThisFile(metadata) => {
                MetadataView::lemma_encode_decode(bytes.skip(1));
            },
            FrameView::TransferComplete(hash) => {},
        }
    }

    /// Bytes that begin with a tag outside 0x01 to 0x04 hold no frame.
    pub proof fn lemma_unknown_tag(bytes: Seq<u8>)
        requires
            bytes.len() > 0,
            !(TAG_FILE_DATA <= bytes[0] <= TAG_TRANSFER_COMPLETE),
        ensures
            Self::decoding(bytes) is None,
    {
    }
}

impl Frame {
    /// Whether the frame is within the size bounds.
    pub fn within_bounds(&self) -> (fits: bool)
        ensures
            fits == self@.within_bounds(),
    {
        match self {
            Frame::FileData(bytes) => bytes.len() <= MAX_FRAME_OPTIONAL_DATA_SIZE,
            Frame::PleaseSendFile(_) => true,
            Frame::IWillSendThisFile(metadata) => metadata.fits(),
            Frame::TransferComplete(_) => true,
        }
    }

    /// Serializes the frame. The frame must be within the size bounds, so
    /// that its bytes fit one message.
    pub fn to_bytes(&self) -> (bytes: SerializedFrame)
        requires
            self@.within_bounds(),
        ensures
            bytes@ == self@.encoding(),
            1 <= bytes@.len() <= MAX_NOISE_MESSAGE_LENGTH,
    {
        let mut vec: Vec<u8> = Vec::new();
        match self {
            Frame::FileData(bytes) => {
                vec.push(TAG_FILE_DATA);
                put_slice(&mut vec, bytes.as_slice());
            },
            Frame::PleaseSendFile(offset) => {
                vec.push(TAG_PLEASE_SEND_FILE);
                put_u64(&mut vec, *offset);
            },
            Frame::IWillSendThisFile(flap_file_metadata) => {
                let bytes = flap_file_metadata.clone().to_bytes();
                vec.push(TAG_I_WILL_SEND_THIS_FILE);
                put_slice(&mut vec, bytes.as_slice());
            },
            Frame::TransferComplete(file_hash) => {
                vec.push(TAG_TRANSFER_COMPLETE);
                put_slice(&mut vec, file_hash.as_slice());
            },
        }
        assert(vec@ =~= self@.encoding());
        vec
    }

    /// Reads one frame. An empty or oversized input, an unknown tag, and
    /// data that is truncated, too long or malformed for its tag are all a
    /// `SerializationError`.
    pub fn read_from_frame(frame: &[u8]) -> (res: Result<Frame, Error>)
        ensures
            match res {
                Ok(read) => FrameView::decoding(frame@) == Some(read@),
                Err(e) => e == Error::SerializationError && FrameView::decoding(frame@) is None,
            },
    {
        if frame.len() == 0 || frame.len() > MAX_NOISE_MESSAGE_LENGTH {
            return Err(Error::SerializationError);
        }
        let msg = frame[0];
        let data = vstd::slice::slice_subrange(frame, 1, frame.len());
        assert(data@ =~= frame@.skip(1));
        if msg == TAG_FILE_DATA {
            Ok(Frame::FileData(vstd::slice::slice_to_vec(data)))
        } else if msg == TAG_PLEASE_SEND_FILE {
            if data.len() == 8 {
                Ok(Frame::PleaseSendFile(get_u64(data)))
            } else {
                Err(Error::SerializationError)
            }
        } else if msg == TAG_I_WILL_SEND_THIS_FILE {
            match FlapFileMetadata::from_bytes(data) {
                Ok(metadata) => Ok(Frame::IWillSendThisFile(metadata)),
                Err(_) => Err(Error::SerializationError),
            }
        } else if msg == TAG_TRANSFER_COMPLETE {
            if data.len() == 32 {
                Ok(Frame::TransferComplete(array_from_slice::<32>(data)))
            } else {
                Err(Error::SerializationError)
            }
        } else {
            Err(Error::SerializationError)
        }
    }
}

} // verus!
