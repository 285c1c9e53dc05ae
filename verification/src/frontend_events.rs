//! The events in the shape that a user interface consumes them.
//!
//! An interface shell listens to three channels, one per kind of event, and
//! gets the transfer identifier as plain bytes.

use vstd::prelude::*;

use crate::event::{Event, EventView};

verus! {

#[derive(Debug, Clone, PartialEq, Eq)]
pub struct PreparingFileEvent {
    pub file_transfer_id: Vec<u8>,
    pub metadata: FileMetadata,
    pub sending: bool,
}

#[derive(Debug, Clone, PartialEq, Eq)]
pub struct FileMetadata {
    pub file_name: String,
    pub expected_file_size: u64,
}

#[derive(Debug, Clone, PartialEq, Eq)]
pub struct TransferUpdateEvent {
    pub file_transfer_id: Vec<u8>,
    pub bytes_downloaded: u64,
}

#[derive(Debug, Clone, PartialEq, Eq)]
pub struct TransferCompleteEvent {
    pub file_transfer_id: Vec<u8>,
}

/// An event on its way to the interface.
#[derive(Debug, Clone, PartialEq, Eq)]
pub enum FrontendEvent {
    PreparingFile(PreparingFileEvent),
    TransferUpdate(TransferUpdateEvent),
    TransferComplete(TransferCompleteEvent),
}

impl FrontendEvent {
    /// The name of the channel for announcements of files.
    pub open spec fn spec_preparing_file() -> Seq<char> {
        "preparing-file"@
    }

    /// The name of the channel for progress.
    pub open spec fn spec_transfer_update() -> Seq<char> {
        "transfer-update"@
    }

    /// The name of the channel for completions.
    pub open spec fn spec_transfer_complete() -> Seq<char> {
        "transfer-complete"@
    }

    /// The event as the interface gets it: the same identifier, name, size,
    /// direction and byte count.
    pub fn from_event(event: Event) -> (shown: FrontendEvent)
        ensures
            match event@ {
                EventView::PreparingFile(id, metadata, sending) => {
                    &&& shown matches FrontendEvent::PreparingFile(e)
                    &&& e.file_transfer_id@ == id
                    &&& e.metadata.file_name@ == metadata.file_name
                    &&& e.metadata.expected_file_size == metadata.file_size
                    &&& e.sending == sending
                },
                EventView::TransferUpdate(id, bytes) => {
                    &&& shown matches FrontendEvent::TransferUpdate(e)
                    &&& e.file_transfer_id@ == id
                    &&& e.bytes_downloaded == bytes
                },
                EventView::TransferComplete(id) => {
                    &&& shown matches FrontendEvent::TransferComplete(e)
                    &&& e.file_transfer_id@ == id
                },
            },
    {
        match event {
            Event::PreparingFile(file_transfer_id, flap_file_metadata, sending) => {
                FrontendEvent::PreparingFile(
                    PreparingFileEvent {
                        file_transfer_id: vstd::slice::slice_to_vec(file_transfer_id.as_ref()),
                        metadata: FileMetadata {
                            file_name: flap_file_metadata.file_name,
                            expected_file_size: flap_file_metadata.file_size,
                        },
                        sending,
                    },
                )
            },
            Event::TransferUpdate(file_transfer_id, progress) => {
                FrontendEvent::TransferUpdate(
                    TransferUpdateEvent {
                        file_transfer_id: vstd::slice::slice_to_vec(file_transfer_id.as_ref()),
                        bytes_downloaded: progress,
                    },
                )
            },
            Event::TransferComplete(file_transfer_id) => {
                FrontendEvent::TransferComplete(
                    TransferCompleteEvent {
                        file_transfer_id: vstd::slice::slice_to_vec(file_transfer_id.as_ref()),
                    },
                )
            },
        }
    }

    /// The name of the channel on which the interface listens for this kind
    /// of event.
    pub fn name(&self) -> (name: &'static str)
        ensures
            name@ == (match self {
                FrontendEvent::PreparingFile(_) => Self::spec_preparing_file(),
                FrontendEvent::TransferUpdate(_) => Self::spec_transfer_update(),
                FrontendEvent::TransferComplete(_) => Self::spec_transfer_complete(),
            }),
    {
        match self {
            FrontendEvent::PreparingFile(_) => "preparing-file",
            FrontendEvent::TransferUpdate(_) => "transfer-update",
            FrontendEvent::TransferComplete(_) => "transfer-complete",
        }
    }
}

} // verus!
