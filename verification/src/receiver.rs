//! The receiving side of a session.
//!
//! A receiver connects to the identity named in a ticket and accepts the
//! substreams that the sender opens, one per file. Each substream gets a
//! handshake and one run of the receiver's half of the transfer protocol:
//!
//! 1. read the announcement of the file;
//! 2. prepare the staging file, report `PreparingFile`, and take over the
//!    hasher of what is staged already;
//! 3. ask for the file from the offset where the staging file ends;
//! 4. take the file data as it comes, hashing it, handing it out to be
//!    written and reporting the bytes received; at `TransferComplete`
//!    compare the hash the sender claims with the hash of what is there;
//! 5. once the staging file has been renamed, report `TransferComplete`.

use vstd::prelude::*;

use crate::crypto::blake3::{blake3_digest, Blake3, FileHash};
use crate::crypto::encryption_stream::{
    is_record, EncryptionStream, FileBlock, NOISE_TAG_LENGTH,
};
use crate::crypto::transfer_id::TransferId;
use crate::encoding::{lemma_concat_push, spec_concat};
use crate::error::Error;
use crate::event::{lemma_run_push, well_ordered, Event, EventView, Progress};
use crate::fs::metadata::{FlapFileMetadata, MetadataView};
use crate::fs::save::StagedFile;
use crate::p2p::frame::FrameView;

verus! {

/// How an attempt to accept the next substream ended.
#[derive(Debug, Clone, Copy, PartialEq, Eq, Structural)]
pub enum AcceptOutcome {
    /// The sender opened a substream.
    Stream,
    /// The sender closed the connection.
    ClosedByPeer,
    /// The connection was closed on this side.
    LocallyClosed,
    /// Any other error of the connection.
    Failed,
}

/// What a retrieval does next.
#[derive(Debug, Clone, Copy, PartialEq, Eq, Structural)]
pub enum RetrieveStep {
    /// Start a task that receives the file of the new substream, and go on
    /// accepting.
    Spawn,
    /// The session is over: return successfully. Files that were not
    /// completed stay staged and resume on the next attempt.
    Finish,
    /// The retrieval has failed with `ConnectionError`.
    Abort,
}

/// Decides how a retrieval goes on after an attempt to accept a substream:
/// a substream is served, a closed connection ends the retrieval cleanly,
/// any other error of the connection is fatal to it.
pub fn after_accept(outcome: AcceptOutcome) -> (step: RetrieveStep)
    ensures
        step == (match outcome {
            AcceptOutcome::Stream => RetrieveStep::Spawn,
            AcceptOutcome::ClosedByPeer => RetrieveStep::Finish,
            AcceptOutcome::LocallyClosed => RetrieveStep::Finish,
            AcceptOutcome::Failed => RetrieveStep::Abort,
        }),
{
    match outcome {
        AcceptOutcome::Stream => RetrieveStep::Spawn,
        AcceptOutcome::ClosedByPeer => RetrieveStep::Finish,
        AcceptOutcome::LocallyClosed => RetrieveStep::Finish,
        AcceptOutcome::Failed => RetrieveStep::Abort,
    }
}

/// Where the receiver's half of a transfer stands.
#[derive(Debug, Clone, Copy, PartialEq, Eq, Structural)]
pub enum ReceiverPhase {
    /// The announcement of the file is awaited.
    AwaitMeta,
    /// The file has been announced: its staging file is to be prepared.
    Prepare,
    /// The staging file is ready: the file is to be asked for.
    RequestResume,
    /// The file is being received.
    Streaming,
    /// The hash has been verified: the staging file is to be renamed.
    Finishing,
    /// The file stands under its own name.
    Done,
    /// The transfer has failed. Its substream is of no more use; the staging
    /// file stays as it is.
    Failed,
}

/// What the receiver is to do after a record of the streaming phase.
pub enum ReceivedStep {
    /// Append the bytes to the staging file and flush it, then report the
    /// event.
    Write { bytes: Vec<u8>, event: Event },
    /// The content is complete and has this hash, as the sender claimed:
    /// sync the staging file, rename it, and call `finished`.
    Finish { hash: FileHash },
}

/// The receiver's half of one transfer.
pub struct ReceiverTransfer {
    stream: EncryptionStream,
    metadata: Option<FlapFileMetadata>,
    phase: ReceiverPhase,
    /// The offset at which the transfer starts.
    offset: u64,
    /// The bytes received since the transfer started.
    total_bytes_received: u64,
    progress: Progress,
    emitted: Ghost<Seq<EventView>>,
    /// What the staging file held when it was prepared.
    staged: Ghost<Seq<u8>>,
    /// The blocks handed out to be written since.
    blocks: Ghost<Seq<Seq<u8>>>,
}

impl ReceiverTransfer {
    pub closed spec fn phase(&self) -> ReceiverPhase {
        self.phase
    }

    /// What the staging file held when it was prepared, as far as it was
    /// hashed.
    pub closed spec fn staged_content(&self) -> Seq<u8> {
        self.staged@
    }

    /// The blocks of file data handed out to be written behind what was
    /// staged, oldest first.
    pub closed spec fn written(&self) -> Seq<Seq<u8>> {
        self.blocks@
    }

    /// The identifier of the transfer.
    pub closed spec fn id(&self) -> Seq<u8> {
        self.stream.spec_transfer_id()
    }

    /// The metadata of the file, once it has been announced.
    pub closed spec fn metadata(&self) -> Option<MetadataView> {
        match self.metadata {
            Some(metadata) => Some(metadata@),
            None => None,
        }
    }

    /// The offset at which the transfer starts: the length of what was
    /// staged.
    pub closed spec fn offset(&self) -> u64 {
        self.offset
    }

    /// The bytes received since the transfer started.
    pub closed spec fn received(&self) -> u64 {
        self.total_bytes_received
    }

    /// The content of the staging file as far as it has been hashed: what
    /// was staged before, and what has been handed out to be written since.
    pub closed spec fn hashed(&self) -> Seq<u8> {
        self.stream.hashed()
    }

    /// The events reported so far, oldest first.
    pub closed spec fn emitted(&self) -> Seq<EventView> {
        self.emitted@
    }

    /// The frames sealed into the records handed out so far, oldest first:
    /// what the sender gets to read.
    pub closed spec fn sealed(&self) -> Seq<FrameView> {
        self.stream.sealed()
    }

    /// The events reported so far are a possible sequence of events of this
    /// transfer, and they have come as far as the phase says.
    pub closed spec fn wf(&self) -> bool {
        &&& Progress::spec_run(self.id(), self.emitted@) == Some(self.progress)
        &&& match self.phase {
            ReceiverPhase::AwaitMeta => {
                &&& self.progress == Progress::NotStarted
                &&& self.total_bytes_received == 0
                &&& self.metadata is None
            },
            ReceiverPhase::Prepare => {
                &&& self.progress == Progress::NotStarted
                &&& self.total_bytes_received == 0
                &&& self.metadata is Some
            },
            ReceiverPhase::RequestResume => {
                &&& self.progress == Progress::Streaming(0)
                &&& self.total_bytes_received == 0
                &&& self.metadata is Some
                &&& self.receiving()
            },
            ReceiverPhase::Streaming => {
                &&& self.progress == Progress::Streaming(self.total_bytes_received)
                &&& self.metadata is Some
                &&& self.receiving()
            },
            ReceiverPhase::Finishing => {
                &&& self.progress == Progress::Streaming(self.total_bytes_received)
                &&& self.metadata is Some
                &&& self.receiving()
            },
            ReceiverPhase::Done => self.progress == Progress::Complete && self.receiving(),
            ReceiverPhase::Failed => true,
        }
        &&& self.phase != ReceiverPhase::Failed ==> !self.stream.broken()
    }

    /// What has been hashed and counted is what the blocks handed out make
    /// of what was staged.
    pub closed spec fn receiving(&self) -> bool {
        &&& self.staged@.len() == self.offset
        &&& self.stream.hashed() == self.staged@ + spec_concat(self.blocks@)
        &&& self.total_bytes_received == Self::spec_received_after(
            0,
            spec_concat(self.blocks@).len(),
        )
    }

    /// Whether two states of a transfer are the same in all that can be
    /// observed.
    pub open spec fn same(&self, other: &ReceiverTransfer) -> bool {
        &&& self.phase() == other.phase()
        &&& self.id() == other.id()
        &&& self.metadata() == other.metadata()
        &&& self.offset() == other.offset()
        &&& self.received() == other.received()
        &&& self.hashed() == other.hashed()
        &&& self.emitted() == other.emitted()
        &&& self.sealed() == other.sealed()
        &&& self.staged_content() == other.staged_content()
        &&& self.written() == other.written()
    }

    /// The bytes reported after `length` more have been received: the sum,
    /// or the largest number where the sum is out of range.
    pub open spec fn spec_received_after(received: u64, length: nat) -> u64 {
        if received + length > u64::MAX {
            u64::MAX
        } else {
            (received + length) as u64
        }
    }

    /// The events of a transfer are well ordered at every moment.
    pub proof fn lemma_well_ordered(&self)
        requires
            self.wf(),
        ensures
            well_ordered(self.id(), self.emitted()),
    {
    }

    /// From the moment the staging file is prepared until the transfer is
    /// done, the content that has been hashed is what was staged followed by
    /// the blocks handed out to be written, the start offset is the length
    /// of what was staged, and the bytes reported as received are the length
    /// of the blocks. So the hash that is compared at the end is the hash of
    /// what the file holds when every block has been appended to it.
    pub proof fn lemma_received(&self)
        requires
            self.wf(),
            self.phase() == ReceiverPhase::RequestResume || self.phase()
                == ReceiverPhase::Streaming || self.phase() == ReceiverPhase::Finishing
                || self.phase() == ReceiverPhase::Done,
        ensures
            self.staged_content().len() == self.offset(),
            self.hashed() == self.staged_content() + spec_concat(self.written()),
            self.received() == Self::spec_received_after(0, spec_concat(self.written()).len()),
    {
    }

    /// The receiver's half of a transfer, over a channel that has completed
    /// its handshake.
    pub fn new(stream: EncryptionStream) -> (transfer: ReceiverTransfer)
        ensures
            transfer.wf(),
            transfer.phase() == (if stream.broken() {
                ReceiverPhase::Failed
            } else {
                ReceiverPhase::AwaitMeta
            }),
            transfer.id() == stream.spec_transfer_id(),
            transfer.metadata() is None,
            transfer.hashed() == stream.hashed(),
            transfer.sealed() == stream.sealed(),
            transfer.received() == 0,
            transfer.emitted() == Seq::<EventView>::empty(),
            transfer.written() == Seq::<Seq<u8>>::empty(),
    {
        let phase = if stream.is_broken() {
            ReceiverPhase::Failed
        } else {
            ReceiverPhase::AwaitMeta
        };
        ReceiverTransfer {
            stream,
            metadata: None,
            phase,
            offset: 0,
            total_bytes_received: 0,
            progress: Progress::NotStarted,
            emitted: Ghost(Seq::empty()),
            staged: Ghost(Seq::empty()),
            blocks: Ghost(Seq::empty()),
        }
    }

    /// Where the transfer stands.
    pub fn current_phase(&self) -> (phase: ReceiverPhase)
        ensures
            phase == self.phase(),
    {
        self.phase
    }

    pub fn transfer_id(&self) -> (id: TransferId)
        ensures
            id@ == self.id(),
    {
        self.stream.transfer_id()
    }

    /// The offset at which the transfer starts.
    pub fn start_offset(&self) -> (offset: u64)
        ensures
            offset == self.offset(),
    {
        self.offset
    }

    /// The bytes received since the transfer started.
    pub fn bytes_received(&self) -> (received: u64)
        ensures
            received == self.received(),
    {
        self.total_bytes_received
    }

    /// Takes the message of the first record: the announcement of the file.
    /// Returns the metadata, for which the staging file is to be prepared.
    ///
    /// Out of turn the call fails with `Unknown` and changes nothing. A
    /// message that does not authenticate or holds anything but an
    /// announcement fails the transfer.
    pub fn on_metadata(&mut self, message: &[u8]) -> (res: Result<FlapFileMetadata, Error>)
        requires
            old(self).wf(),
        ensures
            final(self).wf(),
            final(self).id() == old(self).id(),
            final(self).hashed() == old(self).hashed(),
            final(self).emitted() == old(self).emitted(),
            final(self).sealed() == old(self).sealed(),
            final(self).received() == old(self).received(),
            final(self).offset() == old(self).offset(),
            if old(self).phase() != ReceiverPhase::AwaitMeta {
                res matches Err(e) && e == Error::Unknown && final(self).same(old(self))
            } else {
                match res {
                    Ok(metadata) => {
                        &&& final(self).phase() == ReceiverPhase::Prepare
                        &&& final(self).metadata() == Some(metadata@)
                        &&& metadata@.fits()
                    },
                    Err(e) => {
                        &&& final(self).phase() == ReceiverPhase::Failed
                        &&& e == Error::SnowError || e == Error::SerializationError || e
                            == Error::UnexpectedFrame
                    },
                }
            },
    {
        match self.phase {
            ReceiverPhase::AwaitMeta => {},
            _ => {
                return Err(Error::Unknown);
            },
        }
        match self.stream.get_file_metadata(message) {
            Ok(metadata) => {
                let copy = metadata.clone();
                self.metadata = Some(metadata);
                self.phase = ReceiverPhase::Prepare;
                Ok(copy)
            },
            Err(e) => {
                self.phase = ReceiverPhase::Failed;
                Err(e)
            },
        }
    }

    /// Takes the staging file that was prepared: the transfer starts at its
    /// offset, and its hasher, or a fresh one where the file is new, becomes
    /// the hasher of the file's content. Returns the event `PreparingFile`
    /// to report.
    ///
    /// Out of turn the call fails with `Unknown` and changes nothing.
    pub fn prepared(&mut self, staged: StagedFile) -> (res: Result<Event, Error>)
        requires
            old(self).wf(),
            staged.wf(),
        ensures
            final(self).wf(),
            final(self).id() == old(self).id(),
            final(self).metadata() == old(self).metadata(),
            final(self).received() == old(self).received(),
            final(self).sealed() == old(self).sealed(),
            if old(self).phase() != ReceiverPhase::Prepare {
                res matches Err(e) && e == Error::Unknown && final(self).same(old(self))
            } else {
                &&& res matches Ok(event)
                &&& event@ == EventView::PreparingFile(
                    old(self).id(),
                    old(self).metadata().unwrap(),
                    false,
                )
                &&& final(self).emitted() == old(self).emitted().push(event@)
                &&& final(self).phase() == ReceiverPhase::RequestResume
                &&& final(self).offset() == staged.offset()
                &&& final(self).hashed() == staged.hashed()
                &&& final(self).hashed().len() == final(self).offset()
                &&& final(self).staged_content() == staged.hashed()
                &&& final(self).written() == Seq::<Seq<u8>>::empty()
            },
    {
        match self.phase {
            ReceiverPhase::Prepare => {},
            _ => {
                return Err(Error::Unknown);
            },
        }
        let reported = match &self.metadata {
            Some(metadata) => metadata.clone(),
            None => {
                return Err(Error::Unknown);
            },
        };
        let (offset, hasher) = staged.into_parts();
        match hasher {
            Some(hasher) => {
                self.stream.set_file_hasher(hasher);
            },
            None => {
                self.stream.set_file_hasher(Blake3::new());
            },
        }
        self.offset = offset;
        self.staged = Ghost(self.stream.hashed());
        self.blocks = Ghost(Seq::empty());
        proof {
            assert(self.staged@ + spec_concat(self.blocks@) =~= self.stream.hashed());
        }
        let event = Event::PreparingFile(self.stream.transfer_id(), reported, false);
        proof {
            lemma_run_push(self.id(), self.emitted@, event@);
        }
        self.emitted = Ghost(self.emitted@.push(event@));
        self.progress = Progress::Streaming(0);
        self.phase = ReceiverPhase::RequestResume;
        Ok(event)
    }

    /// Asks the sender for the file from the start offset on: seals the
    /// frame `PleaseSendFile` with the offset at which the staging file
    /// ends, and returns the record to send.
    ///
    /// Out of turn the call fails with `Unknown` and changes nothing. A
    /// refusal of the Noise layer is a `SnowError` and fails the transfer.
    pub fn request_resume(&mut self) -> (res: Result<Vec<u8>, Error>)
        requires
            old(self).wf(),
        ensures
            final(self).wf(),
            final(self).id() == old(self).id(),
            final(self).metadata() == old(self).metadata(),
            final(self).hashed() == old(self).hashed(),
            final(self).emitted() == old(self).emitted(),
            final(self).received() == old(self).received(),
            final(self).offset() == old(self).offset(),
            final(self).staged_content() == old(self).staged_content(),
            final(self).written() == old(self).written(),
            if old(self).phase() != ReceiverPhase::RequestResume {
                res matches Err(e) && e == Error::Unknown && final(self).same(old(self))
            } else {
                match res {
                    Ok(record) => {
                        &&& final(self).phase() == ReceiverPhase::Streaming
                        &&& final(self).sealed() == old(self).sealed().push(
                            FrameView::PleaseSendFile(old(self).offset()),
                        )
                        &&& is_record(record@)
                        &&& record@.len() == 27
                    },
                    Err(e) => {
                        &&& e == Error::SnowError
                        &&& final(self).phase() == ReceiverPhase::Failed
                        &&& final(self).sealed() == old(self).sealed()
                    },
                }
            },
    {
        match self.phase {
            ReceiverPhase::RequestResume => {},
            _ => {
                return Err(Error::Unknown);
            },
        }
        match self.stream.send_ready(self.offset) {
            Ok(record) => {
                self.phase = ReceiverPhase::Streaming;
                Ok(record)
            },
            Err(e) => {
                self.phase = ReceiverPhase::Failed;
                Err(e)
            },
        }
    }

    /// Takes the message of the next record of the streaming phase.
    ///
    /// File data is hashed and handed out to be written, with an update
    /// that reports the bytes received since the transfer started. At
    /// `TransferComplete` the hash that the sender claims must be the hash
    /// of the content: then the file is to be renamed, else the error is
    /// `InvalidBlake3Hash`.
    ///
    /// Out of turn the call fails with `Unknown` and changes nothing: before
    /// the file has been asked for, no completion is taken. Every other
    /// error fails the transfer, and nothing of the record that was refused
    /// is hashed, counted or handed out to be written.
    pub fn on_record(&mut self, message: &[u8]) -> (res: Result<ReceivedStep, Error>)
        requires
            old(self).wf(),
        ensures
            final(self).wf(),
            final(self).id() == old(self).id(),
            final(self).metadata() == old(self).metadata(),
            final(self).offset() == old(self).offset(),
            final(self).sealed() == old(self).sealed(),
            final(self).staged_content() == old(self).staged_content(),
            if old(self).phase() != ReceiverPhase::Streaming {
                res matches Err(e) && e == Error::Unknown && final(self).same(old(self))
            } else {
                match res {
                    Ok(ReceivedStep::Write { bytes, event }) => {
                        &&& final(self).phase() == ReceiverPhase::Streaming
                        &&& final(self).hashed() == old(self).hashed() + bytes@
                        &&& final(self).written() == old(self).written().push(bytes@)
                        &&& bytes@.len() + 1 + NOISE_TAG_LENGTH == message@.len()
                        &&& final(self).received() == Self::spec_received_after(
                            old(self).received(),
                            bytes@.len(),
                        )
                        &&& event@ == EventView::TransferUpdate(
                            old(self).id(),
                            final(self).received(),
                        )
                        &&& final(self).emitted() == old(self).emitted().push(event@)
                    },
                    Ok(ReceivedStep::Finish { hash }) => {
                        &&& final(self).phase() == ReceiverPhase::Finishing
                        &&& final(self).hashed() == old(self).hashed()
                        &&& final(self).written() == old(self).written()
                        &&& hash@ == blake3_digest(old(self).hashed())
                        &&& final(self).received() == old(self).received()
                        &&& final(self).emitted() == old(self).emitted()
                    },
                    Err(e) => {
                        &&& final(self).phase() == ReceiverPhase::Failed
                        &&& final(self).emitted() == old(self).emitted()
                        &&& e == Error::SnowError || e == Error::SerializationError || e
                            == Error::UnexpectedFrame || e == Error::InvalidBlake3Hash
                        &&& final(self).hashed() == old(self).hashed()
                        &&& final(self).written() == old(self).written()
                        &&& final(self).received() == old(self).received()
                    },
                }
            },
    {
        match self.phase {
            ReceiverPhase::Streaming => {},
            _ => {
                return Err(Error::Unknown);
            },
        }
        let ghost handed_out = self.blocks@;
        match self.stream.recv_next_file_block(message) {
            Ok(FileBlock::Data(bytes)) => {
                proof {
                    lemma_concat_push(handed_out, bytes@);
                    assert(self.staged@ + (spec_concat(handed_out) + bytes@)
                        =~= self.staged@ + spec_concat(handed_out) + bytes@);
                }
                self.blocks = Ghost(handed_out.push(bytes@));
                let length = bytes.len() as u64;
                self.total_bytes_received = if self.total_bytes_received > u64::MAX - length {
                    u64::MAX
                } else {
                    self.total_bytes_received + length
                };
                self.progress = Progress::Streaming(self.total_bytes_received);
                let event = Event::TransferUpdate(
                    self.stream.transfer_id(),
                    self.total_bytes_received,
                );
                proof {
                    lemma_run_push(self.id(), self.emitted@, event@);
                }
                self.emitted = Ghost(self.emitted@.push(event@));
                Ok(ReceivedStep::Write { bytes, event })
            },
            Ok(FileBlock::Complete(hash)) => {
                self.phase = ReceiverPhase::Finishing;
                Ok(ReceivedStep::Finish { hash })
            },
            Err(e) => {
                self.phase = ReceiverPhase::Failed;
                Err(e)
            },
        }
    }

    /// Takes the outcome of the rename that makes the file visible. After a
    /// rename that succeeded the transfer is done, and the event
    /// `TransferComplete` is to be reported; one that did not is a
    /// `FileIoError` and fails the transfer.
    ///
    /// Out of turn the call fails with `Unknown` and changes nothing.
    pub fn finished(&mut self, renamed: bool) -> (res: Result<Event, Error>)
        requires
            old(self).wf(),
        ensures
            final(self).wf(),
            final(self).id() == old(self).id(),
            final(self).metadata() == old(self).metadata(),
            final(self).hashed() == old(self).hashed(),
            final(self).received() == old(self).received(),
            final(self).offset() == old(self).offset(),
            final(self).sealed() == old(self).sealed(),
            final(self).staged_content() == old(self).staged_content(),
            final(self).written() == old(self).written(),
            if old(self).phase() != ReceiverPhase::Finishing {
                res matches Err(e) && e == Error::Unknown && final(self).same(old(self))
            } else if renamed {
                &&& res matches Ok(event)
                &&& event@ == EventView::TransferComplete(old(self).id())
                &&& final(self).emitted() == old(self).emitted().push(event@)
                &&& final(self).phase() == ReceiverPhase::Done
            } else {
                &&& res matches Err(e)
                &&& e == Error::FileIoError
                &&& final(self).phase() == ReceiverPhase::Failed
                &&& final(self).emitted() == old(self).emitted()
            },
    {
        match self.phase {
            ReceiverPhase::Finishing => {},
            _ => {
                return Err(Error::Unknown);
            },
        }
        if !renamed {
            self.phase = ReceiverPhase::Failed;
            return Err(Error::FileIoError);
        }
        let event = Event::TransferComplete(self.stream.transfer_id());
        proof {
            lemma_run_push(self.id(), self.emitted@, event@);
        }
        self.emitted = Ghost(self.emitted@.push(event@));
        self.progress = Progress::Complete;
        self.phase = ReceiverPhase::Done;
        Ok(event)
    }
}

} // verus!
