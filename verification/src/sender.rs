//! The sending side of a session.
//!
//! A sender keeps a queue of the paths it was asked to send, each at most
//! once. When a receiver connects, the queue is drained: every path gets a
//! substream of its own, a handshake, and one run of the sender's half of
//! the transfer protocol:
//!
//! 1. announce the file and report `PreparingFile`;
//! 2. wait for the receiver's request, which names the offset to resume at;
//! 3. if that offset is not zero, hash the file up to it, so that the final
//!    hash covers the whole file;
//! 4. send the rest of the file chunk by chunk, reporting the bytes sent
//!    since the resume point after each, and at the end of the file send the
//!    hash and report `TransferComplete`.

use vstd::prelude::*;

use crate::crypto::blake3::{blake3_digest, Blake3, PartialHash};
use crate::crypto::encryption_stream::{
    is_record, EncryptionStream, MAX_FRAME_LENGTH, NOISE_TAG_LENGTH, RECORD_HEADER_LENGTH,
};
use crate::crypto::master_key::MasterKey;
use crate::crypto::transfer_id::TransferId;
use crate::encoding::{lemma_concat_push, spec_concat};
use crate::error::Error;
use crate::event::{lemma_run_push, well_ordered, Event, EventView, Progress};
use crate::fs::metadata::{FlapFileMetadata, MetadataView};
use crate::p2p::frame::FrameView;
use crate::ticket::{NodeId, Ticket, TicketView};

verus! {

/// The files that a sender has been asked to send, and its ticket.
pub struct P2pSender {
    /// The paths that wait for a receiver, oldest first.
    files_queue: Vec<String>,
    /// Every path that was ever enqueued in this session.
    files_added: Vec<String>,
    ticket: Ticket,
}

/// Whether `path` is among `paths`.
pub open spec fn spec_contains(paths: Seq<Seq<char>>, path: Seq<char>) -> bool {
    exists|i: int| 0 <= i < paths.len() && paths[i] == path
}

/// A path that has been enqueued is among the added paths from then on, so
/// that enqueueing it again is refused; and what was added before stays
/// added.
pub proof fn lemma_enqueued_once(added: Seq<Seq<char>>, path: Seq<char>)
    ensures
        spec_contains(added.push(path), path),
        forall|other: Seq<char>|
            spec_contains(added, other) ==> #[trigger] spec_contains(added.push(path), other),
{
    assert(added.push(path)[added.len() as int] == path);
    assert forall|other: Seq<char>| spec_contains(added, other) implies #[trigger] spec_contains(
        added.push(path),
        other,
    ) by {
        let i = choose|i: int| 0 <= i < added.len() && added[i] == other;
        assert(added.push(path)[i] == other);
    }
}

impl P2pSender {
    /// The paths that wait to be sent, oldest first.
    pub closed spec fn queue(&self) -> Seq<Seq<char>> {
        Seq::new(self.files_queue@.len(), |i: int| self.files_queue@[i]@)
    }

    /// Every path that was enqueued in this session, in the order of
    /// arrival.
    pub closed spec fn added(&self) -> Seq<Seq<char>> {
        Seq::new(self.files_added@.len(), |i: int| self.files_added@[i]@)
    }

    /// The ticket that leads to this sender.
    pub closed spec fn spec_ticket(&self) -> TicketView {
        self.ticket@
    }

    /// No path was added twice, and what waits was added.
    pub open spec fn wf(&self) -> bool {
        &&& forall|i: int, j: int|
            0 <= i < j < self.added().len() ==> self.added()[i] != self.added()[j]
        &&& forall|i: int|
            0 <= i < self.queue().len() ==> spec_contains(self.added(), #[trigger] self.queue()[i])
    }

    /// A sender reachable at `node_id`, with a fresh secret and nothing to
    /// send yet. Fails with `Unknown` where no secret can be generated.
    pub fn new(node_id: NodeId) -> (res: Result<P2pSender, Error>)
        ensures
            match res {
                Ok(sender) => {
                    &&& sender.wf()
                    &&& sender.queue().len() == 0
                    &&& sender.added().len() == 0
                    &&& sender.spec_ticket().node_id == node_id@
                },
                Err(e) => e == Error::Unknown,
            },
    {
        match MasterKey::generate() {
            Ok(master_key) => Ok(Self::with_ticket(Ticket::make(node_id, master_key))),
            Err(_) => Err(Error::Unknown),
        }
    }

    /// A sender with the given ticket and nothing to send yet.
    pub fn with_ticket(ticket: Ticket) -> (sender: P2pSender)
        ensures
            sender.wf(),
            sender.queue().len() == 0,
            sender.added().len() == 0,
            sender.spec_ticket() == ticket@,
    {
        P2pSender { files_queue: Vec::new(), files_added: Vec::new(), ticket }
    }

    /// The ticket that leads to this sender.
    pub fn ticket(&self) -> (ticket: &Ticket)
        ensures
            ticket@ == self.spec_ticket(),
    {
        &self.ticket
    }

    /// Whether `path` was enqueued in this session.
    pub fn was_added(&self, path: &String) -> (found: bool)
        ensures
            found == spec_contains(self.added(), path@),
    {
        let mut i: usize = 0;
        while i < self.files_added.len()
            invariant
                i <= self.files_added@.len(),
                forall|k: int| 0 <= k < i ==> self.added()[k] != path@,
            decreases self.files_added.len() - i,
        {
            if self.files_added[i] == *path {
                assert(self.added()[i as int] == path@);
                return true;
            }
            i += 1;
        }
        false
    }

    /// Enqueues a file. A path that was enqueued before in this session is
    /// refused with `FileAlreadyAdded`, and nothing changes.
    pub fn send(&mut self, path: String) -> (res: Result<(), Error>)
        requires
            old(self).wf(),
        ensures
            final(self).wf(),
            final(self).spec_ticket() == old(self).spec_ticket(),
            if spec_contains(old(self).added(), path@) {
                &&& res == Err::<(), Error>(Error::FileAlreadyAdded)
                &&& final(self).added() == old(self).added()
                &&& final(self).queue() == old(self).queue()
            } else {
                &&& res == Ok::<(), Error>(())
                &&& final(self).added() == old(self).added().push(path@)
                &&& final(self).queue() == old(self).queue().push(path@)
            },
    {
        if self.was_added(&path) {
            return Err(Error::FileAlreadyAdded);
        }
        let ghost old_added = self.added();
        let ghost old_queue = self.queue();
        self.files_added.push(path.clone());
        self.files_queue.push(path);
        proof {
            assert(self.added() =~= old_added.push(path@));
            assert(self.queue() =~= old_queue.push(path@));
            assert forall|i: int| 0 <= i < self.queue().len() implies spec_contains(
                self.added(),
                #[trigger] self.queue()[i],
            ) by {
                if i < old_queue.len() {
                    assert(spec_contains(old_added, old_queue[i]));
                    let k = choose|k: int| 0 <= k < old_added.len() && old_added[k] == old_queue[i];
                    assert(self.added()[k] == self.queue()[i]);
                } else {
                    assert(self.added()[old_added.len() as int] == path@);
                }
            }
        }
        Ok(())
    }

    /// Takes the file that has waited longest out of the queue: the next to
    /// get a substream. `None` where nothing waits.
    pub fn next_file(&mut self) -> (path: Option<String>)
        requires
            old(self).wf(),
        ensures
            final(self).wf(),
            final(self).spec_ticket() == old(self).spec_ticket(),
            final(self).added() == old(self).added(),
            match path {
                Some(p) => {
                    &&& old(self).queue().len() > 0
                    &&& p@ == old(self).queue()[0]
                    &&& final(self).queue() == old(self).queue().drop_first()
                },
                None => old(self).queue().len() == 0 && final(self).queue() == old(self).queue(),
            },
    {
        if self.files_queue.len() == 0 {
            return None;
        }
        let ghost old_queue = self.queue();
        let path = self.files_queue.remove(0);
        proof {
            assert(self.queue() =~= old_queue.drop_first());
            assert forall|i: int| 0 <= i < self.queue().len() implies spec_contains(
                self.added(),
                #[trigger] self.queue()[i],
            ) by {
                assert(self.queue()[i] == old_queue[i + 1]);
            }
        }
        Some(path)
    }

    /// How many files wait to be sent.
    pub fn pending(&self) -> (count: usize)
        ensures
            count == self.queue().len(),
    {
        self.files_queue.len()
    }
}

/// The frames that a sender seals for `chunks`, one after the other, when it
/// has hashed `base` before the first of them: each chunk with bytes as file
/// data, an empty chunk as the hash of everything up to it.
pub open spec fn spec_chunk_frames(base: Seq<u8>, chunks: Seq<Seq<u8>>) -> Seq<FrameView>
    decreases chunks.len(),
{
    if chunks.len() == 0 {
        Seq::empty()
    } else {
        spec_chunk_frames(base, chunks.drop_last()).push(
            EncryptionStream::spec_block_frame(
                base + spec_concat(chunks.drop_last()),
                chunks.last(),
            ),
        )
    }
}

/// One more chunk adds its frame to the frames of a run.
pub proof fn lemma_chunks_push(base: Seq<u8>, chunks: Seq<Seq<u8>>, chunk: Seq<u8>)
    ensures
        spec_chunk_frames(base, chunks.push(chunk)) == spec_chunk_frames(base, chunks).push(
            EncryptionStream::spec_block_frame(base + spec_concat(chunks), chunk),
        ),
{
    assert(chunks.push(chunk).drop_last() =~= chunks);
}

/// The frames of a run are as many as its chunks, and each is the frame of
/// its chunk after everything before it: file data for a chunk with bytes.
pub proof fn lemma_chunk_frames(base: Seq<u8>, chunks: Seq<Seq<u8>>)
    ensures
        spec_chunk_frames(base, chunks).len() == chunks.len(),
        forall|i: int|
            0 <= i < chunks.len() ==> #[trigger] spec_chunk_frames(base, chunks)[i]
                == EncryptionStream::spec_block_frame(
                base + spec_concat(chunks.take(i)),
                chunks[i],
            ),
        forall|i: int|
            0 <= i < chunks.len() && chunks[i].len() > 0 ==> #[trigger] spec_chunk_frames(
                base,
                chunks,
            )[i] == FrameView::FileData(chunks[i]),
    decreases chunks.len(),
{
    if chunks.len() > 0 {
        let before = chunks.drop_last();
        lemma_chunk_frames(base, before);
        assert(chunks.take(chunks.len() - 1) =~= before);
        assert forall|i: int| 0 <= i < chunks.len() implies #[trigger] spec_chunk_frames(
            base,
            chunks,
        )[i] == EncryptionStream::spec_block_frame(
            base + spec_concat(chunks.take(i)),
            chunks[i],
        ) by {
            if i < chunks.len() - 1 {
                assert(before.take(i) =~= chunks.take(i));
                assert(before[i] == chunks[i]);
            }
        }
    }
}

/// A sender that resumes sends the rest of the file and the hash of the
/// whole. Let it have hashed the first `offset` bytes of `file`, and let it
/// then take the rest of the file in chunks with bytes, however the rest is
/// cut, and the empty chunk at the end. Then the frames it seals are one
/// `FileData` for each chunk, whose payloads together are the file from
/// `offset` on, followed by `TransferComplete` with the hash of the file; and
/// the bytes it reports as sent are the length of the rest.
pub proof fn lemma_sends_the_rest(file: Seq<u8>, offset: int, chunks: Seq<Seq<u8>>)
    requires
        0 <= offset <= file.len(),
        forall|i: int| 0 <= i < chunks.len() ==> (#[trigger] chunks[i]).len() > 0,
        spec_concat(chunks) == file.skip(offset),
    ensures
        ({
            let frames = spec_chunk_frames(file.take(offset), chunks.push(Seq::empty()));
            &&& frames.len() == chunks.len() + 1
            &&& forall|i: int|
                0 <= i < chunks.len() ==> #[trigger] frames[i] == FrameView::FileData(chunks[i])
            &&& frames.last() == FrameView::TransferComplete(blake3_digest(file))
            &&& file.take(offset) + spec_concat(chunks.push(Seq::empty())) == file
            &&& file.len() - offset <= u64::MAX ==> SenderTransfer::spec_count_after(
                0,
                spec_concat(chunks.push(Seq::empty())).len(),
            ) == file.len() - offset
        }),
{
    let all = chunks.push(Seq::empty());
    let frames = spec_chunk_frames(file.take(offset), all);
    lemma_chunks_push(file.take(offset), chunks, Seq::empty());
    lemma_concat_push(chunks, Seq::empty());
    lemma_chunk_frames(file.take(offset), chunks);
    assert(spec_concat(all) =~= file.skip(offset));
    assert(file.take(offset) + file.skip(offset) =~= file);
    assert forall|i: int| 0 <= i < chunks.len() implies #[trigger] frames[i]
        == FrameView::FileData(chunks[i]) by {
        assert(frames[i] == spec_chunk_frames(file.take(offset), chunks)[i]);
    }
}

/// Where the sender's half of a transfer stands.
#[derive(Debug, Clone, Copy, PartialEq, Eq, Structural)]
pub enum SenderPhase {
    /// The file is to be announced.
    SendMeta,
    /// The receiver's request is awaited.
    AwaitResume,
    /// The receiver asked to resume: the file is to be hashed up to the
    /// offset it named.
    Rehash,
    /// The file is being sent.
    Streaming,
    /// The final hash has been sent.
    Done,
    /// The transfer has failed. Its substream is of no more use.
    Failed,
}

/// What the sender is to do after a chunk has been taken.
pub struct SentBlock {
    /// The record to write to the substream.
    pub record: Vec<u8>,
    /// The event to report.
    pub event: Event,
    /// Whether this was the final hash: the write side is to be closed.
    pub complete: bool,
}

/// The sender's half of one transfer.
pub struct SenderTransfer {
    stream: EncryptionStream,
    metadata: FlapFileMetadata,
    phase: SenderPhase,
    /// The offset that the receiver asked to resume at.
    offset: u64,
    /// The bytes sent since the resume point.
    count: u64,
    progress: Progress,
    emitted: Ghost<Seq<EventView>>,
    /// What had been hashed when the streaming began.
    base: Ghost<Seq<u8>>,
    /// The chunks taken since the streaming began.
    chunks: Ghost<Seq<Seq<u8>>>,
    /// What had been sealed when the streaming began.
    sealed_before: Ghost<Seq<FrameView>>,
}

impl SenderTransfer {
    pub closed spec fn phase(&self) -> SenderPhase {
        self.phase
    }

    /// What had been hashed when the streaming began: the file up to the
    /// resume point.
    pub closed spec fn streaming_base(&self) -> Seq<u8> {
        self.base@
    }

    /// The chunks taken since the streaming began, oldest first.
    pub closed spec fn streamed(&self) -> Seq<Seq<u8>> {
        self.chunks@
    }

    /// The frames that had been sealed when the streaming began.
    pub closed spec fn sealed_before_streaming(&self) -> Seq<FrameView> {
        self.sealed_before@
    }

    /// The identifier of the transfer.
    pub closed spec fn id(&self) -> Seq<u8> {
        self.stream.spec_transfer_id()
    }

    /// The metadata of the file.
    pub closed spec fn metadata(&self) -> MetadataView {
        self.metadata@
    }

    /// The offset that the receiver asked to resume at.
    pub closed spec fn offset(&self) -> u64 {
        self.offset
    }

    /// The bytes sent since the resume point.
    pub closed spec fn count(&self) -> u64 {
        self.count
    }

    /// The content hashed so far: the file up to the resume point, and what
    /// has been sent since.
    pub closed spec fn hashed(&self) -> Seq<u8> {
        self.stream.hashed()
    }

    /// The events reported so far, oldest first.
    pub closed spec fn emitted(&self) -> Seq<EventView> {
        self.emitted@
    }

    /// The frames sealed into the records handed out so far, oldest first:
    /// what the receiver gets to read.
    pub closed spec fn sealed(&self) -> Seq<FrameView> {
        self.stream.sealed()
    }

    /// The events reported so far are a possible sequence of events of this
    /// transfer, and they have come as far as the phase says.
    pub closed spec fn wf(&self) -> bool {
        &&& Progress::spec_run(self.id(), self.emitted@) == Some(self.progress)
        &&& match self.phase {
            SenderPhase::SendMeta => self.progress == Progress::NotStarted && self.count == 0,
            SenderPhase::AwaitResume => self.progress == Progress::Streaming(0) && self.count == 0,
            SenderPhase::Rehash => self.progress == Progress::Streaming(0) && self.count == 0,
            SenderPhase::Streaming => {
                &&& self.progress == Progress::Streaming(self.count)
                &&& self.streaming()
                &&& forall|i: int|
                    0 <= i < self.chunks@.len() ==> (#[trigger] self.chunks@[i]).len() > 0
            },
            SenderPhase::Done => {
                &&& self.progress == Progress::Complete
                &&& self.streaming()
                &&& self.chunks@.len() > 0
                &&& self.chunks@.last().len() == 0
                &&& forall|i: int|
                    0 <= i < self.chunks@.len() - 1 ==> (#[trigger] self.chunks@[i]).len() > 0
            },
            SenderPhase::Failed => true,
        }
        &&& self.phase != SenderPhase::Failed ==> !self.stream.broken()
    }

    /// What has been hashed, counted and sealed is what the chunks taken
    /// since the streaming began make of what was there before.
    pub closed spec fn streaming(&self) -> bool {
        &&& self.base@.len() == self.offset
        &&& self.stream.hashed() == self.base@ + spec_concat(self.chunks@)
        &&& self.count == Self::spec_count_after(0, spec_concat(self.chunks@).len())
        &&& self.stream.sealed() == self.sealed_before@ + spec_chunk_frames(
            self.base@,
            self.chunks@,
        )
    }

    /// Whether two states of a transfer are the same in all that can be
    /// observed.
    pub open spec fn same(&self, other: &SenderTransfer) -> bool {
        &&& self.phase() == other.phase()
        &&& self.id() == other.id()
        &&& self.metadata() == other.metadata()
        &&& self.offset() == other.offset()
        &&& self.count() == other.count()
        &&& self.hashed() == other.hashed()
        &&& self.emitted() == other.emitted()
        &&& self.sealed() == other.sealed()
        &&& self.streaming_base() == other.streaming_base()
        &&& self.streamed() == other.streamed()
        &&& self.sealed_before_streaming() == other.sealed_before_streaming()
    }

    /// The bytes reported after `length` more have been sent: the sum, or
    /// the largest number where the sum is out of range.
    pub open spec fn spec_count_after(count: u64, length: nat) -> u64 {
        if count + length > u64::MAX {
            u64::MAX
        } else {
            (count + length) as u64
        }
    }

    /// The events of a transfer are well ordered at every moment.
    pub proof fn lemma_well_ordered(&self)
        requires
            self.wf(),
        ensures
            well_ordered(self.id(), self.emitted()),
    {
    }

    /// While a sender streams and when it is done, what it has hashed,
    /// counted and sealed is what its chunks make of the file up to the
    /// resume point: the hashed content is that beginning followed by the
    /// chunks, the count is their length, and the frames sealed since the
    /// streaming began are the frames of the chunks. A sender that streams
    /// has taken chunks with bytes only; one that is done has taken the
    /// empty chunk last and only last.
    pub proof fn lemma_streamed(&self)
        requires
            self.wf(),
            self.phase() == SenderPhase::Streaming || self.phase() == SenderPhase::Done,
        ensures
            self.streaming_base().len() == self.offset(),
            self.hashed() == self.streaming_base() + spec_concat(self.streamed()),
            self.count() == Self::spec_count_after(0, spec_concat(self.streamed()).len()),
            self.sealed() == self.sealed_before_streaming() + spec_chunk_frames(
                self.streaming_base(),
                self.streamed(),
            ),
            self.phase() == SenderPhase::Streaming ==> forall|i: int|
                0 <= i < self.streamed().len() ==> (#[trigger] self.streamed()[i]).len() > 0,
            self.phase() == SenderPhase::Done ==> {
                &&& self.streamed().len() > 0
                &&& self.streamed().last().len() == 0
                &&& forall|i: int|
                    0 <= i < self.streamed().len() - 1 ==> (#[trigger] self.streamed()[i]).len()
                        > 0
            },
    {
    }

    /// The sender's half of the transfer of the file that `metadata`
    /// describes, over a channel that has completed its handshake.
    pub fn new(stream: EncryptionStream, metadata: FlapFileMetadata) -> (transfer: SenderTransfer)
        ensures
            transfer.wf(),
            transfer.phase() == (if stream.broken() {
                SenderPhase::Failed
            } else {
                SenderPhase::SendMeta
            }),
            transfer.id() == stream.spec_transfer_id(),
            transfer.metadata() == metadata@,
            transfer.hashed() == stream.hashed(),
            transfer.sealed() == stream.sealed(),
            transfer.count() == 0,
            transfer.emitted() == Seq::<EventView>::empty(),
            transfer.streamed() == Seq::<Seq<u8>>::empty(),
    {
        let phase = if stream.is_broken() {
            SenderPhase::Failed
        } else {
            SenderPhase::SendMeta
        };
        SenderTransfer {
            stream,
            metadata,
            phase,
            offset: 0,
            count: 0,
            progress: Progress::NotStarted,
            emitted: Ghost(Seq::empty()),
            base: Ghost(Seq::empty()),
            chunks: Ghost(Seq::empty()),
            sealed_before: Ghost(Seq::empty()),
        }
    }

    /// Where the transfer stands.
    pub fn current_phase(&self) -> (phase: SenderPhase)
        ensures
            phase == self.phase(),
    {
        self.phase
    }

    pub fn transfer_id(&self) -> (id: TransferId)
        ensures
            id@ == self.id(),
    {
        self.stream.transfer_id()
    }

    /// The offset that the receiver asked to resume at.
    pub fn resume_offset(&self) -> (offset: u64)
        ensures
            offset == self.offset(),
    {
        self.offset
    }

    /// The bytes sent since the resume point.
    pub fn bytes_sent(&self) -> (count: u64)
        ensures
            count == self.count(),
    {
        self.count
    }

    /// Announces the file: seals the frame `IWillSendThisFile` with the
    /// metadata of the file, and returns the record to send and the event
    /// `PreparingFile` to report once it is sent.
    ///
    /// Out of turn the call fails with `Unknown` and changes nothing.
    /// Metadata over its limit is a `SerializationError`, a refusal of the
    /// Noise layer a `SnowError`; both fail the transfer.
    pub fn announce(&mut self) -> (res: Result<(Vec<u8>, Event), Error>)
        requires
            old(self).wf(),
        ensures
            final(self).wf(),
            final(self).id() == old(self).id(),
            final(self).metadata() == old(self).metadata(),
            final(self).hashed() == old(self).hashed(),
            if old(self).phase() != SenderPhase::SendMeta {
                res matches Err(e) && e == Error::Unknown && final(self).same(old(self))
            } else {
                match res {
                    Ok((record, event)) => {
                        &&& final(self).phase() == SenderPhase::AwaitResume
                        &&& event@ == EventView::PreparingFile(
                            old(self).id(),
                            old(self).metadata(),
                            true,
                        )
                        &&& final(self).emitted() == old(self).emitted().push(event@)
                        &&& final(self).sealed() == old(self).sealed().push(
                            FrameView::IWillSendThisFile(old(self).metadata()),
                        )
                        &&& old(self).metadata().fits()
                        &&& is_record(record@)
                        &&& record@.len() == old(self).metadata().encoding().len() + 1
                            + NOISE_TAG_LENGTH + RECORD_HEADER_LENGTH
                    },
                    Err(e) => {
                        &&& final(self).phase() == SenderPhase::Failed
                        &&& final(self).emitted() == old(self).emitted()
                        &&& final(self).sealed() == old(self).sealed()
                        &&& if old(self).metadata().fits() {
                            e == Error::SnowError
                        } else {
                            e == Error::SerializationError
                        }
                    },
                }
            },
    {
        match self.phase {
            SenderPhase::SendMeta => {},
            _ => {
                return Err(Error::Unknown);
            },
        }
        let announced = self.metadata.clone();
        let reported = self.metadata.clone();
        match self.stream.send_file_metadata(announced) {
            Ok(record) => {
                let event = Event::PreparingFile(self.stream.transfer_id(), reported, true);
                proof {
                    lemma_run_push(self.id(), self.emitted@, event@);
                    assert(Progress::NotStarted.spec_after(self.id(), event@) == Some(
                        Progress::Streaming(0),
                    ));
                }
                self.emitted = Ghost(self.emitted@.push(event@));
                self.progress = Progress::Streaming(0);
                self.phase = SenderPhase::AwaitResume;
                Ok((record, event))
            },
            Err(e) => {
                self.phase = SenderPhase::Failed;
                Err(e)
            },
        }
    }

    /// Takes the message of the record that answers the announcement and
    /// returns the offset that the receiver asks to resume at. From offset
    /// zero the file is sent as it is, with a hasher that has been fed
    /// nothing; from any other the file is first to be hashed up to that
    /// offset.
    ///
    /// Out of turn the call fails with `Unknown` and changes nothing. A
    /// message that does not authenticate or holds anything but the request
    /// fails the transfer.
    pub fn on_resume_request(&mut self, message: &[u8]) -> (res: Result<u64, Error>)
        requires
            old(self).wf(),
        ensures
            final(self).wf(),
            final(self).id() == old(self).id(),
            final(self).metadata() == old(self).metadata(),
            final(self).emitted() == old(self).emitted(),
            final(self).sealed() == old(self).sealed(),
            final(self).count() == old(self).count(),
            if old(self).phase() != SenderPhase::AwaitResume {
                res matches Err(e) && e == Error::Unknown && final(self).same(old(self))
            } else {
                match res {
                    Ok(offset) => {
                        &&& final(self).offset() == offset
                        &&& if offset == 0 {
                            &&& final(self).phase() == SenderPhase::Streaming
                            &&& final(self).hashed() == Seq::<u8>::empty()
                            &&& final(self).streaming_base() == Seq::<u8>::empty()
                            &&& final(self).streamed() == Seq::<Seq<u8>>::empty()
                            &&& final(self).sealed_before_streaming() == old(self).sealed()
                        } else {
                            &&& final(self).phase() == SenderPhase::Rehash
                            &&& final(self).hashed() == old(self).hashed()
                        }
                    },
                    Err(e) => {
                        &&& final(self).phase() == SenderPhase::Failed
                        &&& final(self).hashed() == old(self).hashed()
                        &&& e == Error::SnowError || e == Error::SerializationError || e
                            == Error::UnexpectedFrame
                    },
                }
            },
    {
        match self.phase {
            SenderPhase::AwaitResume => {},
            _ => {
                return Err(Error::Unknown);
            },
        }
        match self.stream.wait_for_ready(message) {
            Ok(seek) => {
                self.offset = seek;
                if seek == 0 {
                    // From the start of the file nothing has been hashed yet.
                    self.stream.set_file_hasher(Blake3::new());
                    self.base = Ghost(Seq::empty());
                    self.chunks = Ghost(Seq::empty());
                    self.sealed_before = Ghost(self.stream.sealed());
                    self.phase = SenderPhase::Streaming;
                    proof {
                        assert(self.base@ + spec_concat(self.chunks@) =~= Seq::<u8>::empty());
                        assert(self.sealed_before@ + spec_chunk_frames(self.base@, self.chunks@)
                            =~= self.stream.sealed());
                    }
                } else {
                    self.phase = SenderPhase::Rehash;
                }
                Ok(seek)
            },
            Err(e) => {
                self.phase = SenderPhase::Failed;
                Err(e)
            },
        }
    }

    /// Takes the hash of the file up to the resume point, after which the
    /// rest of the file can be sent. The hash must be over as many bytes as
    /// the receiver asked to skip: the final hash is to cover the whole file.
    ///
    /// Out of turn the call fails with `Unknown`. A hash over another number
    /// of bytes than the resume offset, as it comes from a file that is
    /// shorter than the offset, is refused with `FileReadError`. Neither
    /// changes anything.
    pub fn resume_with(&mut self, partial: PartialHash) -> (res: Result<(), Error>)
        requires
            old(self).wf(),
            partial.wf(),
        ensures
            final(self).wf(),
            final(self).id() == old(self).id(),
            final(self).metadata() == old(self).metadata(),
            final(self).emitted() == old(self).emitted(),
            final(self).sealed() == old(self).sealed(),
            final(self).offset() == old(self).offset(),
            final(self).count() == old(self).count(),
            if old(self).phase() != SenderPhase::Rehash {
                res matches Err(e) && e == Error::Unknown && final(self).same(old(self))
            } else if partial.taken() != old(self).offset() {
                res matches Err(e) && e == Error::FileReadError && final(self).same(old(self))
            } else {
                &&& res is Ok
                &&& final(self).phase() == SenderPhase::Streaming
                &&& final(self).hashed() == partial.hashed()
                &&& final(self).hashed().len() == old(self).offset()
                &&& final(self).streaming_base() == partial.hashed()
                &&& final(self).streamed() == Seq::<Seq<u8>>::empty()
                &&& final(self).sealed_before_streaming() == old(self).sealed()
            },
    {
        match self.phase {
            SenderPhase::Rehash => {},
            _ => {
                return Err(Error::Unknown);
            },
        }
        if partial.bytes_taken() != self.offset {
            return Err(Error::FileReadError);
        }
        self.stream.set_file_hasher(partial.finish());
        self.base = Ghost(self.stream.hashed());
        self.chunks = Ghost(Seq::empty());
        self.sealed_before = Ghost(self.stream.sealed());
        self.phase = SenderPhase::Streaming;
        proof {
            assert(self.base@ + spec_concat(self.chunks@) =~= self.stream.hashed());
            assert(self.sealed_before@ + spec_chunk_frames(self.base@, self.chunks@)
                =~= self.stream.sealed());
        }
        Ok(())
    }

    /// Takes the next chunk read from the file; the empty chunk stands for
    /// the end of the file.
    ///
    /// A chunk with bytes is hashed and sealed as file data, and the bytes
    /// sent since the resume point are reported. The empty chunk seals the
    /// hash of everything hashed, which is the whole file, and reports
    /// `TransferComplete`.
    ///
    /// Out of turn the call fails with `Unknown`, on a chunk too long for
    /// one record with `SerializationError`; neither changes anything. A
    /// refusal of the Noise layer is a `SnowError` and fails the transfer.
    pub fn send_chunk(&mut self, chunk: &[u8]) -> (res: Result<SentBlock, Error>)
        requires
            old(self).wf(),
        ensures
            final(self).wf(),
            final(self).id() == old(self).id(),
            final(self).metadata() == old(self).metadata(),
            final(self).offset() == old(self).offset(),
            if old(self).phase() != SenderPhase::Streaming {
                res matches Err(e) && e == Error::Unknown && final(self).same(old(self))
            } else if chunk@.len() + 1 > MAX_FRAME_LENGTH {
                res matches Err(e) && e == Error::SerializationError && final(self).same(old(self))
            } else {
                match res {
                    Ok(block) => {
                        &&& final(self).hashed() == old(self).hashed() + chunk@
                        &&& final(self).sealed() == old(self).sealed().push(
                            EncryptionStream::spec_block_frame(old(self).hashed(), chunk@),
                        )
                        &&& final(self).emitted() == old(self).emitted().push(block.event@)
                        &&& final(self).streamed() == old(self).streamed().push(chunk@)
                        &&& final(self).streaming_base() == old(self).streaming_base()
                        &&& final(self).sealed_before_streaming() == old(
                            self,
                        ).sealed_before_streaming()
                        &&& is_record(block.record@)
                        &&& block.record@.len() == EncryptionStream::spec_block_frame(
                            old(self).hashed(),
                            chunk@,
                        ).encoding().len() + NOISE_TAG_LENGTH + RECORD_HEADER_LENGTH
                        &&& block.complete == (chunk@.len() == 0)
                        &&& if chunk@.len() == 0 {
                            &&& final(self).phase() == SenderPhase::Done
                            &&& final(self).count() == old(self).count()
                            &&& block.event@ == EventView::TransferComplete(old(self).id())
                        } else {
                            &&& final(self).phase() == SenderPhase::Streaming
                            &&& final(self).count() == Self::spec_count_after(
                                old(self).count(),
                                chunk@.len(),
                            )
                            &&& block.event@ == EventView::TransferUpdate(
                                old(self).id(),
                                final(self).count(),
                            )
                        }
                    },
                    Err(e) => {
                        &&& e == Error::SnowError
                        &&& final(self).phase() == SenderPhase::Failed
                        &&& final(self).emitted() == old(self).emitted()
                        &&& final(self).sealed() == old(self).sealed()
                    },
                }
            },
    {
        match self.phase {
            SenderPhase::Streaming => {},
            _ => {
                return Err(Error::Unknown);
            },
        }
        if chunk.len() >= MAX_FRAME_LENGTH {
            return Err(Error::SerializationError);
        }
        let ghost hashed_before = self.stream.hashed();
        let ghost sealed_so_far = self.stream.sealed();
        let ghost run = self.chunks@;
        match self.stream.send_next_file_block(chunk) {
            Ok(record) => {
                proof {
                    lemma_chunks_push(self.base@, run, chunk@);
                    lemma_concat_push(run, chunk@);
                    assert(self.base@ + (spec_concat(run) + chunk@) =~= hashed_before + chunk@);
                    assert(self.sealed_before@ + spec_chunk_frames(self.base@, run.push(chunk@))
                        =~= sealed_so_far.push(
                        EncryptionStream::spec_block_frame(hashed_before, chunk@),
                    ));
                    assert(spec_concat(run.push(chunk@)).len() == spec_concat(run).len()
                        + chunk@.len());
                    assert(run.push(chunk@).last() == chunk@);
                    assert forall|i: int| 0 <= i < run.len() implies (#[trigger] run.push(
                        chunk@,
                    )[i]).len() > 0 by {
                        assert(run.push(chunk@)[i] == run[i]);
                    }
                }
                self.chunks = Ghost(run.push(chunk@));
                let id = self.stream.transfer_id();
                let complete = chunk.len() == 0;
                let event = if complete {
                    self.progress = Progress::Complete;
                    self.phase = SenderPhase::Done;
                    Event::TransferComplete(id)
                } else {
                    let length = chunk.len() as u64;
                    self.count = if self.count > u64::MAX - length {
                        u64::MAX
                    } else {
                        self.count + length
                    };
                    self.progress = Progress::Streaming(self.count);
                    Event::TransferUpdate(id, self.count)
                };
                proof {
                    lemma_run_push(self.id(), self.emitted@, event@);
                }
                self.emitted = Ghost(self.emitted@.push(event@));
                Ok(SentBlock { record, event, complete })
            },
            Err(e) => {
                self.phase = SenderPhase::Failed;
                Err(e)
            },
        }
    }
}

} // verus!
