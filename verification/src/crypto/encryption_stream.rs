//! The secure channel of one substream.
//!
//! Both peers run the Noise pattern
//! `Noise_KKhfs+psk2_25519+Kyber1024_ChaChaPoly_BLAKE2s` on every substream:
//! both static keys are known beforehand (they are the transport's
//! identities, converted to X25519), a Kyber1024 encapsulation adds forward
//! secrecy against a quantum adversary, and the session's file key is mixed
//! in as pre-shared key at position 2. The prologue is the substream's
//! number, so that a handshake cannot be replayed on another substream.
//!
//! The file sender is the initiator: the transport lets only the side that
//! opened a substream write first.
//!
//! On the wire every Noise message, of the handshake and of the transport
//! phase alike, is a record: its length as two big-endian bytes, then the
//! message. This module makes and reads records; sending and receiving them
//! is left to whoever owns the substream.

use vstd::prelude::*;

use crate::crypto::blake3::{blake3_digest, Blake3, FileHash};
use crate::crypto::file_key::{file_key_info, FILE_KEY_LENGTH};
use crate::crypto::hkdf_sha256_okm;
use crate::crypto::transfer_id::TransferId;
use crate::crypto::x25519::{
    iroh_public_to_x25519_public, iroh_secret_to_x25519_secret, x25519_public_of, x25519_secret_of,
};
use crate::encoding::{
    array_from_slice, be_u16, be_u64, from_be_u16, get_u16, put_slice, put_u16, put_u64,
};
use crate::error::Error;
use crate::fs::metadata::FlapFileMetadata;
use crate::p2p::frame::{Frame, FrameView, MAX_NOISE_MESSAGE_LENGTH};
use crate::ticket::Ticket;

verus! {

/// The Noise pattern that both peers run.
pub const NOISE_PATTERN: &'static str = "Noise_KKhfs+psk2_25519+Kyber1024_ChaChaPoly_BLAKE2s";

/// The position of the pre-shared key in the pattern.
pub const PSK_LOCATION: u8 = 2;

/// The bytes that authenticated encryption adds to a message.
pub const NOISE_TAG_LENGTH: usize = 16;

/// The bytes of a record's length prefix.
pub const RECORD_HEADER_LENGTH: usize = 2;

/// The most bytes that a frame may serialize to, so that its ciphertext
/// still fits one record.
pub const MAX_FRAME_LENGTH: usize = 65519;

#[verifier::external_type_specification]
#[verifier::external_body]
pub struct ExHandshakeState(snow::HandshakeState);

#[verifier::external_type_specification]
#[verifier::external_body]
pub struct ExTransportState(snow::TransportState);

/// `snow::Builder::build_initiator`, on a builder made by `Builder::new` from
/// the parsed pattern and given the local private key, the remote public
/// key, the prologue and the pre-shared key.
///
/// Trusted: nothing is claimed of the state that comes back; `None` stands
/// for an error of the Noise layer at any of these steps.
#[verifier::external_body]
fn noise_build_initiator(
    pattern: &str,
    local_private_key: &[u8; 32],
    remote_public_key: &[u8; 32],
    prologue: &[u8],
    psk_location: u8,
    psk: &[u8; 32],
) -> (built: Option<snow::HandshakeState>) {
    snow::Builder::new(pattern.parse().ok()?)
        .local_private_key(local_private_key).ok()?
        .remote_public_key(remote_public_key).ok()?
        .prologue(prologue).ok()?
        .psk(psk_location, psk).ok()?
        .build_initiator().ok()
}

/// `snow::Builder::build_responder`, on a builder made as for the initiator.
///
/// Trusted: nothing is claimed of the state that comes back; `None` stands
/// for an error of the Noise layer at any of these steps.
#[verifier::external_body]
fn noise_build_responder(
    pattern: &str,
    local_private_key: &[u8; 32],
    remote_public_key: &[u8; 32],
    prologue: &[u8],
    psk_location: u8,
    psk: &[u8; 32],
) -> (built: Option<snow::HandshakeState>) {
    snow::Builder::new(pattern.parse().ok()?)
        .local_private_key(local_private_key).ok()?
        .remote_public_key(remote_public_key).ok()?
        .prologue(prologue).ok()?
        .psk(psk_location, psk).ok()?
        .build_responder().ok()
}

/// `snow::HandshakeState::write_message` with an empty payload, into a
/// buffer of one full Noise message.
///
/// Trusted: a message that comes back is no longer than the buffer; `None`
/// stands for an error of the Noise layer.
#[verifier::external_body]
fn handshake_write(state: &mut snow::HandshakeState, buffer_length: usize) -> (written: Option<Vec<u8>>)
    requires
        buffer_length == MAX_NOISE_MESSAGE_LENGTH,
    ensures
        written matches Some(message) ==> message@.len() <= buffer_length,
{
    let mut message = vec![0u8; buffer_length];
    let length = state.write_message(&[], &mut message).ok()?;
    message.truncate(length);
    Some(message)
}

/// `snow::HandshakeState::read_message`, with a buffer of one full Noise
/// message for the payload, which is dropped: the handshake carries none.
///
/// Trusted: nothing is claimed of the outcome; `false` stands for an error
/// of the Noise layer.
#[verifier::external_body]
fn handshake_read(
    state: &mut snow::HandshakeState,
    message: &[u8],
    buffer_length: usize,
) -> (read: bool)
    requires
        buffer_length == MAX_NOISE_MESSAGE_LENGTH,
{
    let mut payload = vec![0u8; buffer_length];
    state.read_message(message, &mut payload).is_ok()
}

/// `snow::HandshakeState::is_handshake_finished`.
///
/// Trusted: nothing is claimed of the answer.
#[verifier::external_body]
fn handshake_finished(state: &snow::HandshakeState) -> (finished: bool) {
    state.is_handshake_finished()
}

/// `snow::HandshakeState::get_handshake_hash`.
///
/// Trusted: nothing is claimed of the hash, not even its length, which
/// depends on the pattern.
#[verifier::external_body]
fn handshake_hash(state: &snow::HandshakeState) -> (hash: Vec<u8>) {
    state.get_handshake_hash().to_vec()
}

/// `snow::HandshakeState::into_transport_mode`.
///
/// Trusted: nothing is claimed of the state that comes back; `None` stands
/// for an error of the Noise layer.
#[verifier::external_body]
fn handshake_into_transport(state: snow::HandshakeState) -> (transport: Option<snow::TransportState>) {
    state.into_transport_mode().ok()
}

/// `snow::TransportState::write_message`, into a buffer of `buffer_length`
/// bytes.
///
/// Trusted: a message that comes back is the payload's length plus the
/// sixteen bytes of the authentication tag; `None` stands for an error of
/// the Noise layer.
#[verifier::external_body]
fn transport_write(
    state: &mut snow::TransportState,
    payload: &[u8],
    buffer_length: usize,
) -> (written: Option<Vec<u8>>)
    ensures
        written matches Some(message) ==> message@.len() == payload@.len() + NOISE_TAG_LENGTH,
{
    let mut message = vec![0u8; buffer_length];
    let length = state.write_message(payload, &mut message).ok()?;
    message.truncate(length);
    Some(message)
}

/// `snow::TransportState::read_message`, into a buffer of `buffer_length`
/// bytes.
///
/// Trusted: a payload that comes back is the message's length less the
/// sixteen bytes of the authentication tag; `None` stands for an error of
/// the Noise layer, which a message that does not authenticate is.
#[verifier::external_body]
fn transport_read(
    state: &mut snow::TransportState,
    message: &[u8],
    buffer_length: usize,
) -> (read: Option<Vec<u8>>)
    ensures
        read matches Some(payload) ==> payload@.len() + NOISE_TAG_LENGTH == message@.len(),
{
    let mut payload = vec![0u8; buffer_length];
    let length = state.read_message(message, &mut payload).ok()?;
    payload.truncate(length);
    Some(payload)
}

/// The record that carries `message`: its length in two big-endian bytes,
/// then the message.
pub open spec fn spec_record(message: Seq<u8>) -> Seq<u8>
    recommends
        message.len() <= MAX_NOISE_MESSAGE_LENGTH,
{
    be_u16(message.len() as u16) + message
}

/// Whether `bytes` are exactly one record.
pub open spec fn is_record(bytes: Seq<u8>) -> bool {
    bytes.len() >= RECORD_HEADER_LENGTH && from_be_u16(bytes) == bytes.len() - RECORD_HEADER_LENGTH
}

/// Records are what `spec_record` makes, and the message can be read off a
/// record.
pub proof fn lemma_record(message: Seq<u8>)
    requires
        message.len() <= MAX_NOISE_MESSAGE_LENGTH,
    ensures
        is_record(spec_record(message)),
        spec_record(message).skip(RECORD_HEADER_LENGTH as int) == message,
        spec_record(message).len() == message.len() + RECORD_HEADER_LENGTH,
{
    crate::encoding::lemma_be_u16_roundtrip(message.len() as u16);
    let record = spec_record(message);
    assert(record.skip(2) =~= message);
    assert(record[0] == be_u16(message.len() as u16)[0]);
    assert(record[1] == be_u16(message.len() as u16)[1]);
}

/// Puts the length prefix before a Noise message.
pub fn encode_record(message: &[u8]) -> (record: Vec<u8>)
    requires
        message.len() <= MAX_NOISE_MESSAGE_LENGTH,
    ensures
        record@ == spec_record(message@),
        is_record(record@),
{
    let mut record: Vec<u8> = Vec::new();
    put_u16(&mut record, message.len() as u16);
    put_slice(&mut record, message);
    proof {
        lemma_record(message@);
    }
    record
}

/// The length of the message that follows a record's two header bytes.
pub fn record_length(header: &[u8; 2]) -> (length: usize)
    ensures
        length == from_be_u16(header@),
        length <= MAX_NOISE_MESSAGE_LENGTH,
{
    get_u16(header.as_slice()) as usize
}

/// The message inside `record`, or `None` where `record` is not exactly one
/// record: too short for its header, or longer or shorter than its header
/// says.
pub fn decode_record(record: &[u8]) -> (message: Option<Vec<u8>>)
    ensures
        match message {
            Some(m) => is_record(record@) && m@ == record@.skip(RECORD_HEADER_LENGTH as int),
            None => !is_record(record@),
        },
{
    if record.len() < RECORD_HEADER_LENGTH {
        return None;
    }
    let length = get_u16(record) as usize;
    if record.len() - RECORD_HEADER_LENGTH != length {
        return None;
    }
    let body = vstd::slice::slice_subrange(record, RECORD_HEADER_LENGTH, record.len());
    assert(body@ =~= record@.skip(RECORD_HEADER_LENGTH as int));
    Some(vstd::slice::slice_to_vec(body))
}

/// What the Noise layer is given to set up the handshake of a substream,
/// besides the pattern and the position of the pre-shared key.
pub struct NoiseSetup {
    /// Whether this side writes the first message.
    pub initiator: bool,
    /// Our static key.
    pub local_private_key: [u8; 32],
    /// The static key of the peer.
    pub remote_public_key: [u8; 32],
    /// What binds the handshake to its substream.
    pub prologue: Vec<u8>,
    /// The pre-shared key.
    pub psk: [u8; 32],
}

/// What a setup holds.
pub struct NoiseSetupView {
    pub initiator: bool,
    pub local_private_key: Seq<u8>,
    pub remote_public_key: Seq<u8>,
    pub prologue: Seq<u8>,
    pub psk: Seq<u8>,
}

impl View for NoiseSetup {
    type V = NoiseSetupView;

    open spec fn view(&self) -> NoiseSetupView {
        NoiseSetupView {
            initiator: self.initiator,
            local_private_key: self.local_private_key@,
            remote_public_key: self.remote_public_key@,
            prologue: self.prologue@,
            psk: self.psk@,
        }
    }
}

/// What a handshake waits for.
#[derive(Debug, Clone, Copy, PartialEq, Eq, Structural)]
pub enum HandshakeStep {
    /// A message of ours is due: call `write_message` and send the record.
    Send,
    /// A message of the peer is due: receive a record and hand its message
    /// to `read_message`.
    Receive,
    /// Both messages have been exchanged: call `finish`.
    Finish,
    /// The handshake failed. Nothing of it may be used again.
    Failed,
}

/// A handshake in progress.
///
/// The pattern has two messages. The initiator writes the first and reads the
/// second; the responder reads the first and writes the second.
pub struct Handshake {
    state: snow::HandshakeState,
    is_sender: bool,
    /// How many of the two messages have been exchanged.
    exchanged: u8,
    failed: bool,
    /// What the Noise layer was given when the handshake was built.
    built: Ghost<NoiseBuild>,
}

/// Everything that the Noise layer is given to build a handshake.
pub struct NoiseBuild {
    /// The name of the Noise pattern.
    pub pattern: Seq<char>,
    /// The position of the pre-shared key in the pattern.
    pub psk_location: u8,
    /// The role, the keys and the prologue.
    pub setup: NoiseSetupView,
}

impl Handshake {
    /// Whether this side sends the file, and therefore initiates.
    pub closed spec fn is_sender(&self) -> bool {
        self.is_sender
    }

    /// How many handshake messages have been exchanged.
    pub closed spec fn exchanged(&self) -> nat {
        self.exchanged as nat
    }

    /// Whether the handshake has failed.
    pub closed spec fn failed(&self) -> bool {
        self.failed
    }

    /// The Noise pattern that the handshake was built with.
    pub closed spec fn pattern(&self) -> Seq<char> {
        self.built@.pattern
    }

    /// The position of the pre-shared key that the handshake was built with.
    pub closed spec fn psk_location(&self) -> u8 {
        self.built@.psk_location
    }

    /// The role, the keys and the prologue that the handshake was built
    /// with.
    pub closed spec fn setup(&self) -> NoiseSetupView {
        self.built@.setup
    }

    /// What the handshake waits for.
    pub open spec fn spec_next_step(&self) -> HandshakeStep {
        if self.failed() {
            HandshakeStep::Failed
        } else if self.exchanged() == 0 {
            if self.is_sender() {
                HandshakeStep::Send
            } else {
                HandshakeStep::Receive
            }
        } else if self.exchanged() == 1 {
            if self.is_sender() {
                HandshakeStep::Receive
            } else {
                HandshakeStep::Send
            }
        } else {
            HandshakeStep::Finish
        }
    }

    /// What the handshake waits for.
    pub fn next_step(&self) -> (step: HandshakeStep)
        ensures
            step == self.spec_next_step(),
    {
        if self.failed {
            HandshakeStep::Failed
        } else if self.exchanged == 0 {
            if self.is_sender {
                HandshakeStep::Send
            } else {
                HandshakeStep::Receive
            }
        } else if self.exchanged == 1 {
            if self.is_sender {
                HandshakeStep::Receive
            } else {
                HandshakeStep::Send
            }
        } else {
            HandshakeStep::Finish
        }
    }

    /// Hands a pattern, the position of the pre-shared key and a setup to
    /// the Noise layer, which builds the state of an initiator or of a
    /// responder as the setup says. `None` where the Noise layer refuses.
    fn build(pattern: &str, psk_location: u8, setup: &NoiseSetup) -> (built: Option<Handshake>)
        ensures
            built matches Some(handshake) ==> {
                &&& handshake.pattern() == pattern@
                &&& handshake.psk_location() == psk_location
                &&& handshake.setup() == setup@
                &&& handshake.is_sender() == setup.initiator
                &&& handshake.exchanged() == 0
                &&& !handshake.failed()
            },
    {
        let state = if setup.initiator {
            noise_build_initiator(
                pattern,
                &setup.local_private_key,
                &setup.remote_public_key,
                setup.prologue.as_slice(),
                psk_location,
                &setup.psk,
            )
        } else {
            noise_build_responder(
                pattern,
                &setup.local_private_key,
                &setup.remote_public_key,
                setup.prologue.as_slice(),
                psk_location,
                &setup.psk,
            )
        };
        match state {
            Some(state) => Some(
                Handshake {
                    state,
                    is_sender: setup.initiator,
                    exchanged: 0,
                    failed: false,
                    built: Ghost(NoiseBuild { pattern: pattern@, psk_location, setup: setup@ }),
                },
            ),
            None => None,
        }
    }

    /// Sets up the handshake that `setup` describes, with the pattern and
    /// the position of the pre-shared key that both peers use. Whatever the
    /// Noise layer refuses is a `SnowError`.
    pub fn start(setup: &NoiseSetup) -> (res: Result<Handshake, Error>)
        ensures
            match res {
                Ok(handshake) => {
                    &&& handshake.pattern() == NOISE_PATTERN@
                    &&& handshake.psk_location() == PSK_LOCATION
                    &&& handshake.setup() == setup@
                    &&& handshake.is_sender() == setup.initiator
                    &&& handshake.exchanged() == 0
                    &&& !handshake.failed()
                },
                Err(e) => e == Error::SnowError,
            },
    {
        match Self::build(NOISE_PATTERN, PSK_LOCATION, setup) {
            Some(handshake) => Ok(handshake),
            None => Err(Error::SnowError),
        }
    }

    /// Writes our handshake message and returns it as a record to send.
    ///
    /// Out of turn, or where the Noise layer refuses, the handshake has
    /// failed for good and the error is `SnowError`.
    pub fn write_message(&mut self) -> (res: Result<Vec<u8>, Error>)
        ensures
            final(self).is_sender() == old(self).is_sender(),
            final(self).pattern() == old(self).pattern(),
            final(self).psk_location() == old(self).psk_location(),
            final(self).setup() == old(self).setup(),
            match res {
                Ok(record) => {
                    &&& old(self).spec_next_step() == HandshakeStep::Send
                    &&& final(self).exchanged() == old(self).exchanged() + 1
                    &&& !final(self).failed()
                    &&& is_record(record@)
                },
                Err(e) => e == Error::SnowError && final(self).failed(),
            },
            old(self).spec_next_step() != HandshakeStep::Send ==> res is Err,
    {
        match self.next_step() {
            HandshakeStep::Send => {},
            _ => {
                self.failed = true;
                return Err(Error::SnowError);
            },
        }
        match handshake_write(&mut self.state, MAX_NOISE_MESSAGE_LENGTH) {
            Some(message) => {
                self.exchanged = self.exchanged + 1;
                Ok(encode_record(message.as_slice()))
            },
            None => {
                self.failed = true;
                Err(Error::SnowError)
            },
        }
    }

    /// Reads the peer's handshake message: what followed the length prefix
    /// of the record that arrived.
    ///
    /// Out of turn, or where the Noise layer refuses the message (it was
    /// made with another ticket, for another substream, or tampered with),
    /// the handshake has failed for good and the error is `SnowError`.
    pub fn read_message(&mut self, message: &[u8]) -> (res: Result<(), Error>)
        ensures
            final(self).is_sender() == old(self).is_sender(),
            final(self).pattern() == old(self).pattern(),
            final(self).psk_location() == old(self).psk_location(),
            final(self).setup() == old(self).setup(),
            match res {
                Ok(()) => {
                    &&& old(self).spec_next_step() == HandshakeStep::Receive
                    &&& final(self).exchanged() == old(self).exchanged() + 1
                    &&& !final(self).failed()
                },
                Err(e) => e == Error::SnowError && final(self).failed(),
            },
            old(self).spec_next_step() != HandshakeStep::Receive ==> res is Err,
    {
        match self.next_step() {
            HandshakeStep::Receive => {},
            _ => {
                self.failed = true;
                return Err(Error::SnowError);
            },
        }
        if handshake_read(&mut self.state, message, MAX_NOISE_MESSAGE_LENGTH) {
            self.exchanged = self.exchanged + 1;
            Ok(())
        } else {
            self.failed = true;
            Err(Error::SnowError)
        }
    }

    /// Ends the handshake: the channel for the transfer, whose identifier is
    /// the first thirty-two bytes of the handshake hash, and whose file
    /// hasher is fresh.
    ///
    /// Before both messages have been exchanged, or where the Noise layer
    /// does not consider the handshake complete, the error is `SnowError`.
    pub fn finish(self) -> (res: Result<EncryptionStream, Error>)
        ensures
            match res {
                Ok(stream) => {
                    &&& self.spec_next_step() == HandshakeStep::Finish
                    &&& stream.hashed() == Seq::<u8>::empty()
                    &&& stream.sealed() == Seq::<FrameView>::empty()
                    &&& !stream.broken()
                },
                Err(e) => e == Error::SnowError,
            },
            self.spec_next_step() != HandshakeStep::Finish ==> res is Err,
    {
        match self.next_step() {
            HandshakeStep::Finish => {},
            _ => {
                return Err(Error::SnowError);
            },
        }
        if !handshake_finished(&self.state) {
            return Err(Error::SnowError);
        }
        let hash = handshake_hash(&self.state);
        let transfer_id = match Self::transfer_id_of(hash.as_slice()) {
            Some(id) => id,
            None => {
                return Err(Error::SnowError);
            },
        };
        match handshake_into_transport(self.state) {
            Some(noise) => Ok(
                EncryptionStream {
                    file_hash: Blake3::new(),
                    noise,
                    transfer_id,
                    broken: false,
                    sealed: Ghost(Seq::empty()),
                },
            ),
            None => Err(Error::SnowError),
        }
    }

    /// The transfer identifier that a handshake hash yields: its first
    /// thirty-two bytes. `None` where the hash is shorter.
    pub fn transfer_id_of(handshake_hash: &[u8]) -> (id: Option<TransferId>)
        ensures
            match id {
                Some(id) => handshake_hash@.len() >= 32 && id@ == handshake_hash@.take(32),
                None => handshake_hash@.len() < 32,
            },
    {
        if handshake_hash.len() < 32 {
            None
        } else {
            let head = vstd::slice::slice_subrange(handshake_hash, 0, 32);
            Some(TransferId(array_from_slice::<32>(head)))
        }
    }
}

/// What arrived in the streaming phase of a transfer.
#[derive(Debug, PartialEq, Eq)]
pub enum FileBlock {
    /// The next bytes of the file. They have been fed to the file hasher and
    /// are to be appended to the staging file.
    Data(Vec<u8>),
    /// The sender is done, and the hash it claims, which is this one, is the
    /// hash of everything that was received.
    Complete(FileHash),
}

/// What a block says.
pub enum BlockView {
    Data(Seq<u8>),
    Complete(Seq<u8>),
}

impl View for FileBlock {
    type V = BlockView;

    open spec fn view(&self) -> BlockView {
        match self {
            FileBlock::Data(bytes) => BlockView::Data(bytes@),
            FileBlock::Complete(hash) => BlockView::Complete(hash@),
        }
    }
}

/// What the outcome of taking a block says.
pub open spec fn block_outcome(res: Result<FileBlock, Error>) -> Result<BlockView, Error> {
    match res {
        Ok(block) => Ok(block@),
        Err(e) => Err(e),
    }
}

/// The encrypted channel of one file transfer, after the handshake.
///
/// It seals frames into records and opens records into frames, and keeps the
/// running hash of the file's content. Any failure of the Noise layer, and
/// any frame that cannot be read or does not belong, breaks the channel for
/// good: every later call fails.
pub struct EncryptionStream {
    file_hash: Blake3,
    noise: snow::TransportState,
    transfer_id: TransferId,
    broken: bool,
    /// The frames that were sealed into records.
    sealed: Ghost<Seq<FrameView>>,
}

impl EncryptionStream {
    /// The content of the file hashed so far: what was staged before the
    /// transfer resumed, and what has been sent or received since.
    pub closed spec fn hashed(&self) -> Seq<u8> {
        self.file_hash@
    }

    /// The identifier of the transfer.
    pub closed spec fn spec_transfer_id(&self) -> Seq<u8> {
        self.transfer_id@
    }

    /// Whether the channel is broken.
    pub closed spec fn broken(&self) -> bool {
        self.broken
    }

    /// The frames that were sealed into the records handed out so far, in
    /// the order of sealing: what the peer gets to read.
    pub closed spec fn sealed(&self) -> Seq<FrameView> {
        self.sealed@
    }

    /// Whether a frame can be sealed into one record: it is within the size
    /// bounds and leaves room for the authentication tag.
    pub open spec fn sealable(frame: FrameView) -> bool {
        frame.within_bounds() && frame.encoding().len() <= MAX_FRAME_LENGTH
    }

    /// The frame that carries the next chunk read from the file: its bytes,
    /// or, at the end of the file, the hash of everything hashed so far.
    pub open spec fn spec_block_frame(hashed: Seq<u8>, chunk: Seq<u8>) -> FrameView {
        if chunk.len() == 0 {
            FrameView::TransferComplete(blake3_digest(hashed))
        } else {
            FrameView::FileData(chunk)
        }
    }

    /// What a frame of the streaming phase means to a receiver that has
    /// hashed `hashed`: file data is taken; the sender's final hash is taken
    /// if it is the hash of `hashed` and is an `InvalidBlake3Hash` if not;
    /// any other frame is out of place.
    pub open spec fn spec_accept_block(hashed: Seq<u8>, frame: FrameView) -> Result<
        BlockView,
        Error,
    > {
        match frame {
            FrameView::FileData(data) => Ok(BlockView::Data(data)),
            FrameView::TransferComplete(claimed) => if claimed == blake3_digest(hashed) {
                Ok(BlockView::Complete(claimed))
            } else {
                Err(Error::InvalidBlake3Hash)
            },
            _ => Err(Error::UnexpectedFrame),
        }
    }

    /// What a receiver has hashed after a frame of the streaming phase: file
    /// data is added, nothing else is.
    pub open spec fn spec_hashed_after(hashed: Seq<u8>, frame: FrameView) -> Seq<u8> {
        match frame {
            FrameView::FileData(data) => hashed + data,
            _ => hashed,
        }
    }

    /// Sender and receiver stay in step. A receiver that has hashed the same
    /// content as the sender takes the frame that the sender makes of its
    /// next chunk, and both have hashed the same content afterwards; at the
    /// end of the file the hash that the sender claims is the hash that the
    /// receiver computes, and the transfer is complete.
    pub proof fn lemma_blocks_in_step(content: Seq<u8>, chunk: Seq<u8>)
        ensures
            Self::spec_hashed_after(content, Self::spec_block_frame(content, chunk)) == content
                + chunk,
            Self::spec_accept_block(content, Self::spec_block_frame(content, chunk)) == (if chunk.len()
                == 0 {
                Ok::<BlockView, Error>(BlockView::Complete(blake3_digest(content)))
            } else {
                Ok::<BlockView, Error>(BlockView::Data(chunk))
            }),
    {
        assert(content + chunk =~= Self::spec_hashed_after(
            content,
            Self::spec_block_frame(content, chunk),
        ));
    }

    /// A hash that is not the hash of what the receiver has hashed is never
    /// taken for the end of the transfer.
    pub proof fn lemma_wrong_hash_refused(hashed: Seq<u8>, claimed: Seq<u8>)
        requires
            claimed != blake3_digest(hashed),
        ensures
            Self::spec_accept_block(hashed, FrameView::TransferComplete(claimed)) == Err::<
                BlockView,
                Error,
            >(Error::InvalidBlake3Hash),
    {
    }

    /// What the Noise layer is given for the handshake of a substream.
    ///
    /// The file sender initiates. The static keys are the transport's
    /// identities in their X25519 form: our secret key and the peer's public
    /// key. The prologue is the number of the substream in big-endian order.
    /// The pre-shared key is the file key of the session. There is no setup
    /// where the peer's identity is no point of the curve.
    pub open spec fn spec_setup(
        is_sender: bool,
        iroh_secret_key: Seq<u8>,
        remote_public_key: Seq<u8>,
        stream_id: u64,
        master_key: Seq<u8>,
    ) -> Option<NoiseSetupView> {
        match x25519_public_of(remote_public_key) {
            Some(remote) => Some(
                NoiseSetupView {
                    initiator: is_sender,
                    local_private_key: x25519_secret_of(iroh_secret_key),
                    remote_public_key: remote,
                    prologue: be_u64(stream_id),
                    psk: hkdf_sha256_okm(master_key, file_key_info(), FILE_KEY_LENGTH as nat),
                },
            ),
            None => None,
        }
    }

    /// Derives what the Noise layer is given for the handshake of a
    /// substream. `None` where the peer's identity is no point of the curve.
    pub fn noise_setup(
        is_sender: bool,
        iroh_secret_key: &[u8; 32],
        remote_public_key: &[u8; 32],
        stream_id: u64,
        ticket: &Ticket,
    ) -> (setup: Option<NoiseSetup>)
        ensures
            match setup {
                Some(setup) => Self::spec_setup(
                    is_sender,
                    iroh_secret_key@,
                    remote_public_key@,
                    stream_id,
                    ticket@.master_key,
                ) == Some(setup@),
                None => Self::spec_setup(
                    is_sender,
                    iroh_secret_key@,
                    remote_public_key@,
                    stream_id,
                    ticket@.master_key,
                ) is None,
            },
    {
        let mut prologue: Vec<u8> = Vec::new();
        put_u64(&mut prologue, stream_id);
        assert(prologue@ =~= be_u64(stream_id));
        let file_key = ticket.master_key().file_key();
        let local_x25519_private = iroh_secret_to_x25519_secret(iroh_secret_key);
        match iroh_public_to_x25519_public(remote_public_key) {
            Some(remote_x25519_public) => Some(
                NoiseSetup {
                    // The transport lets only the side that opened a substream write first
                    initiator: is_sender,
                    local_private_key: local_x25519_private,
                    remote_public_key: remote_x25519_public,
                    prologue,
                    psk: *file_key.as_bytes(),
                },
            ),
            None => None,
        }
    }

    /// Begins the handshake of a substream.
    ///
    /// `is_sender` says whether this side sends the file; the sender
    /// initiates. The keys are the transport's identities: our secret key
    /// and the peer's public key. `stream_id` is the number of the
    /// substream, which becomes the prologue. The ticket's secret yields the
    /// pre-shared key.
    ///
    /// A peer identity that is no point of the curve, and whatever the Noise
    /// layer refuses, is a `SnowError`.
    pub fn initiate(
        is_sender: bool,
        iroh_secret_key: &[u8; 32],
        remote_public_key: &[u8; 32],
        stream_id: u64,
        ticket: &Ticket,
    ) -> (res: Result<Handshake, Error>)
        ensures
            match res {
                Ok(handshake) => {
                    &&& handshake.pattern() == NOISE_PATTERN@
                    &&& handshake.psk_location() == PSK_LOCATION
                    &&& Some(handshake.setup()) == Self::spec_setup(
                        is_sender,
                        iroh_secret_key@,
                        remote_public_key@,
                        stream_id,
                        ticket@.master_key,
                    )
                    &&& handshake.is_sender() == is_sender
                    &&& handshake.exchanged() == 0
                    &&& !handshake.failed()
                },
                Err(e) => e == Error::SnowError,
            },
            Self::spec_setup(
                is_sender,
                iroh_secret_key@,
                remote_public_key@,
                stream_id,
                ticket@.master_key,
            ) is None ==> res is Err,
    {
        match Self::noise_setup(is_sender, iroh_secret_key, remote_public_key, stream_id, ticket) {
            Some(setup) => Handshake::start(&setup),
            None => Err(Error::SnowError),
        }
    }

    /// Replaces the file hasher: by the hasher of what is already staged,
    /// when a transfer resumes.
    pub fn set_file_hasher(&mut self, hasher: Blake3)
        ensures
            final(self).hashed() == hasher@,
            final(self).spec_transfer_id() == old(self).spec_transfer_id(),
            final(self).broken() == old(self).broken(),
            final(self).sealed() == old(self).sealed(),
    {
        self.file_hash = hasher;
    }

    pub fn transfer_id(&self) -> (id: TransferId)
        ensures
            id@ == self.spec_transfer_id(),
    {
        self.transfer_id
    }

    /// Whether the channel is broken.
    pub fn is_broken(&self) -> (broken: bool)
        ensures
            broken == self.broken(),
    {
        self.broken
    }

    /// Opens the message of a record that arrived and reads the frame in it.
    ///
    /// A message that does not authenticate is a `SnowError`; one that
    /// authenticates and holds no frame is a `SerializationError`. Either
    /// breaks the channel, as does every call on a broken channel.
    pub fn read_frame(&mut self, message: &[u8]) -> (res: Result<Frame, Error>)
        ensures
            final(self).hashed() == old(self).hashed(),
            final(self).spec_transfer_id() == old(self).spec_transfer_id(),
            final(self).sealed() == old(self).sealed(),
            match res {
                Ok(frame) => {
                    &&& !old(self).broken()
                    &&& !final(self).broken()
                    &&& frame@.within_bounds()
                    &&& frame@.encoding().len() + NOISE_TAG_LENGTH == message@.len()
                },
                Err(e) => {
                    &&& e == Error::SnowError || e == Error::SerializationError
                    &&& final(self).broken()
                },
            },
    {
        if self.broken {
            return Err(Error::SnowError);
        }
        let payload = match transport_read(&mut self.noise, message, MAX_NOISE_MESSAGE_LENGTH) {
            Some(payload) => payload,
            None => {
                self.broken = true;
                return Err(Error::SnowError);
            },
        };
        match Frame::read_from_frame(payload.as_slice()) {
            Ok(frame) => {
                proof {
                    FrameView::lemma_encode_decode(payload@);
                }
                Ok(frame)
            },
            Err(e) => {
                self.broken = true;
                Err(e)
            },
        }
    }

    /// Seals a frame and returns the record to send. What is handed to the
    /// Noise layer is the serialized frame, and the frame joins the frames
    /// sealed.
    ///
    /// A frame that cannot be sealed into one record is refused with
    /// `SerializationError` and changes nothing. Where the Noise layer
    /// refuses, the error is `SnowError` and the channel is broken.
    pub fn write_frame(&mut self, frame: &Frame) -> (res: Result<Vec<u8>, Error>)
        ensures
            final(self).hashed() == old(self).hashed(),
            final(self).spec_transfer_id() == old(self).spec_transfer_id(),
            match res {
                Ok(record) => {
                    &&& !old(self).broken()
                    &&& !final(self).broken()
                    &&& Self::sealable(frame@)
                    &&& final(self).sealed() == old(self).sealed().push(frame@)
                    &&& is_record(record@)
                    &&& record@.len() == frame@.encoding().len() + NOISE_TAG_LENGTH
                        + RECORD_HEADER_LENGTH
                },
                Err(e) => {
                    &&& final(self).sealed() == old(self).sealed()
                    &&& if old(self).broken() {
                        e == Error::SnowError && final(self).broken()
                    } else if !Self::sealable(frame@) {
                        e == Error::SerializationError && !final(self).broken()
                    } else {
                        e == Error::SnowError && final(self).broken()
                    }
                },
            },
    {
        if self.broken {
            return Err(Error::SnowError);
        }
        if !frame.within_bounds() {
            return Err(Error::SerializationError);
        }
        let serialized_frame = frame.to_bytes();
        if serialized_frame.len() > MAX_FRAME_LENGTH {
            return Err(Error::SerializationError);
        }
        match transport_write(
            &mut self.noise,
            serialized_frame.as_slice(),
            serialized_frame.len() + NOISE_TAG_LENGTH,
        ) {
            Some(message) => {
                self.sealed = Ghost(self.sealed@.push(frame@));
                Ok(encode_record(message.as_slice()))
            },
            None => {
                self.broken = true;
                Err(Error::SnowError)
            },
        }
    }

    /// Asks the sender for the file from offset `seek` on: seals the frame
    /// `PleaseSendFile(seek)`.
    pub fn send_ready(&mut self, seek: u64) -> (res: Result<Vec<u8>, Error>)
        ensures
            final(self).hashed() == old(self).hashed(),
            final(self).spec_transfer_id() == old(self).spec_transfer_id(),
            match res {
                Ok(record) => {
                    &&& !old(self).broken()
                    &&& !final(self).broken()
                    &&& final(self).sealed() == old(self).sealed().push(
                        FrameView::PleaseSendFile(seek),
                    )
                    &&& is_record(record@)
                    &&& record@.len() == 27
                },
                Err(e) => {
                    &&& e == Error::SnowError
                    &&& final(self).broken()
                    &&& final(self).sealed() == old(self).sealed()
                },
            },
    {
        self.write_frame(&Frame::PleaseSendFile(seek))
    }

    /// The offset that a frame asks to resume at. Any frame but
    /// `PleaseSendFile` is out of place here.
    pub fn expect_ready(frame: Frame) -> (res: Result<u64, Error>)
        ensures
            res == (match frame@ {
                FrameView::PleaseSendFile(seek) => Ok::<u64, Error>(seek),
                _ => Err::<u64, Error>(Error::UnexpectedFrame),
            }),
    {
        match frame {
            Frame::PleaseSendFile(seek) => Ok(seek),
            _ => Err(Error::UnexpectedFrame),
        }
    }

    /// Reads the receiver's request: the offset to resume at.
    pub fn wait_for_ready(&mut self, message: &[u8]) -> (res: Result<u64, Error>)
        ensures
            final(self).hashed() == old(self).hashed(),
            final(self).spec_transfer_id() == old(self).spec_transfer_id(),
            final(self).sealed() == old(self).sealed(),
            match res {
                Ok(_) => !old(self).broken() && !final(self).broken(),
                Err(e) => {
                    &&& e == Error::SnowError || e == Error::SerializationError || e
                        == Error::UnexpectedFrame
                    &&& final(self).broken()
                },
            },
    {
        let frame = self.read_frame(message)?;
        match Self::expect_ready(frame) {
            Ok(seek) => Ok(seek),
            Err(e) => {
                self.broken = true;
                Err(e)
            },
        }
    }

    /// The metadata that a frame announces. Any frame but
    /// `IWillSendThisFile` is out of place here.
    pub fn expect_file_metadata(frame: Frame) -> (res: Result<FlapFileMetadata, Error>)
        ensures
            match frame@ {
                FrameView::IWillSendThisFile(metadata) => res matches Ok(m) && m@ == metadata,
                _ => res matches Err(e) && e == Error::UnexpectedFrame,
            },
    {
        match frame {
            Frame::IWillSendThisFile(metadata) => Ok(metadata),
            _ => Err(Error::UnexpectedFrame),
        }
    }

    /// Reads the sender's announcement of a file.
    pub fn get_file_metadata(&mut self, message: &[u8]) -> (res: Result<FlapFileMetadata, Error>)
        ensures
            final(self).hashed() == old(self).hashed(),
            final(self).spec_transfer_id() == old(self).spec_transfer_id(),
            final(self).sealed() == old(self).sealed(),
            match res {
                Ok(metadata) => !old(self).broken() && !final(self).broken() && metadata@.fits(),
                Err(e) => {
                    &&& e == Error::SnowError || e == Error::SerializationError || e
                        == Error::UnexpectedFrame
                    &&& final(self).broken()
                },
            },
    {
        let frame = self.read_frame(message)?;
        match Self::expect_file_metadata(frame) {
            Ok(metadata) => Ok(metadata),
            Err(e) => {
                self.broken = true;
                Err(e)
            },
        }
    }

    /// Announces a file: seals the frame `IWillSendThisFile(metadata)`.
    /// Metadata that does not fit its limit is refused with
    /// `SerializationError` and changes nothing.
    pub fn send_file_metadata(&mut self, metadata: FlapFileMetadata) -> (res: Result<Vec<u8>, Error>)
        ensures
            final(self).hashed() == old(self).hashed(),
            final(self).spec_transfer_id() == old(self).spec_transfer_id(),
            match res {
                Ok(record) => {
                    &&& !old(self).broken()
                    &&& !final(self).broken()
                    &&& metadata@.fits()
                    &&& final(self).sealed() == old(self).sealed().push(
                        FrameView::IWillSendThisFile(metadata@),
                    )
                    &&& is_record(record@)
                    &&& record@.len() == metadata@.encoding().len() + 19
                },
                Err(e) => {
                    &&& final(self).sealed() == old(self).sealed()
                    &&& if old(self).broken() {
                        e == Error::SnowError && final(self).broken()
                    } else if !metadata@.fits() {
                        e == Error::SerializationError && !final(self).broken()
                    } else {
                        e == Error::SnowError && final(self).broken()
                    }
                },
            },
    {
        self.write_frame(&Frame::IWillSendThisFile(metadata))
    }

    /// Takes a frame of the streaming phase.
    ///
    /// File data is fed to the hasher and handed back to be written. At
    /// `TransferComplete` the claimed hash is compared with the hash of what
    /// was hashed: it must be equal, or the error is `InvalidBlake3Hash`.
    /// Any other frame is out of place.
    pub fn accept_file_block(&mut self, frame: Frame) -> (res: Result<FileBlock, Error>)
        ensures
            final(self).spec_transfer_id() == old(self).spec_transfer_id(),
            final(self).broken() == old(self).broken(),
            final(self).sealed() == old(self).sealed(),
            block_outcome(res) == Self::spec_accept_block(old(self).hashed(), frame@),
            final(self).hashed() == Self::spec_hashed_after(old(self).hashed(), frame@),
    {
        match frame {
            Frame::FileData(file_data) => {
                self.file_hash.update_hasher(file_data.as_slice());
                Ok(FileBlock::Data(file_data))
            },
            Frame::TransferComplete(sender_file_hash) => {
                let our_file_hash = self.file_hash.finalize_hash();
                if same_hash(&sender_file_hash, &our_file_hash) {
                    Ok(FileBlock::Complete(our_file_hash))
                } else {
                    Err(Error::InvalidBlake3Hash)
                }
            },
            _ => Err(Error::UnexpectedFrame),
        }
    }

    /// Reads the next record of the streaming phase. Nothing of a record
    /// that is refused, for whatever reason, is hashed or handed out.
    pub fn recv_next_file_block(&mut self, message: &[u8]) -> (res: Result<FileBlock, Error>)
        ensures
            final(self).spec_transfer_id() == old(self).spec_transfer_id(),
            final(self).sealed() == old(self).sealed(),
            match res {
                Ok(FileBlock::Data(bytes)) => {
                    &&& !old(self).broken()
                    &&& !final(self).broken()
                    &&& final(self).hashed() == old(self).hashed() + bytes@
                    &&& bytes@.len() + 1 + NOISE_TAG_LENGTH == message@.len()
                },
                Ok(FileBlock::Complete(hash)) => {
                    &&& !old(self).broken()
                    &&& !final(self).broken()
                    &&& final(self).hashed() == old(self).hashed()
                    &&& hash@ == blake3_digest(old(self).hashed())
                },
                Err(e) => {
                    &&& e == Error::SnowError || e == Error::SerializationError || e
                        == Error::UnexpectedFrame || e == Error::InvalidBlake3Hash
                    &&& final(self).broken()
                    &&& final(self).hashed() == old(self).hashed()
                },
            },
    {
        let frame = self.read_frame(message)?;
        match self.accept_file_block(frame) {
            Ok(block) => Ok(block),
            Err(e) => {
                self.broken = true;
                Err(e)
            },
        }
    }

    /// The frame for the next chunk read from the file. A chunk with bytes
    /// becomes file data and is fed to the hasher; the empty chunk, which
    /// stands for the end of the file, becomes `TransferComplete` with the
    /// hash of everything hashed.
    ///
    /// A chunk too long for one record is refused with `SerializationError`
    /// and changes nothing.
    pub fn file_block_frame(&mut self, chunk: &[u8]) -> (res: Result<Frame, Error>)
        ensures
            final(self).spec_transfer_id() == old(self).spec_transfer_id(),
            final(self).broken() == old(self).broken(),
            final(self).sealed() == old(self).sealed(),
            match res {
                Ok(frame) => {
                    &&& frame@ == Self::spec_block_frame(old(self).hashed(), chunk@)
                    &&& Self::sealable(frame@)
                    &&& final(self).hashed() == old(self).hashed() + chunk@
                },
                Err(e) => {
                    &&& e == Error::SerializationError
                    &&& chunk@.len() + 1 > MAX_FRAME_LENGTH
                    &&& final(self).hashed() == old(self).hashed()
                },
            },
    {
        if chunk.len() == 0 {
            let final_file_hash = self.file_hash.finalize_hash();
            assert(self.hashed() + chunk@ =~= self.hashed());
            Ok(Frame::TransferComplete(final_file_hash))
        } else if chunk.len() >= MAX_FRAME_LENGTH {
            Err(Error::SerializationError)
        } else {
            self.file_hash.update_hasher(chunk);
            Ok(Frame::FileData(vstd::slice::slice_to_vec(chunk)))
        }
    }

    /// Sends the next chunk read from the file, or, for the empty chunk at
    /// the end of the file, the final hash: seals the frame that
    /// `file_block_frame` makes of the chunk.
    pub fn send_next_file_block(&mut self, chunk: &[u8]) -> (res: Result<Vec<u8>, Error>)
        ensures
            final(self).spec_transfer_id() == old(self).spec_transfer_id(),
            match res {
                Ok(record) => {
                    &&& !old(self).broken()
                    &&& !final(self).broken()
                    &&& final(self).hashed() == old(self).hashed() + chunk@
                    &&& final(self).sealed() == old(self).sealed().push(
                        Self::spec_block_frame(old(self).hashed(), chunk@),
                    )
                    &&& is_record(record@)
                    &&& record@.len() == Self::spec_block_frame(
                        old(self).hashed(),
                        chunk@,
                    ).encoding().len() + NOISE_TAG_LENGTH + RECORD_HEADER_LENGTH
                },
                Err(e) => {
                    &&& final(self).sealed() == old(self).sealed()
                    &&& if old(self).broken() {
                        &&& e == Error::SnowError
                        &&& final(self).broken()
                        &&& final(self).hashed() == old(self).hashed()
                    } else if chunk@.len() + 1 > MAX_FRAME_LENGTH {
                        &&& e == Error::SerializationError
                        &&& !final(self).broken()
                        &&& final(self).hashed() == old(self).hashed()
                    } else {
                        &&& e == Error::SnowError
                        &&& final(self).broken()
                        &&& final(self).hashed() == old(self).hashed() + chunk@
                    }
                },
            },
    {
        if self.broken {
            return Err(Error::SnowError);
        }
        let frame = self.file_block_frame(chunk)?;
        self.write_frame(&frame)
    }
}

/// Whether two hashes are equal.
pub fn same_hash(left: &FileHash, right: &FileHash) -> (equal: bool)
    ensures
        equal == (left@ == right@),
{
    let mut i: usize = 0;
    while i < 32
        invariant
            i <= 32,
            forall|k: int| 0 <= k < i ==> left@[k] == right@[k],
        decreases 32 - i,
    {
        if left[i] != right[i] {
            return false;
        }
        i += 1;
    }
    assert(left@ =~= right@);
    true
}

} // verus!
