use ed25519_dalek::SigningKey;
use flap_lib::crypto::blake3::PartialHash;
use flap_lib::crypto::encryption_stream::{decode_record, EncryptionStream};
use flap_lib::crypto::master_key::MasterKey;
use flap_lib::crypto::transfer_id::TransferId;
use flap_lib::error::Error;
use flap_lib::event::{Event, Progress};
use flap_lib::fs::metadata::FlapFileMetadata;
use flap_lib::fs::save::StagedFile;
use flap_lib::p2p::frame::Frame;
use flap_lib::receiver::{ReceivedStep, ReceiverPhase, ReceiverTransfer};
use flap_lib::sender::{SenderPhase, SenderTransfer};
use flap_lib::ticket::{NodeId, Ticket};

const SENDER_SECRET: [u8; 32] = [1u8; 32];
const RECEIVER_SECRET: [u8; 32] = [2u8; 32];
const CHUNK: usize = 1 << 15;

fn public_of(secret: &[u8; 32]) -> [u8; 32] {
    SigningKey::from_bytes(secret).verifying_key().to_bytes()
}

fn channel_pair(stream_id: u64) -> (EncryptionStream, EncryptionStream) {
    let ticket = Ticket::make(NodeId(public_of(&SENDER_SECRET)), MasterKey::from_bytes([7; 32]));
    let mut sender = EncryptionStream::initiate(
        true,
        &SENDER_SECRET,
        &public_of(&RECEIVER_SECRET),
        stream_id,
        &ticket,
    )
    .unwrap();
    let mut receiver = EncryptionStream::initiate(
        false,
        &RECEIVER_SECRET,
        &public_of(&SENDER_SECRET),
        stream_id,
        &ticket,
    )
    .unwrap();
    let first = sender.write_message().unwrap();
    receiver.read_message(&decode_record(&first).unwrap()).unwrap();
    let second = receiver.write_message().unwrap();
    sender.read_message(&decode_record(&second).unwrap()).unwrap();
    (sender.finish().unwrap(), receiver.finish().unwrap())
}

fn sample(length: usize) -> Vec<u8> {
    let mut state: u32 = 0x9e37_79b9;
    let mut bytes = Vec::with_capacity(length);
    for _ in 0..length {
        state = state.wrapping_mul(1_664_525).wrapping_add(1_013_904_223);
        bytes.push((state >> 24) as u8);
    }
    bytes
}

fn staged(content: Option<&[u8]>) -> StagedFile {
    match content {
        None => StagedFile::fresh(),
        Some(bytes) => {
            let mut partial = PartialHash::begin(bytes.len() as u64);
            for chunk in bytes.chunks(1 << 16) {
                if !partial.feed(chunk) {
                    break;
                }
            }
            StagedFile::resumed(partial)
        }
    }
}

struct Run {
    id: TransferId,
    sender_events: Vec<Event>,
    receiver_events: Vec<Event>,
    /// What the staging file holds in the end.
    content: Vec<u8>,
    /// The offset that the receiver asked for.
    offset: u64,
    /// How many records with file data crossed.
    data_records: usize,
    /// How many records crossed from the sender in all.
    sender_records: usize,
    /// How many bytes of file data crossed.
    data_bytes: usize,
    renamed: bool,
    sender_phase: SenderPhase,
    receiver_phase: ReceiverPhase,
}

/// Runs one transfer from the file `file` to a receiver whose staging file
/// holds `staging`, all in memory.
fn transfer(stream_id: u64, name: &str, file: &[u8], staging: Option<&[u8]>) -> Run {
    let (sender_stream, receiver_stream) = channel_pair(stream_id);
    let id = sender_stream.transfer_id();
    assert_eq!(id, receiver_stream.transfer_id());
    let metadata = FlapFileMetadata::new(name.to_string(), file.len() as u64).unwrap();
    let mut sender = SenderTransfer::new(sender_stream, metadata.clone());
    let mut receiver = ReceiverTransfer::new(receiver_stream);
    let mut run = Run {
        id,
        sender_events: Vec::new(),
        receiver_events: Vec::new(),
        content: staging.map(|bytes| bytes.to_vec()).unwrap_or_default(),
        offset: 0,
        data_records: 0,
        sender_records: 0,
        data_bytes: 0,
        renamed: false,
        sender_phase: SenderPhase::SendMeta,
        receiver_phase: ReceiverPhase::AwaitMeta,
    };

    let (record, event) = sender.announce().unwrap();
    run.sender_records += 1;
    run.sender_events.push(event);
    let announced = receiver.on_metadata(&decode_record(&record).unwrap()).unwrap();
    assert_eq!(announced, metadata);

    run.receiver_events.push(receiver.prepared(staged(staging)).unwrap());
    let record = receiver.request_resume().unwrap();
    run.offset = sender.on_resume_request(&decode_record(&record).unwrap()).unwrap();
    assert_eq!(run.offset, receiver.start_offset());
    assert_eq!(run.offset, sender.resume_offset());

    if run.offset > 0 {
        assert_eq!(sender.current_phase(), SenderPhase::Rehash);
        let mut partial = PartialHash::begin(run.offset);
        for chunk in file.chunks(1 << 16) {
            if !partial.feed(chunk) {
                break;
            }
        }
        sender.resume_with(partial).unwrap();
    }
    assert_eq!(sender.current_phase(), SenderPhase::Streaming);

    let mut position = (run.offset as usize).min(file.len());
    loop {
        let end = (position + CHUNK).min(file.len());
        let block = sender.send_chunk(&file[position..end]).unwrap();
        run.sender_records += 1;
        run.sender_events.push(block.event);
        match receiver.on_record(&decode_record(&block.record).unwrap()).unwrap() {
            ReceivedStep::Write { bytes, event } => {
                assert!(!block.complete);
                run.data_records += 1;
                run.data_bytes += bytes.len();
                run.content.extend_from_slice(&bytes);
                run.receiver_events.push(event);
            }
            ReceivedStep::Finish { hash } => {
                assert!(block.complete);
                assert_eq!(hash, *blake3::hash(&run.content).as_bytes());
                run.renamed = true;
                run.receiver_events.push(receiver.finished(true).unwrap());
            }
        }
        position = end;
        if block.complete {
            break;
        }
    }
    run.sender_phase = sender.current_phase();
    run.receiver_phase = receiver.current_phase();
    run
}

fn assert_well_ordered(id: &TransferId, events: &[Event]) {
    let mut progress = Progress::NotStarted;
    for event in events {
        progress = progress.after(id, event).unwrap();
    }
}

#[test]
fn small_file_fresh() {
    let run = transfer(0, "note.txt", b"hello", None);
    assert_eq!(
        run.receiver_events,
        vec![
            Event::PreparingFile(
                run.id,
                FlapFileMetadata { file_size: 5, file_name: "note.txt".to_string() },
                false
            ),
            Event::TransferUpdate(run.id, 5),
            Event::TransferComplete(run.id),
        ]
    );
    assert_eq!(
        run.sender_events,
        vec![
            Event::PreparingFile(
                run.id,
                FlapFileMetadata { file_size: 5, file_name: "note.txt".to_string() },
                true
            ),
            Event::TransferUpdate(run.id, 5),
            Event::TransferComplete(run.id),
        ]
    );
    assert_eq!(run.content, b"hello");
    assert!(run.renamed);
    assert_eq!(run.offset, 0);
    assert_eq!(run.sender_phase, SenderPhase::Done);
    assert_eq!(run.receiver_phase, ReceiverPhase::Done);
}

#[test]
fn exact_resume() {
    let file = sample(1 << 20);
    let run = transfer(4, "note.bin", &file, Some(&file[..700_000]));
    assert_eq!(run.offset, 700_000);
    assert_eq!(run.data_bytes, 348_576);
    assert_eq!(run.content, file);
    assert!(run.renamed);
    assert_eq!(run.receiver_events.first(), Some(&Event::PreparingFile(
        run.id,
        FlapFileMetadata { file_size: 1 << 20, file_name: "note.bin".to_string() },
        false
    )));
    assert_eq!(run.receiver_events.last(), Some(&Event::TransferComplete(run.id)));
    assert_eq!(
        run.receiver_events[run.receiver_events.len() - 2],
        Event::TransferUpdate(run.id, 348_576)
    );
    assert_eq!(
        run.sender_events[run.sender_events.len() - 2],
        Event::TransferUpdate(run.id, 348_576)
    );
    assert_well_ordered(&run.id, &run.receiver_events);
    assert_well_ordered(&run.id, &run.sender_events);
}

#[test]
fn zero_byte_file() {
    let run = transfer(8, "empty", &[], None);
    assert_eq!(run.sender_records, 2);
    assert_eq!(run.data_records, 0);
    assert!(run.content.is_empty());
    assert!(run.renamed);
    assert_eq!(
        run.receiver_events,
        vec![
            Event::PreparingFile(
                run.id,
                FlapFileMetadata { file_size: 0, file_name: "empty".to_string() },
                false
            ),
            Event::TransferComplete(run.id),
        ]
    );
    assert_eq!(run.sender_events.last(), Some(&Event::TransferComplete(run.id)));
}

#[test]
fn resume_at_the_end_of_the_file() {
    let file = sample(100_000);
    let run = transfer(12, "whole.bin", &file, Some(&file));
    assert_eq!(run.offset, 100_000);
    assert_eq!(run.data_records, 0);
    assert_eq!(run.sender_records, 2);
    assert_eq!(run.content, file);
    assert!(run.renamed);
    assert_eq!(run.receiver_events.len(), 2);
    assert_eq!(run.receiver_events.last(), Some(&Event::TransferComplete(run.id)));
}

#[test]
fn progress_is_monotonic_and_ordered() {
    let file = sample(5 * CHUNK + 17);
    let run = transfer(16, "steps.bin", &file, None);
    let updates: Vec<u64> = run
        .receiver_events
        .iter()
        .filter_map(|event| match event {
            Event::TransferUpdate(_, bytes) => Some(*bytes),
            _ => None,
        })
        .collect();
    let expected: Vec<u64> =
        (1..=5).map(|i| (i * CHUNK) as u64).chain([(5 * CHUNK + 17) as u64]).collect();
    assert_eq!(updates, expected);
    for pair in updates.windows(2) {
        assert!(pair[0] <= pair[1]);
    }
    assert!(matches!(run.receiver_events[0], Event::PreparingFile(..)));
    assert!(matches!(run.receiver_events[run.receiver_events.len() - 1], Event::TransferComplete(_)));
    for event in &run.receiver_events[1..run.receiver_events.len() - 1] {
        assert!(matches!(event, Event::TransferUpdate(..)));
    }
    assert_well_ordered(&run.id, &run.receiver_events);
    assert_well_ordered(&run.id, &run.sender_events);
    assert_eq!(run.content, file);
}

#[test]
fn two_files_one_session() {
    let first = sample(40_000);
    let second = b"the second file".to_vec();
    let a = transfer(0, "a.bin", &first, None);
    let b = transfer(4, "b.txt", &second, None);
    assert_ne!(a.id, b.id);
    assert_eq!(a.content, first);
    assert_eq!(b.content, second);
    assert!(a.renamed && b.renamed);
    assert_well_ordered(&a.id, &a.receiver_events);
    assert_well_ordered(&b.id, &b.receiver_events);
    // the events of the two transfers may interleave in any way: each keeps its own order
    let mut mixed = Vec::new();
    let mut left = a.receiver_events.iter();
    let mut right = b.receiver_events.iter();
    loop {
        let (x, y) = (right.next(), left.next());
        if x.is_none() && y.is_none() {
            break;
        }
        mixed.extend(x.cloned());
        mixed.extend(y.cloned());
    }
    for id in [a.id, b.id] {
        let own: Vec<Event> =
            mixed.iter().filter(|event| event.transfer_id() == id).cloned().collect();
        assert_well_ordered(&id, &own);
        assert_eq!(own.last(), Some(&Event::TransferComplete(id)));
    }
}

#[test]
fn integrity_failure() {
    let (mut sender, receiver_stream) = channel_pair(0);
    let id = receiver_stream.transfer_id();
    let mut receiver = ReceiverTransfer::new(receiver_stream);
    let mut events = Vec::new();
    let mut content = Vec::new();

    let metadata = FlapFileMetadata::new("note.txt".to_string(), 5).unwrap();
    let record = sender.send_file_metadata(metadata).unwrap();
    receiver.on_metadata(&decode_record(&record).unwrap()).unwrap();
    events.push(receiver.prepared(StagedFile::fresh()).unwrap());
    let record = receiver.request_resume().unwrap();
    assert_eq!(sender.wait_for_ready(&decode_record(&record).unwrap()), Ok(0));

    let record = sender.send_next_file_block(b"hello").unwrap();
    match receiver.on_record(&decode_record(&record).unwrap()).unwrap() {
        ReceivedStep::Write { bytes, event } => {
            content.extend_from_slice(&bytes);
            events.push(event);
        }
        ReceivedStep::Finish { .. } => panic!("the file is not complete"),
    }

    let mut claimed = *blake3::hash(b"hello").as_bytes();
    claimed[0] ^= 0x01;
    let record = sender.write_frame(&Frame::TransferComplete(claimed)).unwrap();
    assert!(matches!(
        receiver.on_record(&decode_record(&record).unwrap()),
        Err(Error::InvalidBlake3Hash)
    ));
    assert_eq!(receiver.current_phase(), ReceiverPhase::Failed);
    // the staging file is neither renamed nor reported complete
    assert!(matches!(receiver.finished(true), Err(Error::Unknown)));
    assert_eq!(content, b"hello");
    assert_eq!(events.len(), 2);
    assert!(!events.contains(&Event::TransferComplete(id)));
}

#[test]
fn resume_behind_a_staging_file_of_something_else() {
    let file = sample(50_000);
    let mut other = file[..20_000].to_vec();
    other[10_000] ^= 0x80;

    let (sender_stream, receiver_stream) = channel_pair(0);
    let metadata = FlapFileMetadata::new("data.bin".to_string(), file.len() as u64).unwrap();
    let mut sender = SenderTransfer::new(sender_stream, metadata);
    let mut receiver = ReceiverTransfer::new(receiver_stream);
    let (record, _) = sender.announce().unwrap();
    receiver.on_metadata(&decode_record(&record).unwrap()).unwrap();
    receiver.prepared(staged(Some(&other))).unwrap();
    let record = receiver.request_resume().unwrap();
    let offset = sender.on_resume_request(&decode_record(&record).unwrap()).unwrap();
    assert_eq!(offset, 20_000);
    let mut partial = PartialHash::begin(offset);
    partial.feed(&file);
    sender.resume_with(partial).unwrap();

    let block = sender.send_chunk(&file[20_000..50_000]).unwrap();
    assert!(matches!(
        receiver.on_record(&decode_record(&block.record).unwrap()),
        Ok(ReceivedStep::Write { .. })
    ));
    let block = sender.send_chunk(&[]).unwrap();
    assert!(matches!(
        receiver.on_record(&decode_record(&block.record).unwrap()),
        Err(Error::InvalidBlake3Hash)
    ));
}

#[test]
fn completion_is_not_taken_before_the_file_was_asked_for() {
    let (mut sender, receiver_stream) = channel_pair(0);
    let mut receiver = ReceiverTransfer::new(receiver_stream);
    let record = sender.write_frame(&Frame::TransferComplete(*blake3::hash(&[]).as_bytes())).unwrap();
    let message = decode_record(&record).unwrap();
    // out of turn: nothing is read, nothing changes
    assert!(matches!(receiver.on_record(&message), Err(Error::Unknown)));
    assert_eq!(receiver.current_phase(), ReceiverPhase::AwaitMeta);
    // in place of the announcement it fails the transfer
    assert!(matches!(receiver.on_metadata(&message), Err(Error::UnexpectedFrame)));
    assert_eq!(receiver.current_phase(), ReceiverPhase::Failed);
}

#[test]
fn sender_takes_nothing_but_the_request() {
    let (sender_stream, mut receiver) = channel_pair(0);
    let metadata = FlapFileMetadata::new("note.txt".to_string(), 5).unwrap();
    let mut sender = SenderTransfer::new(sender_stream, metadata);
    assert!(matches!(sender.send_chunk(b"hello"), Err(Error::Unknown)));
    assert!(matches!(sender.on_resume_request(&[1, 2, 3]), Err(Error::Unknown)));
    assert_eq!(sender.current_phase(), SenderPhase::SendMeta);
    sender.announce().unwrap();
    assert!(matches!(sender.announce(), Err(Error::Unknown)));
    let record = receiver.write_frame(&Frame::FileData(vec![1])).unwrap();
    assert!(matches!(
        sender.on_resume_request(&decode_record(&record).unwrap()),
        Err(Error::UnexpectedFrame)
    ));
    assert_eq!(sender.current_phase(), SenderPhase::Failed);
    assert!(matches!(sender.send_chunk(b"hello"), Err(Error::Unknown)));
}

#[test]
fn metadata_over_the_limit_fails_the_announcement() {
    let (sender_stream, _receiver) = channel_pair(0);
    let metadata = FlapFileMetadata { file_size: 5, file_name: "n".repeat(9000) };
    let mut sender = SenderTransfer::new(sender_stream, metadata);
    assert!(matches!(sender.announce(), Err(Error::SerializationError)));
    assert_eq!(sender.current_phase(), SenderPhase::Failed);
}

#[test]
fn chunk_too_long_for_one_record_is_refused() {
    let (sender_stream, mut receiver_stream) = channel_pair(0);
    let metadata = FlapFileMetadata::new("big.bin".to_string(), 70_000).unwrap();
    let mut sender = SenderTransfer::new(sender_stream, metadata);
    let (record, _) = sender.announce().unwrap();
    receiver_stream.get_file_metadata(&decode_record(&record).unwrap()).unwrap();
    let record = receiver_stream.send_ready(0).unwrap();
    sender.on_resume_request(&decode_record(&record).unwrap()).unwrap();

    let data = sample(70_000);
    assert!(matches!(sender.send_chunk(&data[..65_519]), Err(Error::SerializationError)));
    assert_eq!(sender.current_phase(), SenderPhase::Streaming);
    assert_eq!(sender.bytes_sent(), 0);
    let block = sender.send_chunk(&data[..65_518]).unwrap();
    assert_eq!(block.record.len(), 65_537);
    assert_eq!(block.event, Event::TransferUpdate(sender.transfer_id(), 65_518));
    let got = receiver_stream.read_frame(&decode_record(&block.record).unwrap()).unwrap();
    assert_eq!(got, Frame::FileData(data[..65_518].to_vec()));
}

#[test]
fn failed_rename_fails_the_transfer() {
    let (mut sender, receiver_stream) = channel_pair(0);
    let mut receiver = ReceiverTransfer::new(receiver_stream);
    let metadata = FlapFileMetadata::new("note.txt".to_string(), 0).unwrap();
    let record = sender.send_file_metadata(metadata).unwrap();
    receiver.on_metadata(&decode_record(&record).unwrap()).unwrap();
    receiver.prepared(StagedFile::fresh()).unwrap();
    receiver.request_resume().unwrap();
    let record = sender.send_next_file_block(&[]).unwrap();
    assert!(matches!(
        receiver.on_record(&decode_record(&record).unwrap()),
        Ok(ReceivedStep::Finish { .. })
    ));
    assert_eq!(receiver.current_phase(), ReceiverPhase::Finishing);
    assert!(matches!(receiver.finished(false), Err(Error::FileIoError)));
    assert_eq!(receiver.current_phase(), ReceiverPhase::Failed);
}

#[test]
fn hash_over_another_length_than_the_offset_is_refused() {
    let file = sample(50_000);
    let (sender_stream, mut receiver) = channel_pair(0);
    let metadata = FlapFileMetadata::new("data.bin".to_string(), file.len() as u64).unwrap();
    let mut sender = SenderTransfer::new(sender_stream, metadata);
    let (record, _) = sender.announce().unwrap();
    receiver.get_file_metadata(&decode_record(&record).unwrap()).unwrap();
    let record = receiver.send_ready(20_000).unwrap();
    assert_eq!(sender.on_resume_request(&decode_record(&record).unwrap()), Ok(20_000));
    assert_eq!(sender.current_phase(), SenderPhase::Rehash);

    // the file ended before the offset
    let mut short = PartialHash::begin(20_000);
    short.feed(&file[..19_999]);
    short.feed(&[]);
    assert!(matches!(sender.resume_with(short), Err(Error::FileReadError)));
    assert_eq!(sender.current_phase(), SenderPhase::Rehash);
    // a hash over more than the offset
    let mut long = PartialHash::begin(20_001);
    long.feed(&file);
    assert!(matches!(sender.resume_with(long), Err(Error::FileReadError)));
    assert!(matches!(sender.send_chunk(&file[20_000..30_000]), Err(Error::Unknown)));

    let mut exact = PartialHash::begin(20_000);
    exact.feed(&file);
    assert_eq!(exact.bytes_taken(), 20_000);
    assert!(sender.resume_with(exact).is_ok());
    assert_eq!(sender.current_phase(), SenderPhase::Streaming);
    // only once
    assert!(matches!(sender.resume_with(PartialHash::begin(0)), Err(Error::Unknown)));

    let block = sender.send_chunk(&file[20_000..]).unwrap();
    assert_eq!(
        receiver.read_frame(&decode_record(&block.record).unwrap()),
        Ok(Frame::FileData(file[20_000..].to_vec()))
    );
    let block = sender.send_chunk(&[]).unwrap();
    assert_eq!(
        receiver.read_frame(&decode_record(&block.record).unwrap()),
        Ok(Frame::TransferComplete(*blake3::hash(&file).as_bytes()))
    );
}

#[test]
fn sender_seals_the_rest_of_the_file_and_the_hash_of_the_whole() {
    let file = sample(1 << 20);
    let (sender_stream, mut receiver) = channel_pair(4);
    let metadata = FlapFileMetadata::new("note.bin".to_string(), file.len() as u64).unwrap();
    let mut sender = SenderTransfer::new(sender_stream, metadata.clone());
    let (record, _) = sender.announce().unwrap();
    assert_eq!(receiver.get_file_metadata(&decode_record(&record).unwrap()), Ok(metadata));
    let record = receiver.send_ready(700_000).unwrap();
    assert_eq!(sender.on_resume_request(&decode_record(&record).unwrap()), Ok(700_000));
    let mut partial = PartialHash::begin(700_000);
    for chunk in file.chunks(1 << 16) {
        if !partial.feed(chunk) {
            break;
        }
    }
    sender.resume_with(partial).unwrap();

    let mut payloads = Vec::new();
    let mut last_count = 0;
    for chunk in file[700_000..].chunks(CHUNK) {
        let block = sender.send_chunk(chunk).unwrap();
        match receiver.read_frame(&decode_record(&block.record).unwrap()).unwrap() {
            Frame::FileData(bytes) => payloads.extend_from_slice(&bytes),
            other => panic!("not file data: {other:?}"),
        }
        match block.event {
            Event::TransferUpdate(_, count) => last_count = count,
            other => panic!("not an update: {other:?}"),
        }
    }
    assert_eq!(payloads.len(), 348_576);
    assert_eq!(payloads, &file[700_000..]);
    assert_eq!(last_count, 348_576);
    let block = sender.send_chunk(&[]).unwrap();
    assert!(block.complete);
    assert_eq!(
        receiver.read_frame(&decode_record(&block.record).unwrap()),
        Ok(Frame::TransferComplete(*blake3::hash(&file).as_bytes()))
    );
}

#[test]
fn receiver_asks_for_the_length_of_what_is_staged() {
    let file = sample(1 << 20);
    for staged_length in [0usize, 1, 700_000, 1 << 20] {
        let (mut sender, receiver_stream) = channel_pair(8);
        let mut receiver = ReceiverTransfer::new(receiver_stream);
        let metadata = FlapFileMetadata::new("note.bin".to_string(), file.len() as u64).unwrap();
        let record = sender.send_file_metadata(metadata).unwrap();
        receiver.on_metadata(&decode_record(&record).unwrap()).unwrap();
        let content = if staged_length == 0 { None } else { Some(&file[..staged_length]) };
        receiver.prepared(staged(content)).unwrap();
        assert_eq!(receiver.start_offset(), staged_length as u64);
        let record = receiver.request_resume().unwrap();
        assert_eq!(
            sender.read_frame(&decode_record(&record).unwrap()),
            Ok(Frame::PleaseSendFile(staged_length as u64))
        );
    }
}

#[test]
fn nothing_of_a_refused_record_is_hashed_or_counted() {
    let (mut sender, receiver_stream) = channel_pair(0);
    let mut receiver = ReceiverTransfer::new(receiver_stream);
    let metadata = FlapFileMetadata::new("note.txt".to_string(), 10).unwrap();
    let record = sender.send_file_metadata(metadata).unwrap();
    receiver.on_metadata(&decode_record(&record).unwrap()).unwrap();
    receiver.prepared(StagedFile::fresh()).unwrap();
    receiver.request_resume().unwrap();
    let record = sender.send_next_file_block(b"hello").unwrap();
    assert!(matches!(
        receiver.on_record(&decode_record(&record).unwrap()),
        Ok(ReceivedStep::Write { .. })
    ));
    assert_eq!(receiver.bytes_received(), 5);
    let record = sender.send_next_file_block(b"world").unwrap();
    let mut message = decode_record(&record).unwrap();
    message[3] ^= 0x40;
    assert!(matches!(receiver.on_record(&message), Err(Error::SnowError)));
    assert_eq!(receiver.bytes_received(), 5);
    assert_eq!(receiver.current_phase(), ReceiverPhase::Failed);
}
