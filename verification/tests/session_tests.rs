use flap_lib::crypto::master_key::MasterKey;
use flap_lib::crypto::transfer_id::TransferId;
use flap_lib::error::Error;
use flap_lib::event::{Event, Progress};
use flap_lib::frontend_events::{
    FileMetadata, FrontendEvent, PreparingFileEvent, TransferCompleteEvent, TransferUpdateEvent,
};
use flap_lib::fs::metadata::FlapFileMetadata;
use flap_lib::fs::save::{CreateOutcome, FileSaver, PrepareStep, StagedFile};
use flap_lib::receiver::{after_accept, AcceptOutcome, RetrieveStep};
use flap_lib::sender::P2pSender;
use flap_lib::ticket::{NodeId, Ticket};

fn sender() -> P2pSender {
    P2pSender::with_ticket(Ticket::make(NodeId([3; 32]), MasterKey::from_bytes([4; 32])))
}

fn note() -> FlapFileMetadata {
    FlapFileMetadata { file_size: 5, file_name: "note.txt".to_string() }
}

#[test]
fn duplicate_enqueue() {
    let mut sender = sender();
    assert_eq!(sender.send("/tmp/note.txt".to_string()), Ok(()));
    assert_eq!(sender.send("/tmp/note.txt".to_string()), Err(Error::FileAlreadyAdded));
    assert_eq!(sender.pending(), 1);
    assert_eq!(sender.next_file(), Some("/tmp/note.txt".to_string()));
    assert_eq!(sender.next_file(), None);
    // a file that was sent stays refused for the rest of the session
    assert_eq!(sender.send("/tmp/note.txt".to_string()), Err(Error::FileAlreadyAdded));
    assert_eq!(sender.pending(), 0);
}

#[test]
fn files_are_sent_in_the_order_of_arrival() {
    let mut sender = sender();
    assert!(!sender.was_added(&"a".to_string()));
    for path in ["a", "b", "c"] {
        assert_eq!(sender.send(path.to_string()), Ok(()));
    }
    assert!(sender.was_added(&"a".to_string()));
    assert!(!sender.was_added(&"A".to_string()));
    assert_eq!(sender.send("b".to_string()), Err(Error::FileAlreadyAdded));
    assert_eq!(sender.pending(), 3);
    assert_eq!(sender.next_file(), Some("a".to_string()));
    assert_eq!(sender.send("d".to_string()), Ok(()));
    assert_eq!(sender.next_file(), Some("b".to_string()));
    assert_eq!(sender.next_file(), Some("c".to_string()));
    assert_eq!(sender.next_file(), Some("d".to_string()));
    assert_eq!(sender.next_file(), None);
}

#[test]
fn new_sender_has_a_fresh_ticket() {
    let first = P2pSender::new(NodeId([3; 32])).unwrap();
    let second = P2pSender::new(NodeId([3; 32])).unwrap();
    assert_eq!(first.ticket().node_id, NodeId([3; 32]));
    assert_ne!(first.ticket().master_key().as_bytes(), second.ticket().master_key().as_bytes());
    assert_eq!(first.pending(), 0);
    let read = Ticket::from_str(&first.ticket().convert()).unwrap();
    assert_eq!(read.master_key().as_bytes(), first.ticket().master_key().as_bytes());
}

#[test]
fn staging_names() {
    let saver = FileSaver::new("/home/user/Downloads/Flap Downloads".to_string());
    assert_eq!(saver.download_dir(), "/home/user/Downloads/Flap Downloads");
    assert_eq!(FileSaver::folder_name(), "Flap Downloads");
    assert_eq!(saver.staging_name(&note()), "note.txt.flap");
    assert_eq!(saver.final_name(&note()), "note.txt");
    let odd = FlapFileMetadata { file_size: 0, file_name: "x.flap".to_string() };
    assert_eq!(saver.staging_name(&odd), "x.flap.flap");
    assert_eq!(saver.final_name(&odd), "x.flap");
}

#[test]
fn what_the_file_system_says_decides_the_start() {
    let saver = FileSaver::new("downloads".to_string());
    assert_eq!(saver.prepare_file(CreateOutcome::Created), Ok(PrepareStep::StartFresh));
    assert_eq!(saver.prepare_file(CreateOutcome::AlreadyExists), Ok(PrepareStep::Resume));
    assert_eq!(saver.prepare_file(CreateOutcome::Failed), Err(Error::FileIoError));
    assert_eq!(FileSaver::check_directory(CreateOutcome::Created), Ok(()));
    assert_eq!(FileSaver::check_directory(CreateOutcome::AlreadyExists), Ok(()));
    assert_eq!(FileSaver::check_directory(CreateOutcome::Failed), Err(Error::FileIoError));
}

#[test]
fn staged_file_starts_where_its_content_ends() {
    let fresh = StagedFile::fresh();
    assert_eq!(fresh.start_offset(), 0);
    let (offset, hasher) = fresh.into_parts();
    assert_eq!(offset, 0);
    assert!(hasher.is_none());

    let mut partial = flap_lib::crypto::blake3::PartialHash::begin(10);
    partial.feed(b"0123456");
    let resumed = StagedFile::resumed(partial);
    assert_eq!(resumed.start_offset(), 7);
    let (offset, hasher) = resumed.into_parts();
    assert_eq!(offset, 7);
    assert_eq!(hasher.unwrap().finalize_hash(), *blake3::hash(b"0123456").as_bytes());
}

#[test]
fn retrieval_ends_with_the_connection() {
    assert_eq!(after_accept(AcceptOutcome::Stream), RetrieveStep::Spawn);
    assert_eq!(after_accept(AcceptOutcome::ClosedByPeer), RetrieveStep::Finish);
    assert_eq!(after_accept(AcceptOutcome::LocallyClosed), RetrieveStep::Finish);
    assert_eq!(after_accept(AcceptOutcome::Failed), RetrieveStep::Abort);
}

#[test]
fn events_of_a_transfer_come_in_one_order() {
    let id = TransferId([1; 32]);
    let other = TransferId([2; 32]);
    let preparing = Event::PreparingFile(id, note(), false);
    let start = Progress::NotStarted;
    assert_eq!(start.after(&id, &preparing), Some(Progress::Streaming(0)));
    assert_eq!(start.after(&id, &Event::TransferUpdate(id, 0)), None);
    assert_eq!(start.after(&id, &Event::TransferComplete(id)), None);
    assert_eq!(start.after(&other, &preparing), None);

    let streaming = Progress::Streaming(10);
    assert_eq!(streaming.after(&id, &Event::TransferUpdate(id, 10)), Some(Progress::Streaming(10)));
    assert_eq!(streaming.after(&id, &Event::TransferUpdate(id, 11)), Some(Progress::Streaming(11)));
    assert_eq!(streaming.after(&id, &Event::TransferUpdate(id, 9)), None);
    assert_eq!(streaming.after(&id, &Event::TransferUpdate(other, 11)), None);
    assert_eq!(streaming.after(&id, &preparing), None);
    assert_eq!(streaming.after(&id, &Event::TransferComplete(id)), Some(Progress::Complete));

    let complete = Progress::Complete;
    assert_eq!(complete.after(&id, &Event::TransferComplete(id)), None);
    assert_eq!(complete.after(&id, &Event::TransferUpdate(id, 99)), None);
    assert_eq!(complete.after(&id, &preparing), None);

    assert_eq!(preparing.transfer_id(), id);
    assert_eq!(Event::TransferUpdate(other, 1).transfer_id(), other);
    assert_eq!(Event::TransferComplete(other).transfer_id(), other);
}

#[test]
fn events_as_the_interface_gets_them() {
    let id = TransferId([7; 32]);
    let shown = FrontendEvent::from_event(Event::PreparingFile(id, note(), true));
    assert_eq!(
        shown,
        FrontendEvent::PreparingFile(PreparingFileEvent {
            file_transfer_id: vec![7; 32],
            metadata: FileMetadata { file_name: "note.txt".to_string(), expected_file_size: 5 },
            sending: true,
        })
    );
    assert_eq!(shown.name(), "preparing-file");
    let shown = FrontendEvent::from_event(Event::TransferUpdate(id, 4096));
    assert_eq!(
        shown,
        FrontendEvent::TransferUpdate(TransferUpdateEvent {
            file_transfer_id: vec![7; 32],
            bytes_downloaded: 4096,
        })
    );
    assert_eq!(shown.name(), "transfer-update");
    let shown = FrontendEvent::from_event(Event::TransferComplete(id));
    assert_eq!(
        shown,
        FrontendEvent::TransferComplete(TransferCompleteEvent { file_transfer_id: vec![7; 32] })
    );
    assert_eq!(shown.name(), "transfer-complete");
}

#[test]
fn every_error_has_its_text() {
    assert_eq!(Error::TicketParseError.message(), "Could not read ticket. Ticket is invalid");
    assert_eq!(Error::FileAlreadyAdded.message(), "File has already been sent.");
    assert_eq!(Error::SerializationError.message(), "frame serialization error");
    assert_eq!(Error::Unknown.message(), "unknown error");
    assert_eq!(Error::FileIoError.message(), "Filesystem IO error");
    assert_eq!(
        Error::MasterKeyParseError.message(),
        "Could not read ticket's master key. Master key is invalid"
    );
    assert_eq!(Error::SnowError.message(), "An error occured in the encryption stream");
}
