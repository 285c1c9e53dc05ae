use ed25519_dalek::SigningKey;
use flap_lib::crypto::encryption_stream::{
    decode_record, encode_record, record_length, same_hash, EncryptionStream, FileBlock,
    Handshake, HandshakeStep,
};
use flap_lib::crypto::master_key::MasterKey;
use flap_lib::error::Error;
use flap_lib::fs::metadata::FlapFileMetadata;
use flap_lib::p2p::frame::Frame;
use flap_lib::ticket::{NodeId, Ticket};

const SENDER_SECRET: [u8; 32] = [1u8; 32];
const RECEIVER_SECRET: [u8; 32] = [2u8; 32];

fn public_of(secret: &[u8; 32]) -> [u8; 32] {
    SigningKey::from_bytes(secret).verifying_key().to_bytes()
}

fn ticket_with(master: [u8; 32]) -> Ticket {
    Ticket::make(NodeId(public_of(&SENDER_SECRET)), MasterKey::from_bytes(master))
}

fn handshakes(
    sender_ticket: &Ticket,
    receiver_ticket: &Ticket,
    sender_stream: u64,
    receiver_stream: u64,
) -> (Handshake, Handshake) {
    let sender = EncryptionStream::initiate(
        true,
        &SENDER_SECRET,
        &public_of(&RECEIVER_SECRET),
        sender_stream,
        sender_ticket,
    )
    .unwrap();
    let receiver = EncryptionStream::initiate(
        false,
        &RECEIVER_SECRET,
        &public_of(&SENDER_SECRET),
        receiver_stream,
        receiver_ticket,
    )
    .unwrap();
    (sender, receiver)
}

fn channel_pair() -> (EncryptionStream, EncryptionStream) {
    let ticket = ticket_with([7u8; 32]);
    let (mut sender, mut receiver) = handshakes(&ticket, &ticket, 4, 4);
    let first = sender.write_message().unwrap();
    receiver.read_message(&decode_record(&first).unwrap()).unwrap();
    let second = receiver.write_message().unwrap();
    sender.read_message(&decode_record(&second).unwrap()).unwrap();
    (sender.finish().unwrap(), receiver.finish().unwrap())
}

#[test]
fn handshake_completes_in_two_messages() {
    let ticket = ticket_with([7u8; 32]);
    let (mut sender, mut receiver) = handshakes(&ticket, &ticket, 4, 4);
    assert_eq!(sender.next_step(), HandshakeStep::Send);
    assert_eq!(receiver.next_step(), HandshakeStep::Receive);
    let first = sender.write_message().unwrap();
    assert_eq!(sender.next_step(), HandshakeStep::Receive);
    receiver.read_message(&decode_record(&first).unwrap()).unwrap();
    assert_eq!(receiver.next_step(), HandshakeStep::Send);
    let second = receiver.write_message().unwrap();
    assert_eq!(receiver.next_step(), HandshakeStep::Finish);
    sender.read_message(&decode_record(&second).unwrap()).unwrap();
    assert_eq!(sender.next_step(), HandshakeStep::Finish);
    let sender = sender.finish().unwrap();
    let receiver = receiver.finish().unwrap();
    assert_eq!(sender.transfer_id(), receiver.transfer_id());
}

#[test]
fn frames_cross_the_channel() {
    let (mut sender, mut receiver) = channel_pair();
    let metadata = FlapFileMetadata::new("note.txt".to_string(), 5).unwrap();
    let record = sender.send_file_metadata(metadata.clone()).unwrap();
    assert_eq!(record.len(), 8 + 8 + 19);
    let got = receiver.get_file_metadata(&decode_record(&record).unwrap()).unwrap();
    assert_eq!(got, metadata);

    let record = receiver.send_ready(0).unwrap();
    assert_eq!(record.len(), 27);
    assert_eq!(sender.wait_for_ready(&decode_record(&record).unwrap()), Ok(0));

    let record = sender.send_next_file_block(b"hello").unwrap();
    assert_eq!(
        receiver.recv_next_file_block(&decode_record(&record).unwrap()),
        Ok(FileBlock::Data(b"hello".to_vec()))
    );
    let record = sender.send_next_file_block(&[]).unwrap();
    assert_eq!(
        receiver.recv_next_file_block(&decode_record(&record).unwrap()),
        Ok(FileBlock::Complete(*blake3::hash(b"hello").as_bytes()))
    );
}

#[test]
fn tampered_record_is_rejected() {
    let (mut sender, mut receiver) = channel_pair();
    let record = sender.write_frame(&Frame::FileData(vec![1, 2, 3, 4])).unwrap();
    let mut message = decode_record(&record).unwrap();
    message[2] ^= 0x01;
    assert_eq!(receiver.read_frame(&message), Err(Error::SnowError));
    assert!(receiver.is_broken());
    let record = sender.write_frame(&Frame::FileData(vec![5])).unwrap();
    assert_eq!(receiver.read_frame(&decode_record(&record).unwrap()), Err(Error::SnowError));
}

#[test]
fn wrong_ticket_secret_fails_the_handshake() {
    let (mut sender, mut receiver) = handshakes(&ticket_with([7u8; 32]), &ticket_with([8u8; 32]), 4, 4);
    let first = sender.write_message().unwrap();
    let read = receiver.read_message(&decode_record(&first).unwrap());
    if read.is_ok() {
        let second = receiver.write_message().unwrap();
        assert_eq!(
            sender.read_message(&decode_record(&second).unwrap()),
            Err(Error::SnowError)
        );
        assert_eq!(sender.next_step(), HandshakeStep::Failed);
        assert!(sender.finish().is_err());
    } else {
        assert_eq!(read, Err(Error::SnowError));
        assert_eq!(receiver.next_step(), HandshakeStep::Failed);
    }
}

#[test]
fn handshake_is_bound_to_the_substream() {
    let ticket = ticket_with([7u8; 32]);
    let (mut sender, mut receiver) = handshakes(&ticket, &ticket, 4, 8);
    let first = sender.write_message().unwrap();
    let read = receiver.read_message(&decode_record(&first).unwrap());
    if read.is_ok() {
        let second = receiver.write_message().unwrap();
        assert_eq!(
            sender.read_message(&decode_record(&second).unwrap()),
            Err(Error::SnowError)
        );
    } else {
        assert_eq!(read, Err(Error::SnowError));
    }
}

#[test]
fn noise_is_set_up_from_identities_substream_and_ticket() {
    let mut master = [0u8; 32];
    for (i, byte) in master.iter_mut().enumerate() {
        *byte = i as u8;
    }
    let ticket = ticket_with(master);
    let setup = EncryptionStream::noise_setup(
        true,
        &SENDER_SECRET,
        &public_of(&RECEIVER_SECRET),
        0x0102_0304_0506_0708,
        &ticket,
    )
    .unwrap();
    assert!(setup.initiator);
    assert_eq!(setup.prologue, vec![1, 2, 3, 4, 5, 6, 7, 8]);
    assert_eq!(
        setup.psk,
        [
            105, 165, 117, 36, 31, 62, 212, 192, 194, 217, 180, 17, 192, 129, 186, 135, 166, 94,
            194, 53, 200, 37, 254, 45, 156, 25, 32, 39, 101, 140, 81, 246
        ]
    );
    assert_eq!(setup.local_private_key, SigningKey::from_bytes(&SENDER_SECRET).to_scalar_bytes());
    assert_eq!(
        setup.remote_public_key,
        SigningKey::from_bytes(&RECEIVER_SECRET).verifying_key().to_montgomery().to_bytes()
    );

    let setup =
        EncryptionStream::noise_setup(false, &RECEIVER_SECRET, &public_of(&SENDER_SECRET), 4, &ticket)
            .unwrap();
    assert!(!setup.initiator);
    assert_eq!(setup.prologue, vec![0, 0, 0, 0, 0, 0, 0, 4]);
}

#[test]
fn identity_off_the_curve_has_no_setup() {
    let ticket = ticket_with([7u8; 32]);
    let mut off_curve = None;
    for first in 0u8..=255 {
        let mut bytes = [0x11u8; 32];
        bytes[0] = first;
        if ed25519_dalek::VerifyingKey::from_bytes(&bytes).is_err() {
            off_curve = Some(bytes);
            break;
        }
    }
    let off_curve = off_curve.unwrap();
    assert!(EncryptionStream::noise_setup(true, &SENDER_SECRET, &off_curve, 0, &ticket).is_none());
    assert!(matches!(
        EncryptionStream::initiate(true, &SENDER_SECRET, &off_curve, 0, &ticket),
        Err(Error::SnowError)
    ));
}

#[test]
fn handshake_with_another_static_key_fails() {
    let ticket = ticket_with([7u8; 32]);
    let mut sender = EncryptionStream::initiate(
        true,
        &SENDER_SECRET,
        &public_of(&RECEIVER_SECRET),
        0,
        &ticket,
    )
    .unwrap();
    // the receiver expects another sender
    let mut setup =
        EncryptionStream::noise_setup(false, &RECEIVER_SECRET, &public_of(&[9u8; 32]), 0, &ticket)
            .unwrap();
    setup.initiator = false;
    let mut receiver = Handshake::start(&setup).unwrap();
    let first = sender.write_message().unwrap();
    assert_eq!(
        receiver.read_message(&decode_record(&first).unwrap()),
        Err(Error::SnowError)
    );
}

#[test]
fn handshake_steps_out_of_turn_fail_it() {
    let ticket = ticket_with([7u8; 32]);
    let (mut sender, mut receiver) = handshakes(&ticket, &ticket, 4, 4);
    // the responder has nothing to write yet
    assert_eq!(receiver.write_message(), Err(Error::SnowError));
    assert_eq!(receiver.next_step(), HandshakeStep::Failed);
    assert_eq!(receiver.read_message(&[0u8; 48]), Err(Error::SnowError));
    assert!(receiver.finish().is_err());
    // the initiator has nothing to read yet
    assert_eq!(sender.read_message(&[0u8; 48]), Err(Error::SnowError));
    assert_eq!(sender.next_step(), HandshakeStep::Failed);
    assert_eq!(sender.write_message(), Err(Error::SnowError));
}

#[test]
fn handshake_cannot_finish_early() {
    let ticket = ticket_with([7u8; 32]);
    let (sender, _) = handshakes(&ticket, &ticket, 4, 4);
    assert!(sender.finish().is_err());
    let (mut sender, _) = handshakes(&ticket, &ticket, 4, 4);
    sender.write_message().unwrap();
    assert!(sender.finish().is_err());
}

#[test]
fn garbage_is_no_handshake_message() {
    let ticket = ticket_with([7u8; 32]);
    let (_, mut receiver) = handshakes(&ticket, &ticket, 4, 4);
    assert_eq!(receiver.read_message(&[]), Err(Error::SnowError));
    let (_, mut receiver) = handshakes(&ticket, &ticket, 4, 4);
    assert_eq!(receiver.read_message(&[0x42; 2000]), Err(Error::SnowError));
}

#[test]
fn transfer_id_is_the_head_of_the_handshake_hash() {
    let mut hash = [0u8; 40];
    for (i, byte) in hash.iter_mut().enumerate() {
        *byte = i as u8;
    }
    let id = Handshake::transfer_id_of(&hash).unwrap();
    assert_eq!(id.0[..], hash[..32]);
    assert_eq!(Handshake::transfer_id_of(&hash[..32]).unwrap().0[..], hash[..32]);
    assert!(Handshake::transfer_id_of(&hash[..31]).is_none());
    assert!(Handshake::transfer_id_of(&[]).is_none());
}

#[test]
fn records_carry_their_length_first() {
    assert_eq!(encode_record(&[]), vec![0, 0]);
    assert_eq!(encode_record(&[7, 8, 9]), vec![0, 3, 7, 8, 9]);
    let long = vec![0x55u8; 65535];
    let record = encode_record(&long);
    assert_eq!(record.len(), 65537);
    assert_eq!(record[..2], [0xff, 0xff]);
    assert_eq!(decode_record(&record), Some(long));
    assert_eq!(encode_record(&vec![1u8; 258])[..2], [0x01, 0x02]);

    assert_eq!(record_length(&[0, 0]), 0);
    assert_eq!(record_length(&[0x01, 0x02]), 258);
    assert_eq!(record_length(&[0xff, 0xff]), 65535);

    assert_eq!(decode_record(&[0, 3, 7, 8, 9]), Some(vec![7, 8, 9]));
    assert_eq!(decode_record(&[0, 0]), Some(vec![]));
    assert_eq!(decode_record(&[]), None);
    assert_eq!(decode_record(&[0]), None);
    assert_eq!(decode_record(&[0, 3, 7, 8]), None);
    assert_eq!(decode_record(&[0, 3, 7, 8, 9, 10]), None);
}

#[test]
fn hashes_compare_by_their_bytes() {
    let hash = *blake3::hash(b"hello").as_bytes();
    let mut other = hash;
    assert!(same_hash(&hash, &other));
    other[31] ^= 1;
    assert!(!same_hash(&hash, &other));
    other[31] ^= 1;
    other[0] ^= 0x80;
    assert!(!same_hash(&hash, &other));
}

#[test]
fn frames_that_do_not_belong_break_the_channel() {
    let (mut sender, mut receiver) = channel_pair();
    let record = sender.send_ready(0).unwrap();
    assert_eq!(
        receiver.recv_next_file_block(&decode_record(&record).unwrap()),
        Err(Error::UnexpectedFrame)
    );
    assert!(receiver.is_broken());
    assert_eq!(receiver.send_ready(0), Err(Error::SnowError));
    assert_eq!(receiver.write_frame(&Frame::FileData(vec![1])), Err(Error::SnowError));

    let (mut sender, mut receiver) = channel_pair();
    let record = sender.write_frame(&Frame::FileData(vec![1])).unwrap();
    assert_eq!(
        receiver.wait_for_ready(&decode_record(&record).unwrap()),
        Err(Error::UnexpectedFrame)
    );
    assert!(receiver.is_broken());

    let (mut sender, mut receiver) = channel_pair();
    let record = sender.write_frame(&Frame::TransferComplete([0; 32])).unwrap();
    assert!(matches!(
        receiver.get_file_metadata(&decode_record(&record).unwrap()),
        Err(Error::UnexpectedFrame)
    ));
    assert!(receiver.is_broken());
}

#[test]
fn frames_too_long_for_a_record_are_refused() {
    let (mut sender, mut receiver) = channel_pair();
    // 65518 bytes of data make a frame of 65519 bytes and a message of 65535
    assert_eq!(
        sender.write_frame(&Frame::FileData(vec![0; 65519])),
        Err(Error::SerializationError)
    );
    assert_eq!(
        sender.write_frame(&Frame::FileData(vec![0; 65535])),
        Err(Error::SerializationError)
    );
    assert!(!sender.is_broken());
    let record = sender.write_frame(&Frame::FileData(vec![3; 65518])).unwrap();
    assert_eq!(record.len(), 65537);
    assert_eq!(
        receiver.read_frame(&decode_record(&record).unwrap()),
        Ok(Frame::FileData(vec![3; 65518]))
    );
    let metadata = FlapFileMetadata { file_size: 0, file_name: "x".repeat(9000) };
    assert_eq!(sender.send_file_metadata(metadata), Err(Error::SerializationError));
    assert!(!sender.is_broken());
}

#[test]
fn records_are_sealed_in_order() {
    let (mut sender, mut receiver) = channel_pair();
    let first = sender.write_frame(&Frame::FileData(vec![1])).unwrap();
    let second = sender.write_frame(&Frame::FileData(vec![2])).unwrap();
    assert_eq!(first.len(), 2 + 2 + 16);
    // the second record cannot be opened before the first
    assert_eq!(receiver.read_frame(&decode_record(&second).unwrap()), Err(Error::SnowError));
    assert!(receiver.is_broken());
    assert_eq!(receiver.read_frame(&decode_record(&first).unwrap()), Err(Error::SnowError));
}

#[test]
fn receiver_hashes_what_was_staged_and_what_arrives() {
    let (mut sender, mut receiver) = channel_pair();
    let file = b"0123456789";
    receiver.set_file_hasher(flap_lib::crypto::blake3::Blake3::partial_hash(file, Some(4)));
    sender.set_file_hasher(flap_lib::crypto::blake3::Blake3::partial_hash(file, Some(4)));
    let record = sender.send_next_file_block(&file[4..]).unwrap();
    assert_eq!(
        receiver.recv_next_file_block(&decode_record(&record).unwrap()),
        Ok(FileBlock::Data(file[4..].to_vec()))
    );
    let record = sender.send_next_file_block(&[]).unwrap();
    assert_eq!(record.len(), 1 + 32 + 16 + 2);
    assert_eq!(
        receiver.recv_next_file_block(&decode_record(&record).unwrap()),
        Ok(FileBlock::Complete(*blake3::hash(file).as_bytes()))
    );
}

#[test]
fn block_frames_are_data_or_the_final_hash() {
    let (mut sender, _) = channel_pair();
    assert_eq!(sender.file_block_frame(b"ab"), Ok(Frame::FileData(b"ab".to_vec())));
    assert_eq!(sender.file_block_frame(b"c"), Ok(Frame::FileData(b"c".to_vec())));
    assert_eq!(
        sender.file_block_frame(&[]),
        Ok(Frame::TransferComplete(*blake3::hash(b"abc").as_bytes()))
    );
    assert_eq!(sender.file_block_frame(&vec![0; 65519]), Err(Error::SerializationError));
    assert_eq!(
        sender.file_block_frame(&[]),
        Ok(Frame::TransferComplete(*blake3::hash(b"abc").as_bytes()))
    );
}

#[test]
fn blocks_are_taken_by_their_kind() {
    let (_, mut receiver) = channel_pair();
    assert_eq!(
        receiver.accept_file_block(Frame::FileData(b"abc".to_vec())),
        Ok(FileBlock::Data(b"abc".to_vec()))
    );
    assert_eq!(
        receiver.accept_file_block(Frame::PleaseSendFile(0)),
        Err(Error::UnexpectedFrame)
    );
    let mut wrong = *blake3::hash(b"abc").as_bytes();
    wrong[5] ^= 0x10;
    assert_eq!(
        receiver.accept_file_block(Frame::TransferComplete(wrong)),
        Err(Error::InvalidBlake3Hash)
    );
    assert_eq!(
        receiver.accept_file_block(Frame::TransferComplete(*blake3::hash(b"abc").as_bytes())),
        Ok(FileBlock::Complete(*blake3::hash(b"abc").as_bytes()))
    );
    assert_eq!(EncryptionStream::expect_ready(Frame::PleaseSendFile(9)), Ok(9));
    assert_eq!(
        EncryptionStream::expect_ready(Frame::FileData(vec![])),
        Err(Error::UnexpectedFrame)
    );
    let note = FlapFileMetadata { file_size: 5, file_name: "note.txt".to_string() };
    assert_eq!(
        EncryptionStream::expect_file_metadata(Frame::IWillSendThisFile(note.clone())),
        Ok(note)
    );
    assert_eq!(
        EncryptionStream::expect_file_metadata(Frame::PleaseSendFile(0)),
        Err(Error::UnexpectedFrame)
    );
}
