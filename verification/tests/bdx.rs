//! Bulk Data Exchange: the parts of a transfer, and whole transfers over real bytes.
use std::cell::RefCell;
use std::sync::Arc;

use matter_services::bdx::codec::{
    BdxMessage, BdxStatusCode, CodecError, MessageType, TransferInit, BDX_VERSION, RECEIVER_DRIVE,
    SENDER_DRIVE,
};
use matter_services::bdx::serve::{
    after_read, decode_bdx_message, designator_matches, is_duplicate_query, needed_read,
    next_block_len, send_abort, send_bdx, status_report_payload, validate_init, BlockRead,
    BlockSource, Event, ImageServer, Outgoing, Phase, ProviderError, Refusal, SentBlock, Step,
    PROTO_ID_BDX,
};
use matter_services::buf::ReadBuf;
use matter_services::error::{Error, ErrorCode};
use matter_services::message::MessageMeta;
use matter_services::sc::{GeneralCode, OpCode, StatusReport, PROTO_ID_SECURE_CHANNEL};

/// An image in memory that cannot be read from `bad_from` on.
struct MemoryImage {
    bytes: Vec<u8>,
    bad_from: u64,
}

impl MemoryImage {
    fn new(bytes: &[u8]) -> Self {
        MemoryImage { bytes: bytes.to_vec(), bad_from: u64::MAX }
    }
}

impl BlockSource for MemoryImage {
    type Error = String;

    fn len(&self) -> u64 {
        self.bytes.len() as u64
    }

    fn read_at(&self, offset: u64, block: &mut [u8]) -> Result<(), String> {
        if offset + block.len() as u64 > self.bad_from {
            return Err(format!("cannot read at {}", offset));
        }
        let start = offset as usize;
        block.copy_from_slice(&self.bytes[start..start + block.len()]);
        Ok(())
    }
}

const NAME: &[u8] = b"firmware.bin";

fn server<'a>(image: &'a MemoryImage, max_block_size: u16) -> ImageServer<'a, MemoryImage> {
    ImageServer::new(true, image, NAME, max_block_size).unwrap()
}

fn bdx_meta(message_type: matter_bdx::MessageType) -> MessageMeta {
    MessageMeta::new(PROTO_ID_BDX, message_type.to_u8(), true)
}

fn init_body(max_block_size: u16, start_offset: u64, max_length: u64, name: &[u8]) -> Vec<u8> {
    matter_bdx::TransferInit {
        control: matter_bdx::TransferControl::RECEIVER_DRIVE,
        version: matter_bdx::BDX_VERSION,
        max_block_size,
        start_offset,
        max_length,
        file_designator: name.to_vec(),
        metadata: Vec::new(),
    }
    .encode()
}

fn propose(server: &mut ImageServer<'_, MemoryImage>, body: &[u8]) -> Step<String> {
    let meta = bdx_meta(matter_bdx::MessageType::ReceiveInit);
    server.on_event(Event::Received { meta, payload: body })
}

fn counted(
    server: &mut ImageServer<'_, MemoryImage>,
    message_type: matter_bdx::MessageType,
    block_counter: u32,
) -> Step<String> {
    let body = matter_bdx::CounterMessage { block_counter }.encode();
    server.on_event(Event::Received { meta: bdx_meta(message_type), payload: &body })
}

fn query(server: &mut ImageServer<'_, MemoryImage>, counter: u32) -> Step<String> {
    counted(server, matter_bdx::MessageType::BlockQuery, counter)
}

fn acknowledge(server: &mut ImageServer<'_, MemoryImage>, counter: u32) -> Step<String> {
    counted(server, matter_bdx::MessageType::BlockAckEof, counter)
}

/// The only message of a step after which the transfer goes on.
fn only_message(step: &Step<String>) -> &Outgoing {
    assert!(step.outcome.is_none());
    assert_eq!(step.sends.len(), 1);
    &step.sends[0]
}

fn block(message: &Outgoing, message_type: matter_bdx::MessageType) -> (u32, Vec<u8>) {
    assert_eq!(message.meta, bdx_meta(message_type));
    let block = matter_bdx::DataBlock::decode(&message.payload).unwrap();
    (block.block_counter, block.data)
}

fn assert_reports(message: &Outgoing, status: BdxStatusCode) {
    assert_eq!(message.meta, OpCode::StatusReport.meta());
    let mut rb = ReadBuf::new(&message.payload);
    let report = StatusReport::read(&mut rb).unwrap();
    assert_eq!(report.general_code, GeneralCode::Failure);
    assert_eq!(report.proto_id, u32::from(PROTO_ID_BDX));
    assert_eq!(report.proto_code, status.to_u16());
    assert!(report.proto_data.is_empty());
}

fn assert_refused(
    server: &ImageServer<'_, MemoryImage>,
    step: &Step<String>,
    status: BdxStatusCode,
) {
    assert!(server.is_finished());
    assert!(matches!(step.outcome, Some(Err(ProviderError::UnexpectedMessage))));
    assert_eq!(step.sends.len(), 1);
    assert_reports(&step.sends[0], status);
}

#[test]
fn receive_init_requires_exact_expected_designator() {
    assert!(designator_matches(b"firmware.bin", b"firmware.bin"));
    assert!(!designator_matches(b"firmware.bin", b"firmware.bin\0"));
    assert!(!designator_matches(b"firmware.bin", b"Firmware.bin"));
}

#[test]
fn repeated_block_query_retransmits_only_the_last_sent_block() {
    assert!(is_duplicate_query(2, 3, 2));
    assert!(!is_duplicate_query(3, 3, 2));
    assert!(!is_duplicate_query(1, 3, 2));
}

#[test]
fn abort_is_encoded_as_a_failure_status_report_for_bdx() {
    let payload = status_report_payload(BdxStatusCode::BadBlockCounter);
    assert_eq!(&payload[..2], &1u16.to_le_bytes());
    assert_eq!(&payload[2..6], &u32::from(PROTO_ID_BDX).to_le_bytes());
    assert_eq!(&payload[6..], &BdxStatusCode::BadBlockCounter.to_u16().to_le_bytes());
}

#[test]
fn block_length_is_bounded_by_remaining_bytes_and_negotiated_size() {
    assert_eq!(next_block_len(0, 11, 4), Some(4));
    assert_eq!(next_block_len(8, 11, 4), Some(3));
    assert_eq!(next_block_len(11, 11, 4), Some(0));
    assert_eq!(next_block_len(12, 11, 4), None);
    assert_eq!(next_block_len(0, 11, 0), None);
    assert_eq!(next_block_len(0, 0, 4), Some(0));
}

#[test]
fn receive_init_must_be_receiver_driven_without_resumption() {
    let valid = TransferInit {
        control: RECEIVER_DRIVE,
        version: BDX_VERSION,
        max_block_size: 64,
        start_offset: 0,
        max_length: 0,
        file_designator: Vec::new(),
        metadata: Vec::new(),
    };
    assert_eq!(validate_init(&valid, b"", 1024, 10), Ok(()));

    let mut named = valid.clone();
    named.file_designator = b"firmware.bin".to_vec();
    assert_eq!(validate_init(&named, b"firmware.bin", 1024, 10), Ok(()));
    assert_eq!(
        validate_init(&named, b"other.bin", 1024, 10),
        Err(BdxStatusCode::TransferMethodNotSupported)
    );

    let mut invalid = valid.clone();
    invalid.control = SENDER_DRIVE;
    assert_eq!(
        validate_init(&invalid, b"", 1024, 10),
        Err(BdxStatusCode::TransferMethodNotSupported)
    );

    let mut invalid = valid;
    invalid.start_offset = 1;
    assert_eq!(
        validate_init(&invalid, b"", 1024, 10),
        Err(BdxStatusCode::TransferMethodNotSupported)
    );
}

#[test]
fn a_proposal_is_refused_for_each_of_its_terms() {
    let valid = TransferInit {
        control: RECEIVER_DRIVE,
        version: BDX_VERSION,
        max_block_size: 64,
        start_offset: 0,
        max_length: 10,
        file_designator: Vec::new(),
        metadata: b"ignored".to_vec(),
    };
    assert_eq!(validate_init(&valid, b"", 1024, 10), Ok(()));
    assert_eq!(validate_init(&valid, b"", 1024, 11), Err(BdxStatusCode::LengthTooLarge));

    let unsupported = Err(BdxStatusCode::TransferMethodNotSupported);
    assert_eq!(validate_init(&valid, b"", 0, 10), unsupported);
    let mut invalid = valid.clone();
    invalid.version = 1;
    assert_eq!(validate_init(&invalid, b"", 1024, 10), unsupported);
    let mut invalid = valid.clone();
    invalid.max_block_size = 0;
    assert_eq!(validate_init(&invalid, b"", 1024, 10), unsupported);
    let mut invalid = valid.clone();
    invalid.control = RECEIVER_DRIVE | SENDER_DRIVE;
    assert_eq!(validate_init(&invalid, b"", 1024, 10), unsupported);
    let mut asynchronous = valid;
    asynchronous.control = RECEIVER_DRIVE | 0x40;
    assert_eq!(validate_init(&asynchronous, b"", 1024, 10), Ok(()));
}

#[test]
fn numbers_agree_with_the_codec() {
    assert_eq!(BDX_VERSION, matter_bdx::BDX_VERSION);
    assert_eq!(RECEIVER_DRIVE, matter_bdx::TransferControl::RECEIVER_DRIVE.bits());
    assert_eq!(SENDER_DRIVE, matter_bdx::TransferControl::SENDER_DRIVE.bits());
    for opcode in 0..=u8::MAX {
        let ours = MessageType::from_u8(opcode);
        let theirs = matter_bdx::MessageType::from_u8(opcode);
        assert_eq!(ours.map(MessageType::to_u8), theirs.map(matter_bdx::MessageType::to_u8));
        if ours.is_some() {
            assert_eq!(ours.map(MessageType::to_u8), Some(opcode));
        }
    }
    let statuses = [
        (BdxStatusCode::LengthTooLarge, matter_bdx::BdxStatusCode::LengthTooLarge),
        (BdxStatusCode::BadMessageContents, matter_bdx::BdxStatusCode::BadMessageContents),
        (BdxStatusCode::BadBlockCounter, matter_bdx::BdxStatusCode::BadBlockCounter),
        (BdxStatusCode::UnexpectedMessage, matter_bdx::BdxStatusCode::UnexpectedMessage),
        (
            BdxStatusCode::TransferMethodNotSupported,
            matter_bdx::BdxStatusCode::TransferMethodNotSupported,
        ),
        (BdxStatusCode::Unknown, matter_bdx::BdxStatusCode::Unknown),
    ];
    for (ours, theirs) in statuses {
        assert_eq!(ours.to_u16(), theirs.to_u16());
    }
}

#[test]
fn an_image_is_served_block_by_block() {
    let image = MemoryImage::new(b"hello, world");
    let mut server = server(&image, 5);

    let step = propose(&mut server, &init_body(1024, 0, 0, NAME));
    let message = only_message(&step);
    assert_eq!(message.meta, bdx_meta(matter_bdx::MessageType::ReceiveAccept));
    let accept = matter_bdx::ReceiveAccept::decode(&message.payload).unwrap();
    assert_eq!(accept.control, matter_bdx::TransferControl::RECEIVER_DRIVE);
    assert_eq!(accept.version, matter_bdx::BDX_VERSION);
    assert_eq!(accept.max_block_size, 5);
    assert_eq!(accept.start_offset, 0);
    assert_eq!(accept.length, 12);
    assert!(accept.metadata.is_empty());
    assert_eq!(*message.payload, vec![0x20, 0x01, 5, 0, 12, 0, 0, 0]);

    let step = query(&mut server, 0);
    let first = only_message(&step);
    assert_eq!(*first.payload, b"\0\0\0\0hello".to_vec());
    assert_eq!(block(first, matter_bdx::MessageType::Block), (0, b"hello".to_vec()));
    let step = query(&mut server, 1);
    assert_eq!(
        block(only_message(&step), matter_bdx::MessageType::Block),
        (1, b", wor".to_vec())
    );
    let step = query(&mut server, 2);
    assert_eq!(
        block(only_message(&step), matter_bdx::MessageType::BlockEof),
        (2, b"ld".to_vec())
    );
    assert!(!server.is_finished());

    let step = acknowledge(&mut server, 2);
    assert!(step.sends.is_empty());
    assert!(matches!(step.outcome, Some(Ok(()))));
    assert!(server.is_finished());
}

#[test]
fn blocks_put_together_are_the_image() {
    let bytes: Vec<u8> = (0..=255u8).cycle().take(1000).collect();
    let image = MemoryImage::new(&bytes);
    for size in [1u16, 7, 250, 999, 1000, 1001, u16::MAX] {
        let mut server = server(&image, u16::MAX);
        assert_eq!(propose(&mut server, &init_body(size, 0, 1000, NAME)).sends.len(), 1);
        let mut received = Vec::new();
        let mut counter = 0;
        loop {
            let step = query(&mut server, counter);
            let message = only_message(&step);
            let sent = matter_bdx::DataBlock::decode(&message.payload).unwrap();
            assert_eq!(sent.block_counter, counter);
            assert!(sent.data.len() <= usize::from(size));
            received.extend_from_slice(&sent.data);
            if message.meta == bdx_meta(matter_bdx::MessageType::BlockEof) {
                break;
            }
            counter += 1;
        }
        assert_eq!(received, bytes);
        assert!(matches!(acknowledge(&mut server, counter).outcome, Some(Ok(()))));
    }
}

#[test]
fn an_empty_image_is_one_empty_block() {
    let image = MemoryImage::new(b"");
    let mut server = server(&image, 64);
    let step = propose(&mut server, &init_body(64, 0, 0, NAME));
    assert_eq!(*only_message(&step).payload, vec![0x20, 0x00, 64, 0]);
    let step = query(&mut server, 0);
    assert_eq!(block(only_message(&step), matter_bdx::MessageType::BlockEof), (0, Vec::new()));
    assert!(matches!(acknowledge(&mut server, 0).outcome, Some(Ok(()))));
}

/// An image of zeros that is longer than 32 bits can tell.
struct HugeImage;

impl BlockSource for HugeImage {
    type Error = ();

    fn len(&self) -> u64 {
        0x1_0000_0005
    }

    fn read_at(&self, _offset: u64, block: &mut [u8]) -> Result<(), ()> {
        block.fill(0);
        Ok(())
    }
}

#[test]
fn an_acceptance_tells_the_length_of_a_huge_image() {
    let mut server = ImageServer::new(true, &HugeImage, NAME, 512).unwrap();
    let body = init_body(300, 0, 0, NAME);
    let meta = bdx_meta(matter_bdx::MessageType::ReceiveInit);
    let step = server.on_event(Event::Received { meta, payload: &body });
    let accept = matter_bdx::ReceiveAccept::decode(&step.sends[0].payload).unwrap();
    assert_eq!(accept.max_block_size, 300);
    assert_eq!(accept.start_offset, 0);
    assert_eq!(accept.length, 0x1_0000_0005);
    assert_eq!(
        *step.sends[0].payload,
        vec![0x20, 0x11, 0x2c, 0x01, 5, 0, 0, 0, 1, 0, 0, 0]
    );
}

#[test]
fn a_repeated_query_gets_the_same_message_again() {
    let image = MemoryImage::new(b"hello");
    let mut server = server(&image, 3);
    propose(&mut server, &init_body(3, 0, 0, NAME));
    let first = query(&mut server, 0);
    let again = query(&mut server, 0);
    assert_eq!(only_message(&first).meta, only_message(&again).meta);
    assert_eq!(only_message(&first).payload, only_message(&again).payload);

    let last = query(&mut server, 1);
    let again = query(&mut server, 1);
    assert_eq!(only_message(&last).meta, only_message(&again).meta);
    assert_eq!(only_message(&last).payload, only_message(&again).payload);
    assert!(matches!(acknowledge(&mut server, 1).outcome, Some(Ok(()))));
}

#[test]
fn a_query_out_of_turn_breaks_the_transfer_off() {
    let image = MemoryImage::new(b"hello, world");
    let mut skipping = server(&image, 4);
    propose(&mut skipping, &init_body(4, 0, 0, NAME));
    let step = query(&mut skipping, 1);
    assert_refused(&skipping, &step, BdxStatusCode::BadBlockCounter);

    let mut going_back = server(&image, 4);
    propose(&mut going_back, &init_body(4, 0, 0, NAME));
    query(&mut going_back, 0);
    query(&mut going_back, 1);
    let step = query(&mut going_back, 0);
    assert_refused(&going_back, &step, BdxStatusCode::BadBlockCounter);
}

#[test]
fn a_wrong_acknowledgement_breaks_the_transfer_off() {
    let image = MemoryImage::new(b"abc");
    let mut wrong = server(&image, 4);
    propose(&mut wrong, &init_body(4, 0, 0, NAME));
    query(&mut wrong, 0);
    let step = acknowledge(&mut wrong, 1);
    assert_refused(&wrong, &step, BdxStatusCode::BadBlockCounter);

    let mut past_the_end = server(&image, 4);
    propose(&mut past_the_end, &init_body(4, 0, 0, NAME));
    query(&mut past_the_end, 0);
    let step = query(&mut past_the_end, 1);
    assert_refused(&past_the_end, &step, BdxStatusCode::UnexpectedMessage);

    let mut early = server(&image, 2);
    propose(&mut early, &init_body(2, 0, 0, NAME));
    query(&mut early, 0);
    let step = acknowledge(&mut early, 0);
    assert_refused(&early, &step, BdxStatusCode::UnexpectedMessage);
}

#[test]
fn a_transfer_starts_with_an_acceptable_proposal() {
    let image = MemoryImage::new(b"hello");
    let mut unproposed = server(&image, 64);
    let step = query(&mut unproposed, 0);
    assert_refused(&unproposed, &step, BdxStatusCode::UnexpectedMessage);

    let mut resumed = server(&image, 64);
    let step = propose(&mut resumed, &init_body(64, 1, 0, NAME));
    assert_refused(&resumed, &step, BdxStatusCode::TransferMethodNotSupported);

    let mut resumed_far = server(&image, 64);
    let step = propose(&mut resumed_far, &init_body(64, 1 << 40, 0, NAME));
    assert_refused(&resumed_far, &step, BdxStatusCode::TransferMethodNotSupported);

    let mut limited = server(&image, 64);
    let step = propose(&mut limited, &init_body(64, 0, 4, NAME));
    assert_refused(&limited, &step, BdxStatusCode::LengthTooLarge);

    let mut widely_limited = server(&image, 64);
    let step = propose(&mut widely_limited, &init_body(64, 0, 1 << 40, NAME));
    assert_eq!(only_message(&step).meta, bdx_meta(matter_bdx::MessageType::ReceiveAccept));

    let mut misnamed = server(&image, 64);
    let step = propose(&mut misnamed, &init_body(64, 0, 0, b"other.bin"));
    assert_refused(&misnamed, &step, BdxStatusCode::TransferMethodNotSupported);

    let mut twice = server(&image, 64);
    propose(&mut twice, &init_body(64, 0, 0, NAME));
    let step = propose(&mut twice, &init_body(64, 0, 0, NAME));
    assert_refused(&twice, &step, BdxStatusCode::UnexpectedMessage);
}

#[test]
fn an_image_that_cannot_be_read_ends_the_transfer() {
    let image = MemoryImage { bytes: b"hello, world".to_vec(), bad_from: 6 };
    let mut server = server(&image, 5);
    propose(&mut server, &init_body(5, 0, 0, NAME));
    query(&mut server, 0);
    let step = query(&mut server, 1);
    match step.outcome {
        Some(Err(ProviderError::Source(error))) => assert_eq!(error, "cannot read at 5"),
        _ => panic!("reading was to fail"),
    }
    assert_eq!(step.sends.len(), 1);
    assert_reports(&step.sends[0], BdxStatusCode::Unknown);
    assert!(server.is_finished());
}

#[test]
fn cancelling_here_is_reported_to_the_peer() {
    let image = MemoryImage::new(b"hello");
    let mut server = server(&image, 64);
    propose(&mut server, &init_body(64, 0, 0, NAME));
    let step = server.on_event(Event::Cancelled);
    assert!(matches!(step.outcome, Some(Err(ProviderError::Cancelled))));
    assert_eq!(step.sends.len(), 1);
    assert_reports(&step.sends[0], BdxStatusCode::Unknown);
}

#[test]
fn what_the_peer_or_the_transport_gives_up_ends_in_silence() {
    let image = MemoryImage::new(b"hello");
    let mut reported = server(&image, 64);
    let step = reported.on_event(Event::Received {
        meta: OpCode::StatusReport.meta(),
        payload: &[],
    });
    assert!(matches!(step.outcome, Some(Err(ProviderError::Cancelled))));
    assert!(step.sends.is_empty());

    let mut lost = server(&image, 64);
    let error = Error::new(ErrorCode::NoExchange);
    let step = lost.on_event(Event::ReceiveFailed(error));
    match step.outcome {
        Some(Err(ProviderError::Matter(passed_on))) => assert_eq!(passed_on, error),
        _ => panic!("receiving was to fail"),
    }
    assert!(step.sends.is_empty());
}

#[test]
fn an_ended_transfer_answers_nothing() {
    let image = MemoryImage::new(b"hello");
    let mut server = server(&image, 64);
    server.on_event(Event::Cancelled);
    for _ in 0..2 {
        let step = propose(&mut server, &init_body(64, 0, 0, NAME));
        assert!(step.sends.is_empty());
        assert!(step.outcome.is_none());
        let step = server.on_event(Event::Cancelled);
        assert!(step.sends.is_empty());
        assert!(step.outcome.is_none());
    }
    assert!(server.is_finished());
}

#[test]
fn an_unauthenticated_peer_is_not_served() {
    let image = MemoryImage::new(b"hello");
    let server = ImageServer::new(false, &image, NAME, 64);
    assert!(matches!(server, Err(ProviderError::UnauthenticatedPeer)));
}

#[test]
fn foreign_messages_and_unknown_opcodes_are_unexpected() {
    let image = MemoryImage::new(b"hello");
    let foreign = [
        MessageMeta::new(1, 0x04, true),
        MessageMeta::new(PROTO_ID_SECURE_CHANNEL, OpCode::CASESigma1.as_u8(), true),
        MessageMeta::new(PROTO_ID_BDX, 0x03, true),
        MessageMeta::new(PROTO_ID_BDX, OpCode::StatusReport.as_u8(), true),
    ];
    for meta in foreign {
        let mut server = server(&image, 64);
        let body = init_body(64, 0, 0, NAME);
        let step = server.on_event(Event::Received { meta, payload: &body });
        assert_refused(&server, &step, BdxStatusCode::UnexpectedMessage);
    }
}

#[test]
fn bodies_decode_exactly_where_they_are_long_enough() {
    let whole_bodies = [
        (matter_bdx::MessageType::ReceiveInit, init_body(64, 0, 0, NAME)),
        (matter_bdx::MessageType::ReceiveInit, init_body(64, 3, 9, NAME)),
        (matter_bdx::MessageType::ReceiveInit, init_body(64, 3, 1 << 33, NAME)),
        (matter_bdx::MessageType::SendInit, init_body(64, 1 << 33, 0, NAME)),
        (matter_bdx::MessageType::ReceiveAccept, vec![0x20, 0x01, 5, 0, 12, 0, 0, 0]),
        (matter_bdx::MessageType::SendAccept, vec![0x20, 5, 0]),
        (matter_bdx::MessageType::BlockQuery, vec![1, 2, 3, 4]),
        (matter_bdx::MessageType::Block, vec![1, 2, 3, 4]),
        (matter_bdx::MessageType::BlockEof, vec![1, 2, 3, 4]),
        (matter_bdx::MessageType::BlockAck, vec![1, 2, 3, 4]),
        (matter_bdx::MessageType::BlockAckEof, vec![1, 2, 3, 4]),
    ];
    for (message_type, body) in &whole_bodies {
        let meta = bdx_meta(*message_type);
        assert!(decode_bdx_message::<()>(meta, body).is_ok());
        for short in 0..body.len() {
            match decode_bdx_message::<()>(meta, &body[..short]) {
                Err(Refusal { abort: Some(BdxStatusCode::BadMessageContents), error }) => {
                    assert!(matches!(error, ProviderError::Codec(CodecError::Truncated)))
                }
                _ => panic!("a short body was to be refused"),
            }
        }
    }

    let image = MemoryImage::new(b"hello");
    let mut server = server(&image, 64);
    let step = propose(&mut server, &[0x20, 0]);
    assert!(matches!(
        step.outcome,
        Some(Err(ProviderError::Codec(CodecError::Truncated)))
    ));
    assert_eq!(step.sends.len(), 1);
    assert_reports(&step.sends[0], BdxStatusCode::BadMessageContents);
}

#[test]
fn what_follows_a_counter_is_not_looked_at() {
    let image = MemoryImage::new(b"hello");
    let mut server = server(&image, 64);
    propose(&mut server, &init_body(64, 0, 0, NAME));
    let meta = bdx_meta(matter_bdx::MessageType::BlockQuery);
    let step = server.on_event(Event::Received { meta, payload: &[0, 0, 0, 0, 9, 9] });
    assert_eq!(
        block(only_message(&step), matter_bdx::MessageType::BlockEof),
        (0, b"hello".to_vec())
    );
}

#[test]
fn messages_carry_their_type_and_payload() {
    let message = send_bdx(MessageType::Block, Arc::new(vec![7, 0, 0, 0, 1]));
    assert_eq!(message.meta, MessageMeta::new(PROTO_ID_BDX, 0x11, true));
    assert_eq!(*message.payload, vec![7, 0, 0, 0, 1]);
    assert_reports(&send_abort(BdxStatusCode::LengthTooLarge), BdxStatusCode::LengthTooLarge);
    assert!(matches!(
        ProviderError::<()>::from(Error::new(ErrorCode::NoSpace)),
        ProviderError::Matter(error) if error.code() == ErrorCode::NoSpace
    ));
}

/// Notes what is read of an image.
struct NotedImage {
    image: MemoryImage,
    reads: RefCell<Vec<(u64, usize)>>,
}

impl BlockSource for NotedImage {
    type Error = String;

    fn len(&self) -> u64 {
        self.image.len()
    }

    fn read_at(&self, offset: u64, block: &mut [u8]) -> Result<(), String> {
        self.reads.borrow_mut().push((offset, block.len()));
        self.image.read_at(offset, block)
    }
}

#[test]
fn each_block_is_read_once() {
    let image = NotedImage {
        image: MemoryImage { bytes: b"hello, world!".to_vec(), bad_from: 12 },
        reads: RefCell::new(Vec::new()),
    };
    let mut server = ImageServer::new(true, &image, NAME, 64).unwrap();
    let body = init_body(5, 0, 0, NAME);
    let meta = bdx_meta(matter_bdx::MessageType::ReceiveInit);
    server.on_event(Event::Received { meta, payload: &body });
    assert!(image.reads.borrow().is_empty());
    for counter in [0u32, 0, 1, 1, 1, 2] {
        let meta = bdx_meta(matter_bdx::MessageType::BlockQuery);
        server.on_event(Event::Received { meta, payload: &counter.to_le_bytes() });
    }
    assert!(server.is_finished());
    server.on_event(Event::Cancelled);
    assert_eq!(*image.reads.borrow(), vec![(0, 5), (5, 5), (10, 3)]);
}

#[test]
fn a_block_is_shared_and_not_copied() {
    let image = MemoryImage::new(b"hello, world");
    let mut server = server(&image, 5);
    propose(&mut server, &init_body(5, 0, 0, NAME));
    let first = query(&mut server, 0);
    let again = query(&mut server, 0);
    assert!(Arc::ptr_eq(&only_message(&first).payload, &only_message(&again).payload));
    drop(again);
    assert_eq!(Arc::strong_count(&only_message(&first).payload), 2);
    query(&mut server, 1);
    assert_eq!(Arc::strong_count(&only_message(&first).payload), 1);
}

fn serving(offset: u64, next_counter: u32) -> Phase {
    let last_response = SentBlock {
        counter: next_counter.wrapping_sub(1),
        message_type: MessageType::Block,
        payload: Arc::new(Vec::new()),
    };
    Phase::Serving {
        length: 12,
        block_size: 5,
        offset,
        next_counter,
        last_response: Some(last_response),
    }
}

#[test]
fn only_a_new_query_needs_a_read() {
    let phase = serving(10, 2);
    assert_eq!(
        needed_read(&phase, &BdxMessage::BlockQuery(2)),
        Some(BlockRead { offset: 10, len: 2 })
    );
    assert_eq!(
        needed_read(&serving(5, 1), &BdxMessage::BlockQuery(1)),
        Some(BlockRead { offset: 5, len: 5 })
    );
    assert_eq!(needed_read(&phase, &BdxMessage::BlockQuery(1)), None);
    assert_eq!(needed_read(&phase, &BdxMessage::BlockQuery(3)), None);
    assert_eq!(needed_read(&phase, &BdxMessage::BlockAckEof(2)), None);
    assert_eq!(needed_read(&serving(13, 2), &BdxMessage::BlockQuery(2)), None);
    assert_eq!(needed_read(&Phase::AwaitInit, &BdxMessage::BlockQuery(0)), None);
    assert_eq!(needed_read(&Phase::Finished, &BdxMessage::BlockQuery(0)), None);
}

#[test]
fn what_was_read_is_sent_behind_its_counter() {
    let (phase, step) = after_read::<()>(12, 5, 5, 1, Ok(b"....abcde".to_vec()));
    assert!(step.outcome.is_none());
    assert_eq!(step.sends[0].meta, bdx_meta(matter_bdx::MessageType::Block));
    assert_eq!(*step.sends[0].payload, b"\x01\0\0\0abcde".to_vec());
    assert!(matches!(phase, Phase::Serving { offset: 10, next_counter: 2, .. }));

    let (phase, step) = after_read::<()>(12, 5, 10, 2, Ok(b"....fg".to_vec()));
    assert!(step.outcome.is_none());
    assert_eq!(step.sends[0].meta, bdx_meta(matter_bdx::MessageType::BlockEof));
    assert_eq!(*step.sends[0].payload, b"\x02\0\0\0fg".to_vec());
    assert!(matches!(phase, Phase::AwaitAck(SentBlock { counter: 2, .. })));
}

#[test]
fn a_failed_read_ends_with_its_error() {
    let (phase, step) = after_read(12, 5, 5, 1, Err("worn out"));
    assert!(matches!(phase, Phase::Finished));
    assert!(matches!(step.outcome, Some(Err(ProviderError::Source("worn out")))));
    assert_eq!(step.sends.len(), 1);
    assert_reports(&step.sends[0], BdxStatusCode::Unknown);
}

#[test]
fn a_transfer_ends_where_the_counters_do() {
    let (phase, step) = after_read::<()>(u64::MAX, 5, 100, u32::MAX, Ok(b"....abcde".to_vec()));
    assert!(matches!(phase, Phase::Finished));
    assert!(matches!(step.outcome, Some(Err(ProviderError::UnexpectedMessage))));
    assert_eq!(step.sends.len(), 2);
    assert_eq!(*step.sends[0].payload, b"\xff\xff\xff\xffabcde".to_vec());
    assert_reports(&step.sends[1], BdxStatusCode::BadBlockCounter);

    let (phase, step) = after_read::<()>(105, 5, 100, u32::MAX, Ok(b"....abcde".to_vec()));
    assert!(matches!(phase, Phase::AwaitAck(SentBlock { counter: u32::MAX, .. })));
    assert_eq!(step.sends.len(), 1);
}
