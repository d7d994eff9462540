//! One transfer, from the proposal to the acknowledged last block.
use vstd::prelude::*;

use std::sync::Arc;

use crate::bdx::codec::{
    decode_body, decoded_message, encode_receive_accept, is_bdx_opcode, opcode_of,
    receive_accept_body, status_number, BdxMessage, BdxStatusCode, CodecError, InitView,
    MessageType, MessageView, ReceiveAccept, TransferInit, BDX_VERSION, RECEIVER_DRIVE,
    SENDER_DRIVE,
};
use crate::bytes::equal_bytes;
use crate::error::Error;
use crate::le::{le32, u16_to_le, u32_to_le};
use crate::message::MessageMeta;
use crate::sc::{
    opcode_meta, opcode_number, report_bytes, GeneralCode, OpCode, ReportView,
    PROTO_ID_SECURE_CHANNEL,
};

verus! {

/// The protocol id of Bulk Data Exchange.
pub const PROTO_ID_BDX: u16 = 0x0002;

/// A bounded, random-access image.
///
/// An implementation that is not verified leaves `image` and `fails_with` open, and has
/// to keep the contracts all the same.
pub trait BlockSource {
    /// The source-specific read error.
    type Error;

    /// The bytes of the image.
    closed spec fn image(&self) -> Seq<u8> {
        arbitrary()
    }

    /// Whether reading `len` bytes from `offset` on can fail with this error.
    closed spec fn fails_with(&self, offset: u64, len: nat, error: Self::Error) -> bool {
        arbitrary()
    }

    /// The length of the image in bytes.
    fn len(&self) -> (length: u64)
        ensures
            length == self.image().len(),
    ;

    /// Fills the block from `offset` on. Fills it whole or returns an error.
    fn read_at(&self, offset: u64, block: &mut [u8]) -> (r: Result<(), Self::Error>)
        requires
            offset + old(block)@.len() <= self.image().len(),
        ensures
            final(block)@.len() == old(block)@.len(),
            r is Ok ==> final(block)@ == self.image().subrange(
                offset as int,
                offset + old(block)@.len(),
            ),
            r matches Err(error) ==> self.fails_with(offset, old(block)@.len(), error),
    ;
}

/// Why serving a transfer ended without success.
#[derive(Debug)]
pub enum ProviderError<E> {
    /// The transport failed.
    Matter(Error),
    /// The image could not be read.
    Source(E),
    /// A BDX body could not be decoded.
    Codec(CodecError),
    /// The exchange was not established with an authenticated CASE peer.
    UnauthenticatedPeer,
    /// The transfer was cancelled, here or by the receiver.
    Cancelled,
    /// The peer sent a message that is invalid for the state of the transfer.
    UnexpectedMessage,
}

impl<E> From<Error> for ProviderError<E> {
    fn from(error: Error) -> (provider_error: Self) {
        ProviderError::Matter(error)
    }
}

impl<E> vstd::std_specs::convert::FromSpecImpl<Error> for ProviderError<E> {
    open spec fn obeys_from_spec() -> bool {
        true
    }

    open spec fn from_spec(error: Error) -> Self {
        ProviderError::Matter(error)
    }
}

/// Whether two designators are the same, byte for byte.
pub fn designator_matches(actual: &[u8], expected: &[u8]) -> (same: bool)
    ensures
        same == (actual@ == expected@),
{
    equal_bytes(actual, expected)
}

/// Whether a query asks again for the block that was sent last.
pub fn is_duplicate_query(query_counter: u32, next_counter: u32, last_counter: u32) -> (dup: bool)
    ensures
        dup == (query_counter == last_counter && query_counter < next_counter),
{
    query_counter == last_counter && query_counter < next_counter
}

/// The length of the block at `offset`: a whole block, or what is left of the image.
pub open spec fn block_len_at(offset: u64, length: u64, block_size: u16) -> Option<int> {
    if block_size == 0 || offset > length {
        None
    } else if length - offset < block_size {
        Some(length - offset)
    } else {
        Some(block_size as int)
    }
}

/// The length of the block at `offset`, bounded by what is left and by the
/// negotiated size. There is none past the end, nor without a size.
pub fn next_block_len(offset: u64, length: u64, block_size: u16) -> (len: Option<usize>)
    ensures
        len is Some <==> block_len_at(offset, length, block_size) is Some,
        len matches Some(n) ==> block_len_at(offset, length, block_size) == Some(n as int),
{
    if block_size == 0 || offset > length {
        return None;
    }
    if length - offset < block_size as u64 {
        Some((length - offset) as usize)
    } else {
        Some(block_size as usize)
    }
}

/// Whether a transfer control flag, a single bit, is set.
pub open spec fn has_flag(control: u8, flag: u8) -> bool {
    control / flag % 2 == 1
}

/// The answer to a proposed transfer: nothing against it, or what is.
///
/// The receiver drives, from the start of the image, in the version spoken here,
/// with blocks of some size, and names the image. It may limit the length.
pub open spec fn init_verdict(
    init: InitView,
    expected_designator: Seq<u8>,
    max_block_size: u16,
    image_length: u64,
) -> Result<(), BdxStatusCode> {
    if !has_flag(init.control, RECEIVER_DRIVE) || has_flag(init.control, SENDER_DRIVE)
        || init.version != BDX_VERSION || init.max_block_size == 0 || max_block_size == 0
        || init.start_offset != 0 || init.file_designator != expected_designator {
        Err(BdxStatusCode::TransferMethodNotSupported)
    } else if init.max_length != 0 && image_length > init.max_length {
        Err(BdxStatusCode::LengthTooLarge)
    } else {
        Ok(())
    }
}

/// Whether a proposed transfer is taken, and if not, why.
pub fn validate_init(
    init: &TransferInit,
    expected_designator: &[u8],
    max_block_size: u16,
    image_length: u64,
) -> (verdict: Result<(), BdxStatusCode>)
    ensures
        verdict == init_verdict(init@, expected_designator@, max_block_size, image_length),
{
    let control: u8 = init.control;
    assert(control & 0x20 == 0x20 <==> control / 0x20 % 2 == 1) by (bit_vector);
    assert(control & 0x10 == 0x10 <==> control / 0x10 % 2 == 1) by (bit_vector);
    if control & RECEIVER_DRIVE != RECEIVER_DRIVE || control & SENDER_DRIVE == SENDER_DRIVE
        || init.version != BDX_VERSION || init.max_block_size == 0 || max_block_size == 0
        || init.start_offset != 0 || !designator_matches(
        init.file_designator.as_slice(),
        expected_designator,
    ) {
        return Err(BdxStatusCode::TransferMethodNotSupported);
    }
    if init.max_length != 0 && image_length > init.max_length {
        return Err(BdxStatusCode::LengthTooLarge);
    }
    Ok(())
}

/// The status report that breaks a transfer off.
pub open spec fn bdx_report(status: BdxStatusCode) -> ReportView {
    ReportView {
        general_code: GeneralCode::Failure,
        proto_id: PROTO_ID_BDX as u32,
        proto_code: status_number(status),
        proto_data: Seq::empty(),
    }
}

/// The payload of the status report that breaks a transfer off.
pub fn status_report_payload(status: BdxStatusCode) -> (payload: [u8; 8])
    ensures
        payload@ == report_bytes(bdx_report(status)),
{
    let general: [u8; 2] = u16_to_le(GeneralCode::Failure.as_u16());
    let proto: [u8; 4] = u32_to_le(PROTO_ID_BDX as u32);
    let code: [u8; 2] = u16_to_le(status.to_u16());
    let payload: [u8; 8] = [
        general[0],
        general[1],
        proto[0],
        proto[1],
        proto[2],
        proto[3],
        code[0],
        code[1],
    ];
    assert(payload@ =~= general@ + proto@ + code@ + Seq::<u8>::empty());
    payload
}

/// A message to be sent.
#[derive(Clone, Debug)]
pub struct Outgoing {
    pub meta: MessageMeta,
    /// Shared with what is kept of a block in case it has to be sent again.
    pub payload: Arc<Vec<u8>>,
}

/// What a message to be sent holds.
pub struct OutgoingView {
    pub meta: MessageMeta,
    pub payload: Seq<u8>,
}

impl View for Outgoing {
    type V = OutgoingView;

    open spec fn view(&self) -> OutgoingView {
        OutgoingView { meta: self.meta, payload: self.payload@ }
    }
}

/// A BDX message, which is retransmitted until acknowledged.
pub open spec fn bdx_message(message_type: MessageType, payload: Seq<u8>) -> OutgoingView {
    OutgoingView {
        meta: MessageMeta {
            proto_id: PROTO_ID_BDX,
            proto_opcode: opcode_of(message_type),
            reliable: true,
        },
        payload,
    }
}

/// The message that breaks a transfer off.
pub open spec fn abort_message(status: BdxStatusCode) -> OutgoingView {
    OutgoingView {
        meta: opcode_meta(OpCode::StatusReport),
        payload: report_bytes(bdx_report(status)),
    }
}

/// A BDX message, which is retransmitted until acknowledged.
pub fn send_bdx(message_type: MessageType, payload: Arc<Vec<u8>>) -> (message: Outgoing)
    ensures
        message@ == bdx_message(message_type, payload@),
{
    Outgoing { meta: MessageMeta::new(PROTO_ID_BDX, message_type.to_u8(), true), payload }
}

/// The message that breaks a transfer off.
pub fn send_abort(status: BdxStatusCode) -> (message: Outgoing)
    ensures
        message@ == abort_message(status),
{
    let report: [u8; 8] = status_report_payload(status);
    let payload: Vec<u8> = vstd::slice::slice_to_vec(&report);
    Outgoing { meta: OpCode::StatusReport.meta(), payload: Arc::new(payload) }
}

/// What ends a transfer early: the report to send first, if any, and the error.
#[derive(Debug)]
pub struct Refusal<E> {
    pub abort: Option<BdxStatusCode>,
    pub error: ProviderError<E>,
}

/// Whether a message is the peer's status report.
pub open spec fn is_peer_report(meta: MessageMeta) -> bool {
    meta.proto_id == PROTO_ID_SECURE_CHANNEL && meta.proto_opcode == opcode_number(
        OpCode::StatusReport,
    )
}

/// Whether a message is one of the BDX messages.
pub open spec fn is_bdx_message(meta: MessageMeta) -> bool {
    meta.proto_id == PROTO_ID_BDX && is_bdx_opcode(meta.proto_opcode)
}

/// The BDX message in a received message, or why the transfer ends here.
///
/// A status report of the peer ends it without an answer. A message of another
/// protocol or with an unknown opcode is answered as unexpected, and a body that
/// does not decode as bad contents.
pub fn decode_bdx_message<E>(meta: MessageMeta, payload: &[u8]) -> (r: Result<
    BdxMessage,
    Refusal<E>,
>)
    ensures
        is_peer_report(meta) ==> r == Err::<BdxMessage, Refusal<E>>(
            (Refusal { abort: None, error: ProviderError::Cancelled }),
        ),
        !is_peer_report(meta) && !is_bdx_message(meta) ==> r == Err::<BdxMessage, Refusal<E>>(
            (Refusal {
                abort: Some(BdxStatusCode::UnexpectedMessage),
                error: ProviderError::UnexpectedMessage,
            }),
        ),
        is_bdx_message(meta) ==> (match r {
            Ok(message) => decoded_message(meta.proto_opcode, payload@) == Some(message@),
            Err(refusal) => decoded_message(meta.proto_opcode, payload@) is None && refusal.abort
                == Some(BdxStatusCode::BadMessageContents) && refusal.error
                == ProviderError::<E>::Codec(CodecError::Truncated),
        }),
{
    if meta.proto_id == PROTO_ID_SECURE_CHANNEL && meta.proto_opcode
        == OpCode::StatusReport.as_u8() {
        return Err(Refusal { abort: None, error: ProviderError::Cancelled });
    }
    let message_type = MessageType::from_u8(meta.proto_opcode);
    if meta.proto_id != PROTO_ID_BDX || message_type.is_none() {
        return Err(
            Refusal {
                abort: Some(BdxStatusCode::UnexpectedMessage),
                error: ProviderError::UnexpectedMessage,
            },
        );
    }
    match decode_body(meta.proto_opcode, payload) {
        Ok(message) => Ok(message),
        Err(error) => Err(
            Refusal {
                abort: Some(BdxStatusCode::BadMessageContents),
                error: ProviderError::Codec(error),
            },
        ),
    }
}

/// A block that was sent.
#[derive(Clone, Debug)]
pub struct SentBlock {
    pub counter: u32,
    pub message_type: MessageType,
    pub payload: Arc<Vec<u8>>,
}

/// What a block that was sent holds.
pub struct SentView {
    pub counter: u32,
    pub message_type: MessageType,
    pub payload: Seq<u8>,
}

impl View for SentBlock {
    type V = SentView;

    open spec fn view(&self) -> SentView {
        SentView {
            counter: self.counter,
            message_type: self.message_type,
            payload: self.payload@,
        }
    }
}

/// How far a transfer has come.
#[derive(Debug)]
pub enum Phase {
    /// No transfer has been proposed yet.
    AwaitInit,
    /// The receiver asks for blocks.
    Serving {
        length: u64,
        block_size: u16,
        offset: u64,
        next_counter: u32,
        last_response: Option<SentBlock>,
    },
    /// The last block is sent and not acknowledged yet.
    AwaitAck(SentBlock),
    /// The transfer is over.
    Finished,
}

/// How far a transfer has come.
pub enum PhaseView {
    AwaitInit,
    Serving {
        length: u64,
        block_size: u16,
        offset: u64,
        next_counter: u32,
        last_response: Option<SentView>,
    },
    AwaitAck(SentView),
    Finished,
}

impl View for Phase {
    type V = PhaseView;

    open spec fn view(&self) -> PhaseView {
        match *self {
            Phase::AwaitInit => PhaseView::AwaitInit,
            Phase::Serving { length, block_size, offset, next_counter, last_response } => {
                PhaseView::Serving {
                    length,
                    block_size,
                    offset,
                    next_counter,
                    last_response: match last_response {
                        Some(sent) => Some(sent@),
                        None => None,
                    },
                }
            },
            Phase::AwaitAck(sent) => PhaseView::AwaitAck(sent@),
            Phase::Finished => PhaseView::Finished,
        }
    }
}

/// What an event leads to: messages to send, in order, and then how the transfer
/// ended, unless it goes on.
#[derive(Debug)]
pub struct Step<E> {
    pub sends: Vec<Outgoing>,
    pub outcome: Option<Result<(), ProviderError<E>>>,
}

/// Where an event leads, and what is sent on the way.
pub struct StepView<E> {
    pub phase: PhaseView,
    pub sends: Seq<OutgoingView>,
    pub outcome: Option<Result<(), ProviderError<E>>>,
}

impl<E> Step<E> {
    /// The messages to send.
    pub open spec fn sent(&self) -> Seq<OutgoingView> {
        self.sends@.map_values(|message: Outgoing| message@)
    }

    /// This step, together with the phase it leads to.
    pub open spec fn leading_to(&self, phase: PhaseView) -> StepView<E> {
        StepView { phase, sends: self.sent(), outcome: self.outcome }
    }
}

/// The transfer goes on after one message.
pub open spec fn going_on<E>(phase: PhaseView, message: OutgoingView) -> StepView<E> {
    StepView { phase, sends: seq![message], outcome: None }
}

/// The transfer is broken off.
pub open spec fn broken_off<E>(status: BdxStatusCode, error: ProviderError<E>) -> StepView<E> {
    StepView {
        phase: PhaseView::Finished,
        sends: seq![abort_message(status)],
        outcome: Some(Err(error)),
    }
}

/// The transfer is broken off because the peer sent something it should not have.
pub open spec fn refused<E>(status: BdxStatusCode) -> StepView<E> {
    broken_off(status, ProviderError::UnexpectedMessage)
}

/// The smaller of two block sizes.
pub open spec fn negotiated(theirs: u16, ours: u16) -> u16 {
    if theirs < ours {
        theirs
    } else {
        ours
    }
}

/// The message that takes a proposed transfer.
pub open spec fn accept_message(block_size: u16, length: u64) -> OutgoingView {
    bdx_message(
        MessageType::ReceiveAccept,
        receive_accept_body(RECEIVER_DRIVE, BDX_VERSION, block_size, 0, length, Seq::empty()),
    )
}

/// What a message leads to while no transfer has been proposed.
pub open spec fn await_init_step<E>(
    expected_designator: Seq<u8>,
    max_block_size: u16,
    image: Seq<u8>,
    message: MessageView,
) -> StepView<E> {
    let length = image.len() as u64;
    match message {
        MessageView::ReceiveInit(init) => match init_verdict(
            init,
            expected_designator,
            max_block_size,
            length,
        ) {
            Ok(_) => {
                let block_size = negotiated(init.max_block_size, max_block_size);
                going_on(
                    PhaseView::Serving {
                        length,
                        block_size,
                        offset: 0,
                        next_counter: 0,
                        last_response: None,
                    },
                    accept_message(block_size, length),
                )
            },
            Err(status) => refused(status),
        },
        _ => refused(BdxStatusCode::UnexpectedMessage),
    }
}

/// A part of the image that is to be read.
#[derive(Clone, Copy, Debug, PartialEq, Eq, Structural)]
pub struct BlockRead {
    pub offset: u64,
    pub len: usize,
}

/// What is to be read of the image to answer a message: the next block, where the
/// message asks for it, and else nothing.
pub open spec fn message_read(phase: PhaseView, message: MessageView) -> Option<BlockRead> {
    match (phase, message) {
        (
            PhaseView::Serving { length, block_size, offset, next_counter, .. },
            MessageView::BlockQuery(counter),
        ) => if counter == next_counter {
            match block_len_at(offset, length, block_size) {
                Some(len) => Some(BlockRead { offset, len: len as usize }),
                None => None,
            }
        } else {
            None
        },
        _ => None,
    }
}

/// What the outcome of reading the block at `offset` leads to: the block, or the error
/// of the image.
pub open spec fn block_step<E>(
    length: u64,
    block_size: u16,
    offset: u64,
    counter: u32,
    read: Result<Seq<u8>, E>,
) -> StepView<E> {
    match read {
        Err(error) => broken_off(BdxStatusCode::Unknown, ProviderError::Source(error)),
        Ok(data) => {
            let end = (offset + data.len()) as u64;
            let message_type = if end == length {
                MessageType::BlockEof
            } else {
                MessageType::Block
            };
            let payload = le32(counter) + data;
            let sent = SentView { counter, message_type, payload };
            let block = bdx_message(message_type, payload);
            if end == length {
                going_on(PhaseView::AwaitAck(sent), block)
            } else if counter == u32::MAX {
                StepView {
                    phase: PhaseView::Finished,
                    sends: seq![block, abort_message(BdxStatusCode::BadBlockCounter)],
                    outcome: Some(Err(ProviderError::UnexpectedMessage)),
                }
            } else {
                going_on(
                    PhaseView::Serving {
                        length,
                        block_size,
                        offset: end,
                        next_counter: (counter + 1) as u32,
                        last_response: Some(sent),
                    },
                    block,
                )
            }
        },
    }
}

/// What a query for the block at `offset` leads to, where reading the image fails
/// with `read_failure` or succeeds.
pub open spec fn next_block_step<E>(
    image: Seq<u8>,
    length: u64,
    block_size: u16,
    offset: u64,
    counter: u32,
    read_failure: Option<E>,
) -> StepView<E> {
    match block_len_at(offset, length, block_size) {
        None => refused(BdxStatusCode::UnexpectedMessage),
        Some(len) => block_step(
            length,
            block_size,
            offset,
            counter,
            match read_failure {
                Some(error) => Err(error),
                None => Ok(image.subrange(offset as int, offset + len)),
            },
        ),
    }
}

/// What a message leads to after the last block.
pub open spec fn await_ack_step<E>(sent: SentView, message: MessageView) -> StepView<E> {
    match message {
        MessageView::BlockQuery(counter) => if counter == sent.counter {
            going_on(PhaseView::AwaitAck(sent), bdx_message(sent.message_type, sent.payload))
        } else {
            refused(BdxStatusCode::UnexpectedMessage)
        },
        MessageView::BlockAckEof(counter) => if counter == sent.counter {
            StepView { phase: PhaseView::Finished, sends: Seq::empty(), outcome: Some(Ok(())) }
        } else {
            refused(BdxStatusCode::BadBlockCounter)
        },
        _ => refused(BdxStatusCode::UnexpectedMessage),
    }
}

/// What a message leads to. `read_failure` is the error of reading the image, where
/// the message asks for a new block and reading fails.
pub open spec fn message_step<E>(
    expected_designator: Seq<u8>,
    max_block_size: u16,
    image: Seq<u8>,
    phase: PhaseView,
    message: MessageView,
    read_failure: Option<E>,
) -> StepView<E> {
    match phase {
        PhaseView::AwaitInit => await_init_step(
            expected_designator,
            max_block_size,
            image,
            message,
        ),
        PhaseView::Serving { length, block_size, offset, next_counter, last_response } => {
            match message {
                MessageView::BlockQuery(counter) => match last_response {
                    Some(sent) if counter == sent.counter && counter < next_counter => going_on(
                        phase,
                        bdx_message(sent.message_type, sent.payload),
                    ),
                    _ => if counter == next_counter {
                        next_block_step(
                            image,
                            length,
                            block_size,
                            offset,
                            counter,
                            read_failure,
                        )
                    } else {
                        refused(BdxStatusCode::BadBlockCounter)
                    },
                },
                _ => refused(BdxStatusCode::UnexpectedMessage),
            }
        },
        PhaseView::AwaitAck(sent) => await_ack_step(sent, message),
        PhaseView::Finished => StepView { phase, sends: Seq::empty(), outcome: None },
    }
}

/// The read error that a transfer ended with.
pub open spec fn read_failure<E>(outcome: Option<Result<(), ProviderError<E>>>) -> Option<E> {
    match outcome {
        Some(Err(ProviderError::Source(error))) => Some(error),
        _ => None,
    }
}

/// Whether a phase is one that serving this image can be in.
pub open spec fn phase_fits(phase: PhaseView, image: Seq<u8>) -> bool {
    phase matches PhaseView::Serving { length, block_size, offset, .. } ==> {
        &&& length == image.len()
        &&& block_size > 0
        &&& offset <= length
    }
}

/// A step that sends one message.
fn one_message<E>(message: Outgoing, outcome: Option<Result<(), ProviderError<E>>>) -> (step: Step<
    E,
>)
    ensures
        step.sent() == seq![message@],
        step.outcome == outcome,
{
    let mut sends: Vec<Outgoing> = Vec::new();
    sends.push(message);
    let step = Step { sends, outcome };
    assert(step.sent() =~= seq![message@]);
    step
}

/// A step that breaks the transfer off.
fn break_off<E>(status: BdxStatusCode, error: ProviderError<E>) -> (r: (Phase, Step<E>))
    ensures
        r.1.leading_to(r.0@) == broken_off(status, error),
{
    (Phase::Finished, one_message(send_abort(status), Some(Err(error))))
}

/// A step that refuses what the peer sent.
fn refuse<E>(status: BdxStatusCode) -> (r: (Phase, Step<E>))
    ensures
        r.1.leading_to(r.0@) == refused::<E>(status),
{
    break_off(status, ProviderError::UnexpectedMessage)
}

/// Answers a message while no transfer has been proposed.
fn on_init<S: BlockSource>(
    expected_designator: &[u8],
    max_block_size: u16,
    source: &S,
    message: BdxMessage,
) -> (r: (Phase, Step<S::Error>))
    ensures
        r.1.leading_to(r.0@) == await_init_step::<S::Error>(
            expected_designator@,
            max_block_size,
            source.image(),
            message@,
        ),
        phase_fits(r.0@, source.image()),
{
    let init = match message {
        BdxMessage::ReceiveInit(init) => init,
        _ => return refuse(BdxStatusCode::UnexpectedMessage),
    };
    let length: u64 = source.len();
    match validate_init(&init, expected_designator, max_block_size, length) {
        Ok(_) => {},
        Err(status) => return refuse(status),
    }
    let block_size: u16 = if init.max_block_size < max_block_size {
        init.max_block_size
    } else {
        max_block_size
    };
    let accept = ReceiveAccept {
        control: RECEIVER_DRIVE,
        version: BDX_VERSION,
        max_block_size: block_size,
        start_offset: 0,
        length,
        metadata: Vec::new(),
    };
    let message = send_bdx(MessageType::ReceiveAccept, Arc::new(encode_receive_accept(accept)));
    let phase = Phase::Serving {
        length,
        block_size,
        offset: 0,
        next_counter: 0,
        last_response: None,
    };
    (phase, one_message(message, None))
}

/// What is to be read of the image to answer a message.
pub fn needed_read(phase: &Phase, message: &BdxMessage) -> (read: Option<BlockRead>)
    ensures
        read == message_read(phase@, message@),
{
    match (phase, message) {
        (
            Phase::Serving { length, block_size, offset, next_counter, .. },
            BdxMessage::BlockQuery(counter),
        ) => if *counter == *next_counter {
            match next_block_len(*offset, *length, *block_size) {
                Some(len) => Some(BlockRead { offset: *offset, len }),
                None => None,
            }
        } else {
            None
        },
        _ => None,
    }
}

/// Reads a part of the image, behind room for a block counter.
fn read_block<S: BlockSource>(source: &S, read: BlockRead) -> (r: Result<Vec<u8>, S::Error>)
    requires
        read.offset + read.len <= source.image().len(),
        read.len <= u16::MAX,
    ensures
        r matches Ok(body) ==> body@.len() == 4 + read.len && body@.skip(4)
            == source.image().subrange(read.offset as int, read.offset + read.len),
        r matches Err(error) ==> source.fails_with(read.offset, read.len as nat, error),
{
    let mut body: Vec<u8> = vec![0; 4 + read.len];
    let (_, block) = body.as_mut_slice().split_at_mut(4);
    match source.read_at(read.offset, block) {
        Ok(_) => {
            assert(body@.skip(4) =~= source.image().subrange(
                read.offset as int,
                read.offset + read.len,
            ));
            Ok(body)
        },
        Err(error) => Err(error),
    }
}

/// Answers a query for the block at `offset`, once the image has been read for it. What
/// was read stands behind four bytes of room, which the counter goes into.
pub fn after_read<E>(
    length: u64,
    block_size: u16,
    offset: u64,
    counter: u32,
    read: Result<Vec<u8>, E>,
) -> (r: (Phase, Step<E>))
    requires
        read matches Ok(body) ==> body@.len() >= 4 && offset + body@.len() - 4 <= length,
    ensures
        r.1.leading_to(r.0@) == block_step(
            length,
            block_size,
            offset,
            counter,
            match read {
                Ok(body) => Ok(body@.skip(4)),
                Err(error) => Err(error),
            },
        ),
{
    let mut body: Vec<u8> = match read {
        Ok(body) => body,
        Err(error) => return break_off(BdxStatusCode::Unknown, ProviderError::Source(error)),
    };
    let ghost data = body@.skip(4);
    let counter_bytes: [u8; 4] = u32_to_le(counter);
    let end: u64 = offset + (body.len() - 4) as u64;
    body.set(0, counter_bytes[0]);
    body.set(1, counter_bytes[1]);
    body.set(2, counter_bytes[2]);
    body.set(3, counter_bytes[3]);
    assert(body@ =~= le32(counter) + data);
    let payload: Arc<Vec<u8>> = Arc::new(body);
    let message_type = if end == length {
        MessageType::BlockEof
    } else {
        MessageType::Block
    };
    let message = send_bdx(message_type, payload.clone());
    let sent = SentBlock { counter, message_type, payload };
    if end == length {
        return (Phase::AwaitAck(sent), one_message(message, None));
    }
    match counter.checked_add(1) {
        Some(next_counter) => {
            let phase = Phase::Serving {
                length,
                block_size,
                offset: end,
                next_counter,
                last_response: Some(sent),
            };
            (phase, one_message(message, None))
        },
        None => {
            let mut step = one_message(message, Some(Err(ProviderError::UnexpectedMessage)));
            assert(step.sent().len() == 1);
            assert(step.sent()[0] == message@ && step.sent()[0] == step.sends@[0]@);
            step.sends.push(send_abort(BdxStatusCode::BadBlockCounter));
            assert(step.sent() =~= seq![
                message@,
                abort_message(BdxStatusCode::BadBlockCounter),
            ]);
            (Phase::Finished, step)
        },
    }
}

/// Answers a message after the last block.
fn on_ack<E>(sent: SentBlock, message: BdxMessage) -> (r: (Phase, Step<E>))
    ensures
        r.1.leading_to(r.0@) == await_ack_step::<E>(sent@, message@),
        !(r.0@ is Serving),
{
    match message {
        BdxMessage::BlockQuery(counter) if counter == sent.counter => {
            let message = send_bdx(sent.message_type, sent.payload.clone());
            (Phase::AwaitAck(sent), one_message(message, None))
        },
        BdxMessage::BlockAckEof(counter) => if counter == sent.counter {
            let step: Step<E> = Step { sends: Vec::new(), outcome: Some(Ok(())) };
            assert(step.sent() =~= Seq::empty());
            (Phase::Finished, step)
        } else {
            refuse(BdxStatusCode::BadBlockCounter)
        },
        _ => refuse(BdxStatusCode::UnexpectedMessage),
    }
}

/// Something that happens while a transfer is served.
#[derive(Clone, Copy, Debug)]
pub enum Event<'a> {
    /// A message came in.
    Received { meta: MessageMeta, payload: &'a [u8] },
    /// Receiving failed.
    ReceiveFailed(Error),
    /// The caller wants the transfer to stop.
    Cancelled,
}

/// What an event means to the transfer, once its message has been decoded and the
/// image has been read for it.
pub enum Input<E> {
    /// A message came in; where it asks for a new block, reading failed or not.
    Message { message: MessageView, read_failure: Option<E> },
    /// A body came in that does not decode.
    Malformed(CodecError),
    /// A message came in that is no BDX message.
    Foreign,
    /// The peer reported a status.
    PeerReport,
    /// Receiving failed.
    ReceiveFailed(Error),
    /// The caller wants the transfer to stop.
    Cancelled,
}

/// What an event means to the transfer. The error of reading, where there is one, is
/// that which the transfer ended with.
pub open spec fn event_input<E>(
    event: Event<'_>,
    outcome: Option<Result<(), ProviderError<E>>>,
) -> Input<E> {
    match event {
        Event::Received { meta, payload } => if is_peer_report(meta) {
            Input::PeerReport
        } else if !is_bdx_message(meta) {
            Input::Foreign
        } else {
            match decoded_message(meta.proto_opcode, payload@) {
                Some(message) => Input::Message { message, read_failure: read_failure(outcome) },
                None => Input::Malformed(CodecError::Truncated),
            }
        },
        Event::ReceiveFailed(error) => Input::ReceiveFailed(error),
        Event::Cancelled => Input::Cancelled,
    }
}

/// What is to be read of the image to answer an input.
pub open spec fn input_read<E>(phase: PhaseView, input: Input<E>) -> Option<BlockRead> {
    match input {
        Input::Message { message, .. } => message_read(phase, message),
        _ => None,
    }
}

/// The transfer ends without an answer.
pub open spec fn given_up<E>(error: ProviderError<E>) -> StepView<E> {
    StepView { phase: PhaseView::Finished, sends: Seq::empty(), outcome: Some(Err(error)) }
}

/// What an input leads to.
pub open spec fn input_step<E>(
    expected_designator: Seq<u8>,
    max_block_size: u16,
    image: Seq<u8>,
    phase: PhaseView,
    input: Input<E>,
) -> StepView<E> {
    if phase is Finished {
        StepView { phase, sends: Seq::empty(), outcome: None }
    } else {
        match input {
            Input::Message { message, read_failure } => message_step(
                expected_designator,
                max_block_size,
                image,
                phase,
                message,
                read_failure,
            ),
            Input::Malformed(error) => broken_off(
                BdxStatusCode::BadMessageContents,
                ProviderError::Codec(error),
            ),
            Input::Foreign => refused(BdxStatusCode::UnexpectedMessage),
            Input::PeerReport => given_up(ProviderError::Cancelled),
            Input::ReceiveFailed(error) => given_up(ProviderError::Matter(error)),
            Input::Cancelled => broken_off(BdxStatusCode::Unknown, ProviderError::Cancelled),
        }
    }
}

/// Whether an error is one that reading this part of the image can fail with.
pub open spec fn read_could_fail<S: BlockSource>(
    source: S,
    read: Option<BlockRead>,
    error: S::Error,
) -> bool {
    read matches Some(read) && source.fails_with(read.offset, read.len as nat, error)
}

/// The serving side of one transfer.
///
/// At most one block is allocated at a time: a block that was sent is shared with the
/// message that carries it, and let go of before the next one is read.
pub struct ImageServer<'a, S: BlockSource> {
    source: &'a S,
    expected_designator: &'a [u8],
    max_block_size: u16,
    phase: Phase,
}

impl<'a, S: BlockSource> ImageServer<'a, S> {
    #[verifier::type_invariant]
    spec fn in_range(&self) -> bool {
        phase_fits(self.phase@, self.source.image())
    }

    /// What the image is read from.
    pub closed spec fn source(&self) -> S {
        *self.source
    }

    /// The image that is served.
    pub open spec fn image(&self) -> Seq<u8> {
        self.source().image()
    }

    /// The designator that the receiver has to name.
    pub closed spec fn designator(&self) -> Seq<u8> {
        self.expected_designator@
    }

    /// The largest block that is served.
    pub closed spec fn block_limit(&self) -> u16 {
        self.max_block_size
    }

    /// How far the transfer has come.
    pub closed spec fn phase(&self) -> PhaseView {
        self.phase@
    }

    /// Starts to serve `source`, which is already selected and authorized for this
    /// exchange. Only an authenticated peer is served.
    pub fn new(
        authenticated: bool,
        source: &'a S,
        expected_designator: &'a [u8],
        max_block_size: u16,
    ) -> (server: Result<Self, ProviderError<S::Error>>)
        ensures
            !authenticated ==> server == Err::<Self, ProviderError<S::Error>>(
                ProviderError::UnauthenticatedPeer,
            ),
            authenticated ==> (server matches Ok(s) && s.phase() == PhaseView::AwaitInit
                && s.source() == *source && s.designator() == expected_designator@
                && s.block_limit() == max_block_size),
    {
        if !authenticated {
            return Err(ProviderError::UnauthenticatedPeer);
        }
        Ok(ImageServer { source, expected_designator, max_block_size, phase: Phase::AwaitInit })
    }

    /// Answers a message.
    pub fn on_message(&mut self, message: BdxMessage) -> (step: Step<S::Error>)
        ensures
            step.leading_to(final(self).phase()) == message_step(
                old(self).designator(),
                old(self).block_limit(),
                old(self).image(),
                old(self).phase(),
                message@,
                read_failure(step.outcome),
            ),
            read_failure(step.outcome) matches Some(error) ==> read_could_fail(
                old(self).source(),
                message_read(old(self).phase(), message@),
                error,
            ),
            final(self).source() == old(self).source(),
            final(self).designator() == old(self).designator(),
            final(self).block_limit() == old(self).block_limit(),
    {
        proof {
            use_type_invariant(&*self);
        }
        let read = needed_read(&self.phase, &message);
        let mut phase = Phase::Finished;
        core::mem::swap(&mut phase, &mut self.phase);
        let (next, step) = match phase {
            Phase::AwaitInit => on_init(
                self.expected_designator,
                self.max_block_size,
                self.source,
                message,
            ),
            Phase::Serving { length, block_size, offset, next_counter, last_response } => {
                match message {
                    BdxMessage::BlockQuery(counter) => {
                        let mut last = last_response;
                        let duplicate = match &last {
                            Some(sent) => is_duplicate_query(counter, next_counter, sent.counter),
                            None => false,
                        };
                        match last {
                            Some(sent) if duplicate => {
                                let message = send_bdx(sent.message_type, sent.payload.clone());
                                let phase = Phase::Serving {
                                    length,
                                    block_size,
                                    offset,
                                    next_counter,
                                    last_response: Some(sent),
                                };
                                (phase, one_message(message, None))
                            },
                            _ => if counter == next_counter {
                                match read {
                                    Some(read) => {
                                        // The block that was sent last makes room for the next.
                                        last = None;
                                        after_read(
                                            length,
                                            block_size,
                                            offset,
                                            counter,
                                            read_block(self.source, read),
                                        )
                                    },
                                    None => refuse(BdxStatusCode::UnexpectedMessage),
                                }
                            } else {
                                refuse(BdxStatusCode::BadBlockCounter)
                            },
                        }
                    },
                    _ => refuse(BdxStatusCode::UnexpectedMessage),
                }
            },
            Phase::AwaitAck(sent) => on_ack(sent, message),
            Phase::Finished => {
                let step: Step<S::Error> = Step { sends: Vec::new(), outcome: None };
                assert(step.sent() =~= Seq::empty());
                (Phase::Finished, step)
            },
        };
        self.phase = next;
        step
    }

    /// Answers whatever happens. Once the transfer is over, nothing is answered.
    pub fn on_event(&mut self, event: Event<'_>) -> (step: Step<S::Error>)
        ensures
            step.leading_to(final(self).phase()) == input_step(
                old(self).designator(),
                old(self).block_limit(),
                old(self).image(),
                old(self).phase(),
                event_input(event, step.outcome),
            ),
            read_failure(step.outcome) matches Some(error) ==> read_could_fail(
                old(self).source(),
                input_read(old(self).phase(), event_input(event, step.outcome)),
                error,
            ),
            final(self).source() == old(self).source(),
            final(self).designator() == old(self).designator(),
            final(self).block_limit() == old(self).block_limit(),
    {
        if let Phase::Finished = self.phase {
            let step: Step<S::Error> = Step { sends: Vec::new(), outcome: None };
            assert(step.sent() =~= Seq::empty());
            return step;
        }
        let refusal = match event {
            Event::Received { meta, payload } => match decode_bdx_message(meta, payload) {
                Ok(message) => return self.on_message(message),
                Err(refusal) => refusal,
            },
            Event::ReceiveFailed(error) => Refusal {
                abort: None,
                error: ProviderError::Matter(error),
            },
            Event::Cancelled => Refusal {
                abort: Some(BdxStatusCode::Unknown),
                error: ProviderError::Cancelled,
            },
        };
        self.phase = Phase::Finished;
        match refusal.abort {
            Some(status) => one_message(send_abort(status), Some(Err(refusal.error))),
            None => {
                let step: Step<S::Error> = Step {
                    sends: Vec::new(),
                    outcome: Some(Err(refusal.error)),
                };
                assert(step.sent() =~= Seq::empty());
                step
            },
        }
    }

    /// Whether the transfer is over.
    pub fn is_finished(&self) -> (finished: bool)
        ensures
            finished == (self.phase() is Finished),
    {
        matches!(self.phase, Phase::Finished)
    }
}

} // verus!
