//! The BDX messages that a sender reads and writes.
//!
//! Bodies are decoded and encoded by the `matter-bdx` crate. The types here hold
//! as plain values what the sender looks at.
use vstd::prelude::*;

use matter_bdx::BdxError::{Truncated, UnknownMessageType};
use matter_bdx::BdxMessage as Decoded;
use matter_bdx::BdxMessage::{
    Block, BlockAck, BlockAckEof, BlockEof, BlockQuery, ReceiveInit, SendAccept, SendInit,
};
use matter_bdx::MessageType as Opcode;
use matter_bdx::ReceiveAccept as EncodableAccept;
use matter_bdx::TransferControl;
use matter_bdx::TransferInit as Proposal;

use crate::le::{from_le16, from_le32, le16, le32, le64, le_number};

verus! {

/// The protocol version that this sender speaks.
pub const BDX_VERSION: u8 = 0;

/// Transfer control flag: the sender pushes the blocks.
pub const SENDER_DRIVE: u8 = 0x10;

/// Transfer control flag: the receiver asks for the blocks.
pub const RECEIVER_DRIVE: u8 = 0x20;

/// The kinds of BDX messages.
#[derive(Clone, Copy, Debug, PartialEq, Eq, Structural)]
pub enum MessageType {
    SendInit,
    SendAccept,
    ReceiveInit,
    ReceiveAccept,
    BlockQuery,
    Block,
    BlockEof,
    BlockAck,
    BlockAckEof,
}

/// The opcode of a kind of message.
pub open spec fn opcode_of(message_type: MessageType) -> u8 {
    match message_type {
        MessageType::SendInit => 0x01,
        MessageType::SendAccept => 0x02,
        MessageType::ReceiveInit => 0x04,
        MessageType::ReceiveAccept => 0x05,
        MessageType::BlockQuery => 0x10,
        MessageType::Block => 0x11,
        MessageType::BlockEof => 0x12,
        MessageType::BlockAck => 0x13,
        MessageType::BlockAckEof => 0x14,
    }
}

/// Whether some kind of message has this opcode.
pub open spec fn is_bdx_opcode(opcode: u8) -> bool {
    opcode == 0x01 || opcode == 0x02 || opcode == 0x04 || opcode == 0x05 || 0x10 <= opcode <= 0x14
}

impl MessageType {
    /// The opcode of this kind of message.
    pub fn to_u8(self) -> (opcode: u8)
        ensures
            opcode == opcode_of(self),
    {
        match self {
            MessageType::SendInit => 0x01,
            MessageType::SendAccept => 0x02,
            MessageType::ReceiveInit => 0x04,
            MessageType::ReceiveAccept => 0x05,
            MessageType::BlockQuery => 0x10,
            MessageType::Block => 0x11,
            MessageType::BlockEof => 0x12,
            MessageType::BlockAck => 0x13,
            MessageType::BlockAckEof => 0x14,
        }
    }

    /// The kind of message with this opcode, if there is one.
    pub fn from_u8(opcode: u8) -> (message_type: Option<Self>)
        ensures
            message_type matches Some(t) ==> opcode_of(t) == opcode,
            message_type is Some <==> is_bdx_opcode(opcode),
    {
        match opcode {
            0x01 => Some(MessageType::SendInit),
            0x02 => Some(MessageType::SendAccept),
            0x04 => Some(MessageType::ReceiveInit),
            0x05 => Some(MessageType::ReceiveAccept),
            0x10 => Some(MessageType::BlockQuery),
            0x11 => Some(MessageType::Block),
            0x12 => Some(MessageType::BlockEof),
            0x13 => Some(MessageType::BlockAck),
            0x14 => Some(MessageType::BlockAckEof),
            _ => None,
        }
    }
}

/// Every kind of message has an opcode of its own.
pub proof fn law_opcodes_are_distinct(a: MessageType, b: MessageType)
    ensures
        is_bdx_opcode(opcode_of(a)),
        opcode_of(a) == opcode_of(b) ==> a == b,
{
}

/// Why a transfer is broken off.
#[derive(Clone, Copy, Debug, PartialEq, Eq, Structural)]
pub enum BdxStatusCode {
    LengthTooLarge,
    BadMessageContents,
    BadBlockCounter,
    UnexpectedMessage,
    TransferMethodNotSupported,
    Unknown,
}

/// The number that stands for a status on the wire.
pub open spec fn status_number(status: BdxStatusCode) -> u16 {
    match status {
        BdxStatusCode::LengthTooLarge => 0x0012,
        BdxStatusCode::BadMessageContents => 0x0016,
        BdxStatusCode::BadBlockCounter => 0x0017,
        BdxStatusCode::UnexpectedMessage => 0x0018,
        BdxStatusCode::TransferMethodNotSupported => 0x0050,
        BdxStatusCode::Unknown => 0x005F,
    }
}

impl BdxStatusCode {
    /// The number that stands for this status on the wire.
    pub fn to_u16(self) -> (number: u16)
        ensures
            number == status_number(self),
    {
        match self {
            BdxStatusCode::LengthTooLarge => 0x0012,
            BdxStatusCode::BadMessageContents => 0x0016,
            BdxStatusCode::BadBlockCounter => 0x0017,
            BdxStatusCode::UnexpectedMessage => 0x0018,
            BdxStatusCode::TransferMethodNotSupported => 0x0050,
            BdxStatusCode::Unknown => 0x005F,
        }
    }
}

/// A proposed transfer.
#[derive(Clone, Debug)]
pub struct TransferInit {
    /// The transfer control flags.
    pub control: u8,
    /// The highest version that the proposer speaks.
    pub version: u8,
    /// The largest block that the proposer takes.
    pub max_block_size: u16,
    /// The offset to start from.
    pub start_offset: u64,
    /// The largest length that the proposer takes, or 0 for any.
    pub max_length: u64,
    /// The name of the file.
    pub file_designator: Vec<u8>,
    /// Opaque metadata.
    pub metadata: Vec<u8>,
}

/// What a proposed transfer holds.
pub struct InitView {
    pub control: u8,
    pub version: u8,
    pub max_block_size: u16,
    pub start_offset: u64,
    pub max_length: u64,
    pub file_designator: Seq<u8>,
    pub metadata: Seq<u8>,
}

impl View for TransferInit {
    type V = InitView;

    open spec fn view(&self) -> InitView {
        InitView {
            control: self.control,
            version: self.version,
            max_block_size: self.max_block_size,
            start_offset: self.start_offset,
            max_length: self.max_length,
            file_designator: self.file_designator@,
            metadata: self.metadata@,
        }
    }
}

/// A received message. Only the fields that a sender looks at are kept.
#[derive(Clone, Debug)]
pub enum BdxMessage {
    SendInit,
    SendAccept,
    ReceiveInit(TransferInit),
    ReceiveAccept,
    /// Asks for the block with this counter.
    BlockQuery(u32),
    Block,
    BlockEof,
    BlockAck,
    /// Acknowledges the last block, which has this counter.
    BlockAckEof(u32),
}

/// What a received message holds.
pub enum MessageView {
    SendInit,
    SendAccept,
    ReceiveInit(InitView),
    ReceiveAccept,
    BlockQuery(u32),
    Block,
    BlockEof,
    BlockAck,
    BlockAckEof(u32),
}

impl View for BdxMessage {
    type V = MessageView;

    open spec fn view(&self) -> MessageView {
        match *self {
            BdxMessage::SendInit => MessageView::SendInit,
            BdxMessage::SendAccept => MessageView::SendAccept,
            BdxMessage::ReceiveInit(init) => MessageView::ReceiveInit(init@),
            BdxMessage::ReceiveAccept => MessageView::ReceiveAccept,
            BdxMessage::BlockQuery(counter) => MessageView::BlockQuery(counter),
            BdxMessage::Block => MessageView::Block,
            BdxMessage::BlockEof => MessageView::BlockEof,
            BdxMessage::BlockAck => MessageView::BlockAck,
            BdxMessage::BlockAckEof(counter) => MessageView::BlockAckEof(counter),
        }
    }
}

/// Why a body could not be decoded.
#[derive(Clone, Copy, Debug, PartialEq, Eq, Structural)]
pub enum CodecError {
    /// The body ends before a field does.
    Truncated,
    /// The opcode is none of a message that can be decoded.
    UnknownMessageType(u8),
    /// Something else.
    Other,
}

/// Whether messages with this opcode carry a block counter in front.
pub open spec fn starts_with_counter(opcode: u8) -> bool {
    0x10 <= opcode <= 0x14
}

/// The message with this opcode whose body starts with `counter`.
pub open spec fn counter_message(opcode: u8, counter: u32) -> MessageView {
    if opcode == 0x10 {
        MessageView::BlockQuery(counter)
    } else if opcode == 0x11 {
        MessageView::Block
    } else if opcode == 0x12 {
        MessageView::BlockEof
    } else if opcode == 0x13 {
        MessageView::BlockAck
    } else {
        MessageView::BlockAckEof(counter)
    }
}

/// How long the range fields are, by the byte that tells which of them follow.
pub open spec fn range_width(range_control: u8) -> int {
    if range_control / 0x10 % 2 == 1 {
        8
    } else {
        4
    }
}

/// Where the offset ends, which is the first range field.
pub open spec fn offset_end(body: Seq<u8>) -> int {
    if body[1] / 0x02 % 2 == 1 {
        4 + range_width(body[1])
    } else {
        4
    }
}

/// Where the length ends, which is the second range field.
pub open spec fn length_end(body: Seq<u8>) -> int {
    if body[1] % 2 == 1 {
        offset_end(body) + range_width(body[1])
    } else {
        offset_end(body)
    }
}

/// Where the file designator of a proposal ends. It is preceded by its length.
pub open spec fn designator_end(body: Seq<u8>) -> int {
    length_end(body) + 2 + from_le16(body.subrange(length_end(body), length_end(body) + 2))
}

/// The proposal in a body, if the body is long enough: flags and version, the byte
/// that tells which range fields follow, the block size, the range fields, the
/// designator, and metadata to the end.
pub open spec fn proposal(body: Seq<u8>) -> Option<InitView> {
    if body.len() < length_end(body) + 2 || body.len() < designator_end(body) {
        None
    } else {
        Some(
            InitView {
                control: (body[0] - body[0] % 0x10) as u8,
                version: body[0] % 0x10,
                max_block_size: from_le16(body.subrange(2, 4)),
                start_offset: le_number(body.subrange(4, offset_end(body))),
                max_length: le_number(body.subrange(offset_end(body), length_end(body))),
                file_designator: body.subrange(length_end(body) + 2, designator_end(body)),
                metadata: body.skip(designator_end(body)),
            },
        )
    }
}

/// The message with this opcode and body, if the body is long enough for it.
pub open spec fn decoded_message(opcode: u8, body: Seq<u8>) -> Option<MessageView> {
    if starts_with_counter(opcode) {
        if body.len() < 4 {
            None
        } else {
            Some(counter_message(opcode, from_le32(body.take(4))))
        }
    } else if opcode == 0x04 {
        match proposal(body) {
            Some(init) => Some(MessageView::ReceiveInit(init)),
            None => None,
        }
    } else if opcode == 0x01 {
        match proposal(body) {
            Some(_) => Some(MessageView::SendInit),
            None => None,
        }
    } else if opcode == 0x05 {
        if body.len() < length_end(body) {
            None
        } else {
            Some(MessageView::ReceiveAccept)
        }
    } else {
        if body.len() < 3 {
            None
        } else {
            Some(MessageView::SendAccept)
        }
    }
}

/// Calls `matter_bdx::BdxMessage::decode` on the body of a message, with the
/// message type that `matter_bdx::MessageType::from_u8` gives for the opcode.
///
/// The outcome is the message that `decoded_message` finds. Where it finds none, the
/// body ended too early, and that is the error.
#[verifier::external_body]
pub(crate) fn decode_body(opcode: u8, body: &[u8]) -> (decoded: Result<BdxMessage, CodecError>)
    requires
        is_bdx_opcode(opcode),
    ensures
        decoded matches Ok(message) ==> decoded_message(opcode, body@) == Some(message@),
        decoded matches Err(error) ==> decoded_message(opcode, body@) is None && error
            == CodecError::Truncated,
{
    Ok(match Decoded::decode(Opcode::from_u8(opcode).unwrap(), body).map_err(|e| match e {
        Truncated => CodecError::Truncated,
        UnknownMessageType(t) => CodecError::UnknownMessageType(t),
        _ => CodecError::Other,
    })? {
        SendInit(_) => BdxMessage::SendInit, SendAccept(_) => BdxMessage::SendAccept,
        ReceiveInit(Proposal { control, version, max_block_size, start_offset, max_length,
            file_designator, metadata }) => BdxMessage::ReceiveInit(TransferInit {
            control: control.bits(), version, max_block_size, start_offset, max_length,
            file_designator, metadata }),
        Decoded::ReceiveAccept(_) => BdxMessage::ReceiveAccept,
        BlockQuery(c) => BdxMessage::BlockQuery(c.block_counter), Block(_) => BdxMessage::Block,
        BlockEof(_) => BdxMessage::BlockEof, BlockAck(_) => BdxMessage::BlockAck,
        BlockAckEof(c) => BdxMessage::BlockAckEof(c.block_counter),
    })
}

/// The terms on which a sender takes a proposed transfer.
#[derive(Clone, Debug)]
pub struct ReceiveAccept {
    /// The transfer control flags.
    pub control: u8,
    /// The version.
    pub version: u8,
    /// The largest block.
    pub max_block_size: u16,
    /// The offset to start from.
    pub start_offset: u64,
    /// The length of the transfer, or 0 if it is not said.
    pub length: u64,
    /// Opaque metadata.
    pub metadata: Vec<u8>,
}

/// A range field: absent if 0, else four or eight bytes.
pub open spec fn range_field(value: u64, wide: bool) -> Seq<u8> {
    if value == 0 {
        Seq::empty()
    } else if wide {
        le64(value)
    } else {
        le32(value as u32)
    }
}

/// The byte that tells which range fields follow.
pub open spec fn range_control(start_offset: u64, length: u64, wide: bool) -> u8 {
    ((if length > 0 {
        0x01int
    } else {
        0
    }) + (if start_offset > 0 {
        0x02int
    } else {
        0
    }) + (if wide {
        0x10int
    } else {
        0
    })) as u8
}

/// The body of a `ReceiveAccept`. The range fields are wide if one of them needs
/// more than four bytes.
pub open spec fn receive_accept_body(
    control: u8,
    version: u8,
    max_block_size: u16,
    start_offset: u64,
    length: u64,
    metadata: Seq<u8>,
) -> Seq<u8> {
    let wide = start_offset > u32::MAX || length > u32::MAX;
    seq![(control + version) as u8, range_control(start_offset, length, wide)] + le16(
        max_block_size,
    ) + range_field(start_offset, wide) + range_field(length, wide) + metadata
}

/// Calls `matter_bdx::ReceiveAccept::encode`.
///
/// The result is the body as `receive_accept_body` lays it out. Flags share a byte
/// with the version, so flags have their low half clear and versions are below 16.
#[verifier::external_body]
pub(crate) fn encode_receive_accept(accept: ReceiveAccept) -> (body: Vec<u8>)
    requires
        accept.control % 0x10 == 0,
        accept.version < 0x10,
    ensures
        body@ == receive_accept_body(
            accept.control,
            accept.version,
            accept.max_block_size,
            accept.start_offset,
            accept.length,
            accept.metadata@,
        ),
{
    EncodableAccept {
        control: TransferControl::from_bits_retain(accept.control),
        version: accept.version,
        max_block_size: accept.max_block_size,
        start_offset: accept.start_offset,
        length: accept.length,
        metadata: accept.metadata,
    }.encode()
}

/// The opcode of each kind of message. An opcode is known exactly where some kind of
/// message has it.
pub proof fn law_messages_by_opcode(message_type: MessageType, opcode: u8)
    ensures
        message_type == MessageType::SendInit <==> opcode_of(message_type) == 0x01,
        message_type == MessageType::SendAccept <==> opcode_of(message_type) == 0x02,
        message_type == MessageType::ReceiveInit <==> opcode_of(message_type) == 0x04,
        message_type == MessageType::ReceiveAccept <==> opcode_of(message_type) == 0x05,
        message_type == MessageType::BlockQuery <==> opcode_of(message_type) == 0x10,
        message_type == MessageType::Block <==> opcode_of(message_type) == 0x11,
        message_type == MessageType::BlockEof <==> opcode_of(message_type) == 0x12,
        message_type == MessageType::BlockAck <==> opcode_of(message_type) == 0x13,
        message_type == MessageType::BlockAckEof <==> opcode_of(message_type) == 0x14,
        is_bdx_opcode(opcode) <==> exists|t: MessageType| #[trigger] opcode_of(t) == opcode,
{
    assert(opcode_of(MessageType::SendInit) == 0x01);
    assert(opcode_of(MessageType::SendAccept) == 0x02);
    assert(opcode_of(MessageType::ReceiveInit) == 0x04);
    assert(opcode_of(MessageType::ReceiveAccept) == 0x05);
    assert(opcode_of(MessageType::BlockQuery) == 0x10);
    assert(opcode_of(MessageType::Block) == 0x11);
    assert(opcode_of(MessageType::BlockEof) == 0x12);
    assert(opcode_of(MessageType::BlockAck) == 0x13);
    assert(opcode_of(MessageType::BlockAckEof) == 0x14);
}

/// The number of each status on the wire.
pub proof fn law_statuses_by_number(status: BdxStatusCode)
    ensures
        status == BdxStatusCode::LengthTooLarge <==> status_number(status) == 0x12,
        status == BdxStatusCode::BadMessageContents <==> status_number(status) == 0x16,
        status == BdxStatusCode::BadBlockCounter <==> status_number(status) == 0x17,
        status == BdxStatusCode::UnexpectedMessage <==> status_number(status) == 0x18,
        status == BdxStatusCode::TransferMethodNotSupported <==> status_number(status) == 0x50,
        status == BdxStatusCode::Unknown <==> status_number(status) == 0x5f,
{
}

/// A proposal and a message are seen as what they hold.
pub proof fn law_messages_are_seen_as_what_they_hold(init: TransferInit, counter: u32)
    ensures
        init@.control == init.control,
        init@.version == init.version,
        init@.max_block_size == init.max_block_size,
        init@.start_offset == init.start_offset,
        init@.max_length == init.max_length,
        init@.file_designator == init.file_designator@,
        init@.metadata == init.metadata@,
        BdxMessage::ReceiveInit(init)@ == MessageView::ReceiveInit(init@),
        BdxMessage::BlockQuery(counter)@ == MessageView::BlockQuery(counter),
        BdxMessage::BlockAckEof(counter)@ == MessageView::BlockAckEof(counter),
{
}

/// A proposal holds its flags and version in the two halves of its first byte and the block
/// size in the third and fourth. The second byte tells, bit by bit, whether an offset and
/// then a length follow, and whether in eight bytes or four. What is absent is 0. Behind
/// them are the length of the designator in two bytes, the designator, and metadata to the
/// end, and nothing of the body is left out.
pub proof fn law_where_a_proposal_holds_its_fields(body: Seq<u8>)
    requires
        proposal(body) is Some,
    ensures
        ({
            let init = proposal(body)->0;
            let width = if body[1] & 0x10 == 0x10 {
                8int
            } else {
                4
            };
            let has_offset = body[1] & 0x02 == 0x02;
            let has_length = body[1] & 0x01 == 0x01;
            let at_length = if has_offset {
                4 + width
            } else {
                4
            };
            let at_name = if has_length {
                at_length + width
            } else {
                at_length
            };
            let name_len = body[at_name] + 0x100 * body[at_name + 1];
            &&& init.control == body[0] & 0xf0
            &&& init.version == body[0] & 0x0f
            &&& init.max_block_size == body[2] + 0x100 * body[3]
            &&& init.start_offset == (if has_offset {
                le_number(body.subrange(4, 4 + width))
            } else {
                0
            })
            &&& init.max_length == (if has_length {
                le_number(body.subrange(at_length, at_length + width))
            } else {
                0
            })
            &&& init.file_designator.len() == name_len
            &&& init.file_designator + init.metadata == body.skip(at_name + 2)
        }),
{
    let control = body[0];
    let range = body[1];
    assert(control & 0xf0 == control - control % 0x10) by (bit_vector);
    assert(control & 0x0f == control % 0x10) by (bit_vector);
    assert(range & 0x10 == 0x10 <==> range / 0x10 % 2 == 1) by (bit_vector);
    assert(range & 0x02 == 0x02 <==> range / 0x02 % 2 == 1) by (bit_vector);
    assert(range & 0x01 == 0x01 <==> range % 2 == 1) by (bit_vector);
    let init = proposal(body)->0;
    let name = length_end(body) + 2;
    assert(body.subrange(4, 4).len() == 0);
    assert(body.subrange(offset_end(body), offset_end(body)).len() == 0);
    assert(init.file_designator + init.metadata =~= body.skip(name));
}

/// A body that decodes is of the kind that its opcode says, and one that does not is too
/// short for it: queries, blocks and acknowledgements have four bytes or more, and the
/// first four are the counter.
pub proof fn law_what_a_body_is_read_as(opcode: u8, body: Seq<u8>)
    ensures
        ({
            let decoded = decoded_message(opcode, body);
            &&& opcode == 0x01 && decoded is Some ==> decoded->0 is SendInit
            &&& opcode == 0x02 && decoded is Some ==> decoded->0 is SendAccept
            &&& opcode == 0x04 && decoded is Some ==> decoded->0 is ReceiveInit
            &&& opcode == 0x05 && decoded is Some ==> decoded->0 is ReceiveAccept
            &&& 0x10 <= opcode <= 0x14 ==> (decoded is Some <==> body.len() >= 4)
            &&& opcode == 0x11 && decoded is Some ==> decoded->0 is Block
            &&& opcode == 0x12 && decoded is Some ==> decoded->0 is BlockEof
            &&& opcode == 0x13 && decoded is Some ==> decoded->0 is BlockAck
            &&& opcode == 0x10 && decoded is Some ==> (
            decoded->0 matches MessageView::BlockQuery(counter) && counter == body[0] + 0x100
                * body[1] + 0x1_0000 * body[2] + 0x100_0000 * body[3])
            &&& opcode == 0x14 && decoded is Some ==> (
            decoded->0 matches MessageView::BlockAckEof(counter) && counter == body[0] + 0x100
                * body[1] + 0x1_0000 * body[2] + 0x100_0000 * body[3])
            &&& opcode == 0x04 && decoded is Some ==> decoded->0 == MessageView::ReceiveInit(
                proposal(body)->0,
            ) && proposal(body) is Some
            &&& opcode == 0x04 && decoded is None ==> body.len() < 6 || body.len()
                < designator_end(body)
        }),
{
}

} // verus!
