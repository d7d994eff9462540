//! The secure channel protocol: its messages, its status reports, and which
//! handshake an opening message asks for.
use vstd::prelude::*;

use crate::buf::{no_space, truncated, ReadBuf, WriteBuf};
use crate::error::{Error, ErrorCode};
use crate::le::{
    from_le16, from_le32, le16, le32, lemma_le16_reads_back, lemma_le16_writes_back,
    lemma_le32_reads_back, lemma_le32_writes_back,
};
use crate::message::MessageMeta;

pub use crate::icd::{
    decode_icd_check_in, validate_icd_check_in_counter, IcdCheckInCounter, IcdCheckInData,
};

verus! {

/// The protocol id of the secure channel.
pub const PROTO_ID_SECURE_CHANNEL: u16 = 0x00;

/// The messages of the secure channel protocol.
#[derive(Clone, Copy, Debug, PartialEq, Eq, Structural)]
pub enum OpCode {
    MsgCounterSyncReq,
    MsgCounterSyncResp,
    MRPStandAloneAck,
    PBKDFParamRequest,
    PBKDFParamResponse,
    PASEPake1,
    PASEPake2,
    PASEPake3,
    CASESigma1,
    CASESigma2,
    CASESigma3,
    CASESigma2Resume,
    StatusReport,
    IcdCheckInMessage,
}

/// The number of a message on the wire.
pub open spec fn opcode_number(opcode: OpCode) -> u8 {
    match opcode {
        OpCode::MsgCounterSyncReq => 0x00,
        OpCode::MsgCounterSyncResp => 0x01,
        OpCode::MRPStandAloneAck => 0x10,
        OpCode::PBKDFParamRequest => 0x20,
        OpCode::PBKDFParamResponse => 0x21,
        OpCode::PASEPake1 => 0x22,
        OpCode::PASEPake2 => 0x23,
        OpCode::PASEPake3 => 0x24,
        OpCode::CASESigma1 => 0x30,
        OpCode::CASESigma2 => 0x31,
        OpCode::CASESigma3 => 0x32,
        OpCode::CASESigma2Resume => 0x33,
        OpCode::StatusReport => 0x40,
        OpCode::IcdCheckInMessage => 0x50,
    }
}

/// Whether some message has this number.
pub open spec fn is_opcode_number(number: u8) -> bool {
    number <= 0x01 || number == 0x10 || 0x20 <= number <= 0x24 || 0x30 <= number <= 0x33
        || number == 0x40 || number == 0x50
}

/// How a message of the secure channel is sent: standalone acknowledgements and
/// check-ins are not retransmitted, everything else is.
pub open spec fn opcode_meta(opcode: OpCode) -> MessageMeta {
    MessageMeta {
        proto_id: PROTO_ID_SECURE_CHANNEL,
        proto_opcode: opcode_number(opcode),
        reliable: !(opcode is MRPStandAloneAck || opcode is IcdCheckInMessage),
    }
}

/// Whether the payload of a message is a structure of tagged elements.
pub open spec fn carries_tlv(opcode: OpCode) -> bool {
    !(opcode is MRPStandAloneAck || opcode is StatusReport || opcode is MsgCounterSyncReq
        || opcode is MsgCounterSyncResp || opcode is IcdCheckInMessage)
}

/// Every message has a number of its own.
pub proof fn law_opcode_numbers_are_distinct(a: OpCode, b: OpCode)
    ensures
        is_opcode_number(opcode_number(a)),
        opcode_number(a) == opcode_number(b) ==> a == b,
{
}

impl OpCode {
    /// The number of this message on the wire.
    pub fn as_u8(&self) -> (number: u8)
        ensures
            number == opcode_number(*self),
    {
        match self {
            OpCode::MsgCounterSyncReq => 0x00,
            OpCode::MsgCounterSyncResp => 0x01,
            OpCode::MRPStandAloneAck => 0x10,
            OpCode::PBKDFParamRequest => 0x20,
            OpCode::PBKDFParamResponse => 0x21,
            OpCode::PASEPake1 => 0x22,
            OpCode::PASEPake2 => 0x23,
            OpCode::PASEPake3 => 0x24,
            OpCode::CASESigma1 => 0x30,
            OpCode::CASESigma2 => 0x31,
            OpCode::CASESigma3 => 0x32,
            OpCode::CASESigma2Resume => 0x33,
            OpCode::StatusReport => 0x40,
            OpCode::IcdCheckInMessage => 0x50,
        }
    }

    /// The message with this number, if there is one.
    pub fn from_u8(number: u8) -> (opcode: Option<Self>)
        ensures
            opcode matches Some(o) ==> opcode_number(o) == number,
            opcode is Some <==> is_opcode_number(number),
    {
        match number {
            0x00 => Some(OpCode::MsgCounterSyncReq),
            0x01 => Some(OpCode::MsgCounterSyncResp),
            0x10 => Some(OpCode::MRPStandAloneAck),
            0x20 => Some(OpCode::PBKDFParamRequest),
            0x21 => Some(OpCode::PBKDFParamResponse),
            0x22 => Some(OpCode::PASEPake1),
            0x23 => Some(OpCode::PASEPake2),
            0x24 => Some(OpCode::PASEPake3),
            0x30 => Some(OpCode::CASESigma1),
            0x31 => Some(OpCode::CASESigma2),
            0x32 => Some(OpCode::CASESigma3),
            0x33 => Some(OpCode::CASESigma2Resume),
            0x40 => Some(OpCode::StatusReport),
            0x50 => Some(OpCode::IcdCheckInMessage),
            _ => None,
        }
    }

    /// How this message is sent.
    pub fn meta(&self) -> (meta: MessageMeta)
        ensures
            meta == opcode_meta(*self),
    {
        MessageMeta {
            proto_id: PROTO_ID_SECURE_CHANNEL,
            proto_opcode: self.as_u8(),
            reliable: !matches!(self, OpCode::MRPStandAloneAck | OpCode::IcdCheckInMessage),
        }
    }

    /// Whether the payload of this message is TLV.
    pub fn is_tlv(&self) -> (tlv: bool)
        ensures
            tlv == carries_tlv(*self),
            tlv == !(*self is MRPStandAloneAck || *self is StatusReport
                || *self is MsgCounterSyncReq || *self is MsgCounterSyncResp
                || *self is IcdCheckInMessage),
    {
        !matches!(
            self,
            OpCode::MRPStandAloneAck
                | OpCode::StatusReport
                | OpCode::MsgCounterSyncReq
                | OpCode::MsgCounterSyncResp
                | OpCode::IcdCheckInMessage
        )
    }
}

impl From<OpCode> for MessageMeta {
    fn from(op: OpCode) -> (meta: Self) {
        op.meta()
    }
}

impl vstd::std_specs::convert::FromSpecImpl<OpCode> for MessageMeta {
    open spec fn obeys_from_spec() -> bool {
        true
    }

    open spec fn from_spec(op: OpCode) -> Self {
        opcode_meta(op)
    }
}

/// The status codes of the secure channel.
#[derive(Clone, Copy, Debug, PartialEq, Eq, Structural)]
pub enum SCStatusCodes {
    SessionEstablishmentSuccess,
    NoSharedTrustRoots,
    InvalidParameter,
    CloseSession,
    Busy,
    SessionNotFound,
}

/// The number of a status code on the wire.
pub open spec fn sc_status_number(status: SCStatusCodes) -> u16 {
    match status {
        SCStatusCodes::SessionEstablishmentSuccess => 0,
        SCStatusCodes::NoSharedTrustRoots => 1,
        SCStatusCodes::InvalidParameter => 2,
        SCStatusCodes::CloseSession => 3,
        SCStatusCodes::Busy => 4,
        SCStatusCodes::SessionNotFound => 5,
    }
}

/// The general code that a status code is reported under.
pub open spec fn sc_general_code(status: SCStatusCodes) -> GeneralCode {
    match status {
        SCStatusCodes::SessionEstablishmentSuccess => GeneralCode::Success,
        SCStatusCodes::CloseSession => GeneralCode::Success,
        SCStatusCodes::Busy => GeneralCode::Busy,
        SCStatusCodes::InvalidParameter => GeneralCode::Failure,
        SCStatusCodes::NoSharedTrustRoots => GeneralCode::Failure,
        SCStatusCodes::SessionNotFound => GeneralCode::Failure,
    }
}

/// Whether the report of a status code is retransmitted until acknowledged.
pub open spec fn sc_reliable(status: SCStatusCodes) -> bool {
    !(status is CloseSession || status is Busy)
}

/// The report of a status code.
pub open spec fn sc_report(status: SCStatusCodes, payload: Seq<u8>) -> ReportView {
    ReportView {
        general_code: sc_general_code(status),
        proto_id: PROTO_ID_SECURE_CHANNEL as u32,
        proto_code: sc_status_number(status),
        proto_data: payload,
    }
}

impl SCStatusCodes {
    /// The number of this status code on the wire.
    pub fn as_u16(&self) -> (number: u16)
        ensures
            number == sc_status_number(*self),
    {
        match self {
            SCStatusCodes::SessionEstablishmentSuccess => 0,
            SCStatusCodes::NoSharedTrustRoots => 1,
            SCStatusCodes::InvalidParameter => 2,
            SCStatusCodes::CloseSession => 3,
            SCStatusCodes::Busy => 4,
            SCStatusCodes::SessionNotFound => 5,
        }
    }

    /// Whether the report of this status code is retransmitted until acknowledged.
    /// `CloseSession` and `Busy` are sent once.
    pub fn reliable(&self) -> (reliable: bool)
        ensures
            reliable == sc_reliable(*self),
    {
        !matches!(self, SCStatusCodes::CloseSession | SCStatusCodes::Busy)
    }

    /// The report of this status code.
    pub fn as_report<'a>(&self, payload: &'a [u8]) -> (report: StatusReport<'a>)
        ensures
            report@ == sc_report(*self, payload@),
    {
        let general_code = match self {
            SCStatusCodes::SessionEstablishmentSuccess => GeneralCode::Success,
            SCStatusCodes::CloseSession => GeneralCode::Success,
            SCStatusCodes::Busy => GeneralCode::Busy,
            SCStatusCodes::InvalidParameter
            | SCStatusCodes::NoSharedTrustRoots
            | SCStatusCodes::SessionNotFound => GeneralCode::Failure,
        };
        StatusReport {
            general_code,
            proto_id: PROTO_ID_SECURE_CHANNEL as u32,
            proto_code: self.as_u16(),
            proto_data: payload,
        }
    }
}

/// The outcome of an operation, independent of the protocol.
#[derive(Clone, Copy, Debug, PartialEq, Eq, Structural)]
pub enum GeneralCode {
    Success,
    Failure,
    BadPrecondition,
    OutOfRange,
    BadRequest,
    Unsupported,
    Unexpected,
    ResourceExhausted,
    Busy,
    Timeout,
    Continue,
    Aborted,
    InvalidArgument,
    NotFound,
    AlreadyExists,
    PermissionDenied,
    DataLoss,
}

/// The number of a general code on the wire.
pub open spec fn general_number(code: GeneralCode) -> u16 {
    match code {
        GeneralCode::Success => 0,
        GeneralCode::Failure => 1,
        GeneralCode::BadPrecondition => 2,
        GeneralCode::OutOfRange => 3,
        GeneralCode::BadRequest => 4,
        GeneralCode::Unsupported => 5,
        GeneralCode::Unexpected => 6,
        GeneralCode::ResourceExhausted => 7,
        GeneralCode::Busy => 8,
        GeneralCode::Timeout => 9,
        GeneralCode::Continue => 10,
        GeneralCode::Aborted => 11,
        GeneralCode::InvalidArgument => 12,
        GeneralCode::NotFound => 13,
        GeneralCode::AlreadyExists => 14,
        GeneralCode::PermissionDenied => 15,
        GeneralCode::DataLoss => 16,
    }
}

/// Whether a number stands for a general code.
pub open spec fn is_general_number(number: u16) -> bool {
    number <= 16
}

/// The general code with this number.
pub open spec fn general_code(number: u16) -> GeneralCode {
    choose|code: GeneralCode| general_number(code) == number
}

/// Every general code has a number of its own.
pub proof fn law_general_numbers_are_distinct(code: GeneralCode)
    ensures
        is_general_number(general_number(code)),
        general_code(general_number(code)) == code,
{
    assert(general_number(general_code(general_number(code))) == general_number(code));
}

/// Every number up to the highest stands for a general code.
proof fn lemma_general_numbers_have_no_gaps(number: u16)
    requires
        is_general_number(number),
    ensures
        general_number(general_code(number)) == number,
{
    assert(general_number(GeneralCode::Success) == 0);
    assert(general_number(GeneralCode::Failure) == 1);
    assert(general_number(GeneralCode::BadPrecondition) == 2);
    assert(general_number(GeneralCode::OutOfRange) == 3);
    assert(general_number(GeneralCode::BadRequest) == 4);
    assert(general_number(GeneralCode::Unsupported) == 5);
    assert(general_number(GeneralCode::Unexpected) == 6);
    assert(general_number(GeneralCode::ResourceExhausted) == 7);
    assert(general_number(GeneralCode::Busy) == 8);
    assert(general_number(GeneralCode::Timeout) == 9);
    assert(general_number(GeneralCode::Continue) == 10);
    assert(general_number(GeneralCode::Aborted) == 11);
    assert(general_number(GeneralCode::InvalidArgument) == 12);
    assert(general_number(GeneralCode::NotFound) == 13);
    assert(general_number(GeneralCode::AlreadyExists) == 14);
    assert(general_number(GeneralCode::PermissionDenied) == 15);
    assert(general_number(GeneralCode::DataLoss) == 16);
}

impl GeneralCode {
    /// The number of this general code on the wire.
    pub fn as_u16(&self) -> (number: u16)
        ensures
            number == general_number(*self),
    {
        match self {
            GeneralCode::Success => 0,
            GeneralCode::Failure => 1,
            GeneralCode::BadPrecondition => 2,
            GeneralCode::OutOfRange => 3,
            GeneralCode::BadRequest => 4,
            GeneralCode::Unsupported => 5,
            GeneralCode::Unexpected => 6,
            GeneralCode::ResourceExhausted => 7,
            GeneralCode::Busy => 8,
            GeneralCode::Timeout => 9,
            GeneralCode::Continue => 10,
            GeneralCode::Aborted => 11,
            GeneralCode::InvalidArgument => 12,
            GeneralCode::NotFound => 13,
            GeneralCode::AlreadyExists => 14,
            GeneralCode::PermissionDenied => 15,
            GeneralCode::DataLoss => 16,
        }
    }

    /// The general code with this number, if there is one.
    pub fn from_u16(number: u16) -> (code: Option<Self>)
        ensures
            code matches Some(c) ==> general_number(c) == number,
            code is Some <==> is_general_number(number),
    {
        match number {
            0 => Some(GeneralCode::Success),
            1 => Some(GeneralCode::Failure),
            2 => Some(GeneralCode::BadPrecondition),
            3 => Some(GeneralCode::OutOfRange),
            4 => Some(GeneralCode::BadRequest),
            5 => Some(GeneralCode::Unsupported),
            6 => Some(GeneralCode::Unexpected),
            7 => Some(GeneralCode::ResourceExhausted),
            8 => Some(GeneralCode::Busy),
            9 => Some(GeneralCode::Timeout),
            10 => Some(GeneralCode::Continue),
            11 => Some(GeneralCode::Aborted),
            12 => Some(GeneralCode::InvalidArgument),
            13 => Some(GeneralCode::NotFound),
            14 => Some(GeneralCode::AlreadyExists),
            15 => Some(GeneralCode::PermissionDenied),
            16 => Some(GeneralCode::DataLoss),
            _ => None,
        }
    }
}

/// A status report message.
#[derive(Clone, Copy, Debug)]
pub struct StatusReport<'a> {
    pub general_code: GeneralCode,
    pub proto_id: u32,
    pub proto_code: u16,
    pub proto_data: &'a [u8],
}

/// What a status report says.
pub struct ReportView {
    pub general_code: GeneralCode,
    pub proto_id: u32,
    pub proto_code: u16,
    pub proto_data: Seq<u8>,
}

impl View for StatusReport<'_> {
    type V = ReportView;

    open spec fn view(&self) -> ReportView {
        ReportView {
            general_code: self.general_code,
            proto_id: self.proto_id,
            proto_code: self.proto_code,
            proto_data: self.proto_data@,
        }
    }
}

/// The bytes of a status report: general code, protocol, status, data.
pub open spec fn report_bytes(report: ReportView) -> Seq<u8> {
    le16(general_number(report.general_code)) + le32(report.proto_id) + le16(report.proto_code)
        + report.proto_data
}

/// How many bytes of a report are written where only `room` bytes fit: the fields
/// in front that fit whole.
pub open spec fn whole_fields(room: int) -> int {
    if room < 2 {
        0
    } else if room < 6 {
        2
    } else if room < 8 {
        6
    } else {
        8
    }
}

/// What is read from the bytes of a status report.
pub open spec fn read_report(bytes: Seq<u8>) -> Result<ReportView, Error> {
    if bytes.len() < 2 {
        Err(truncated())
    } else if !is_general_number(from_le16(bytes.take(2))) {
        Err(Error { code: ErrorCode::InvalidOpcode })
    } else if bytes.len() < 8 {
        Err(truncated())
    } else {
        Ok(
            ReportView {
                general_code: general_code(from_le16(bytes.take(2))),
                proto_id: from_le32(bytes.subrange(2, 6)),
                proto_code: from_le16(bytes.subrange(6, 8)),
                proto_data: bytes.skip(8),
            },
        )
    }
}

/// How many bytes reading a status report takes off the front.
pub open spec fn read_report_takes(bytes: Seq<u8>) -> int {
    if bytes.len() < 2 {
        0
    } else if !is_general_number(from_le16(bytes.take(2))) || bytes.len() < 6 {
        2
    } else if bytes.len() < 8 {
        6
    } else {
        8
    }
}

impl<'a> StatusReport<'a> {
    /// Reads a status report. Its data is all that is left in the buffer, and stays
    /// there.
    pub fn read(pb: &mut ReadBuf<'a>) -> (report: Result<Self, Error>)
        ensures
            final(pb)@ == old(pb)@.skip(read_report_takes(old(pb)@)),
            match (report, read_report(old(pb)@)) {
                (Ok(r), Ok(v)) => r@ == v,
                (Err(e), Err(f)) => e == f,
                _ => false,
            },
    {
        let ghost bytes = pb@;
        proof {
            assert(bytes.skip(0) =~= bytes);
        }
        let number: u16 = pb.le_u16()?;
        let general_code = match GeneralCode::from_u16(number) {
            Some(code) => code,
            None => return Err(Error::new(ErrorCode::InvalidOpcode)),
        };
        proof {
            law_general_numbers_are_distinct(general_code);
        }
        let proto_id: u32 = pb.le_u32()?;
        proof {
            assert(bytes.skip(2).take(4) =~= bytes.subrange(2, 6));
            assert(bytes.skip(2).skip(4) =~= bytes.skip(6));
        }
        let proto_code: u16 = pb.le_u16()?;
        proof {
            assert(bytes.skip(6).take(2) =~= bytes.subrange(6, 8));
            assert(bytes.skip(6).skip(2) =~= bytes.skip(8));
        }
        Ok(StatusReport { general_code, proto_id, proto_code, proto_data: pb.as_slice() })
    }

    /// Writes this status report. Where it does not fit, the fields in front that do
    /// stay written.
    pub fn write(&self, wb: &mut WriteBuf<'_>) -> (r: Result<(), Error>)
        ensures
            final(wb).capacity() == old(wb).capacity(),
            old(wb)@.len() + report_bytes(self@).len() <= old(wb).capacity() ==> r is Ok
                && final(wb)@ == old(wb)@ + report_bytes(self@),
            old(wb)@.len() + report_bytes(self@).len() > old(wb).capacity() ==> r == Err::<
                (),
                Error,
            >(no_space()) && final(wb)@ == old(wb)@ + report_bytes(self@).take(
                whole_fields(old(wb).capacity() - old(wb)@.len()),
            ),
    {
        let ghost start = wb@;
        let ghost bytes = report_bytes(self@);
        proof {
            assert(start + bytes.take(0) =~= start);
            assert(bytes.take(2) =~= le16(general_number(self.general_code)));
            assert(start + bytes.take(2) + le32(self.proto_id) =~= start + bytes.take(6));
            assert(start + bytes.take(6) + le16(self.proto_code) =~= start + bytes.take(8));
            assert(start + bytes.take(8) + self.proto_data@ =~= start + bytes);
        }
        wb.le_u16(self.general_code.as_u16())?;
        wb.le_u32(self.proto_id)?;
        wb.le_u16(self.proto_code)?;
        wb.copy_from_slice(self.proto_data)?;
        Ok(())
    }
}

/// Reading a written status report gives the report back.
pub proof fn law_status_report_reads_back(report: ReportView)
    ensures
        read_report(report_bytes(report)) == Ok::<ReportView, Error>(report),
{
    let bytes = report_bytes(report);
    law_general_numbers_are_distinct(report.general_code);
    lemma_le16_reads_back(general_number(report.general_code));
    lemma_le32_reads_back(report.proto_id);
    lemma_le16_reads_back(report.proto_code);
    assert(bytes.take(2) =~= le16(general_number(report.general_code)));
    assert(bytes.subrange(2, 6) =~= le32(report.proto_id));
    assert(bytes.subrange(6, 8) =~= le16(report.proto_code));
    assert(bytes.skip(8) =~= report.proto_data);
}

/// Writing a status report that was read gives the bytes back.
pub proof fn law_status_report_writes_back(bytes: Seq<u8>)
    requires
        read_report(bytes) is Ok,
    ensures
        report_bytes(read_report(bytes)->Ok_0) == bytes,
{
    let report = read_report(bytes)->Ok_0;
    lemma_le16_writes_back(bytes.take(2));
    lemma_le32_writes_back(bytes.subrange(2, 6));
    lemma_le16_writes_back(bytes.subrange(6, 8));
    lemma_general_numbers_have_no_gaps(from_le16(bytes.take(2)));
    assert(report_bytes(report) =~= bytes);
}

/// Writes the report of a status code and says how it is sent.
pub fn sc_write(wb: &mut WriteBuf<'_>, status_code: SCStatusCodes, payload: &[u8]) -> (r: Result<
    Option<MessageMeta>,
    Error,
>)
    ensures
        final(wb).capacity() == old(wb).capacity(),
        old(wb)@.len() + 8 + payload@.len() <= old(wb).capacity() ==> r == Ok::<
            Option<MessageMeta>,
            Error,
        >(Some(sc_report_meta(status_code))) && final(wb)@ == old(wb)@ + report_bytes(
            sc_report(status_code, payload@),
        ),
        old(wb)@.len() + 8 + payload@.len() > old(wb).capacity() ==> r == Err::<
            Option<MessageMeta>,
            Error,
        >(no_space()) && final(wb)@ == old(wb)@ + report_bytes(
            sc_report(status_code, payload@),
        ).take(whole_fields(old(wb).capacity() - old(wb)@.len())),
{
    status_code.as_report(payload).write(wb)?;
    Ok(Some(OpCode::StatusReport.meta().reliable(status_code.reliable())))
}

/// How the report of a status code is sent.
pub open spec fn sc_report_meta(status: SCStatusCodes) -> MessageMeta {
    MessageMeta { reliable: sc_reliable(status), ..opcode_meta(OpCode::StatusReport) }
}

/// The handshakes that an opening message can ask for.
#[derive(Clone, Copy, Debug, PartialEq, Eq, Structural)]
pub enum Handshake {
    /// Password-authenticated session establishment.
    Pase,
    /// Certificate-authenticated session establishment.
    Case,
}

/// The handshake that an opening message asks for.
pub open spec fn requested_handshake(meta: MessageMeta) -> Result<Handshake, Error> {
    if meta.proto_id != PROTO_ID_SECURE_CHANNEL {
        Err(Error { code: ErrorCode::InvalidProto })
    } else if meta.proto_opcode == opcode_number(OpCode::PBKDFParamRequest) {
        Ok(Handshake::Pase)
    } else if meta.proto_opcode == opcode_number(OpCode::CASESigma1) {
        Ok(Handshake::Case)
    } else {
        Err(Error { code: ErrorCode::InvalidOpcode })
    }
}

/// Answers the messages that open a session.
pub struct SecureChannel<'a, C, N: ?Sized> {
    crypto: C,
    notify: &'a N,
}

impl<'a, C, N: ?Sized> SecureChannel<'a, C, N> {
    /// The cryptographic backend that the handshakes use.
    pub closed spec fn crypto_spec(&self) -> C {
        self.crypto
    }

    /// Who is told about changes.
    pub closed spec fn notify_spec(&self) -> &N {
        self.notify
    }

    /// A secure channel with this backend, which reports changes to `notify`.
    pub fn new(crypto: C, notify: &'a N) -> (sc: Self)
        ensures
            sc.crypto_spec() == crypto,
            sc.notify_spec() == notify,
    {
        SecureChannel { crypto, notify }
    }

    /// The cryptographic backend that the handshakes use.
    pub fn crypto(&self) -> (crypto: &C)
        ensures
            *crypto == self.crypto_spec(),
    {
        &self.crypto
    }

    /// Who is told about changes.
    pub fn notify(&self) -> (notify: &'a N)
        ensures
            notify == self.notify_spec(),
    {
        self.notify
    }

    /// The handshake that an opening message asks for.
    pub fn handshake(&self, meta: &MessageMeta) -> (handshake: Result<Handshake, Error>)
        ensures
            handshake == requested_handshake(*meta),
    {
        if meta.proto_id != PROTO_ID_SECURE_CHANNEL {
            return Err(Error::new(ErrorCode::InvalidProto));
        }
        match meta.opcode()? {
            OpCode::PBKDFParamRequest => Ok(Handshake::Pase),
            OpCode::CASESigma1 => Ok(Handshake::Case),
            _ => Err(Error::new(ErrorCode::InvalidOpcode)),
        }
    }
}

/// What comes of a received message where another may be expected.
pub open spec fn checked_opcode(meta: MessageMeta, expected: OpCode) -> Result<(), Error> {
    if meta.proto_opcode == opcode_number(expected) {
        Ok(())
    } else if is_opcode_number(meta.proto_opcode) {
        Err(Error { code: ErrorCode::Invalid })
    } else {
        Err(Error { code: ErrorCode::InvalidOpcode })
    }
}

/// Checks that a received message is the expected one.
pub fn check_opcode(meta: &MessageMeta, opcode: OpCode) -> (r: Result<(), Error>)
    ensures
        r == checked_opcode(*meta, opcode),
        r is Ok <==> meta.proto_opcode == opcode_number(opcode),
        r matches Err(e) ==> e.code == (if is_opcode_number(meta.proto_opcode) {
            ErrorCode::Invalid
        } else {
            ErrorCode::InvalidOpcode
        }),
{
    let their_opcode = meta.opcode()?;
    if their_opcode == opcode {
        Ok(())
    } else {
        proof {
            law_opcode_numbers_are_distinct(their_opcode, opcode);
        }
        Err(Error::new(ErrorCode::Invalid))
    }
}

/// The number that stands for each general code on the wire, and which code is read from
/// each number.
pub proof fn law_general_codes_by_number(code: GeneralCode, number: u16)
    ensures
        code == GeneralCode::Success <==> general_number(code) == 0,
        code == GeneralCode::Failure <==> general_number(code) == 1,
        code == GeneralCode::BadPrecondition <==> general_number(code) == 2,
        code == GeneralCode::OutOfRange <==> general_number(code) == 3,
        code == GeneralCode::BadRequest <==> general_number(code) == 4,
        code == GeneralCode::Unsupported <==> general_number(code) == 5,
        code == GeneralCode::Unexpected <==> general_number(code) == 6,
        code == GeneralCode::ResourceExhausted <==> general_number(code) == 7,
        code == GeneralCode::Busy <==> general_number(code) == 8,
        code == GeneralCode::Timeout <==> general_number(code) == 9,
        code == GeneralCode::Continue <==> general_number(code) == 10,
        code == GeneralCode::Aborted <==> general_number(code) == 11,
        code == GeneralCode::InvalidArgument <==> general_number(code) == 12,
        code == GeneralCode::NotFound <==> general_number(code) == 13,
        code == GeneralCode::AlreadyExists <==> general_number(code) == 14,
        code == GeneralCode::PermissionDenied <==> general_number(code) == 15,
        code == GeneralCode::DataLoss <==> general_number(code) == 16,
        number == 0 ==> general_code(number) == GeneralCode::Success,
        number == 1 ==> general_code(number) == GeneralCode::Failure,
        number == 2 ==> general_code(number) == GeneralCode::BadPrecondition,
        number == 3 ==> general_code(number) == GeneralCode::OutOfRange,
        number == 4 ==> general_code(number) == GeneralCode::BadRequest,
        number == 5 ==> general_code(number) == GeneralCode::Unsupported,
        number == 6 ==> general_code(number) == GeneralCode::Unexpected,
        number == 7 ==> general_code(number) == GeneralCode::ResourceExhausted,
        number == 8 ==> general_code(number) == GeneralCode::Busy,
        number == 9 ==> general_code(number) == GeneralCode::Timeout,
        number == 10 ==> general_code(number) == GeneralCode::Continue,
        number == 11 ==> general_code(number) == GeneralCode::Aborted,
        number == 12 ==> general_code(number) == GeneralCode::InvalidArgument,
        number == 13 ==> general_code(number) == GeneralCode::NotFound,
        number == 14 ==> general_code(number) == GeneralCode::AlreadyExists,
        number == 15 ==> general_code(number) == GeneralCode::PermissionDenied,
        number == 16 ==> general_code(number) == GeneralCode::DataLoss,
        is_general_number(number) <==> number <= 16,
{
    if number <= 16 {
        lemma_general_numbers_have_no_gaps(number);
    }
}

/// The number that stands for each message of the secure channel on the wire.
pub proof fn law_messages_by_number(opcode: OpCode)
    ensures
        opcode == OpCode::MsgCounterSyncReq <==> opcode_number(opcode) == 0x00,
        opcode == OpCode::MsgCounterSyncResp <==> opcode_number(opcode) == 0x01,
        opcode == OpCode::MRPStandAloneAck <==> opcode_number(opcode) == 0x10,
        opcode == OpCode::PBKDFParamRequest <==> opcode_number(opcode) == 0x20,
        opcode == OpCode::PBKDFParamResponse <==> opcode_number(opcode) == 0x21,
        opcode == OpCode::PASEPake1 <==> opcode_number(opcode) == 0x22,
        opcode == OpCode::PASEPake2 <==> opcode_number(opcode) == 0x23,
        opcode == OpCode::PASEPake3 <==> opcode_number(opcode) == 0x24,
        opcode == OpCode::CASESigma1 <==> opcode_number(opcode) == 0x30,
        opcode == OpCode::CASESigma2 <==> opcode_number(opcode) == 0x31,
        opcode == OpCode::CASESigma3 <==> opcode_number(opcode) == 0x32,
        opcode == OpCode::CASESigma2Resume <==> opcode_number(opcode) == 0x33,
        opcode == OpCode::StatusReport <==> opcode_number(opcode) == 0x40,
        opcode == OpCode::IcdCheckInMessage <==> opcode_number(opcode) == 0x50,
{
}

/// A number is known exactly where some message has it.
pub proof fn law_known_numbers_are_those_of_messages(number: u8)
    ensures
        is_opcode_number(number) <==> exists|opcode: OpCode| #[trigger] opcode_number(opcode)
            == number,
{
    assert(opcode_number(OpCode::MsgCounterSyncReq) == 0x00);
    assert(opcode_number(OpCode::MsgCounterSyncResp) == 0x01);
    assert(opcode_number(OpCode::MRPStandAloneAck) == 0x10);
    assert(opcode_number(OpCode::PBKDFParamRequest) == 0x20);
    assert(opcode_number(OpCode::PBKDFParamResponse) == 0x21);
    assert(opcode_number(OpCode::PASEPake1) == 0x22);
    assert(opcode_number(OpCode::PASEPake2) == 0x23);
    assert(opcode_number(OpCode::PASEPake3) == 0x24);
    assert(opcode_number(OpCode::CASESigma1) == 0x30);
    assert(opcode_number(OpCode::CASESigma2) == 0x31);
    assert(opcode_number(OpCode::CASESigma3) == 0x32);
    assert(opcode_number(OpCode::CASESigma2Resume) == 0x33);
    assert(opcode_number(OpCode::StatusReport) == 0x40);
    assert(opcode_number(OpCode::IcdCheckInMessage) == 0x50);
}

/// How the messages of the secure channel travel, by their numbers: all under protocol 0,
/// all retransmitted but for standalone acknowledgements and check-ins, and those of the
/// two handshakes, and no others, as tagged elements.
pub proof fn law_how_messages_travel(opcode: OpCode)
    ensures
        opcode_meta(opcode).proto_id == 0,
        opcode_meta(opcode).proto_opcode == opcode_number(opcode),
        opcode_meta(opcode).reliable <==> opcode_number(opcode) != 0x10 && opcode_number(opcode)
            != 0x50,
        carries_tlv(opcode) <==> 0x20 <= opcode_number(opcode) < 0x40,
{
}

/// A report lies on the wire as two bytes of general code, four of protocol, two of status,
/// each least significant first, and the data.
pub proof fn law_where_a_report_holds_its_fields(report: ReportView)
    ensures
        ({
            let bytes = report_bytes(report);
            &&& bytes.len() == 8 + report.proto_data.len()
            &&& bytes[0] == general_number(report.general_code)
            &&& bytes[1] == 0
            &&& bytes[2] + 0x100 * bytes[3] + 0x1_0000 * bytes[4] + 0x100_0000 * bytes[5]
                == report.proto_id
            &&& bytes[6] + 0x100 * bytes[7] == report.proto_code
            &&& bytes.skip(8) == report.proto_data
        }),
{
    assert(report_bytes(report).skip(8) =~= report.proto_data);
}

/// Each status of the secure channel on the wire, whatever data goes with it: the protocol
/// is 0, the status has its number, and the general code is that of success where a session
/// was established or is closed, that of being busy where the peer is to come back later,
/// and that of failure else.
pub proof fn law_statuses_on_the_wire(status: SCStatusCodes, payload: Seq<u8>)
    ensures
        ({
            let bytes = report_bytes(sc_report(status, payload));
            &&& bytes.len() == 8 + payload.len()
            &&& bytes[0] == (if status == SCStatusCodes::SessionEstablishmentSuccess || status
                == SCStatusCodes::CloseSession {
                0
            } else if status == SCStatusCodes::Busy {
                8int
            } else {
                1
            })
            &&& bytes[1] == 0
            &&& bytes[2] == 0 && bytes[3] == 0 && bytes[4] == 0 && bytes[5] == 0
            &&& bytes[7] == 0
            &&& status == SCStatusCodes::SessionEstablishmentSuccess <==> bytes[6] == 0
            &&& status == SCStatusCodes::NoSharedTrustRoots <==> bytes[6] == 1
            &&& status == SCStatusCodes::InvalidParameter <==> bytes[6] == 2
            &&& status == SCStatusCodes::CloseSession <==> bytes[6] == 3
            &&& status == SCStatusCodes::Busy <==> bytes[6] == 4
            &&& status == SCStatusCodes::SessionNotFound <==> bytes[6] == 5
            &&& bytes.skip(8) == payload
        }),
        ({
            let meta = sc_report_meta(status);
            &&& meta.proto_id == 0
            &&& meta.proto_opcode == 0x40
            &&& meta.reliable <==> status != SCStatusCodes::CloseSession && status
                != SCStatusCodes::Busy
        }),
{
    law_where_a_report_holds_its_fields(sc_report(status, payload));
}

/// Which bytes are a report: eight or more, of which the first two hold a number up to 16.
/// What is read is what they hold. All others are refused: as unknown where the number is
/// there and too high, and else as too short.
pub proof fn law_which_bytes_are_a_report(bytes: Seq<u8>)
    ensures
        read_report(bytes) is Ok <==> bytes.len() >= 8 && bytes[0] <= 16 && bytes[1] == 0,
        read_report(bytes) matches Ok(report) ==> {
            &&& general_number(report.general_code) == bytes[0]
            &&& report.proto_id == bytes[2] + 0x100 * bytes[3] + 0x1_0000 * bytes[4]
                + 0x100_0000 * bytes[5]
            &&& report.proto_code == bytes[6] + 0x100 * bytes[7]
            &&& report.proto_data == bytes.skip(8)
        },
        read_report(bytes) matches Err(error) ==> error.code == (if bytes.len() >= 2 && (bytes[0]
            > 16 || bytes[1] != 0) {
            ErrorCode::InvalidOpcode
        } else {
            ErrorCode::TruncatedPacket
        }),
{
    if bytes.len() >= 2 && bytes[0] <= 16 && bytes[1] == 0 {
        lemma_general_numbers_have_no_gaps(from_le16(bytes.take(2)));
    }
}

/// Reading takes the fields off the front that it could read whole, and nothing of the
/// data. What is too high a number is taken too.
pub proof fn law_what_reading_takes(bytes: Seq<u8>)
    ensures
        read_report(bytes) is Ok ==> read_report_takes(bytes) == 8,
        bytes.len() < 2 ==> read_report_takes(bytes) == 0,
        bytes.len() >= 2 && (bytes[0] > 16 || bytes[1] != 0) ==> read_report_takes(bytes) == 2,
        2 <= bytes.len() < 6 ==> read_report_takes(bytes) == 2,
        6 <= bytes.len() < 8 && bytes[0] <= 16 && bytes[1] == 0 ==> read_report_takes(bytes)
            == 6,
        0 <= read_report_takes(bytes) <= bytes.len(),
{
}

/// What is written of a report that does not fit are whole fields, as many as there is
/// room for: behind them, the next one would not fit.
pub proof fn law_what_is_written_without_room(room: int)
    requires
        room >= 0,
    ensures
        whole_fields(room) <= room,
        whole_fields(room) == 0 ==> room < 2,
        whole_fields(room) == 2 ==> room < 2 + 4,
        whole_fields(room) == 6 ==> room < 6 + 2,
        whole_fields(room) == 0 || whole_fields(room) == 2 || whole_fields(room) == 6
            || whole_fields(room) == 8,
        no_space().code == ErrorCode::NoSpace,
        truncated().code == ErrorCode::TruncatedPacket,
{
}

/// Which handshake a message opens, by protocol and number, and why others open none.
pub proof fn law_which_messages_open_a_handshake(meta: MessageMeta)
    ensures
        requested_handshake(meta) == Ok::<Handshake, Error>(Handshake::Pase) <==> meta.proto_id
            == 0 && meta.proto_opcode == 0x20,
        requested_handshake(meta) == Ok::<Handshake, Error>(Handshake::Case) <==> meta.proto_id
            == 0 && meta.proto_opcode == 0x30,
        meta.proto_id != 0 ==> requested_handshake(meta) == Err::<Handshake, Error>(
            (Error { code: ErrorCode::InvalidProto }),
        ),
        meta.proto_id == 0 && meta.proto_opcode != 0x20 && meta.proto_opcode != 0x30
            ==> requested_handshake(meta) == Err::<Handshake, Error>(
            (Error { code: ErrorCode::InvalidOpcode }),
        ),
{
}

/// A received message is the expected one for no more than one message. Where it is
/// another, it is invalid, and where it is none at all, its number is.
pub proof fn law_a_message_is_one_message(meta: MessageMeta, expected: OpCode, other: OpCode)
    ensures
        checked_opcode(meta, expected) is Ok && checked_opcode(meta, other) is Ok ==> expected
            == other,
        checked_opcode(opcode_meta(expected), expected) is Ok,
        other != expected ==> checked_opcode(opcode_meta(other), expected) == Err::<(), Error>(
            (Error { code: ErrorCode::Invalid }),
        ),
        (forall|opcode: OpCode| #[trigger] opcode_number(opcode) != meta.proto_opcode)
            ==> checked_opcode(meta, expected) == Err::<(), Error>(
            (Error { code: ErrorCode::InvalidOpcode }),
        ),
        checked_opcode(meta, expected) matches Err(error) ==> error.code == ErrorCode::Invalid
            || error.code == ErrorCode::InvalidOpcode,
{
    law_opcode_numbers_are_distinct(expected, other);
    law_known_numbers_are_those_of_messages(meta.proto_opcode);
}

/// A report is seen as its fields.
pub proof fn law_a_report_is_seen_as_its_fields(report: StatusReport<'_>)
    ensures
        report@.general_code == report.general_code,
        report@.proto_id == report.proto_id,
        report@.proto_code == report.proto_code,
        report@.proto_data == report.proto_data@,
{
}

} // verus!
