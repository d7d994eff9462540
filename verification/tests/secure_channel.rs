//! The secure channel: messages, status reports and the opening of handshakes.
use matter_services::buf::{ReadBuf, WriteBuf};
use matter_services::error::{Error, ErrorCode};
use matter_services::message::MessageMeta;
use matter_services::sc::{
    check_opcode, sc_write, GeneralCode, Handshake, OpCode, SCStatusCodes, SecureChannel,
    StatusReport, PROTO_ID_SECURE_CHANNEL,
};

const OPCODES: [(OpCode, u8); 14] = [
    (OpCode::MsgCounterSyncReq, 0x00),
    (OpCode::MsgCounterSyncResp, 0x01),
    (OpCode::MRPStandAloneAck, 0x10),
    (OpCode::PBKDFParamRequest, 0x20),
    (OpCode::PBKDFParamResponse, 0x21),
    (OpCode::PASEPake1, 0x22),
    (OpCode::PASEPake2, 0x23),
    (OpCode::PASEPake3, 0x24),
    (OpCode::CASESigma1, 0x30),
    (OpCode::CASESigma2, 0x31),
    (OpCode::CASESigma3, 0x32),
    (OpCode::CASESigma2Resume, 0x33),
    (OpCode::StatusReport, 0x40),
    (OpCode::IcdCheckInMessage, 0x50),
];

const STATUSES: [(SCStatusCodes, u16, GeneralCode, bool); 6] = [
    (SCStatusCodes::SessionEstablishmentSuccess, 0, GeneralCode::Success, true),
    (SCStatusCodes::NoSharedTrustRoots, 1, GeneralCode::Failure, true),
    (SCStatusCodes::InvalidParameter, 2, GeneralCode::Failure, true),
    (SCStatusCodes::CloseSession, 3, GeneralCode::Success, false),
    (SCStatusCodes::Busy, 4, GeneralCode::Busy, false),
    (SCStatusCodes::SessionNotFound, 5, GeneralCode::Failure, true),
];

#[test]
fn opcodes_have_their_numbers() {
    for (opcode, number) in OPCODES {
        assert_eq!(opcode.as_u8(), number);
        let meta = MessageMeta::from(opcode);
        assert_eq!(meta, opcode.meta());
        assert_eq!(meta.proto_id, PROTO_ID_SECURE_CHANNEL);
        assert_eq!(meta.proto_opcode, number);
        assert_eq!(meta.opcode(), Ok(opcode));
        let unreliable = matches!(opcode, OpCode::MRPStandAloneAck | OpCode::IcdCheckInMessage);
        assert_eq!(meta.reliable, !unreliable);
    }
    for number in 0..=u8::MAX {
        let known = OPCODES.iter().find(|(_, known)| *known == number).map(|(opcode, _)| *opcode);
        assert_eq!(OpCode::from_u8(number), known);
    }
}

#[test]
fn only_handshake_messages_are_tlv() {
    for (opcode, number) in OPCODES {
        assert_eq!(opcode.is_tlv(), (0x20..0x40).contains(&number));
    }
}

#[test]
fn statuses_are_reported_with_their_general_codes() {
    for (status, number, general, reliable) in STATUSES {
        assert_eq!(status.as_u16(), number);
        assert_eq!(status.reliable(), reliable);
        let report = status.as_report(b"data");
        assert_eq!(report.general_code, general);
        assert_eq!(report.proto_id, u32::from(PROTO_ID_SECURE_CHANNEL));
        assert_eq!(report.proto_code, number);
        assert_eq!(report.proto_data, b"data");
    }
}

#[test]
fn a_written_status_reads_back() {
    for (status, number, general, reliable) in STATUSES {
        let mut buf = [0xff; 11];
        let mut wb = WriteBuf::new(&mut buf);
        let meta = sc_write(&mut wb, status, b"abc").unwrap().unwrap();
        assert_eq!(meta, OpCode::StatusReport.meta().reliable(reliable));
        assert_eq!(wb.as_slice().len(), 11);
        let mut rb = ReadBuf::new(wb.as_slice());
        let report = StatusReport::read(&mut rb).unwrap();
        assert_eq!(report.general_code, general);
        assert_eq!(report.proto_id, 0);
        assert_eq!(report.proto_code, number);
        assert_eq!(report.proto_data, b"abc");
    }
}

#[test]
fn a_report_is_laid_out_least_significant_byte_first() {
    let report = StatusReport {
        general_code: GeneralCode::DataLoss,
        proto_id: 0xfff1_0002,
        proto_code: 0x1234,
        proto_data: &[9, 8],
    };
    let mut buf = [0; 16];
    let mut wb = WriteBuf::new(&mut buf);
    report.write(&mut wb).unwrap();
    assert_eq!(wb.as_slice(), &[16, 0, 0x02, 0x00, 0xf1, 0xff, 0x34, 0x12, 9, 8]);
}

#[test]
fn a_report_that_was_read_writes_back() {
    let bytes = [8, 0, 1, 2, 3, 4, 5, 6, 7];
    let mut rb = ReadBuf::new(&bytes);
    let report = StatusReport::read(&mut rb).unwrap();
    assert_eq!(report.general_code, GeneralCode::Busy);
    let mut buf = [0; 9];
    let mut wb = WriteBuf::new(&mut buf);
    report.write(&mut wb).unwrap();
    assert_eq!(wb.as_slice(), &bytes);
}

#[test]
fn a_report_without_room_is_refused() {
    for room in 0..11 {
        let mut buf = vec![0; room];
        let mut wb = WriteBuf::new(&mut buf);
        assert_eq!(
            sc_write(&mut wb, SCStatusCodes::Busy, b"abc"),
            Err(Error::new(ErrorCode::NoSpace))
        );
    }
}

#[test]
fn a_short_or_unknown_report_is_refused() {
    let bytes = [1, 0, 2, 0, 0, 0, 0x17, 0];
    for short in 0..bytes.len() {
        let mut rb = ReadBuf::new(&bytes[..short]);
        let error = StatusReport::read(&mut rb).unwrap_err();
        assert_eq!(error.code(), ErrorCode::TruncatedPacket);
    }
    let mut rb = ReadBuf::new(&bytes);
    assert!(StatusReport::read(&mut rb).unwrap().proto_data.is_empty());

    let mut rb = ReadBuf::new(&[17, 0, 2, 0, 0, 0, 0x17, 0]);
    let error = StatusReport::read(&mut rb).unwrap_err();
    assert_eq!(error.code(), ErrorCode::InvalidOpcode);
    let mut rb = ReadBuf::new(&[17, 0]);
    let error = StatusReport::read(&mut rb).unwrap_err();
    assert_eq!(error.code(), ErrorCode::InvalidOpcode);
}

#[test]
fn general_codes_are_numbered_without_gaps() {
    for number in 0..=u16::MAX {
        let code = GeneralCode::from_u16(number);
        assert_eq!(code.is_some(), number <= 16);
        if let Some(code) = code {
            assert_eq!(code.as_u16(), number);
        }
    }
    assert_eq!(GeneralCode::Timeout.as_u16(), 9);
    assert_eq!(GeneralCode::InvalidArgument.as_u16(), 12);
}

#[test]
fn opening_messages_choose_the_handshake() {
    let channel = SecureChannel::new("crypto", "notify");
    assert_eq!(*channel.crypto(), "crypto");
    assert_eq!(channel.notify(), "notify");
    assert_eq!(channel.handshake(&OpCode::PBKDFParamRequest.meta()), Ok(Handshake::Pase));
    assert_eq!(channel.handshake(&OpCode::CASESigma1.meta()), Ok(Handshake::Case));
    assert_eq!(
        channel.handshake(&OpCode::CASESigma2.meta()),
        Err(Error::new(ErrorCode::InvalidOpcode))
    );
    assert_eq!(
        channel.handshake(&MessageMeta::new(PROTO_ID_SECURE_CHANNEL, 0x99, true)),
        Err(Error::new(ErrorCode::InvalidOpcode))
    );
    assert_eq!(
        channel.handshake(&MessageMeta::new(1, 0x20, true)),
        Err(Error::new(ErrorCode::InvalidProto))
    );
}

#[test]
fn an_unexpected_opcode_is_invalid() {
    let meta = OpCode::PASEPake1.meta();
    assert_eq!(check_opcode(&meta, OpCode::PASEPake1), Ok(()));
    assert_eq!(check_opcode(&meta, OpCode::PASEPake2), Err(Error::from(ErrorCode::Invalid)));
    assert_eq!(
        check_opcode(&OpCode::StatusReport.meta(), OpCode::PASEPake2),
        Err(Error::from(ErrorCode::Invalid))
    );
    assert_eq!(
        check_opcode(&MessageMeta::new(0, 0x99, true), OpCode::PASEPake2),
        Err(Error::from(ErrorCode::InvalidOpcode))
    );
}
