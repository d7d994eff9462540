//! The header fields by which a message is told apart.
use vstd::prelude::*;

use crate::error::{Error, ErrorCode};
use crate::sc::{is_opcode_number, opcode_number, OpCode};

verus! {

/// Protocol, opcode and delivery mode of a message.
#[derive(Clone, Copy, Debug, PartialEq, Eq, Structural)]
pub struct MessageMeta {
    /// The protocol that the opcode belongs to.
    pub proto_id: u16,
    /// The opcode within the protocol.
    pub proto_opcode: u8,
    /// Whether the message is retransmitted until it is acknowledged.
    pub reliable: bool,
}

impl MessageMeta {
    /// The meta with these fields.
    pub fn new(proto_id: u16, proto_opcode: u8, reliable: bool) -> (meta: Self)
        ensures
            meta == (MessageMeta { proto_id, proto_opcode, reliable }),
    {
        MessageMeta { proto_id, proto_opcode, reliable }
    }

    /// The same meta with another delivery mode.
    pub fn reliable(self, reliable: bool) -> (meta: Self)
        ensures
            meta == (MessageMeta { reliable, ..self }),
    {
        MessageMeta { reliable, ..self }
    }

    /// The secure channel message that the opcode stands for.
    pub fn opcode(&self) -> (opcode: Result<OpCode, Error>)
        ensures
            opcode matches Ok(o) ==> opcode_number(o) == self.proto_opcode,
            opcode matches Err(e) ==> e == (Error { code: ErrorCode::InvalidOpcode }),
            opcode is Ok <==> is_opcode_number(self.proto_opcode),
    {
        match OpCode::from_u8(self.proto_opcode) {
            Some(opcode) => Ok(opcode),
            None => Err(Error::new(ErrorCode::InvalidOpcode)),
        }
    }
}

} // verus!
