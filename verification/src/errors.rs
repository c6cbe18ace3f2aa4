//! Errors raised while decoding descriptors.

use vstd::prelude::*;

use crate::command_request::Unknown;

verus! {

/// Why a descriptor could not be decoded.
#[derive(Debug)]
pub enum ParseDescriptorError {
    /// A command request descriptor that could not be parsed.
    CommandRequest(Box<Unknown>),
    /// A command request descriptor with an opcode that names no command.
    CommandRequestUnknownOpcode(u8),
    /// A send descriptor that could not be parsed.
    Send(Box<[u8; 32]>),
    /// A send descriptor with an opcode that names no operation.
    SendUnknownOpcode(u8),
    /// A queue pair type code that names no type.
    InvalidQueuePairType(u8),
    /// A packet MTU code that names no MTU.
    InvalidPacketMTUKind(u8),
}

} // verus!
