//! Command request descriptors: the requests that the driver posts to the
//! device to configure memory regions, page tables, queue pairs and the
//! network.
//!
//! Every descriptor is 32 bytes. The first 8 bytes are the common header:
//! bit 0 valid, bit 1 success / need-signal-completion, bits 2..=7 opcode,
//! bits 8..=11 extra segment count, bits 32..=63 user data. Bit `i` of a
//! descriptor is bit `i % 8` of byte `i / 8`.

use vstd::prelude::*;

use crate::bits::{field, get_field, lemma_low_masks};
use crate::descriptor::RawDescriptor;
use crate::errors::ParseDescriptorError;
use crate::types::{
    DmaAddress, MemoryAccessFlag, MemoryRegionKey, PacketSequenceNumber, Pmtu, QueuePairNumber,
    QueuePairType, VirtualAddress,
};

verus! {

/// The command that a command request descriptor carries.
#[derive(Debug, Clone, Copy, PartialEq, Eq, Structural)]
pub enum Opcode {
    UpdateMrTable,
    UpdatePageTable,
    QpManagement,
    SetNetworkParam,
    SetRawPacketReceiveMeta,
    UpdateErrorPsnRecoverPoint,
}

impl Opcode {
    /// The code of the command in the header.
    pub open spec fn spec_code(self) -> u8 {
        match self {
            Opcode::UpdateMrTable => 0,
            Opcode::UpdatePageTable => 1,
            Opcode::QpManagement => 2,
            Opcode::SetNetworkParam => 3,
            Opcode::SetRawPacketReceiveMeta => 4,
            Opcode::UpdateErrorPsnRecoverPoint => 5,
        }
    }

    /// The command with code `code`, if there is one.
    pub open spec fn spec_from_code(code: u8) -> Option<Opcode> {
        if code == 0 {
            Some(Opcode::UpdateMrTable)
        } else if code == 1 {
            Some(Opcode::UpdatePageTable)
        } else if code == 2 {
            Some(Opcode::QpManagement)
        } else if code == 3 {
            Some(Opcode::SetNetworkParam)
        } else if code == 4 {
            Some(Opcode::SetRawPacketReceiveMeta)
        } else if code == 5 {
            Some(Opcode::UpdateErrorPsnRecoverPoint)
        } else {
            None
        }
    }

    pub fn from_code(code: u8) -> (res: Option<Opcode>)
        ensures
            res == Self::spec_from_code(code),
    {
        if code == 0 {
            Some(Opcode::UpdateMrTable)
        } else if code == 1 {
            Some(Opcode::UpdatePageTable)
        } else if code == 2 {
            Some(Opcode::QpManagement)
        } else if code == 3 {
            Some(Opcode::SetNetworkParam)
        } else if code == 4 {
            Some(Opcode::SetRawPacketReceiveMeta)
        } else if code == 5 {
            Some(Opcode::UpdateErrorPsnRecoverPoint)
        } else {
            None
        }
    }

    pub fn code(&self) -> (res: u8)
        ensures
            res == self.spec_code(),
            Self::spec_from_code(res) == Some(*self),
    {
        match self {
            Opcode::UpdateMrTable => 0,
            Opcode::UpdatePageTable => 1,
            Opcode::QpManagement => 2,
            Opcode::SetNetworkParam => 3,
            Opcode::SetRawPacketReceiveMeta => 4,
            Opcode::UpdateErrorPsnRecoverPoint => 5,
        }
    }
}

/// The first 8 bytes of a command request or response descriptor, as a
/// little-endian word.
#[derive(Debug, Clone, Copy, PartialEq, Eq, Structural)]
pub struct CommonHeader(pub u64);

impl CommonHeader {
    pub open spec fn spec_valid(self) -> bool {
        field(self.0, 0, 1) == 1
    }

    pub open spec fn spec_is_success(self) -> bool {
        field(self.0, 1, 1) == 1
    }

    pub open spec fn spec_opcode_code(self) -> u8 {
        field(self.0, 2, 6) as u8
    }

    pub open spec fn spec_extra_segment_cnt(self) -> u8 {
        field(self.0, 8, 4) as u8
    }

    pub open spec fn spec_user_data(self) -> u32 {
        field(self.0, 32, 32) as u32
    }

    /// The command of the header, or the error for an unknown code.
    pub open spec fn spec_opcode(self) -> Result<Opcode, ParseDescriptorError> {
        match Opcode::spec_from_code(self.spec_opcode_code()) {
            Some(op) => Ok(op),
            None => Err(ParseDescriptorError::CommandRequestUnknownOpcode(self.spec_opcode_code())),
        }
    }

    /// The valid header for `opcode` with the success flag and user data
    /// given; the extra segment count and the reserved bits are zero.
    pub open spec fn spec_new(opcode: Opcode, success: bool, user_data: u32) -> CommonHeader {
        let s: u64 = if success {
            1
        } else {
            0
        };
        CommonHeader(
            1u64 | (s << 1u64) | ((opcode.spec_code() as u64) << 2u64) | ((user_data as u64)
                << 32u64),
        )
    }

    /// The fields of the header that `spec_new` builds.
    pub proof fn lemma_new_fields(opcode: Opcode, success: bool, user_data: u32)
        ensures
            ({
                let h = Self::spec_new(opcode, success, user_data);
                &&& h.spec_valid()
                &&& h.spec_is_success() == success
                &&& h.spec_opcode_code() == opcode.spec_code()
                &&& h.spec_opcode() == Ok::<Opcode, ParseDescriptorError>(opcode)
                &&& h.spec_extra_segment_cnt() == 0
                &&& field(h.0, 8, 24) == 0
                &&& h.spec_user_data() == user_data
                &&& h.0 == 1 + (if success {
                    2int
                } else {
                    0
                }) + opcode.spec_code() * 4 + user_data * 0x1_0000_0000
            }),
    {
        lemma_low_masks();
        let s: u64 = if success {
            1
        } else {
            0
        };
        let code = opcode.spec_code() as u64;
        let u = user_data as u64;
        let w = Self::spec_new(opcode, success, user_data).0;
        assert({
            &&& (w >> 0u64) & 1 == 1
            &&& (w >> 1u64) & 1 == s
            &&& (w >> 2u64) & 0x3f == code
            &&& (w >> 8u64) & 0xf == 0
            &&& (w >> 8u64) & 0xff_ffff == 0
            &&& (w >> 32u64) & 0xffff_ffff == u
            &&& w == 1 + s * 2 + code * 4 + u * 0x1_0000_0000
        }) by (bit_vector)
            requires
                w == 1u64 | (s << 1u64) | (code << 2u64) | (u << 32u64),
                s <= 1,
                code < 64,
                u <= 0xffff_ffff,
        ;
    }

    /// A valid header for `opcode` with the success flag and user data given;
    /// the extra segment count and the reserved bits are zero.
    pub fn new(opcode: Opcode, success: bool, user_data: u32) -> (res: Self)
        ensures
            res == Self::spec_new(opcode, success, user_data),
            res.0 == 1 + (if success {
                2int
            } else {
                0
            }) + opcode.spec_code() * 4 + user_data * 0x1_0000_0000,
            res.spec_valid(),
            res.spec_is_success() == success,
            res.spec_opcode_code() == opcode.spec_code(),
            res.spec_opcode() == Ok::<Opcode, ParseDescriptorError>(opcode),
            res.spec_extra_segment_cnt() == 0,
            field(res.0, 8, 24) == 0,
            res.spec_user_data() == user_data,
    {
        let code = opcode.code() as u64;
        let s: u64 = if success {
            1
        } else {
            0
        };
        let u = user_data as u64;
        let w = 1u64 | (s << 1u64) | (code << 2u64) | (u << 32u64);
        proof {
            Self::lemma_new_fields(opcode, success, user_data);
        }
        CommonHeader(w)
    }

    pub fn valid(&self) -> (res: bool)
        ensures
            res == self.spec_valid(),
    {
        get_field(self.0, 0, 1) == 1
    }

    pub fn is_success(&self) -> (res: bool)
        ensures
            res == self.spec_is_success(),
    {
        get_field(self.0, 1, 1) == 1
    }

    pub fn need_signal_cplt(&self) -> (res: bool)
        ensures
            res == self.spec_is_success(),
    {
        get_field(self.0, 1, 1) == 1
    }

    pub fn opcode(&self) -> (res: Result<Opcode, ParseDescriptorError>)
        ensures
            res == self.spec_opcode(),
    {
        proof {
            lemma_low_masks();
        }
        let code = get_field(self.0, 2, 6) as u8;
        match Opcode::from_code(code) {
            Some(op) => Ok(op),
            None => Err(ParseDescriptorError::CommandRequestUnknownOpcode(code)),
        }
    }

    pub fn user_data(&self) -> (res: u32)
        ensures
            res == self.spec_user_data(),
    {
        proof {
            lemma_low_masks();
        }
        get_field(self.0, 32, 32) as u32
    }
}

/// The 24 bytes of a command request descriptor after its header, as three
/// little-endian words.
#[derive(Debug, Clone, Copy, PartialEq, Eq, Structural)]
pub struct Body(pub u64, pub u64, pub u64);

/// A command request descriptor whose command is not yet known.
#[derive(Debug, Clone, Copy, PartialEq, Eq, Structural)]
pub struct Unknown {
    pub header: CommonHeader,
    pub body: Body,
}

impl Unknown {
    /// The descriptor as four words.
    pub open spec fn raw(self) -> RawDescriptor {
        RawDescriptor { w0: self.header.0, w1: self.body.0, w2: self.body.1, w3: self.body.2 }
    }

    /// Bits `lo ..= hi` of the descriptor.
    pub open spec fn bits(self, lo: int, hi: int) -> u64 {
        self.raw().bits(lo, hi)
    }

    /// The descriptor whose bytes are `b`.
    pub open spec fn spec_from_bytes(b: Seq<u8>) -> Unknown {
        let r = RawDescriptor::spec_from_bytes(b);
        Unknown { header: CommonHeader(r.w0), body: Body(r.w1, r.w2, r.w3) }
    }

    /// Reads a descriptor from its 32 bytes.
    pub fn from_bytes(raw: &[u8]) -> (res: Self)
        requires
            raw@.len() == 32,
        ensures
            res.raw().spec_bytes() == raw@,
            res == Self::spec_from_bytes(raw@),
    {
        let r = RawDescriptor::from_bytes(raw);
        Unknown { header: CommonHeader(r.w0), body: Body(r.w1, r.w2, r.w3) }
    }

    /// The 32 bytes of the descriptor.
    pub fn to_bytes(&self) -> (res: Vec<u8>)
        ensures
            res@ == self.raw().spec_bytes(),
    {
        let r = RawDescriptor { w0: self.header.0, w1: self.body.0, w2: self.body.1, w3: self.body.2 };
        r.to_bytes()
    }
}

impl AsRef<Unknown> for Unknown {
    fn as_ref(&self) -> (res: &Unknown)
        ensures
            *res == *self,
    {
        self
    }
}

/// Access to the common header of a command request descriptor.
pub trait Header {
    spec fn spec_header(&self) -> CommonHeader;

    fn header(&self) -> (res: &CommonHeader)
        ensures
            *res == self.spec_header(),
    ;
}

impl Header for Unknown {
    open spec fn spec_header(&self) -> CommonHeader {
        self.header
    }

    fn header(&self) -> (res: &CommonHeader) {
        &self.header
    }
}

/// The layout of a command header word: bit 0 valid, bit 1 success, bits
/// 2..=7 opcode, bits 8..=11 extra segment count, bits 32..=63 user data.
pub proof fn lemma_command_header_layout(h: CommonHeader)
    ensures
        h.spec_valid() == (h.0 % 2 == 1),
        h.spec_is_success() == ((h.0 / 2) % 2 == 1),
        h.spec_opcode_code() == (h.0 / 4) % 0x40,
        h.spec_extra_segment_cnt() == (h.0 / 0x100) % 0x10,
        h.spec_user_data() == h.0 / 0x1_0000_0000,
{
    lemma_low_masks();
    let w = h.0;
    assert({
        &&& (w >> 0u64) & 1 == w % 2
        &&& (w >> 1u64) & 1 == (w / 2) % 2
        &&& (w >> 2u64) & 0x3f == (w / 4) % 0x40
        &&& (w >> 8u64) & 0xf == (w / 0x100) % 0x10
        &&& (w >> 32u64) & 0xffff_ffff == w / 0x1_0000_0000
    }) by (bit_vector);
}

} // verus!
