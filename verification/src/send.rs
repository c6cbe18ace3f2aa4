//! Send queue descriptors: a send request is posted as a run of 32-byte
//! segments (seg0, seg1, then the scatter/gather list).

use vstd::prelude::*;

use crate::bits::{field, get_field, lemma_low_masks};
use crate::descriptor::RawDescriptor;
use crate::errors::ParseDescriptorError;
use crate::types::{
    mac_address, new_mac_address, DmaAddress, MemoryRegionKey, Pmtu, QueuePairType, SendFlag,
};

verus! {

/// The operation of a send request.
#[derive(Debug, Clone, Copy, PartialEq, Eq, Structural)]
pub enum Opcode {
    Write,
    WriteWithImm,
    Read,
    ReadResp,
}

impl Opcode {
    /// The code of the operation in the header (`ibv_wr_opcode`).
    pub open spec fn spec_code(self) -> u8 {
        match self {
            Opcode::Write => 0,
            Opcode::WriteWithImm => 1,
            Opcode::Read => 4,
            Opcode::ReadResp => 12,
        }
    }

    /// The operation with code `code`, if there is one.
    pub open spec fn spec_from_code(code: u8) -> Option<Opcode> {
        if code == 0 {
            Some(Opcode::Write)
        } else if code == 1 {
            Some(Opcode::WriteWithImm)
        } else if code == 4 {
            Some(Opcode::Read)
        } else if code == 12 {
            Some(Opcode::ReadResp)
        } else {
            None
        }
    }

    pub fn from_code(code: u8) -> (res: Option<Opcode>)
        ensures
            res == Self::spec_from_code(code),
    {
        if code == 0 {
            Some(Opcode::Write)
        } else if code == 1 {
            Some(Opcode::WriteWithImm)
        } else if code == 4 {
            Some(Opcode::Read)
        } else if code == 12 {
            Some(Opcode::ReadResp)
        } else {
            None
        }
    }
}

/// The first word of a send request: bit 0 valid, bit 1 success / need
/// signal completion, bit 2 first, bit 3 last, bits 4..=7 opcode,
/// bits 8..=11 extra segment count, bits 32..=63 total length.
#[derive(Debug, Clone, Copy, PartialEq, Eq, Structural)]
pub struct Header(pub u64);

impl Header {
    pub open spec fn spec_valid(self) -> bool {
        field(self.0, 0, 1) == 1
    }

    pub open spec fn spec_is_success(self) -> bool {
        field(self.0, 1, 1) == 1
    }

    pub open spec fn spec_first(self) -> bool {
        field(self.0, 2, 1) == 1
    }

    pub open spec fn spec_last(self) -> bool {
        field(self.0, 3, 1) == 1
    }

    pub open spec fn spec_opcode_code(self) -> u8 {
        field(self.0, 4, 4) as u8
    }

    pub open spec fn spec_extra_segment_cnt(self) -> u8 {
        field(self.0, 8, 4) as u8
    }

    pub open spec fn spec_total_len(self) -> u32 {
        field(self.0, 32, 32) as u32
    }

    pub fn valid(&self) -> (res: bool)
        ensures
            res == self.spec_valid(),
    {
        get_field(self.0, 0, 1) == 1
    }

    pub fn is_success(&self) -> (res: bool)
        ensures
            res == self.spec_is_success(),
    {
        get_field(self.0, 1, 1) == 1
    }

    pub fn need_signal_cplt(&self) -> (res: bool)
        ensures
            res == self.spec_is_success(),
    {
        get_field(self.0, 1, 1) == 1
    }

    pub fn first(&self) -> (res: bool)
        ensures
            res == self.spec_first(),
    {
        get_field(self.0, 2, 1) == 1
    }

    pub fn last(&self) -> (res: bool)
        ensures
            res == self.spec_last(),
    {
        get_field(self.0, 3, 1) == 1
    }

    pub fn extra_segment_cnt(&self) -> (res: u8)
        ensures
            res == self.spec_extra_segment_cnt(),
    {
        proof {
            lemma_low_masks();
        }
        get_field(self.0, 8, 4) as u8
    }

    pub fn total_len(&self) -> (res: u32)
        ensures
            res == self.spec_total_len(),
    {
        proof {
            lemma_low_masks();
        }
        get_field(self.0, 32, 32) as u32
    }

    /// The operation of the request, or the error for an unknown code.
    pub fn opcode(&self) -> (res: Result<Opcode, ParseDescriptorError>)
        ensures
            match Opcode::spec_from_code(self.spec_opcode_code()) {
                Some(op) => res == Ok::<Opcode, ParseDescriptorError>(op),
                None => res == Err::<Opcode, ParseDescriptorError>(
                    ParseDescriptorError::SendUnknownOpcode(self.spec_opcode_code()),
                ),
            },
    {
        proof {
            lemma_low_masks();
        }
        let code = get_field(self.0, 4, 4) as u8;
        match Opcode::from_code(code) {
            Some(op) => Ok(op),
            None => Err(ParseDescriptorError::SendUnknownOpcode(code)),
        }
    }
}

/// Bits 0..=2 packet MTU, 8..=12 send flags, 16..=19 queue pair type,
/// 24..=26 scatter/gather element count.
#[derive(Debug, Clone, Copy, PartialEq, Eq, Structural)]
pub struct PMtuAndSendFlagAndQpTypeAndSgeCount(pub u32);

impl PMtuAndSendFlagAndQpTypeAndSgeCount {
    pub open spec fn spec_packet_mtu_kind(self) -> u8 {
        field(self.0 as u64, 0, 3) as u8
    }

    pub open spec fn spec_send_flag(self) -> u8 {
        field(self.0 as u64, 8, 5) as u8
    }

    pub open spec fn spec_queue_pair_type(self) -> u8 {
        field(self.0 as u64, 16, 4) as u8
    }

    pub open spec fn spec_sge_count(self) -> u8 {
        field(self.0 as u64, 24, 3) as u8
    }

    pub fn packet_mtu_kind(&self) -> (res: u8)
        ensures
            res == self.spec_packet_mtu_kind(),
    {
        proof {
            lemma_low_masks();
        }
        get_field(self.0 as u64, 0, 3) as u8
    }

    pub fn send_flag(&self) -> (res: u8)
        ensures
            res == self.spec_send_flag(),
    {
        proof {
            lemma_low_masks();
        }
        get_field(self.0 as u64, 8, 5) as u8
    }

    pub fn queue_pair_type(&self) -> (res: u8)
        ensures
            res == self.spec_queue_pair_type(),
    {
        proof {
            lemma_low_masks();
        }
        get_field(self.0 as u64, 16, 4) as u8
    }

    pub fn sge_count(&self) -> (res: u8)
        ensures
            res == self.spec_sge_count(),
    {
        proof {
            lemma_low_masks();
        }
        get_field(self.0 as u64, 24, 3) as u8
    }
}

/// Bits 0..=23: a packet sequence number.
#[derive(Debug, Clone, Copy, PartialEq, Eq, Structural)]
pub struct PacketSequenceNumber(pub u32);

impl PacketSequenceNumber {
    pub fn packet_sequence_number(&self) -> (res: u32)
        ensures
            res == field(self.0 as u64, 0, 24),
    {
        proof {
            lemma_low_masks();
        }
        get_field(self.0 as u64, 0, 24) as u32
    }
}

/// Bits 0..=23: a queue pair number.
#[derive(Debug, Clone, Copy, PartialEq, Eq, Structural)]
pub struct QueuePairNumber(pub u32);

impl QueuePairNumber {
    pub fn queue_pair_number(&self) -> (res: u32)
        ensures
            res == field(self.0 as u64, 0, 24),
    {
        proof {
            lemma_low_masks();
        }
        get_field(self.0 as u64, 0, 24) as u32
    }
}

/// A local buffer: 4 bytes key, 4 bytes length, 8 bytes address.
#[derive(Debug, Clone, Copy, PartialEq, Eq, Structural)]
pub struct ScatterGatherElement {
    pub local_key: MemoryRegionKey,
    pub len: u32,
    pub local_addr: DmaAddress,
}

impl ScatterGatherElement {
    /// The element whose first 8 bytes are `w` and whose address is `addr`.
    pub open spec fn spec_from_words(w: u64, addr: u64) -> ScatterGatherElement {
        ScatterGatherElement {
            local_key: MemoryRegionKey(field(w, 0, 32) as u32),
            len: field(w, 32, 32) as u32,
            local_addr: DmaAddress(addr),
        }
    }

    /// The element with key, length and address zero.
    pub open spec fn spec_is_empty(self) -> bool {
        self.local_key.0 == 0 && self.len == 0 && self.local_addr.0 == 0
    }

    fn from_words(w: u64, addr: u64) -> (res: Self)
        ensures
            res == Self::spec_from_words(w, addr),
    {
        proof {
            lemma_low_masks();
        }
        ScatterGatherElement {
            local_key: MemoryRegionKey(get_field(w, 0, 32) as u32),
            len: get_field(w, 32, 32) as u32,
            local_addr: DmaAddress(addr),
        }
    }

    fn key_len_word(&self) -> (res: u64)
        ensures
            Self::spec_from_words(res, self.local_addr.0) == *self,
    {
        let k = self.local_key.0 as u64;
        let l = self.len as u64;
        let w = k | (l << 32u64);
        proof {
            lemma_low_masks();
            assert((w >> 0u64) & 0xffff_ffff == k && (w >> 32u64) & 0xffff_ffff == l)
                by (bit_vector)
                requires
                    w == k | (l << 32u64),
                    k <= 0xffff_ffff,
                    l <= 0xffff_ffff,
            ;
        }
        w
    }
}

/// The first segment of a send request.
///
/// Bytes 0..8 header, 8..16 remote address, 16..20 remote key, 20..24
/// destination IPv4 address (least significant octet first), 24..26
/// partition key, 26..32 reserved.
#[derive(Debug, Clone, Copy, PartialEq, Eq, Structural)]
pub struct Seg0 {
    pub header: Header,
    pub remote_addr: DmaAddress,
    pub remote_key: MemoryRegionKey,
    /// The destination address as the number whose big-endian bytes are its
    /// octets.
    pub dest_ip: u32,
    pub partition_key: u16,
}

impl Seg0 {
    /// The seg0 that a raw descriptor holds.
    pub open spec fn spec_from_raw(r: RawDescriptor) -> Seg0 {
        Seg0 {
            header: Header(r.w0),
            remote_addr: DmaAddress(r.w1),
            remote_key: MemoryRegionKey(r.bits(128, 159) as u32),
            dest_ip: r.bits(160, 191) as u32,
            partition_key: r.bits(192, 207) as u16,
        }
    }

    /// The destination IPv4 address, as the number whose big-endian bytes are
    /// its octets.
    pub fn dest_ip(&self) -> (res: u32)
        ensures
            res == self.dest_ip,
    {
        self.dest_ip
    }

    pub fn from_raw(r: &RawDescriptor) -> (res: Self)
        ensures
            res == Self::spec_from_raw(*r),
    {
        proof {
            lemma_low_masks();
        }
        Seg0 {
            header: Header(r.w0),
            remote_addr: DmaAddress(r.w1),
            remote_key: MemoryRegionKey(get_field(r.w2, 0, 32) as u32),
            dest_ip: get_field(r.w2, 32, 32) as u32,
            partition_key: get_field(r.w3, 0, 16) as u16,
        }
    }

    /// Reads a seg0 from its 32 bytes.
    pub fn from_bytes(raw: &[u8]) -> (res: Self)
        requires
            raw@.len() == 32,
        ensures
            res == Self::spec_from_raw(RawDescriptor::spec_from_bytes(raw@)),
    {
        Self::from_raw(&RawDescriptor::from_bytes(raw))
    }

    /// The descriptor of this seg0, with the reserved bytes zero.
    pub fn to_raw(&self) -> (res: RawDescriptor)
        ensures
            Self::spec_from_raw(res) == *self,
            res.bits(208, 255) == 0,
    {
        let k = self.remote_key.0 as u64;
        let ip = self.dest_ip as u64;
        let w2 = k | (ip << 32u64);
        let w3 = self.partition_key as u64;
        proof {
            lemma_low_masks();
            assert((w2 >> 0u64) & 0xffff_ffff == k && (w2 >> 32u64) & 0xffff_ffff == ip)
                by (bit_vector)
                requires
                    w2 == k | (ip << 32u64),
                    k <= 0xffff_ffff,
                    ip <= 0xffff_ffff,
            ;
            assert((w3 >> 0u64) & 0xffff == w3 && (w3 >> 16u64) & 0xffff_ffff_ffff == 0)
                by (bit_vector)
                requires
                    w3 <= 0xffff,
            ;
        }
        RawDescriptor { w0: self.header.0, w1: self.remote_addr.0, w2, w3 }
    }
}

/// The second segment of a send request.
///
/// Bytes 0..4 MTU / send flags / queue pair type / sge count, 4..8 packet
/// sequence number, 8..14 MAC address (first byte first), 14..16 reserved, 16..20 destination
/// queue pair number, 20..24 immediate data, 24..32 reserved.
#[derive(Debug, Clone, Copy)]
pub struct Seg1 {
    pub pmtu_send_flag_qp_type_sge_cnt: PMtuAndSendFlagAndQpTypeAndSgeCount,
    pub psn_inner: PacketSequenceNumber,
    pub mac: eui48::MacAddress,
    pub dest_qpn_inner: QueuePairNumber,
    pub immediate: u32,
}

impl Seg1 {
    /// The six MAC address bytes of a raw seg1, first byte first.
    pub open spec fn spec_mac_bytes(r: RawDescriptor) -> Seq<u8> {
        Seq::new(6, |k: int| r.bits(64 + 8 * k, 71 + 8 * k) as u8)
    }

    /// Whether the seg1 that a raw descriptor holds is `s`.
    pub open spec fn spec_holds(r: RawDescriptor, s: Seg1) -> bool {
        &&& s.pmtu_send_flag_qp_type_sge_cnt.0 == r.bits(0, 31)
        &&& s.psn_inner.0 == r.bits(32, 63)
        &&& s.mac == mac_address(Self::spec_mac_bytes(r))
        &&& s.dest_qpn_inner.0 == r.bits(128, 159)
        &&& s.immediate == r.bits(160, 191)
    }

    /// The seg1 that a raw descriptor holds.
    pub open spec fn spec_from_raw(r: RawDescriptor) -> Seg1 {
        Seg1 {
            pmtu_send_flag_qp_type_sge_cnt: PMtuAndSendFlagAndQpTypeAndSgeCount(
                r.bits(0, 31) as u32,
            ),
            psn_inner: PacketSequenceNumber(r.bits(32, 63) as u32),
            mac: mac_address(Self::spec_mac_bytes(r)),
            dest_qpn_inner: QueuePairNumber(r.bits(128, 159) as u32),
            immediate: r.bits(160, 191) as u32,
        }
    }

    pub fn from_raw(r: &RawDescriptor) -> (res: Self)
        ensures
            Self::spec_holds(*r, res),
            res == Self::spec_from_raw(*r),
    {
        proof {
            lemma_low_masks();
        }
        let w1 = r.w1;
        let bytes = [
            get_field(w1, 0, 8) as u8,
            get_field(w1, 8, 8) as u8,
            get_field(w1, 16, 8) as u8,
            get_field(w1, 24, 8) as u8,
            get_field(w1, 32, 8) as u8,
            get_field(w1, 40, 8) as u8,
        ];
        proof {
            assert forall|k: int| 0 <= k < 6 implies bytes@[k] == Self::spec_mac_bytes(*r)[k] by {
                assert((64 + 8 * k) / 64 == 1);
                assert((64 + 8 * k) % 64 == 8 * k);
            }
            assert(bytes@ =~= Self::spec_mac_bytes(*r));
        }
        Seg1 {
            pmtu_send_flag_qp_type_sge_cnt: PMtuAndSendFlagAndQpTypeAndSgeCount(
                get_field(r.w0, 0, 32) as u32,
            ),
            psn_inner: PacketSequenceNumber(get_field(r.w0, 32, 32) as u32),
            mac: new_mac_address(bytes),
            dest_qpn_inner: QueuePairNumber(get_field(r.w2, 0, 32) as u32),
            immediate: get_field(r.w2, 32, 32) as u32,
        }
    }

    /// Reads a seg1 from its 32 bytes.
    pub fn from_bytes(raw: &[u8]) -> (res: Self)
        requires
            raw@.len() == 32,
        ensures
            Self::spec_holds(RawDescriptor::spec_from_bytes(raw@), res),
            res == Self::spec_from_raw(RawDescriptor::spec_from_bytes(raw@)),
    {
        Self::from_raw(&RawDescriptor::from_bytes(raw))
    }

    /// The packet MTU, or the error for an unknown code.
    pub fn path_mtu_kind(&self) -> (res: Result<Pmtu, ParseDescriptorError>)
        ensures
            match Pmtu::spec_from_code(self.pmtu_send_flag_qp_type_sge_cnt.spec_packet_mtu_kind()) {
                Some(m) => res == Ok::<Pmtu, ParseDescriptorError>(m),
                None => res == Err::<Pmtu, ParseDescriptorError>(
                    ParseDescriptorError::InvalidPacketMTUKind(
                        self.pmtu_send_flag_qp_type_sge_cnt.spec_packet_mtu_kind(),
                    ),
                ),
            },
    {
        let code = self.pmtu_send_flag_qp_type_sge_cnt.packet_mtu_kind();
        match Pmtu::from_code(code) {
            Some(m) => Ok(m),
            None => Err(ParseDescriptorError::InvalidPacketMTUKind(code)),
        }
    }

    pub fn send_flag(&self) -> (res: SendFlag)
        ensures
            res.0 == self.pmtu_send_flag_qp_type_sge_cnt.spec_send_flag(),
    {
        SendFlag(self.pmtu_send_flag_qp_type_sge_cnt.send_flag())
    }

    /// The queue pair type, or the error for an unknown code.
    pub fn queue_pair_type(&self) -> (res: Result<QueuePairType, ParseDescriptorError>)
        ensures
            match QueuePairType::spec_from_code(
                self.pmtu_send_flag_qp_type_sge_cnt.spec_queue_pair_type(),
            ) {
                Some(t) => res == Ok::<QueuePairType, ParseDescriptorError>(t),
                None => res == Err::<QueuePairType, ParseDescriptorError>(
                    ParseDescriptorError::InvalidQueuePairType(
                        self.pmtu_send_flag_qp_type_sge_cnt.spec_queue_pair_type(),
                    ),
                ),
            },
    {
        let code = self.pmtu_send_flag_qp_type_sge_cnt.queue_pair_type();
        match QueuePairType::from_code(code) {
            Some(t) => Ok(t),
            None => Err(ParseDescriptorError::InvalidQueuePairType(code)),
        }
    }

    pub fn sge_count(&self) -> (res: u8)
        ensures
            res == self.pmtu_send_flag_qp_type_sge_cnt.spec_sge_count(),
    {
        self.pmtu_send_flag_qp_type_sge_cnt.sge_count()
    }

    pub fn packet_sequence_number(&self) -> (res: u32)
        ensures
            res == field(self.psn_inner.0 as u64, 0, 24),
    {
        self.psn_inner.packet_sequence_number()
    }

    pub fn dest_queue_pair_number(&self) -> (res: u32)
        ensures
            res == field(self.dest_qpn_inner.0 as u64, 0, 24),
    {
        self.dest_qpn_inner.queue_pair_number()
    }
}

/// The scatter/gather segment of a send request: two elements, the second
/// one first.
#[derive(Debug, Clone, Copy, PartialEq, Eq, Structural)]
pub struct VariableLengthSge {
    pub sge2: ScatterGatherElement,
    pub sge1: ScatterGatherElement,
}

impl VariableLengthSge {
    /// The segment that a raw descriptor holds.
    pub open spec fn spec_from_raw(r: RawDescriptor) -> VariableLengthSge {
        VariableLengthSge {
            sge2: ScatterGatherElement::spec_from_words(r.w0, r.w1),
            sge1: ScatterGatherElement::spec_from_words(r.w2, r.w3),
        }
    }

    pub fn from_raw(r: &RawDescriptor) -> (res: Self)
        ensures
            res == Self::spec_from_raw(*r),
    {
        VariableLengthSge {
            sge2: ScatterGatherElement::from_words(r.w0, r.w1),
            sge1: ScatterGatherElement::from_words(r.w2, r.w3),
        }
    }

    /// Reads the segment from its 32 bytes.
    pub fn from_bytes(raw: &[u8]) -> (res: Self)
        requires
            raw@.len() == 32,
        ensures
            res == Self::spec_from_raw(RawDescriptor::spec_from_bytes(raw@)),
    {
        Self::from_raw(&RawDescriptor::from_bytes(raw))
    }

    /// The descriptor of this segment.
    pub fn to_raw(&self) -> (res: RawDescriptor)
        ensures
            Self::spec_from_raw(res) == *self,
    {
        RawDescriptor {
            w0: self.sge2.key_len_word(),
            w1: self.sge2.local_addr.0,
            w2: self.sge1.key_len_word(),
            w3: self.sge1.local_addr.0,
        }
    }
}

/// The layout of a send header word: bit 0 valid, bit 1 success, bit 2
/// first, bit 3 last, bits 4..=7 opcode, bits 8..=11 extra segment count,
/// bits 32..=63 total length.
pub proof fn lemma_send_header_layout(h: Header)
    ensures
        h.spec_valid() == (h.0 % 2 == 1),
        h.spec_is_success() == ((h.0 / 2) % 2 == 1),
        h.spec_first() == ((h.0 / 4) % 2 == 1),
        h.spec_last() == ((h.0 / 8) % 2 == 1),
        h.spec_opcode_code() == (h.0 / 0x10) % 0x10,
        h.spec_extra_segment_cnt() == (h.0 / 0x100) % 0x10,
        h.spec_total_len() == h.0 / 0x1_0000_0000,
{
    crate::bits::lemma_low_masks();
    let w = h.0;
    assert({
        &&& (w >> 0u64) & 1 == w % 2
        &&& (w >> 1u64) & 1 == (w / 2) % 2
        &&& (w >> 2u64) & 1 == (w / 4) % 2
        &&& (w >> 3u64) & 1 == (w / 8) % 2
        &&& (w >> 4u64) & 0xf == (w / 0x10) % 0x10
        &&& (w >> 8u64) & 0xf == (w / 0x100) % 0x10
        &&& (w >> 32u64) & 0xffff_ffff == w / 0x1_0000_0000
    }) by (bit_vector);
}

/// The layout of seg1's first word: bits 0..=2 packet MTU, 8..=12 send
/// flags, 16..=19 queue pair type, 24..=26 scatter/gather element count.
pub proof fn lemma_seg1_flags_layout(f: PMtuAndSendFlagAndQpTypeAndSgeCount)
    ensures
        f.spec_packet_mtu_kind() == f.0 % 8,
        f.spec_send_flag() == (f.0 / 0x100) % 0x20,
        f.spec_queue_pair_type() == (f.0 / 0x1_0000) % 0x10,
        f.spec_sge_count() == (f.0 / 0x100_0000) % 8,
{
    crate::bits::lemma_fields_arith(f.0 as u64);
}

} // verus!
