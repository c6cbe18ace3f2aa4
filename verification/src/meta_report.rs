//! Meta report descriptors: what the device reports to the driver about the
//! packets it received.

use vstd::prelude::*;

use crate::bits::{field, lemma_low_masks};
use crate::descriptor::RawDescriptor;
use crate::types::{MemoryRegionKey, MessageSequenceNumber, PacketSequenceNumber, QueuePairNumber, VirtualAddress};

verus! {

/// First word of a base transport header: bits 0..=2 transport type,
/// 3..=7 opcode, 8..=31 queue pair number.
#[derive(Debug, Clone, Copy, PartialEq, Eq, Structural)]
pub struct BTHPart0(pub u32);

/// Second word of a base transport header: bits 0..=23 packet sequence
/// number, 24 solicited, 25 ack request, 26..=27 pad count.
#[derive(Debug, Clone, Copy, PartialEq, Eq, Structural)]
pub struct BTHPart1(pub u32);

/// Base transport header of a received packet.
#[derive(Debug, Clone, Copy, PartialEq, Eq, Structural)]
pub struct BaseTransportHeader(pub BTHPart0, pub BTHPart1);

impl BaseTransportHeader {
    pub open spec fn spec_trans_type(self) -> u8 {
        field(self.0.0 as u64, 0, 3) as u8
    }

    pub open spec fn spec_opcode(self) -> u8 {
        field(self.0.0 as u64, 3, 5) as u8
    }

    pub open spec fn spec_queue_pair_number(self) -> u32 {
        field(self.0.0 as u64, 8, 24) as u32
    }

    pub open spec fn spec_packet_sequence_number(self) -> u32 {
        field(self.1.0 as u64, 0, 24) as u32
    }

    pub open spec fn spec_solicited(self) -> bool {
        field(self.1.0 as u64, 24, 1) == 1
    }

    pub open spec fn spec_is_ack_req(self) -> bool {
        field(self.1.0 as u64, 25, 1) == 1
    }

    pub open spec fn spec_pad_count(self) -> u8 {
        field(self.1.0 as u64, 26, 2) as u8
    }

    /// A header with the given fields; each must fit into its bits.
    pub fn new(
        trans_type: u8,
        opcode: u8,
        qpn: QueuePairNumber,
        psn: PacketSequenceNumber,
        solicited: bool,
        is_ack_req: bool,
        pad_cnt: u8,
    ) -> (res: Self)
        requires
            trans_type < 8,
            opcode < 32,
            qpn < 0x100_0000,
            psn < 0x100_0000,
            pad_cnt < 4,
        ensures
            res.spec_trans_type() == trans_type,
            res.spec_opcode() == opcode,
            res.spec_queue_pair_number() == qpn,
            res.spec_packet_sequence_number() == psn,
            res.spec_solicited() == solicited,
            res.spec_is_ack_req() == is_ack_req,
            res.spec_pad_count() == pad_cnt,
            field(res.1.0 as u64, 28, 4) == 0,
            res.0.0 == trans_type + opcode * 8 + qpn * 0x100,
            res.1.0 == psn + (if solicited {
                0x100_0000int
            } else {
                0
            }) + (if is_ack_req {
                0x200_0000int
            } else {
                0
            }) + pad_cnt * 0x400_0000,
    {
        let t = trans_type as u32;
        let o = opcode as u32;
        let p0 = t | (o << 3u32) | (qpn << 8u32);
        let s: u32 = if solicited {
            1
        } else {
            0
        };
        let a: u32 = if is_ack_req {
            1
        } else {
            0
        };
        let pc = pad_cnt as u32;
        let p1 = psn | (s << 24u32) | (a << 25u32) | (pc << 26u32);
        proof {
            lemma_low_masks();
            assert({
                &&& ((p0 as u64) >> 0u64) & 7 == t as u64
                &&& ((p0 as u64) >> 3u64) & 0x1f == o as u64
                &&& ((p0 as u64) >> 8u64) & 0xff_ffff == qpn as u64
                &&& p0 == t + o * 8 + qpn * 0x100
            }) by (bit_vector)
                requires
                    p0 == t | (o << 3u32) | (qpn << 8u32),
                    t < 8,
                    o < 32,
                    qpn < 0x100_0000,
            ;
            assert({
                &&& ((p1 as u64) >> 0u64) & 0xff_ffff == psn as u64
                &&& ((p1 as u64) >> 24u64) & 1 == s as u64
                &&& ((p1 as u64) >> 25u64) & 1 == a as u64
                &&& ((p1 as u64) >> 26u64) & 3 == pc as u64
                &&& ((p1 as u64) >> 28u64) & 0xf == 0
                &&& p1 == psn + s * 0x100_0000 + a * 0x200_0000 + pc * 0x400_0000
            }) by (bit_vector)
                requires
                    p1 == psn | (s << 24u32) | (a << 25u32) | (pc << 26u32),
                    psn < 0x100_0000,
                    s <= 1,
                    a <= 1,
                    pc < 4,
            ;
        }
        BaseTransportHeader(BTHPart0(p0), BTHPart1(p1))
    }
}

/// RDMA extended transport header: local virtual address, key and length.
#[derive(Debug, Clone, Copy, PartialEq, Eq, Structural)]
pub struct RdmaExtendedTransportHeader {
    /// The address, stored as eight bytes least significant first.
    pub local_virtual_addr: u64,
    pub local_key: MemoryRegionKey,
    pub len: u32,
}

impl RdmaExtendedTransportHeader {
    pub fn new(local_va: VirtualAddress, local_key: MemoryRegionKey, len: u32) -> (res: Self)
        ensures
            res.local_virtual_addr == local_va.0,
            res.local_key == local_key,
            res.len == len,
    {
        RdmaExtendedTransportHeader { local_virtual_addr: local_va.0, local_key, len }
    }
}

/// ACK extended transport header, kept as its eight raw bytes (a
/// little-endian word).
#[derive(Debug, Clone, Copy, PartialEq, Eq, Structural)]
pub struct AckExtendedTransportHeader(pub u64);

/// Bits 0..=23 expected packet sequence number, 24..=31 request status.
#[derive(Debug, Clone, Copy, PartialEq, Eq, Structural)]
pub struct PsnAndReqStatus(pub u32);

impl PsnAndReqStatus {
    pub open spec fn spec_expected_psn(self) -> u32 {
        field(self.0 as u64, 0, 24) as u32
    }

    pub open spec fn spec_req_status(self) -> u8 {
        field(self.0 as u64, 24, 8) as u8
    }

    /// The word with the given expected sequence number and status.
    pub fn new(expected_psn: u32, req_status: u8) -> (res: Self)
        requires
            expected_psn < 0x100_0000,
        ensures
            res.spec_expected_psn() == expected_psn,
            res.spec_req_status() == req_status,
            res.0 == expected_psn + req_status * 0x100_0000,
    {
        let r = req_status as u32;
        let w = expected_psn | (r << 24u32);
        proof {
            lemma_low_masks();
            assert(((w as u64) >> 0u64) & 0xff_ffff == expected_psn as u64 && ((w as u64) >> 24u64)
                & 0xff == r as u64 && w == expected_psn + r * 0x100_0000) by (bit_vector)
                requires
                    w == expected_psn | (r << 24u32),
                    expected_psn < 0x100_0000,
                    r < 256,
            ;
        }
        PsnAndReqStatus(w)
    }
}

/// Bits 0..=23 message sequence number, 31 whether the message can be
/// acknowledged automatically.
#[derive(Debug, Clone, Copy, PartialEq, Eq, Structural)]
pub struct MessageSequenceNumberAndCanAutoAck(pub u32);

impl MessageSequenceNumberAndCanAutoAck {
    pub open spec fn spec_message_sequence_number(self) -> u32 {
        field(self.0 as u64, 0, 24) as u32
    }

    pub open spec fn spec_can_auto_ack(self) -> bool {
        field(self.0 as u64, 31, 1) == 1
    }

    /// The word with the given message sequence number and flag.
    pub fn new(msn: u32, can_auto_ack: bool) -> (res: Self)
        requires
            msn < 0x100_0000,
        ensures
            res.spec_message_sequence_number() == msn,
            res.spec_can_auto_ack() == can_auto_ack,
            field(res.0 as u64, 24, 7) == 0,
            res.0 == msn + (if can_auto_ack {
                0x8000_0000int
            } else {
                0
            }),
    {
        let c: u32 = if can_auto_ack {
            1
        } else {
            0
        };
        let w = msn | (c << 31u32);
        proof {
            lemma_low_masks();
            assert(((w as u64) >> 0u64) & 0xff_ffff == msn as u64 && ((w as u64) >> 31u64) & 1
                == c as u64 && ((w as u64) >> 24u64) & 0x7f == 0 && w == msn + c * 0x8000_0000)
                by (bit_vector)
                requires
                    w == msn | (c << 31u32),
                    msn < 0x100_0000,
                    c <= 1,
            ;
        }
        MessageSequenceNumberAndCanAutoAck(w)
    }
}

/// Report of a packet with a base transport header and an ACK extended
/// transport header.
///
/// Bytes 0..4 status word, 4..12 base transport header, 12..20 ACK header,
/// 20..32 reserved.
#[derive(Debug, Clone, Copy, PartialEq, Eq, Structural)]
pub struct BthAeth {
    pub req_status: PsnAndReqStatus,
    pub bth: BaseTransportHeader,
    pub aeth: AckExtendedTransportHeader,
}

/// The 64-bit word whose low half is `lo` and high half is `hi`.
pub open spec fn join(lo: u32, hi: u32) -> u64 {
    (lo as u64) | ((hi as u64) << 32u64)
}

fn join_exec(lo: u32, hi: u32) -> (res: u64)
    ensures
        res == join(lo, hi),
        res == lo + hi * 0x1_0000_0000,
        field(res, 0, 32) == lo,
        field(res, 32, 32) == hi,
{
    let l = lo as u64;
    let h = hi as u64;
    let w = l | (h << 32u64);
    proof {
        lemma_low_masks();
        assert((w >> 0u64) & 0xffff_ffff == l && (w >> 32u64) & 0xffff_ffff == h && w == l + h
            * 0x1_0000_0000) by (bit_vector)
            requires
                w == l | (h << 32u64),
                l <= 0xffff_ffff,
                h <= 0xffff_ffff,
        ;
    }
    w
}

fn low_half(w: u64) -> (res: u32)
    ensures
        res == field(w, 0, 32),
{
    proof {
        lemma_low_masks();
    }
    crate::bits::get_field(w, 0, 32) as u32
}

fn high_half(w: u64) -> (res: u32)
    ensures
        res == field(w, 32, 32),
{
    proof {
        lemma_low_masks();
    }
    crate::bits::get_field(w, 32, 32) as u32
}

impl BthAeth {
    /// A report with the given status and headers; the expected sequence
    /// number is zero.
    pub fn new(req_status: u8, bth: BaseTransportHeader, aeth: AckExtendedTransportHeader) -> (res: Self)
        ensures
            res.req_status.spec_req_status() == req_status,
            res.req_status.spec_expected_psn() == 0,
            res.bth == bth,
            res.aeth == aeth,
    {
        BthAeth { req_status: PsnAndReqStatus::new(0, req_status), bth, aeth }
    }

    /// The report that a raw descriptor holds.
    pub open spec fn spec_from_raw(r: RawDescriptor) -> BthAeth {
        BthAeth {
            req_status: PsnAndReqStatus(field(r.w0, 0, 32) as u32),
            bth: BaseTransportHeader(
                BTHPart0(field(r.w0, 32, 32) as u32),
                BTHPart1(field(r.w1, 0, 32) as u32),
            ),
            aeth: AckExtendedTransportHeader(join(field(r.w1, 32, 32) as u32, field(r.w2, 0, 32) as u32)),
        }
    }

    /// Reads a report from its 32 bytes.
    pub fn from_ne_bytes(bytes: &[u8]) -> (res: Self)
        requires
            bytes@.len() == 32,
        ensures
            res == Self::spec_from_raw(RawDescriptor::spec_from_bytes(bytes@)),
            ({
                let r = RawDescriptor::spec_from_bytes(bytes@);
                &&& res.req_status.0 == r.w0 % 0x1_0000_0000
                &&& res.bth.0.0 == r.w0 / 0x1_0000_0000
                &&& res.bth.1.0 == r.w1 % 0x1_0000_0000
                &&& res.aeth.0 == r.w1 / 0x1_0000_0000 + (r.w2 % 0x1_0000_0000) * 0x1_0000_0000
            }),
    {
        let r = RawDescriptor::from_bytes(bytes);
        proof {
            crate::bits::lemma_fields_arith(r.w0);
            crate::bits::lemma_fields_arith(r.w1);
            crate::bits::lemma_fields_arith(r.w2);
        }
        let aeth = join_exec(high_half(r.w1), low_half(r.w2));
        BthAeth {
            req_status: PsnAndReqStatus(low_half(r.w0)),
            bth: BaseTransportHeader(BTHPart0(high_half(r.w0)), BTHPart1(low_half(r.w1))),
            aeth: AckExtendedTransportHeader(aeth),
        }
    }

    /// The descriptor of this report, with the reserved bytes zero.
    pub fn to_raw(&self) -> (res: RawDescriptor)
        ensures
            Self::spec_from_raw(res) == *self,
            field(res.w2, 32, 32) == 0,
            res.w3 == 0,
            res.w0 % 0x1_0000_0000 == self.req_status.0,
            res.w0 / 0x1_0000_0000 == self.bth.0.0,
            res.w1 % 0x1_0000_0000 == self.bth.1.0,
            res.w1 / 0x1_0000_0000 == self.aeth.0 % 0x1_0000_0000,
            res.w2 % 0x1_0000_0000 == self.aeth.0 / 0x1_0000_0000,
            res.w2 / 0x1_0000_0000 == 0,
    {
        let a_lo = low_half(self.aeth.0);
        let a_hi = high_half(self.aeth.0);
        let w0 = join_exec(self.req_status.0, self.bth.0.0);
        let w1 = join_exec(self.bth.1.0, a_lo);
        let w2 = join_exec(a_hi, 0);
        proof {
            let a = self.aeth.0;
            assert(((a >> 0u64) & 0xffff_ffff) | (((a >> 32u64) & 0xffff_ffff) << 32u64) == a)
                by (bit_vector);
            lemma_low_masks();
        }
        proof {
            crate::bits::lemma_fields_arith(w0);
            crate::bits::lemma_fields_arith(w1);
            crate::bits::lemma_fields_arith(w2);
            crate::bits::lemma_fields_arith(self.aeth.0);
        }
        RawDescriptor { w0, w1, w2, w3: 0 }
    }
}

/// Report of a packet with a base transport header and an RDMA extended
/// transport header.
///
/// Bytes 0..4 status word, 4..12 base transport header, 12..20 local
/// address, 20..24 key, 24..28 length, 28..32 message sequence number word.
#[derive(Debug, Clone, Copy, PartialEq, Eq, Structural)]
pub struct BthReth {
    pub psn_and_req_status: PsnAndReqStatus,
    pub bth: BaseTransportHeader,
    pub reth: RdmaExtendedTransportHeader,
    pub msn_and_can_auto_ack: MessageSequenceNumberAndCanAutoAck,
}

impl BthReth {
    /// A report with the given expected sequence number, status, headers,
    /// message sequence number and auto-ack flag.
    pub fn new(
        expect_psn: PacketSequenceNumber,
        req_status: u8,
        bth: BaseTransportHeader,
        reth: RdmaExtendedTransportHeader,
        msn: MessageSequenceNumber,
        can_auto_ack: bool,
    ) -> (res: Self)
        requires
            expect_psn < 0x100_0000,
        ensures
            res.psn_and_req_status.spec_expected_psn() == expect_psn,
            res.psn_and_req_status.spec_req_status() == req_status,
            res.bth == bth,
            res.reth == reth,
            res.msn_and_can_auto_ack.spec_message_sequence_number() == msn,
            res.msn_and_can_auto_ack.spec_can_auto_ack() == can_auto_ack,
            field(res.msn_and_can_auto_ack.0 as u64, 24, 7) == 0,
    {
        BthReth {
            psn_and_req_status: PsnAndReqStatus::new(expect_psn, req_status),
            bth,
            reth,
            msn_and_can_auto_ack: MessageSequenceNumberAndCanAutoAck::new(msn as u32, can_auto_ack),
        }
    }

    /// The report that a raw descriptor holds.
    pub open spec fn spec_from_raw(r: RawDescriptor) -> BthReth {
        BthReth {
            psn_and_req_status: PsnAndReqStatus(field(r.w0, 0, 32) as u32),
            bth: BaseTransportHeader(
                BTHPart0(field(r.w0, 32, 32) as u32),
                BTHPart1(field(r.w1, 0, 32) as u32),
            ),
            reth: RdmaExtendedTransportHeader {
                local_virtual_addr: join(field(r.w1, 32, 32) as u32, field(r.w2, 0, 32) as u32),
                local_key: MemoryRegionKey(field(r.w2, 32, 32) as u32),
                len: field(r.w3, 0, 32) as u32,
            },
            msn_and_can_auto_ack: MessageSequenceNumberAndCanAutoAck(field(r.w3, 32, 32) as u32),
        }
    }

    /// The descriptor of this report.
    pub fn to_raw(&self) -> (res: RawDescriptor)
        ensures
            Self::spec_from_raw(res) == *self,
            res.w0 % 0x1_0000_0000 == self.psn_and_req_status.0,
            res.w0 / 0x1_0000_0000 == self.bth.0.0,
            res.w1 % 0x1_0000_0000 == self.bth.1.0,
            res.w1 / 0x1_0000_0000 == self.reth.local_virtual_addr % 0x1_0000_0000,
            res.w2 % 0x1_0000_0000 == self.reth.local_virtual_addr / 0x1_0000_0000,
            res.w2 / 0x1_0000_0000 == self.reth.local_key.0,
            res.w3 % 0x1_0000_0000 == self.reth.len,
            res.w3 / 0x1_0000_0000 == self.msn_and_can_auto_ack.0,
    {
        let va = self.reth.local_virtual_addr;
        let w0 = join_exec(self.psn_and_req_status.0, self.bth.0.0);
        let w1 = join_exec(self.bth.1.0, low_half(va));
        let w2 = join_exec(high_half(va), self.reth.local_key.0);
        let w3 = join_exec(self.reth.len, self.msn_and_can_auto_ack.0);
        proof {
            assert(((va >> 0u64) & 0xffff_ffff) | (((va >> 32u64) & 0xffff_ffff) << 32u64) == va)
                by (bit_vector);
            lemma_low_masks();
        }
        proof {
            crate::bits::lemma_fields_arith(w0);
            crate::bits::lemma_fields_arith(w1);
            crate::bits::lemma_fields_arith(w2);
            crate::bits::lemma_fields_arith(w3);
            crate::bits::lemma_fields_arith(va);
        }
        RawDescriptor { w0, w1, w2, w3 }
    }
}

} // verus!
