//! RDMA write requests and the packets that carry them.

use vstd::prelude::*;

use crate::operations::common::Common;
use crate::segments::{first_segment_len, generate_segments_from_request, spec_segments, Segment};
use crate::send::{ScatterGatherElement, Seg0, Seg1, VariableLengthSge};
use crate::types::{DmaAddress, MemoryRegionKey, Pmtu, QueuePairType, VirtualAddress};

verus! {

/// An RDMA write request.
#[derive(Debug, Clone, Copy)]
pub struct Write {
    pub common: Common,
    pub last: bool,
    pub first: bool,
    pub sge: ScatterGatherElement,
}

/// Assembles a write request from its segments.
#[derive(Debug, Clone, Copy)]
pub struct Builder(pub Write);

impl Builder {
    /// Initialize the builder from seg0.
    pub fn from_seg0(seg0: Seg0) -> (res: Self)
        ensures
            res.0.common == Common::spec_from_seg0(seg0),
            res.0.first == seg0.header.spec_first(),
            res.0.last == seg0.header.spec_last(),
            res.0.sge.spec_is_empty(),
    {
        let first = seg0.header.first();
        let last = seg0.header.last();
        Builder(
            Write {
                common: Common::from_seg0(&seg0),
                last,
                first,
                sge: ScatterGatherElement {
                    local_key: MemoryRegionKey(0),
                    len: 0,
                    local_addr: DmaAddress(0),
                },
            },
        )
    }

    /// Read seg1 into the request; seg0 has been read.
    pub fn with_seg1(self, seg1: Seg1) -> (res: Self)
        requires
            Common::seg1_codes_valid(seg1),
        ensures
            res.0.common == self.0.common.spec_with_seg1(seg1),
            res.0.first == self.0.first,
            res.0.last == self.0.last,
            res.0.sge == self.0.sge,
    {
        let mut b = self;
        b.0.common.with_seg1(&seg1);
        b
    }

    /// Read the scatter/gather segment into the request and finish it; only
    /// one element is supported, so the second one must be empty.
    pub fn with_sge(self, sge: VariableLengthSge) -> (res: Write)
        requires
            sge.sge2.spec_is_empty(),
        ensures
            res.common == self.0.common,
            res.first == self.0.first,
            res.last == self.0.last,
            res.sge == sge.sge1,
    {
        let mut w = self.0;
        w.sge = sge.sge1;
        w
    }
}

/// The packet kinds of an RDMA write.
#[derive(Debug, Clone, Copy, PartialEq, Eq, Structural)]
pub enum WriteOpcode {
    RdmaWriteFirst,
    RdmaWriteLast,
}

/// The IPv4 address the device sends from, 192.168.0.2.
pub const SOURCE_IP: u32 = 0xC0A8_0002;

/// One packet of an RDMA write: where its payload comes from and what its
/// headers say.
#[derive(Debug, Clone, Copy, PartialEq, Eq, Structural)]
pub struct WritePacket {
    pub opcode: WriteOpcode,
    /// Local address and length of the payload.
    pub local_va: VirtualAddress,
    pub len: u32,
    pub local_key: MemoryRegionKey,
    /// RDMA extended transport header: remote address, key and length.
    pub remote_va: u64,
    pub rkey: u32,
    pub reth_len: u32,
    pub psn: u32,
    pub ack_req: bool,
    pub solicited: bool,
    pub dest_qpn: u32,
    /// The partition key field carries the message sequence number.
    pub pkey: u16,
    pub qp_type: QueuePairType,
    pub src_ip: u32,
    pub dest_ip: u32,
}

impl Write {
    /// The path MTU of the request in bytes.
    pub open spec fn spec_mtu(self) -> int {
        self.common.packet_mtu_kind.spec_bytes() as int
    }

    /// The segments of the local buffer.
    pub open spec fn spec_segments(self) -> Seq<(int, int)> {
        spec_segments(self.sge.local_addr.0 as int, self.sge.len as int, self.spec_mtu())
    }

    /// The packet that carries the segment `seg` with the given opcode,
    /// remote address, RETH length, sequence number and ack request.
    pub open spec fn spec_packet(
        self,
        opcode: WriteOpcode,
        seg: (int, int),
        remote_va: int,
        reth_len: int,
        psn: int,
        ack_req: bool,
    ) -> WritePacket {
        WritePacket {
            opcode,
            local_va: VirtualAddress(seg.0 as u64),
            len: seg.1 as u32,
            local_key: self.sge.local_key,
            remote_va: remote_va as u64,
            rkey: self.common.remote_key.0,
            reth_len: reth_len as u32,
            psn: psn as u32,
            ack_req,
            solicited: false,
            dest_qpn: self.common.dest_qpn,
            pkey: self.common.msn,
            qp_type: self.common.qp_type,
            src_ip: SOURCE_IP,
            dest_ip: self.common.dest_ip,
        }
    }

    /// Length of the first segment of the local buffer.
    pub open spec fn spec_first_len(self) -> int {
        first_segment_len(self.sge.local_addr.0 as int, self.sge.len as int, self.spec_mtu())
    }

    /// Whether `packets` handles the request: the local buffer spans more
    /// than one segment, and neither the local buffer nor the remote range of
    /// the first segment runs past the end of the address space.
    pub open spec fn spec_packets_ok(self) -> bool {
        &&& self.sge.len > self.spec_first_len()
        &&& self.sge.local_addr.0 + self.sge.len <= u64::MAX
        &&& self.common.remote_addr.0 + self.spec_first_len() <= u64::MAX
    }

    /// Whether `packets` handles the request.
    pub fn packets_ok(&self) -> (res: bool)
        ensures
            res == self.spec_packets_ok(),
    {
        let mtu = self.common.packet_mtu_kind.bytes() as u64;
        let va = self.sge.local_addr.0;
        let len = self.sge.len as u64;
        let to_boundary = mtu - (va % 0x1_0000_0000) % mtu;
        let first = if len < to_boundary {
            len
        } else {
            to_boundary
        };
        len > first && va <= u64::MAX - len && self.common.remote_addr.0 <= u64::MAX - first
    }

    /// The packets of the request: a write-first packet for the first
    /// segment, whose RETH covers the whole transfer and that asks no ack,
    /// and a write-last packet for the last segment, one sequence number
    /// later and at the remote address after the first segment, that asks
    /// for an ack. Segments between the two get no packet.
    ///
    /// A request that fits into one segment is not handled.
    pub fn packets(&self) -> (res: Vec<WritePacket>)
        requires
            self.spec_packets_ok(),
        ensures
            ({
                let s = self.spec_segments();
                let first = s[0];
                let last = s[s.len() - 1];
                res@ == seq![
                    self.spec_packet(
                        WriteOpcode::RdmaWriteFirst,
                        first,
                        self.common.remote_addr.0 as int,
                        self.common.total_len as int,
                        self.common.psn as int,
                        false,
                    ),
                    self.spec_packet(
                        WriteOpcode::RdmaWriteLast,
                        last,
                        self.common.remote_addr.0 + first.1,
                        last.1,
                        (self.common.psn + 1) % 0x1_0000_0000,
                        true,
                    ),
                ]
            }),
            res@.len() == 2,
            res@[0].opcode == WriteOpcode::RdmaWriteFirst,
            res@[1].opcode == WriteOpcode::RdmaWriteLast,
            forall|i: int|
                0 <= i < 2 ==> {
                    &&& (#[trigger] res@[i]).pkey == self.common.msn
                    &&& res@[i].rkey == self.common.remote_key.0
                    &&& res@[i].local_key == self.sge.local_key
                    &&& res@[i].dest_qpn == self.common.dest_qpn
                    &&& res@[i].qp_type == self.common.qp_type
                    &&& res@[i].src_ip == 0xC0A8_0002
                    &&& res@[i].dest_ip == self.common.dest_ip
                    &&& !res@[i].solicited
                },
            res@[0].psn == self.common.psn,
            res@[1].psn == (self.common.psn + 1) % 0x1_0000_0000,
            !res@[0].ack_req,
            res@[1].ack_req,
            res@[0].remote_va == self.common.remote_addr.0,
            res@[0].reth_len == self.common.total_len,
            res@[1].remote_va == self.common.remote_addr.0 + res@[0].len,
            res@[1].reth_len == res@[1].len,
            res@[0].local_va.0 == self.sge.local_addr.0,
            res@[0].len == (if self.sge.len < self.spec_mtu() - self.sge.local_addr.0 % (
            self.spec_mtu() as u64) {
                self.sge.len as int
            } else {
                self.spec_mtu() - self.sge.local_addr.0 % (self.spec_mtu() as u64)
            }),
            res@[1].local_va.0 + res@[1].len == self.sge.local_addr.0 + self.sge.len,
            res@[1].len <= self.spec_mtu(),
    {
        let path_mtu = self.common.packet_mtu_kind.bytes();
        let segments = generate_segments_from_request(self.sge.local_addr.0, self.sge.len, path_mtu);
        let ghost s = self.spec_segments();
        proof {
            crate::segments::lemma_segments_cover_request(
                self.sge.local_addr.0,
                self.sge.len,
                path_mtu,
            );
            assert(s.len() == segments@.len());
            assert(s.len() >= 2) by {
                let t = s.drop_first();
                assert(t.len() == s.len() - 1);
                if s.len() == 1 {
                    assert(crate::segments::total_len(s) == s[0].1 + crate::segments::total_len(
                        t,
                    ));
                }
            }
        }
        let n = segments.len();
        let first = segments[0];
        let last = segments[n - 1];
        proof {
            assert(segments@.map_values(|x: Segment| x.view_pair())[0] == first.view_pair());
            assert(segments@.map_values(|x: Segment| x.view_pair())[n - 1] == last.view_pair());
        }
        let mut remote_va = self.common.remote_addr.0;
        let mut psn = self.common.psn;
        let rkey = self.common.remote_key.0;
        let mut res: Vec<WritePacket> = Vec::new();
        res.push(
            WritePacket {
                opcode: WriteOpcode::RdmaWriteFirst,
                local_va: first.va,
                len: first.len,
                local_key: self.sge.local_key,
                remote_va,
                rkey,
                reth_len: self.common.total_len,
                psn,
                ack_req: false,
                solicited: false,
                dest_qpn: self.common.dest_qpn,
                pkey: self.common.msn,
                qp_type: self.common.qp_type,
                src_ip: SOURCE_IP,
                dest_ip: self.common.dest_ip,
            },
        );
        remote_va = remote_va + first.len as u64;
        psn = psn.wrapping_add(1);
        res.push(
            WritePacket {
                opcode: WriteOpcode::RdmaWriteLast,
                local_va: last.va,
                len: last.len,
                local_key: self.sge.local_key,
                remote_va,
                rkey,
                reth_len: last.len,
                psn,
                ack_req: true,
                solicited: false,
                dest_qpn: self.common.dest_qpn,
                pkey: self.common.msn,
                qp_type: self.common.qp_type,
                src_ip: SOURCE_IP,
                dest_ip: self.common.dest_ip,
            },
        );
        proof {
            let mtu = self.spec_mtu();
            let va = self.sge.local_addr.0;
            crate::segments::lemma_contiguous_end(s);
            assert((va as int % 0x1_0000_0000) % mtu == va as int % mtu) by {
                match self.common.packet_mtu_kind {
                    Pmtu::Mtu256 => {
                        assert(0x1_0000_0000int == 256 * 0x1000000);
                        vstd::arithmetic::div_mod::lemma_mod_mod(va as int, 256, 0x1000000);
                    },
                    Pmtu::Mtu512 => {
                        assert(0x1_0000_0000int == 512 * 0x800000);
                        vstd::arithmetic::div_mod::lemma_mod_mod(va as int, 512, 0x800000);
                    },
                    Pmtu::Mtu1024 => {
                        assert(0x1_0000_0000int == 1024 * 0x400000);
                        vstd::arithmetic::div_mod::lemma_mod_mod(va as int, 1024, 0x400000);
                    },
                    Pmtu::Mtu2048 => {
                        assert(0x1_0000_0000int == 2048 * 0x200000);
                        vstd::arithmetic::div_mod::lemma_mod_mod(va as int, 2048, 0x200000);
                    },
                    Pmtu::Mtu4096 => {
                        assert(0x1_0000_0000int == 4096 * 0x100000);
                        vstd::arithmetic::div_mod::lemma_mod_mod(va as int, 4096, 0x100000);
                    },
                }
            }
            assert(s[s.len() - 1].1 <= mtu);
        }
        res
    }
}

} // verus!
