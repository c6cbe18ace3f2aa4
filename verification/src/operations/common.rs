//! The part of a send request shared by all operations.

use vstd::prelude::*;

use crate::bits::field;
use crate::errors::ParseDescriptorError;
use crate::send::{Seg0, Seg1};
use crate::types::{
    mac_address, new_mac_address, DmaAddress, MemoryRegionKey, Pmtu, QueuePairType, SendFlag,
};

verus! {

/// What a send request carries besides its local buffers.
#[derive(Debug, Clone, Copy)]
pub struct Common {
    pub total_len: u32,
    pub remote_addr: DmaAddress,
    pub remote_key: MemoryRegionKey,
    /// Destination IPv4 address, as the number whose big-endian bytes are
    /// its octets.
    pub dest_ip: u32,
    pub dest_qpn: u32,
    pub mac: eui48::MacAddress,
    pub packet_mtu_kind: Pmtu,
    pub send_flag: SendFlag,
    pub qp_type: QueuePairType,
    pub psn: u32,
    pub msn: u16,
}

impl Common {
    /// Whether `seg1` carries a known MTU and a known queue pair type.
    pub open spec fn seg1_codes_valid(seg1: Seg1) -> bool {
        &&& Pmtu::spec_from_code(seg1.pmtu_send_flag_qp_type_sge_cnt.spec_packet_mtu_kind()) is Some
        &&& QueuePairType::spec_from_code(
            seg1.pmtu_send_flag_qp_type_sge_cnt.spec_queue_pair_type(),
        ) is Some
    }

    /// The common part that seg0 gives: the fields that seg1 carries start
    /// as zero (the MAC address 00:00:00:00:00:00), the default MTU (256
    /// bytes), no flags and a reliable connection.
    pub open spec fn spec_from_seg0(seg0: Seg0) -> Common {
        Common {
            total_len: seg0.header.spec_total_len(),
            remote_addr: seg0.remote_addr,
            remote_key: seg0.remote_key,
            dest_ip: seg0.dest_ip,
            dest_qpn: 0,
            mac: mac_address(seq![0u8, 0, 0, 0, 0, 0]),
            packet_mtu_kind: Pmtu::Mtu256,
            send_flag: SendFlag(0),
            qp_type: QueuePairType::Rc,
            psn: 0,
            msn: seg0.partition_key,
        }
    }

    /// The common part after seg1 has been read into it.
    pub open spec fn spec_with_seg1(self, seg1: Seg1) -> Common {
        Common {
            dest_qpn: field(seg1.dest_qpn_inner.0 as u64, 0, 24) as u32,
            mac: seg1.mac,
            packet_mtu_kind: Pmtu::spec_from_code(
                seg1.pmtu_send_flag_qp_type_sge_cnt.spec_packet_mtu_kind(),
            ).unwrap(),
            send_flag: SendFlag(seg1.pmtu_send_flag_qp_type_sge_cnt.spec_send_flag()),
            qp_type: QueuePairType::spec_from_code(
                seg1.pmtu_send_flag_qp_type_sge_cnt.spec_queue_pair_type(),
            ).unwrap(),
            psn: field(seg1.psn_inner.0 as u64, 0, 24) as u32,
            ..self
        }
    }

    /// Construct the common part from seg0.
    pub fn from_seg0(seg0: &Seg0) -> (res: Self)
        ensures
            res == Self::spec_from_seg0(*seg0),
            res.total_len == seg0.header.0 / 0x1_0000_0000,
            res.remote_addr == seg0.remote_addr,
            res.remote_key == seg0.remote_key,
            res.dest_ip == seg0.dest_ip,
            res.msn == seg0.partition_key,
            res.dest_qpn == 0,
            res.psn == 0,
            res.send_flag.0 == 0,
            res.qp_type == QueuePairType::Rc,
            res.packet_mtu_kind.spec_bytes() == 256,
    {
        proof {
            crate::bits::lemma_fields_arith(seg0.header.0);
        }
        let total_len = seg0.header.total_len();
        let zero_mac = [0u8, 0, 0, 0, 0, 0];
        assert(zero_mac@ =~= seq![0u8, 0, 0, 0, 0, 0]);
        Common {
            total_len,
            remote_addr: seg0.remote_addr,
            remote_key: seg0.remote_key,
            dest_ip: seg0.dest_ip(),
            dest_qpn: 0,
            mac: new_mac_address(zero_mac),
            packet_mtu_kind: Pmtu::Mtu256,
            send_flag: SendFlag(0),
            qp_type: QueuePairType::Rc,
            psn: 0,
            msn: seg0.partition_key,
        }
    }

    /// Update the common part from seg1.
    pub fn with_seg1(&mut self, seg1: &Seg1)
        requires
            Self::seg1_codes_valid(*seg1),
        ensures
            *final(self) == old(self).spec_with_seg1(*seg1),
            final(self).psn == seg1.psn_inner.0 % 0x100_0000,
            final(self).dest_qpn == seg1.dest_qpn_inner.0 % 0x100_0000,
            final(self).mac == seg1.mac,
            final(self).send_flag.0 == (seg1.pmtu_send_flag_qp_type_sge_cnt.0 / 0x100) % 32,
            final(self).packet_mtu_kind.spec_bytes() == 128 * vstd::arithmetic::power2::pow2(
                (seg1.pmtu_send_flag_qp_type_sge_cnt.0 % 8) as nat,
            ),
            final(self).qp_type.spec_code() == (seg1.pmtu_send_flag_qp_type_sge_cnt.0 / 0x1_0000)
                % 16,
            final(self).total_len == old(self).total_len,
            final(self).remote_addr == old(self).remote_addr,
            final(self).remote_key == old(self).remote_key,
            final(self).dest_ip == old(self).dest_ip,
            final(self).msn == old(self).msn,
    {
        proof {
            let pm = seg1.pmtu_send_flag_qp_type_sge_cnt.0;
            crate::bits::lemma_fields_arith(pm as u64);
            crate::bits::lemma_fields_arith(seg1.psn_inner.0 as u64);
            crate::bits::lemma_fields_arith(seg1.dest_qpn_inner.0 as u64);
            Pmtu::lemma_mtu_codes((pm % 8) as u8);
        }
        proof {
            crate::bits::lemma_low_masks();
        }
        self.dest_qpn = seg1.dest_queue_pair_number();
        self.mac = seg1.mac;
        match seg1.path_mtu_kind() {
            Ok(m) => {
                self.packet_mtu_kind = m;
            },
            Err(_) => {},
        }
        self.send_flag = seg1.send_flag();
        match seg1.queue_pair_type() {
            Ok(t) => {
                self.qp_type = t;
            },
            Err(_) => {},
        }
        self.psn = seg1.packet_sequence_number();
    }
}

} // verus!
