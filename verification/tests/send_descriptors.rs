use eui48::MacAddress;
use rust_driver::descriptor::RawDescriptor;
use rust_driver::errors::ParseDescriptorError;
use rust_driver::operations::common::Common;
use rust_driver::operations::read::Builder as ReadBuilder;
use rust_driver::operations::write::{Builder as WriteBuilder, WriteOpcode, SOURCE_IP};
use rust_driver::send::{Header, Opcode, ScatterGatherElement, Seg0, Seg1, VariableLengthSge};
use rust_driver::types::{DmaAddress, MemoryRegionKey, Pmtu, QueuePairType, VirtualAddress};

fn bytes_of(words: [u64; 4]) -> Vec<u8> {
    let mut out = Vec::new();
    for w in words {
        out.extend_from_slice(&w.to_le_bytes());
    }
    out
}

/// A valid send header: first and last set, opcode `code`, total length.
fn send_header(code: u64, total_len: u32) -> u64 {
    1 | (1 << 2) | (1 << 3) | (code << 4) | ((total_len as u64) << 32)
}

fn seg1_words(pmtu: u64, qp_type: u64, psn: u32, dest_qpn: u32) -> [u64; 4] {
    let w0 = pmtu | (0b00010 << 8) | (qp_type << 16) | (1 << 24) | ((psn as u64) << 32);
    let mac = u64::from_le_bytes([0x02, 0xaa, 0xbb, 0xcc, 0xdd, 0xee, 0, 0]);
    let w2 = (dest_qpn as u64) | (0xcafe_f00d << 32);
    [w0, mac, w2, 0]
}

#[test]
fn header_fields() {
    let h = Header(send_header(4, 8192) | 0x300);
    assert!(h.valid());
    assert!(!h.is_success());
    assert!(!h.need_signal_cplt());
    assert!(h.first());
    assert!(h.last());
    assert_eq!(h.extra_segment_cnt(), 3);
    assert_eq!(h.total_len(), 8192);
    assert_eq!(h.opcode().unwrap(), Opcode::Read);
    assert_eq!(Header(send_header(12, 0)).opcode().unwrap(), Opcode::ReadResp);
    assert_eq!(Header(send_header(1, 0)).opcode().unwrap(), Opcode::WriteWithImm);
}

#[test]
fn header_rejects_unknown_opcode() {
    assert!(matches!(
        Header(send_header(7, 0)).opcode(),
        Err(ParseDescriptorError::SendUnknownOpcode(7))
    ));
}

#[test]
fn seg0_from_bytes_and_back() {
    let w2 = 0x1234 | (0xC0A8_0003u64 << 32);
    let raw = bytes_of([send_header(0, 6144), 0x0000_7f00_0000_1000, w2, 0x0042]);
    let seg0 = Seg0::from_bytes(&raw);
    assert_eq!(seg0.header.total_len(), 6144);
    assert_eq!(seg0.remote_addr.0, 0x0000_7f00_0000_1000);
    assert_eq!(seg0.remote_key.get(), 0x1234);
    assert_eq!(seg0.dest_ip(), 0xC0A8_0003);
    assert_eq!(seg0.partition_key, 0x42);
    assert_eq!(seg0.to_raw().to_bytes(), raw);
}

#[test]
fn seg1_fields() {
    let raw = bytes_of(seg1_words(3, 2, 0xab12_3456, 0x77_0042));
    let seg1 = Seg1::from_bytes(&raw);
    assert_eq!(seg1.path_mtu_kind().unwrap(), Pmtu::Mtu1024);
    assert_eq!(seg1.queue_pair_type().unwrap(), QueuePairType::Rc);
    assert_eq!(seg1.send_flag().0, 0b00010);
    assert_eq!(seg1.sge_count(), 1);
    assert_eq!(seg1.packet_sequence_number(), 0x12_3456);
    assert_eq!(seg1.dest_queue_pair_number(), 0x77_0042 & 0xff_ffff);
    assert_eq!(seg1.mac, MacAddress::new([0x02, 0xaa, 0xbb, 0xcc, 0xdd, 0xee]));
    assert_eq!(seg1.immediate, 0xcafe_f00d);
}

#[test]
fn seg1_rejects_unknown_mtu_and_queue_pair_type() {
    let seg1 = Seg1::from_bytes(&bytes_of(seg1_words(0, 5, 0, 0)));
    assert!(matches!(
        seg1.path_mtu_kind(),
        Err(ParseDescriptorError::InvalidPacketMTUKind(0))
    ));
    assert!(matches!(
        seg1.queue_pair_type(),
        Err(ParseDescriptorError::InvalidQueuePairType(5))
    ));
    let seg1 = Seg1::from_bytes(&bytes_of(seg1_words(7, 9, 0, 0)));
    assert!(matches!(
        seg1.path_mtu_kind(),
        Err(ParseDescriptorError::InvalidPacketMTUKind(7))
    ));
    assert_eq!(seg1.queue_pair_type().unwrap(), QueuePairType::XrcSend);
}

#[test]
fn scatter_gather_segment_round_trip() {
    let sge = VariableLengthSge {
        sge2: ScatterGatherElement { local_key: MemoryRegionKey(0), len: 0, local_addr: DmaAddress(0) },
        sge1: ScatterGatherElement {
            local_key: MemoryRegionKey(0x55),
            len: 6144,
            local_addr: DmaAddress(0x0000_7F7E_8EE0_0000),
        },
    };
    let raw = sge.to_raw();
    assert_eq!(raw.w2, 0x55 | (6144u64 << 32));
    assert_eq!(raw.w3, 0x0000_7F7E_8EE0_0000);
    assert_eq!(VariableLengthSge::from_raw(&raw), sge);
    assert_eq!(VariableLengthSge::from_bytes(&raw.to_bytes()), sge);
}

#[test]
fn raw_descriptor_bytes_round_trip() {
    let raw: Vec<u8> = (100u8..132).collect();
    let r = RawDescriptor::from_bytes(&raw);
    assert_eq!(r.w0, u64::from_le_bytes(raw[0..8].try_into().unwrap()));
    assert_eq!(r.to_bytes(), raw);
}

fn write_request(va: u64, len: u32, pmtu_code: u64) -> rust_driver::operations::write::Write {
    let seg0 = Seg0::from_bytes(&bytes_of([
        send_header(0, len),
        0x1_0000,
        0x99 | (0xC0A8_0003u64 << 32),
        7,
    ]));
    let seg1 = Seg1::from_bytes(&bytes_of(seg1_words(pmtu_code, 2, 100, 0x20)));
    let sge = VariableLengthSge {
        sge2: ScatterGatherElement { local_key: MemoryRegionKey(0), len: 0, local_addr: DmaAddress(0) },
        sge1: ScatterGatherElement { local_key: MemoryRegionKey(0x31), len, local_addr: DmaAddress(va) },
    };
    WriteBuilder::from_seg0(seg0).with_seg1(seg1).with_sge(sge)
}

#[test]
fn common_from_segments() {
    let seg0 = Seg0::from_bytes(&bytes_of([send_header(0, 4096), 0x2000, 0x99 | (5u64 << 32), 0x1234]));
    let mut common = Common::from_seg0(&seg0);
    assert_eq!(common.total_len, 4096);
    assert_eq!(common.remote_addr.0, 0x2000);
    assert_eq!(common.remote_key.get(), 0x99);
    assert_eq!(common.dest_ip, 5);
    assert_eq!(common.dest_qpn, 0);
    assert_eq!(common.mac, MacAddress::nil());
    assert_eq!(common.packet_mtu_kind, Pmtu::Mtu256);
    assert_eq!(common.qp_type, QueuePairType::Rc);
    assert_eq!(common.psn, 0);
    assert_eq!(common.msn, 0x1234);

    let seg1 = Seg1::from_bytes(&bytes_of(seg1_words(5, 4, 0x33, 0x44)));
    common.with_seg1(&seg1);
    assert_eq!(common.packet_mtu_kind, Pmtu::Mtu4096);
    assert_eq!(common.qp_type, QueuePairType::Ud);
    assert_eq!(common.psn, 0x33);
    assert_eq!(common.dest_qpn, 0x44);
    assert_eq!(common.mac, MacAddress::new([0x02, 0xaa, 0xbb, 0xcc, 0xdd, 0xee]));
    assert_eq!(common.send_flag.0, 0b00010);
    assert_eq!(common.total_len, 4096);
}

#[test]
fn read_builder_keeps_first_element() {
    let seg0 = Seg0::from_bytes(&bytes_of([send_header(4, 64), 0x2000, 0x99, 0]));
    let seg1 = Seg1::from_bytes(&bytes_of(seg1_words(1, 3, 1, 2)));
    let sge = VariableLengthSge {
        sge2: ScatterGatherElement { local_key: MemoryRegionKey(0), len: 0, local_addr: DmaAddress(0) },
        sge1: ScatterGatherElement { local_key: MemoryRegionKey(8), len: 64, local_addr: DmaAddress(0x4000) },
    };
    let read = ReadBuilder::from_seg0(seg0).with_seg1(seg1).with_sge(sge);
    assert_eq!(read.sge, sge.sge1);
    assert_eq!(read.common.qp_type, QueuePairType::Uc);
    assert_eq!(read.common.total_len, 64);
}

#[test]
fn write_packets_first_and_last() {
    let va = 0x0000_7F7E_8EE0_0000;
    let w = write_request(va, 6144, 5);
    assert!(w.first && w.last);
    let packets = w.packets();
    assert_eq!(packets.len(), 2);

    let first = &packets[0];
    assert_eq!(first.opcode, WriteOpcode::RdmaWriteFirst);
    assert_eq!(first.local_va, VirtualAddress(va));
    assert_eq!(first.len, 4096);
    assert_eq!(first.local_key.get(), 0x31);
    assert_eq!(first.remote_va, 0x1_0000);
    assert_eq!(first.rkey, 0x99);
    assert_eq!(first.reth_len, 6144);
    assert_eq!(first.psn, 100);
    assert!(!first.ack_req);
    assert!(!first.solicited);
    assert_eq!(first.dest_qpn, 0x20);
    assert_eq!(first.pkey, 7);
    assert_eq!(first.qp_type, QueuePairType::Rc);
    assert_eq!(first.src_ip, SOURCE_IP);
    assert_eq!(first.dest_ip, 0xC0A8_0003);

    let last = &packets[1];
    assert_eq!(last.opcode, WriteOpcode::RdmaWriteLast);
    assert_eq!(last.local_va, VirtualAddress(va + 4096));
    assert_eq!(last.len, 2048);
    assert_eq!(last.remote_va, 0x1_0000 + 4096);
    assert_eq!(last.reth_len, 2048);
    assert_eq!(last.psn, 101);
    assert!(last.ack_req);
}

#[test]
fn write_packets_of_unaligned_buffer() {
    // 256-byte MTU, buffer starting 16 bytes before a boundary, 600 bytes:
    // segments 16, 256, 256, 72; only the first and last get a packet.
    let w = write_request(0x10f0, 600, 1);
    let packets = w.packets();
    assert_eq!(packets.len(), 2);
    assert_eq!(packets[0].local_va, VirtualAddress(0x10f0));
    assert_eq!(packets[0].len, 16);
    assert_eq!(packets[1].local_va, VirtualAddress(0x1300));
    assert_eq!(packets[1].len, 72);
    assert_eq!(packets[1].remote_va, 0x1_0000 + 16);
}

#[test]
fn write_first_and_last_packet_headers() {
    // The request of the captured write: 6144 bytes at 0x7F7E8EE00000 to
    // 0x7F7E8FC00000 with rkey 33554435, 4096-byte MTU, psn 0, dqpn 2.
    let seg0 = Seg0::from_bytes(&bytes_of([
        send_header(0, 6144),
        0x0000_7F7E_8FC0_0000,
        33554435 | (0xC0A8_0003u64 << 32),
        0,
    ]));
    let seg1 = Seg1::from_bytes(&bytes_of(seg1_words(5, 2, 0, 2)));
    let sge = VariableLengthSge {
        sge2: ScatterGatherElement { local_key: MemoryRegionKey(0), len: 0, local_addr: DmaAddress(0) },
        sge1: ScatterGatherElement {
            local_key: MemoryRegionKey(1),
            len: 6144,
            local_addr: DmaAddress(0x0000_7F7E_8EE0_0000),
        },
    };
    let w = WriteBuilder::from_seg0(seg0).with_seg1(seg1).with_sge(sge);
    let packets = w.packets();

    assert_eq!(packets[0].remote_va, 0x0000_7F7E_8FC0_0000);
    assert_eq!(packets[0].rkey, 33554435);
    assert_eq!(packets[0].reth_len, 6144);
    assert_eq!(packets[0].psn, 0);
    assert_eq!(packets[0].len, 4096);
    assert_eq!(packets[0].dest_qpn, 2);
    assert_eq!(packets[0].pkey, 0);
    assert_eq!(packets[0].src_ip, u32::from_be_bytes([192, 168, 0, 2]));
    assert_eq!(packets[0].dest_ip, u32::from_be_bytes([192, 168, 0, 3]));

    assert_eq!(packets[1].remote_va, 0x0000_7F7E_8FC0_0000 + 4096);
    assert_eq!(packets[1].rkey, 33554435);
    assert_eq!(packets[1].reth_len, 2048);
    assert_eq!(packets[1].psn, 1);
    assert_eq!(packets[1].local_va, VirtualAddress(0x0000_7F7E_8EE0_0000 + 4096));
    assert!(packets[1].ack_req);
}

#[test]
fn single_segment_write_is_not_split() {
    assert!(!write_request(0x1000, 100, 5).packets_ok());
    assert!(!write_request(0x1000, 4096, 5).packets_ok());
    assert!(write_request(0x1000, 4097, 5).packets_ok());
    assert!(write_request(0x10f0, 600, 1).packets_ok());
    assert!(!write_request(u64::MAX - 10, 600, 1).packets_ok());
}
