use eui48::MacAddress;
use rust_driver::command_descriptors::{
    Context, DescriptorRef, QueuePairManagement, SetNetworkParameter, SetRawPacketReceiveMeta,
    UpdateErrorPacketSequenceNumberRecoverPoint, UpdateMemoryRegionTable, UpdatePageTable,
};
use rust_driver::command_request::{CommonHeader, Header, Opcode, Unknown};
use rust_driver::errors::ParseDescriptorError;
use rust_driver::types::{Pmtu, QueuePairType};

fn bytes_of(words: [u64; 4]) -> Vec<u8> {
    let mut out = Vec::new();
    for w in words {
        out.extend_from_slice(&w.to_le_bytes());
    }
    out
}

fn descriptor(words: [u64; 4]) -> Unknown {
    Unknown::from_bytes(&bytes_of(words))
}

/// A valid header word for opcode `code` with user data `user_data`.
fn header_word(code: u64, user_data: u32) -> u64 {
    1 | (code << 2) | ((user_data as u64) << 32)
}

#[test]
fn common_header_new_sets_every_field() {
    let h = CommonHeader::new(Opcode::QpManagement, true, 0xdead_beef);
    assert_eq!(h.0, 0xdead_beef_0000_000b);
    assert!(h.valid());
    assert!(h.is_success());
    assert!(h.need_signal_cplt());
    assert_eq!(h.opcode().unwrap(), Opcode::QpManagement);
    assert_eq!(h.user_data(), 0xdead_beef);

    let h = CommonHeader::new(Opcode::UpdateErrorPsnRecoverPoint, false, 7);
    assert_eq!(h.0, (7u64 << 32) | (5 << 2) | 1);
    assert!(!h.is_success());
}

#[test]
fn opcode_codes_round_trip() {
    for code in 0u8..6 {
        assert_eq!(Opcode::from_code(code).unwrap().code(), code);
    }
    assert_eq!(Opcode::from_code(6), None);
    assert_eq!(Opcode::from_code(63), None);
}

#[test]
fn unknown_bytes_round_trip() {
    let raw: Vec<u8> = (0u8..32).collect();
    let d = Unknown::from_bytes(&raw);
    assert_eq!(d.header.0, u64::from_le_bytes(raw[0..8].try_into().unwrap()));
    assert_eq!(d.body.2, u64::from_le_bytes(raw[24..32].try_into().unwrap()));
    assert_eq!(d.to_bytes(), raw);
    assert_eq!(d.header().0, d.header.0);
}

#[test]
fn parse_sorts_by_opcode() {
    let expected = [
        Opcode::UpdateMrTable,
        Opcode::UpdatePageTable,
        Opcode::QpManagement,
        Opcode::SetNetworkParam,
        Opcode::SetRawPacketReceiveMeta,
        Opcode::UpdateErrorPsnRecoverPoint,
    ];
    for (code, op) in expected.iter().enumerate() {
        let d = descriptor([header_word(code as u64, 42), 1, 2, 3]);
        let parsed = DescriptorRef::parse(&d).unwrap();
        let (got, inner) = match parsed {
            DescriptorRef::UpdateMemoryRegionTable(x) => (Opcode::UpdateMrTable, x.0),
            DescriptorRef::UpdatePageTable(x) => (Opcode::UpdatePageTable, x.0),
            DescriptorRef::QueuePairManagement(x) => (Opcode::QpManagement, x.0),
            DescriptorRef::SetNetworkParameter(x) => (Opcode::SetNetworkParam, x.0),
            DescriptorRef::SetRawPacketReceiveMeta(x) => (Opcode::SetRawPacketReceiveMeta, x.0),
            DescriptorRef::UpdateErrorPacketSequenceNumberRecoverPoint(x) => {
                (Opcode::UpdateErrorPsnRecoverPoint, x.0)
            }
        };
        assert_eq!(got, *op);
        assert_eq!(inner, d);
    }
}

#[test]
fn parse_rejects_unknown_opcode() {
    let d = descriptor([header_word(6, 0), 0, 0, 0]);
    assert!(matches!(
        DescriptorRef::parse(&d),
        Err(ParseDescriptorError::CommandRequestUnknownOpcode(6))
    ));
    let d = descriptor([header_word(63, 0), 0, 0, 0]);
    assert!(matches!(
        d.header.opcode(),
        Err(ParseDescriptorError::CommandRequestUnknownOpcode(63))
    ));
}

#[test]
fn response_echoes_opcode_and_user_data() {
    let d = descriptor([header_word(1, 0x1234_5678) | 0xf00, 9, 9, 9]);
    let parsed = DescriptorRef::parse(&d).unwrap();
    let ok = parsed.response(true);
    assert_eq!(ok.0, 0x1234_5678_0000_0007);
    let failed = parsed.response(false);
    assert!(failed.valid());
    assert!(!failed.is_success());
    assert_eq!(failed.opcode().unwrap(), Opcode::UpdatePageTable);
    assert_eq!(failed.user_data(), 0x1234_5678);
}

#[test]
fn queue_pair_management_fields() {
    let w1: u64 = 0b01 | (0x12_3456 << 8) | (0xaabb_ccdd << 32);
    let w2: u64 = 4 | (0x5a << 8) | (3 << 16) | (0x65_4321 << 24);
    let d = descriptor([header_word(2, 0), w1, w2, 0]);
    let q = QueuePairManagement::from_unknown(d);
    assert!(q.valid());
    assert!(!q.error());
    assert_eq!(q.queue_pair_number(), 0x12_3456);
    assert_eq!(q.protect_domain_handler(), 0xaabb_ccdd);
    assert_eq!(q.queue_pair_type(), QueuePairType::Ud);
    assert_eq!(q.remote_queue_access_flag().0, 0x5a);
    assert_eq!(q.packet_mtu_kind(), Pmtu::Mtu1024);
    assert_eq!(q.peer_queue_pair_number(), 0x65_4321);
    assert_eq!(*q.as_ref(), d);
    assert_eq!(*d.as_ref(), d);
    assert_eq!(q.header().opcode().unwrap(), Opcode::QpManagement);

    let q = QueuePairManagement::from_unknown(descriptor([header_word(2, 0), 0b10, 10 | (5 << 16), 0]));
    assert!(!q.valid());
    assert!(q.error());
    assert_eq!(q.queue_pair_type(), QueuePairType::XrcRecv);
    assert_eq!(q.packet_mtu_kind(), Pmtu::Mtu4096);
}

#[test]
fn set_network_parameter_fields() {
    // gateway 192.168.0.1, netmask 255.255.255.0, ip 192.168.0.2
    let w1: u64 = 0xC0A8_0001 | (0xFFFF_FF00 << 32);
    let w2: u64 = 0xC0A8_0002;
    let w3: u64 = u64::from_le_bytes([0x02, 0x11, 0x22, 0x33, 0x44, 0x55, 0, 0]);
    let s = SetNetworkParameter::from_unknown(descriptor([header_word(3, 0), w1, w2, w3]));
    assert_eq!(s.gateway(), 0xC0A8_0001);
    assert_eq!(s.subnet_mask(), 0xFFFF_FF00);
    assert_eq!(s.ip(), 0xC0A8_0002);
    assert_eq!(s.mac(), MacAddress::new([0x02, 0x11, 0x22, 0x33, 0x44, 0x55]));
    assert_eq!(s.mac().as_bytes(), &[0x02, 0x11, 0x22, 0x33, 0x44, 0x55]);
}

#[test]
fn set_raw_packet_receive_meta_fields() {
    let s = SetRawPacketReceiveMeta::from_unknown(descriptor([
        header_word(4, 0),
        0x0000_7f00_1234_5000,
        0xffff_ffff_0000_0abc,
        0,
    ]));
    assert_eq!(s.write_base_addr().0, 0x0000_7f00_1234_5000);
    assert_eq!(s.write_mr_key().get(), 0xabc);
}

#[test]
fn update_error_psn_recover_point_fields() {
    let u = UpdateErrorPacketSequenceNumberRecoverPoint::from_unknown(descriptor([
        header_word(5, 0),
        0xff12_3456 | (0xee65_4321 << 32),
        0,
        0,
    ]));
    assert_eq!(u.packet_sequence_number(), 0x12_3456);
    assert_eq!(u.queue_pair_number(), 0x65_4321);
}

#[test]
fn update_memory_region_table_fields_and_context() {
    let w1: u64 = 0x0000_7f7e_8ee0_0000;
    let w2: u64 = 0x10_0000 | (0x77 << 32);
    let w3: u64 = 5 | (0x0f << 32) | (0x1_2345 << 40);
    let u = UpdateMemoryRegionTable::from_unknown(descriptor([header_word(0, 0), w1, w2, w3]));
    assert_eq!(u.mr_base_va().0, w1);
    assert_eq!(u.mr_len(), 0x10_0000);
    assert_eq!(u.mr_key().get(), 0x77);
    assert_eq!(u.pd_handler(), 5);
    assert_eq!(u.access_flag().0, 0x0f);
    assert_eq!(u.page_table_offset(), 0x1_2345);

    let cx = Context::from_req(&u);
    assert_eq!(cx.va.0, w1);
    assert_eq!(cx.len, 0x10_0000);
    assert_eq!(cx.key.get(), 0x77);
    assert_eq!(cx.pd_handler, 5);
    assert_eq!(cx.access_flag.0, 0x0f);
    assert_eq!(cx.page_table_offset, 0x1_2345);
}

#[test]
fn update_page_table_fields() {
    let u = UpdatePageTable::from_unknown(descriptor([
        header_word(1, 0),
        0x1000,
        16 | (4096 << 32),
        0,
    ]));
    assert_eq!(u.dma_addr(), 0x1000);
    assert_eq!(u.start_index(), 16);
    assert_eq!(u.dma_read_length(), 4096);
}
