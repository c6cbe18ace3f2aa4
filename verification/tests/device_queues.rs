use rust_driver::command_descriptors::DescriptorRef;
use rust_driver::command_request::{CommonHeader, Opcode, Unknown};
use rust_driver::csr::{QueueRegisters, Registers};
use rust_driver::descriptor::RawDescriptor;
use rust_driver::device::{CommandRequestQueueAbility, DeviceInner, COMMAND_REQUEST_RING_SLOTS};
use rust_driver::dma::{BramMemory, DmaClient};
use rust_driver::errors::ParseDescriptorError;
use rust_driver::meta_report::{
    BaseTransportHeader, BthAeth, BthReth, MessageSequenceNumberAndCanAutoAck, PsnAndReqStatus,
    RdmaExtendedTransportHeader, AckExtendedTransportHeader,
};
use rust_driver::mock_agent::MockAgent;
use rust_driver::operations::write::WriteOpcode;
use rust_driver::types::{DmaAddress, MemoryRegionKey, QueuePairType, VirtualAddress};
use rust_driver::utils::{aligned_size_ok, u8_slice_to_u64, PAGE_SIZE};

fn bytes_of(words: [u64; 4]) -> Vec<u8> {
    let mut out = Vec::new();
    for w in words {
        out.extend_from_slice(&w.to_le_bytes());
    }
    out
}

fn device() -> DeviceInner<BramMemory> {
    DeviceInner::new(Registers::new(), DmaClient::new(0, BramMemory::new(4096)))
}

fn response_at(dev: &DeviceInner<BramMemory>, addr: u64) -> CommonHeader {
    let written = dev.dma_client.read(addr, 8, 8);
    CommonHeader(u64::from_le_bytes(written.try_into().unwrap()))
}

#[test]
fn doorbell_only_records_the_notification() {
    let mut dev = device();
    dev.csrs.cmd_request = QueueRegisters { addr: 0x100, head: 1, tail: 0 };
    dev.csrs.cmd_response = QueueRegisters { addr: 0x200, head: 0, tail: 0 };
    let request = bytes_of([1 | (1 << 2) | (0xabcd << 32), 0x1000, 16 | (64 << 32), 0]);
    dev.dma_client.write(0x100, &request);

    dev.doorbell(1);
    dev.doorbell(2);
    assert_eq!(dev.command_request_doorbells, vec![1, 2]);
    assert!(dev.send_doorbells.is_empty());
    assert_eq!(dev.csrs.cmd_request.tail, 0);
    assert_eq!(dev.csrs.cmd_response.head, 0);
    assert_eq!(dev.dma_client.read(0x200, 32, 1), vec![0u8; 32]);

    assert_eq!(dev.next_command_request_doorbell(), Some(1));
    assert_eq!(dev.next_command_request_doorbell(), Some(2));
    assert_eq!(dev.next_command_request_doorbell(), None);

    dev.send_doorbell(7);
    assert_eq!(dev.send_doorbells, vec![7]);
    assert!(dev.command_request_doorbells.is_empty());
    assert_eq!(dev.next_send_doorbell(), Some(7));
    assert_eq!(dev.next_send_doorbell(), None);
}

#[test]
fn worker_answers_page_table_update() {
    let mut dev = device();
    dev.csrs.cmd_request = QueueRegisters { addr: 0x100, head: 1, tail: 0 };
    dev.csrs.cmd_response = QueueRegisters { addr: 0x200, head: 0, tail: 0 };
    let request = bytes_of([1 | (1 << 2) | (0xabcd << 32), 0x1000, 16 | (64 << 32), 0]);
    dev.dma_client.write(0x100, &request);

    assert!(dev.command_request_pending());
    let req = match DescriptorRef::parse(&dev.pop_command_request()).unwrap() {
        DescriptorRef::UpdatePageTable(r) => r,
        other => panic!("unexpected descriptor {other:?}"),
    };
    assert_eq!(req.dma_addr(), 0x1000);
    assert_eq!(req.start_index(), 16);
    assert_eq!(req.dma_read_length(), 64);
    assert!(dev.command_response_room());
    dev.handle_update_page_table(&req);
    assert_eq!(dev.csrs.cmd_request.tail, 1);
    assert_eq!(dev.csrs.cmd_response.head, 1);
    assert!(!dev.command_request_pending());

    let header = response_at(&dev, 0x200);
    assert!(header.valid());
    assert!(header.is_success());
    assert_eq!(header, CommonHeader::new(Opcode::UpdatePageTable, true, 0xabcd));
    // the rest of the slot is untouched
    assert_eq!(dev.dma_client.read(0x208, 24, 1), vec![0u8; 24]);
}

#[test]
fn unknown_opcode_is_reported() {
    let mut dev = device();
    dev.csrs.cmd_request = QueueRegisters { addr: 0, head: 1, tail: 0 };
    dev.dma_client.write(0, &bytes_of([1 | (9 << 2), 0, 0, 0]));
    let req = dev.pop_command_request();
    assert!(matches!(
        DescriptorRef::parse(&req),
        Err(ParseDescriptorError::CommandRequestUnknownOpcode(9))
    ));
}

#[test]
fn no_room_for_a_response_outside_memory() {
    let mut dev = device();
    dev.csrs.cmd_response = QueueRegisters { addr: 4096 - 16, head: 0, tail: 0 };
    assert!(!dev.command_response_room());
}

#[test]
fn handlers_answer_commands() {
    let mut dev = device();
    dev.csrs.cmd_request = QueueRegisters { addr: 0, head: 4, tail: 0 };
    dev.csrs.cmd_response = QueueRegisters { addr: 0x400, head: 0, tail: 0 };
    dev.dma_client.write(0, &bytes_of([1 | (0 << 2) | (11 << 32), 0x7000, 64, 0]));
    dev.dma_client.write(32, &bytes_of([1 | (0 << 2) | (12 << 32), 0x8000, 64, 0]));
    dev.dma_client.write(64, &bytes_of([1 | (5 << 2) | (13 << 32), 5 | (7 << 32), 0, 0]));
    dev.dma_client.write(96, &bytes_of([1 | (3 << 2) | (14 << 32), 0, 0, 0]));

    // a registration whose table update succeeds is answered with success
    let req = match DescriptorRef::parse(&dev.pop_command_request()).unwrap() {
        DescriptorRef::UpdateMemoryRegionTable(r) => r,
        other => panic!("unexpected descriptor {other:?}"),
    };
    assert!(dev.handle_update_memory_region_table(&req, Ok::<(), &str>(())).is_ok());
    assert_eq!(response_at(&dev, 0x400), CommonHeader::new(Opcode::UpdateMrTable, true, 11));

    // one whose update fails gets no response and gives the error back
    let req = match DescriptorRef::parse(&dev.pop_command_request()).unwrap() {
        DescriptorRef::UpdateMemoryRegionTable(r) => r,
        other => panic!("unexpected descriptor {other:?}"),
    };
    assert_eq!(dev.handle_update_memory_region_table(&req, Err("table full")), Err("table full"));
    assert_eq!(dev.csrs.cmd_response.head, 1);
    assert_eq!(dev.dma_client.read(0x420, 8, 8), vec![0u8; 8]);

    // a recovery request is answered with whether the queue pair recovered
    let req = match DescriptorRef::parse(&dev.pop_command_request()).unwrap() {
        DescriptorRef::UpdateErrorPacketSequenceNumberRecoverPoint(r) => r,
        other => panic!("unexpected descriptor {other:?}"),
    };
    assert_eq!(req.packet_sequence_number(), 5);
    assert_eq!(req.queue_pair_number(), 7);
    dev.handle_update_error_psn_recover_point(&req, false);
    assert_eq!(
        response_at(&dev, 0x420),
        CommonHeader::new(Opcode::UpdateErrorPsnRecoverPoint, false, 13)
    );

    let req = match DescriptorRef::parse(&dev.pop_command_request()).unwrap() {
        DescriptorRef::SetNetworkParameter(r) => r,
        other => panic!("unexpected descriptor {other:?}"),
    };
    dev.handle_set_network_parameter(&req);
    assert_eq!(response_at(&dev, 0x440), CommonHeader::new(Opcode::SetNetworkParam, true, 14));
    assert_eq!(dev.csrs.cmd_response.head, 3);
    assert_eq!(dev.csrs.cmd_request.tail, 4);
}

#[test]
fn respond_posts_header() {
    let mut dev = device();
    dev.csrs.cmd_response = QueueRegisters { addr: 0x200, head: 2, tail: 1 };
    let d = Unknown::from_bytes(&bytes_of([1 | (2 << 2) | (77 << 32), 0, 0, 0]));
    let parsed = DescriptorRef::parse(&d).unwrap();
    dev.respond(&parsed, false);
    assert_eq!(dev.csrs.cmd_response.head, 3);
    assert_eq!(response_at(&dev, 0x240), CommonHeader::new(Opcode::QpManagement, false, 77));
}

#[test]
fn command_ring_must_be_aligned_send_ring_need_not() {
    let mut dev = device();
    dev.csrs.cmd_request = QueueRegisters { addr: 0x108, head: 1, tail: 0 };
    assert!(!dev.command_request_pending());

    dev.csrs.send = QueueRegisters { addr: 0x411, head: 3, tail: 0 };
    let seg0 = bytes_of([1 | (1 << 2) | (1 << 3) | (6144u64 << 32), 0x8000, 0x77, 9]);
    let seg1 = bytes_of([5 | (2 << 16) | (1 << 24) | (10u64 << 32), 0, 0x42, 0]);
    let sge = bytes_of([0, 0, 0x31 | (6144u64 << 32), 0x10_0000]);
    dev.dma_client.write(0x411, &seg0);
    dev.dma_client.write(0x431, &seg1);
    dev.dma_client.write(0x451, &sge);
    assert!(dev.send_pending());
    assert!(dev.write_request_ready());
    let w = dev.next_write_request();
    assert_eq!(w.common.total_len, 6144);
    assert_eq!(w.common.dest_qpn, 0x42);
    assert_eq!(w.sge.len, 6144);
    assert_eq!(dev.csrs.send.tail, 3);
}

#[test]
fn payload_is_read_at_translated_address() {
    let mut dev = device();
    let data: Vec<u8> = (0..200u32).map(|i| i as u8).collect();
    dev.dma_client.write(0x300, &data);
    dev.csrs.send = QueueRegisters { addr: 0, head: 3, tail: 0 };
    dev.dma_client.write(0, &bytes_of([1 | (1 << 2) | (1 << 3) | (600u64 << 32), 0x8000, 0x77, 0]));
    dev.dma_client.write(32, &bytes_of([1 | (2 << 16) | (1 << 24), 0, 0x42, 0]));
    dev.dma_client.write(64, &bytes_of([0, 0, 0x31 | (600u64 << 32), 0x10f0]));
    let w = dev.next_write_request();
    let packets = w.packets();
    assert_eq!(packets[0].len, 16);
    assert_eq!(dev.read_payload(&packets[0], DmaAddress(0x300)), data[..16].to_vec());
    assert_eq!(packets[1].len, 72);
    assert_eq!(dev.read_payload(&packets[1], DmaAddress(0x310)), data[16..88].to_vec());
}

#[test]
fn pop_command_request_wraps_around_ring() {
    let mut dev = device();
    let last = COMMAND_REQUEST_RING_SLOTS - 1;
    dev.csrs.cmd_request = QueueRegisters { addr: 0, head: COMMAND_REQUEST_RING_SLOTS, tail: last };
    let words = [1 | (3 << 2), 0xC0A8_0001, 0xC0A8_0002, 0];
    dev.dma_client.write(last as u64 * 32, &bytes_of(words));
    assert!(dev.command_request_pending());
    let req = dev.pop_command_request();
    assert_eq!(req.header.0, words[0]);
    assert_eq!(req.body.0, words[1]);
    assert_eq!(dev.csrs.cmd_request.tail, 0);
}

#[test]
fn command_request_not_pending_outside_memory() {
    let mut dev = device();
    dev.csrs.cmd_request = QueueRegisters { addr: 4096, head: 1, tail: 0 };
    assert!(!dev.command_request_pending());
    dev.csrs.cmd_request = QueueRegisters { addr: 0, head: 0, tail: 0 };
    assert!(!dev.command_request_pending());
}

#[test]
fn next_write_request_reads_three_segments() {
    let mut dev = device();
    dev.csrs.send = QueueRegisters { addr: 0x400, head: 3, tail: 0 };
    let va = 0x10_0000u64;
    let seg0 = bytes_of([1 | (1 << 2) | (1 << 3) | (6144u64 << 32), 0x8000, 0x77 | (0xC0A8_0003u64 << 32), 9]);
    let seg1 = bytes_of([5 | (2 << 16) | (1 << 24) | (10u64 << 32), 0, 0x42, 0]);
    let sge = bytes_of([0, 0, 0x31 | (6144u64 << 32), va]);
    dev.dma_client.write(0x400, &seg0);
    dev.dma_client.write(0x420, &seg1);
    dev.dma_client.write(0x440, &sge);

    assert!(dev.write_request_ready());
    let w = dev.next_write_request();
    assert_eq!(dev.csrs.send.tail, 3);
    assert!(!dev.write_request_ready());
    assert_eq!(w.common.total_len, 6144);
    assert_eq!(w.common.remote_addr.0, 0x8000);
    assert_eq!(w.common.qp_type, QueuePairType::Rc);
    assert_eq!(w.common.psn, 10);
    assert_eq!(w.common.dest_qpn, 0x42);
    assert_eq!(w.sge.len, 6144);

    let packets = w.packets();
    assert_eq!(packets[0].opcode, WriteOpcode::RdmaWriteFirst);
    assert_eq!(packets[0].len, 4096);
    assert_eq!(packets[0].rkey, 0x77);
    assert_eq!(packets[1].opcode, WriteOpcode::RdmaWriteLast);
    assert_eq!(packets[1].local_va, VirtualAddress(va + 4096));
    assert_eq!(packets[1].len, 2048);
    assert_eq!(packets[1].psn, 11);
}

#[test]
fn write_request_not_ready_for_read_opcode() {
    let mut dev = device();
    dev.csrs.send = QueueRegisters { addr: 0, head: 3, tail: 0 };
    dev.dma_client.write(0, &bytes_of([1 | (4 << 4), 0, 0, 0]));
    dev.dma_client.write(32, &bytes_of([1 | (2 << 16), 0, 0, 0]));
    assert!(!dev.write_request_ready());
}

#[test]
fn push_meta_report_writes_descriptor() {
    let mut dev = device();
    dev.csrs.meta_report = QueueRegisters { addr: 0x800, head: 2, tail: 0 };
    let bth = BaseTransportHeader::new(0, 10, 0x12, 0x345, false, true, 0);
    let reth = RdmaExtendedTransportHeader::new(VirtualAddress(0x1122_3344_5566_7788), MemoryRegionKey(5), 100);
    let report = BthReth::new(0x345, 1, bth, reth, 3, true);
    let raw = report.to_raw();
    dev.push_meta_report(raw);
    assert_eq!(dev.csrs.meta_report.head, 3);
    let slot = dev.dma_client.read(0x800 + 2 * 32, 32, 32);
    assert_eq!(slot, raw.to_bytes());
    assert_eq!(RawDescriptor::from_bytes(&slot), raw);
}

#[test]
fn base_transport_header_fields() {
    let bth = BaseTransportHeader::new(5, 17, 0xab_cdef, 0x12_3456, true, false, 3);
    assert_eq!(bth.0 .0, 5 | (17 << 3) | (0xab_cdef << 8));
    assert_eq!(bth.1 .0, 0x12_3456 | (1 << 24) | (3 << 26));
}

#[test]
fn status_words() {
    assert_eq!(PsnAndReqStatus::new(0x12_3456, 0x9a).0, 0x9a12_3456);
    assert_eq!(MessageSequenceNumberAndCanAutoAck::new(7, true).0, 0x8000_0007);
    assert_eq!(MessageSequenceNumberAndCanAutoAck::new(7, false).0, 7);
}

#[test]
fn bth_reth_layout() {
    let bth = BaseTransportHeader::new(0, 6, 1, 2, false, false, 0);
    let reth = RdmaExtendedTransportHeader::new(VirtualAddress(0x1122_3344_5566_7788), MemoryRegionKey(0xaa), 0x100);
    let r = BthReth::new(2, 0, bth, reth, 9, false).to_raw();
    let bytes = r.to_bytes();
    assert_eq!(&bytes[0..4], &2u32.to_le_bytes());
    assert_eq!(&bytes[4..8], &bth.0 .0.to_le_bytes());
    assert_eq!(&bytes[8..12], &bth.1 .0.to_le_bytes());
    assert_eq!(&bytes[12..20], &0x1122_3344_5566_7788u64.to_le_bytes());
    assert_eq!(&bytes[20..24], &0xaau32.to_le_bytes());
    assert_eq!(&bytes[24..28], &0x100u32.to_le_bytes());
    assert_eq!(&bytes[28..32], &9u32.to_le_bytes());
}

#[test]
fn bth_aeth_round_trip() {
    let bth = BaseTransportHeader::new(0, 17, 3, 4, false, false, 0);
    let aeth = AckExtendedTransportHeader(0x0102_0304_0506_0708);
    let report = BthAeth::new(2, bth, aeth);
    assert_eq!(report.req_status.0, 0x0200_0000);
    let raw = report.to_raw();
    assert_eq!(raw.w3, 0);
    let bytes = raw.to_bytes();
    assert_eq!(&bytes[12..20], &0x0102_0304_0506_0708u64.to_le_bytes());
    assert_eq!(&bytes[20..32], &[0u8; 12]);
    assert_eq!(BthAeth::from_ne_bytes(&bytes), report);
}

#[test]
fn big_endian_slices() {
    assert_eq!(u8_slice_to_u64(&[]), 0);
    assert_eq!(u8_slice_to_u64(&[0x12, 0x34]), 0x1234);
    assert_eq!(u8_slice_to_u64(&[1, 2, 3, 4, 5, 6, 7, 8]), 0x0102_0304_0506_0708);
    // only the last eight bytes count
    assert_eq!(u8_slice_to_u64(&[0xff, 1, 2, 3, 4, 5, 6, 7, 8]), 0x0102_0304_0506_0708);
}

#[test]
fn aligned_sizes() {
    assert_eq!(PAGE_SIZE, 4096);
    assert!(aligned_size_ok(0));
    assert!(aligned_size_ok(4097));
    assert!(aligned_size_ok(isize::MAX as usize - 4095));
    assert!(!aligned_size_ok(isize::MAX as usize));
    assert!(!aligned_size_ok(usize::MAX));
}

#[test]
fn mock_agent_walks_fragments_and_frames() {
    let mut agent = MockAgent::new();
    assert_eq!(agent.next_capture(), (0, 0));
    agent.capture_delivered(0);
    assert_eq!(agent.next_capture(), (0, 1));
    agent.capture_delivered(1);
    assert_eq!(agent, MockAgent { frame: 1, fragment: 0 });
    assert_eq!(agent.next_capture(), (1, 0));
}
