use rust_driver::csr::{
    decode_address, QueueKind, QueueRegister, Register, Registers, HARDWARE_VERSION,
    REGISTERS_COMMAND_REQUEST_BASE_ADDR, REGISTERS_COMMAND_RESPONSE_BASE_ADDR,
    REGISTERS_HW_VERSION, REGISTERS_META_REPORT_BASE_ADDR, REGISTERS_SEND_BASE_ADDR,
    REGISTERS_SOFT_RESET,
};
use rust_driver::csr_proxy::{BarIoInfo, Proxy};

#[test]
fn address_map() {
    assert_eq!(
        decode_address(REGISTERS_COMMAND_REQUEST_BASE_ADDR + 8),
        Some(Register::Queue(QueueKind::CommandRequest, QueueRegister::Head))
    );
    assert_eq!(
        decode_address(REGISTERS_SEND_BASE_ADDR + 12),
        Some(Register::Queue(QueueKind::Send, QueueRegister::Tail))
    );
    assert_eq!(
        decode_address(REGISTERS_META_REPORT_BASE_ADDR + 4),
        Some(Register::Queue(QueueKind::MetaReport, QueueRegister::AddrHigh))
    );
    assert_eq!(decode_address(REGISTERS_SOFT_RESET), Some(Register::SoftReset));
    assert_eq!(decode_address(REGISTERS_HW_VERSION), Some(Register::HardwareVersion));
    assert_eq!(decode_address(REGISTERS_COMMAND_RESPONSE_BASE_ADDR + 2), None);
    assert_eq!(decode_address(0), None);
    assert!(!Registers::is_writable(REGISTERS_HW_VERSION));
    assert!(Registers::is_readable(REGISTERS_HW_VERSION));
    assert!(!Registers::is_readable(REGISTERS_SEND_BASE_ADDR + 16 + 0x100));
}

#[test]
fn read_after_write_and_halves() {
    let mut regs = Registers::new();
    let base = REGISTERS_COMMAND_RESPONSE_BASE_ADDR;
    regs.write(base, 0x1234_5678);
    regs.write(base + 4, 0x9abc_def0);
    assert_eq!(regs.cmd_response.addr, 0x9abc_def0_1234_5678);
    assert_eq!(regs.read(base), 0x1234_5678);
    assert_eq!(regs.read(base + 4), 0x9abc_def0);
    regs.write(base, 1);
    assert_eq!(regs.read(base + 4), 0x9abc_def0);
    assert_eq!(regs.read(base), 1);
    regs.write(base + 8, 5);
    regs.write(base + 12, 3);
    assert_eq!((regs.cmd_response.head, regs.cmd_response.tail), (5, 3));
    assert_eq!(regs.read(REGISTERS_COMMAND_REQUEST_BASE_ADDR + 8), 0);
    regs.write(REGISTERS_SOFT_RESET, 1);
    assert_eq!(regs.read(REGISTERS_SOFT_RESET), 1);
    assert_eq!(regs.read(REGISTERS_HW_VERSION), HARDWARE_VERSION);
}

#[test]
fn proxy_serves_reads_and_writes() {
    let proxy = Proxy::new(3);
    assert_eq!(proxy.client_id, 3);
    let mut regs = Registers::new();
    let write = BarIoInfo { value: 0x1_0000_0007, addr: REGISTERS_SEND_BASE_ADDR + 8, valid: 1, pci_tag: 11 };
    assert!(write.is_valid());
    let resp = proxy.handle_write_request(&mut regs, &write);
    assert_eq!(resp, BarIoInfo::new_write_response(11, true));
    assert_eq!(regs.send.head, 7);
    let read = BarIoInfo { value: 0, addr: REGISTERS_SEND_BASE_ADDR + 8, valid: 1, pci_tag: 12 };
    let resp = proxy.handle_read_request(&regs, &read);
    assert_eq!(resp, BarIoInfo::new_read_response(12, 7));
    assert!(!BarIoInfo::new().is_valid());
}
