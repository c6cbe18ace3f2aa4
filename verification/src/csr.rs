//! Control and status registers of the device and their address map.
//!
//! Each of the four queues has a block of 16 bytes: the low and high halves
//! of the ring base address at offsets 0 and 4, the head at 8, the tail at
//! 12. Besides, one register requests a soft reset and one reports the
//! hardware version.

use vstd::prelude::*;

verus! {

pub const REGISTERS_COMMAND_REQUEST_BASE_ADDR: u64 = 0x8000;

pub const REGISTERS_COMMAND_RESPONSE_BASE_ADDR: u64 = 0x8010;

pub const REGISTERS_META_REPORT_BASE_ADDR: u64 = 0x8020;

pub const REGISTERS_SEND_BASE_ADDR: u64 = 0x8030;

pub const REGISTERS_SOFT_RESET: u64 = 0x8040;

pub const REGISTERS_HW_VERSION: u64 = 0x8044;

/// The value of the hardware version register.
pub const HARDWARE_VERSION: u32 = 1;

/// The four queues shared by driver and device.
#[derive(Debug, Clone, Copy, PartialEq, Eq, Structural)]
pub enum QueueKind {
    CommandRequest,
    CommandResponse,
    MetaReport,
    Send,
}

/// The registers of one queue.
#[derive(Debug, Clone, Copy, PartialEq, Eq, Structural)]
pub enum QueueRegister {
    AddrLow,
    AddrHigh,
    Head,
    Tail,
}

/// A register of the device.
#[derive(Debug, Clone, Copy, PartialEq, Eq, Structural)]
pub enum Register {
    Queue(QueueKind, QueueRegister),
    SoftReset,
    HardwareVersion,
}

/// Base address of the register block of a queue.
pub open spec fn spec_queue_base(q: QueueKind) -> u64 {
    match q {
        QueueKind::CommandRequest => REGISTERS_COMMAND_REQUEST_BASE_ADDR,
        QueueKind::CommandResponse => REGISTERS_COMMAND_RESPONSE_BASE_ADDR,
        QueueKind::MetaReport => REGISTERS_META_REPORT_BASE_ADDR,
        QueueKind::Send => REGISTERS_SEND_BASE_ADDR,
    }
}

/// Offset of a register inside its queue's block.
pub open spec fn spec_queue_offset(r: QueueRegister) -> u64 {
    match r {
        QueueRegister::AddrLow => 0,
        QueueRegister::AddrHigh => 4,
        QueueRegister::Head => 8,
        QueueRegister::Tail => 12,
    }
}

/// The address of a register.
pub open spec fn spec_address(r: Register) -> u64 {
    match r {
        Register::Queue(q, qr) => (spec_queue_base(q) + spec_queue_offset(qr)) as u64,
        Register::SoftReset => REGISTERS_SOFT_RESET,
        Register::HardwareVersion => REGISTERS_HW_VERSION,
    }
}

/// The register at `addr`, if there is one.
pub open spec fn spec_decode(addr: u64) -> Option<Register> {
    if exists|r: Register| spec_address(r) == addr {
        Some(choose|r: Register| spec_address(r) == addr)
    } else {
        None
    }
}

/// Different registers have different addresses.
pub proof fn lemma_addresses_distinct(r1: Register, r2: Register)
    ensures
        spec_address(r1) == spec_address(r2) ==> r1 == r2,
{
}

fn queue_register_at(offset: u64) -> (res: Option<QueueRegister>)
    ensures
        match res {
            Some(r) => spec_queue_offset(r) == offset,
            None => forall|r: QueueRegister| spec_queue_offset(r) != offset,
        },
{
    if offset == 0 {
        Some(QueueRegister::AddrLow)
    } else if offset == 4 {
        Some(QueueRegister::AddrHigh)
    } else if offset == 8 {
        Some(QueueRegister::Head)
    } else if offset == 12 {
        Some(QueueRegister::Tail)
    } else {
        None
    }
}

/// Finds the register at `addr`.
pub fn decode_address(addr: u64) -> (res: Option<Register>)
    ensures
        res == spec_decode(addr),
        res matches Some(r) ==> spec_address(r) == addr,
{
    let queue = if REGISTERS_COMMAND_REQUEST_BASE_ADDR <= addr && addr
        < REGISTERS_COMMAND_REQUEST_BASE_ADDR + 16 {
        Some(QueueKind::CommandRequest)
    } else if REGISTERS_COMMAND_RESPONSE_BASE_ADDR <= addr && addr
        < REGISTERS_COMMAND_RESPONSE_BASE_ADDR + 16 {
        Some(QueueKind::CommandResponse)
    } else if REGISTERS_META_REPORT_BASE_ADDR <= addr && addr < REGISTERS_META_REPORT_BASE_ADDR
        + 16 {
        Some(QueueKind::MetaReport)
    } else if REGISTERS_SEND_BASE_ADDR <= addr && addr < REGISTERS_SEND_BASE_ADDR + 16 {
        Some(QueueKind::Send)
    } else {
        None
    };
    let res = match queue {
        Some(q) => {
            let offset = addr & 0xF;
            assert(addr & 0xF == addr % 16) by (bit_vector);
            match queue_register_at(offset) {
                Some(qr) => Some(Register::Queue(q, qr)),
                None => None,
            }
        },
        None => {
            if addr == REGISTERS_SOFT_RESET {
                Some(Register::SoftReset)
            } else if addr == REGISTERS_HW_VERSION {
                Some(Register::HardwareVersion)
            } else {
                None
            }
        },
    };
    proof {
        match res {
            Some(r) => {
                assert(spec_address(r) == addr);
                assert(exists|r2: Register| spec_address(r2) == addr);
                lemma_addresses_distinct(r, choose|r2: Register| spec_address(r2) == addr);
            },
            None => {
                assert forall|r: Register| spec_address(r) != addr by {
                    match r {
                        Register::Queue(q, qr) => {},
                        _ => {},
                    }
                }
            },
        }
    }
    res
}

/// Base address, head and tail of one queue ring.
#[derive(Debug, Clone, Copy, PartialEq, Eq, Structural)]
pub struct QueueRegisters {
    pub addr: u64,
    pub head: u32,
    pub tail: u32,
}

impl QueueRegisters {
    /// Empty registers: address, head and tail zero.
    pub fn new() -> (res: Self)
        ensures
            res.addr == 0,
            res.head == 0,
            res.tail == 0,
    {
        QueueRegisters { addr: 0, head: 0, tail: 0 }
    }

    /// The value that reading `r` gives.
    pub open spec fn spec_read(self, r: QueueRegister) -> u32 {
        match r {
            QueueRegister::AddrLow => (self.addr % 0x1_0000_0000) as u32,
            QueueRegister::AddrHigh => (self.addr / 0x1_0000_0000) as u32,
            QueueRegister::Head => self.head,
            QueueRegister::Tail => self.tail,
        }
    }

    /// The registers after writing `v` to `r`.
    pub open spec fn spec_write(self, r: QueueRegister, v: u32) -> QueueRegisters {
        match r {
            QueueRegister::AddrLow => QueueRegisters {
                addr: ((self.addr / 0x1_0000_0000) * 0x1_0000_0000 + v) as u64,
                ..self
            },
            QueueRegister::AddrHigh => QueueRegisters {
                addr: (v * 0x1_0000_0000 + self.addr % 0x1_0000_0000) as u64,
                ..self
            },
            QueueRegister::Head => QueueRegisters { head: v, ..self },
            QueueRegister::Tail => QueueRegisters { tail: v, ..self },
        }
    }

    pub fn read(&self, r: QueueRegister) -> (res: u32)
        ensures
            res == self.spec_read(r),
    {
        match r {
            QueueRegister::AddrLow => {
                let a = self.addr;
                assert(a & 0xffff_ffff == a % 0x1_0000_0000) by (bit_vector);
                (a & 0xffff_ffff) as u32
            },
            QueueRegister::AddrHigh => {
                let a = self.addr;
                assert(a >> 32u64 == a / 0x1_0000_0000) by (bit_vector);
                (a >> 32u64) as u32
            },
            QueueRegister::Head => self.head,
            QueueRegister::Tail => self.tail,
        }
    }

    pub fn write(&mut self, r: QueueRegister, v: u32)
        ensures
            *final(self) == old(self).spec_write(r, v),
    {
        match r {
            QueueRegister::AddrLow => {
                let a = self.addr;
                let n = (a & 0xffff_ffff_0000_0000) | (v as u64);
                assert((a & 0xffff_ffff_0000_0000) | (v as u64) == (a / 0x1_0000_0000)
                    * 0x1_0000_0000 + v) by (bit_vector);
                self.addr = n;
            },
            QueueRegister::AddrHigh => {
                let a = self.addr;
                let n = ((v as u64) << 32u64) | (a & 0xffff_ffff);
                assert(((v as u64) << 32u64) | (a & 0xffff_ffff) == v * 0x1_0000_0000 + a
                    % 0x1_0000_0000) by (bit_vector);
                self.addr = n;
            },
            QueueRegister::Head => {
                self.head = v;
            },
            QueueRegister::Tail => {
                self.tail = v;
            },
        }
    }
}

/// All registers of the device.
#[derive(Debug, Clone, Copy, PartialEq, Eq, Structural)]
pub struct Registers {
    pub cmd_request: QueueRegisters,
    pub cmd_response: QueueRegisters,
    pub meta_report: QueueRegisters,
    pub send: QueueRegisters,
    pub reset: u32,
}

impl Registers {
    /// All registers zero.
    pub fn new() -> (res: Self)
        ensures
            res.cmd_request == (QueueRegisters { addr: 0, head: 0, tail: 0 }),
            res.cmd_response == (QueueRegisters { addr: 0, head: 0, tail: 0 }),
            res.meta_report == (QueueRegisters { addr: 0, head: 0, tail: 0 }),
            res.send == (QueueRegisters { addr: 0, head: 0, tail: 0 }),
            res.reset == 0,
    {
        Registers {
            cmd_request: QueueRegisters::new(),
            cmd_response: QueueRegisters::new(),
            meta_report: QueueRegisters::new(),
            send: QueueRegisters::new(),
            reset: 0,
        }
    }

    /// The registers of queue `q`.
    pub open spec fn spec_queue(self, q: QueueKind) -> QueueRegisters {
        match q {
            QueueKind::CommandRequest => self.cmd_request,
            QueueKind::CommandResponse => self.cmd_response,
            QueueKind::MetaReport => self.meta_report,
            QueueKind::Send => self.send,
        }
    }

    /// The value that reading register `r` gives.
    pub open spec fn spec_read(self, r: Register) -> u32 {
        match r {
            Register::Queue(q, qr) => self.spec_queue(q).spec_read(qr),
            Register::SoftReset => self.reset,
            Register::HardwareVersion => HARDWARE_VERSION,
        }
    }

    /// The registers after writing `v` to register `r`; the version register
    /// ignores writes.
    pub open spec fn spec_write(self, r: Register, v: u32) -> Registers {
        match r {
            Register::Queue(q, qr) => match q {
                QueueKind::CommandRequest => Registers {
                    cmd_request: self.cmd_request.spec_write(qr, v),
                    ..self
                },
                QueueKind::CommandResponse => Registers {
                    cmd_response: self.cmd_response.spec_write(qr, v),
                    ..self
                },
                QueueKind::MetaReport => Registers {
                    meta_report: self.meta_report.spec_write(qr, v),
                    ..self
                },
                QueueKind::Send => Registers { send: self.send.spec_write(qr, v), ..self },
            },
            Register::SoftReset => Registers { reset: v, ..self },
            Register::HardwareVersion => self,
        }
    }

    /// Whether `addr` names a register that can be read.
    pub open spec fn spec_readable(addr: u64) -> bool {
        spec_decode(addr) is Some
    }

    /// Whether `addr` names a register that can be written.
    pub open spec fn spec_writable(addr: u64) -> bool {
        spec_decode(addr) is Some && spec_decode(addr) != Some(Register::HardwareVersion)
    }

    /// Whether `addr` names a register that can be read.
    pub fn is_readable(addr: u64) -> (res: bool)
        ensures
            res == Self::spec_readable(addr),
    {
        decode_address(addr).is_some()
    }

    /// Whether `addr` names a register that can be written.
    pub fn is_writable(addr: u64) -> (res: bool)
        ensures
            res == Self::spec_writable(addr),
    {
        match decode_address(addr) {
            Some(Register::HardwareVersion) => false,
            Some(_) => true,
            None => false,
        }
    }

    /// Reads the register at `addr`.
    pub fn read(&self, addr: u64) -> (res: u32)
        requires
            Self::spec_readable(addr),
        ensures
            res == self.spec_read(spec_decode(addr).unwrap()),
    {
        match decode_address(addr) {
            Some(Register::Queue(q, qr)) => match q {
                QueueKind::CommandRequest => self.cmd_request.read(qr),
                QueueKind::CommandResponse => self.cmd_response.read(qr),
                QueueKind::MetaReport => self.meta_report.read(qr),
                QueueKind::Send => self.send.read(qr),
            },
            Some(Register::SoftReset) => self.reset,
            Some(Register::HardwareVersion) => HARDWARE_VERSION,
            None => 0,
        }
    }

    /// Writes `val` to the register at `addr`.
    pub fn write(&mut self, addr: u64, val: u32)
        requires
            Self::spec_writable(addr),
        ensures
            *final(self) == old(self).spec_write(spec_decode(addr).unwrap(), val),
    {
        match decode_address(addr) {
            Some(Register::Queue(q, qr)) => match q {
                QueueKind::CommandRequest => self.cmd_request.write(qr, val),
                QueueKind::CommandResponse => self.cmd_response.write(qr, val),
                QueueKind::MetaReport => self.meta_report.write(qr, val),
                QueueKind::Send => self.send.write(qr, val),
            },
            Some(Register::SoftReset) => {
                self.reset = val;
            },
            _ => {},
        }
    }
}

/// Reading a register gives what was last written to it.
pub proof fn lemma_read_after_write(regs: Registers, addr: u64, val: u32)
    requires
        Registers::spec_writable(addr),
    ensures
        regs.spec_write(spec_decode(addr).unwrap(), val).spec_read(spec_decode(addr).unwrap())
            == val,
{
    let r = spec_decode(addr).unwrap();
    match r {
        Register::Queue(q, qr) => {
            let a = regs.spec_queue(q).addr;
            let v = val as u64;
            match qr {
                QueueRegister::AddrLow => {
                    assert(((((a / 0x1_0000_0000) * 0x1_0000_0000 + v) as u64) % 0x1_0000_0000)
                        == v) by (nonlinear_arith)
                        requires
                            v < 0x1_0000_0000,
                    ;
                },
                QueueRegister::AddrHigh => {
                    assert((((v * 0x1_0000_0000 + a % 0x1_0000_0000) as u64) / 0x1_0000_0000) == v)
                        by (nonlinear_arith)
                        requires
                            v < 0x1_0000_0000,
                    ;
                },
                _ => {},
            }
        },
        _ => {},
    }
}

/// Writing a register leaves every other register as it was.
pub proof fn lemma_write_keeps_others(regs: Registers, addr: u64, val: u32, other: u64)
    requires
        Registers::spec_writable(addr),
        Registers::spec_readable(other),
        other != addr,
    ensures
        regs.spec_write(spec_decode(addr).unwrap(), val).spec_read(spec_decode(other).unwrap())
            == regs.spec_read(spec_decode(other).unwrap()),
{
    let r = spec_decode(addr).unwrap();
    let o = spec_decode(other).unwrap();
    assert(spec_address(r) == addr);
    assert(spec_address(o) == other);
    match (r, o) {
        (Register::Queue(q, qr), Register::Queue(q2, qr2)) => {
            if q == q2 {
                let a = regs.spec_queue(q).addr;
                let v = val as u64;
                match (qr, qr2) {
                    (QueueRegister::AddrLow, QueueRegister::AddrHigh) => {
                        assert((((a / 0x1_0000_0000) * 0x1_0000_0000 + v) as u64) / 0x1_0000_0000
                            == a / 0x1_0000_0000) by (nonlinear_arith)
                            requires
                                v < 0x1_0000_0000,
                                a < 0x1_0000_0000_0000_0000,
                        ;
                    },
                    (QueueRegister::AddrHigh, QueueRegister::AddrLow) => {
                        assert((((v * 0x1_0000_0000 + a % 0x1_0000_0000) as u64) % 0x1_0000_0000)
                            == a % 0x1_0000_0000) by (nonlinear_arith)
                            requires
                                v < 0x1_0000_0000,
                        ;
                    },
                    _ => {},
                }
            }
        },
        _ => {},
    }
}

/// The registers after the writes `ws` (address and value), in order.
pub open spec fn spec_write_all(regs: Registers, ws: Seq<(u64, u32)>) -> Registers
    decreases ws.len(),
{
    if ws.len() == 0 {
        regs
    } else {
        spec_write_all(regs, ws.drop_last()).spec_write(spec_decode(ws.last().0).unwrap(), ws.last().1)
    }
}

/// The value of the last write to `addr` among `ws`, if any writes it.
pub open spec fn spec_last_write(ws: Seq<(u64, u32)>, addr: u64) -> Option<u32>
    decreases ws.len(),
{
    if ws.len() == 0 {
        None
    } else if ws.last().0 == addr {
        Some(ws.last().1)
    } else {
        spec_last_write(ws.drop_last(), addr)
    }
}

/// After any sequence of register writes, reading a register gives the value
/// of the last write to it, or, if none wrote it, what it held before.
pub proof fn lemma_read_after_writes(regs: Registers, ws: Seq<(u64, u32)>, addr: u64)
    requires
        forall|i: int| 0 <= i < ws.len() ==> Registers::spec_writable(#[trigger] ws[i].0),
        Registers::spec_readable(addr),
    ensures
        spec_write_all(regs, ws).spec_read(spec_decode(addr).unwrap()) == match spec_last_write(
            ws,
            addr,
        ) {
            Some(v) => v,
            None => regs.spec_read(spec_decode(addr).unwrap()),
        },
    decreases ws.len(),
{
    if ws.len() > 0 {
        let init = ws.drop_last();
        assert forall|i: int| 0 <= i < init.len() implies Registers::spec_writable(
            #[trigger] init[i].0,
        ) by {
            assert(init[i] == ws[i]);
        }
        lemma_read_after_writes(regs, init, addr);
        let (a, v) = ws.last();
        assert(Registers::spec_writable(ws[ws.len() - 1].0));
        if a == addr {
            lemma_read_after_write(spec_write_all(regs, init), a, v);
        } else {
            lemma_write_keeps_others(spec_write_all(regs, init), a, v, addr);
        }
    }
}

/// Decoding the address of a register gives that register.
pub proof fn lemma_decode_of_address(r: Register)
    ensures
        spec_decode(spec_address(r)) == Some(r),
{
    assert(exists|r2: Register| spec_address(r2) == spec_address(r));
    lemma_addresses_distinct(r, choose|r2: Register| spec_address(r2) == spec_address(r));
}

/// Replacing the low or the high half of a 64-bit address.
proof fn lemma_address_halves(a: u64, v: u32)
    ensures
        (((a / 0x1_0000_0000) * 0x1_0000_0000 + v) as u64) % 0x1_0000_0000 == v,
        (((a / 0x1_0000_0000) * 0x1_0000_0000 + v) as u64) / 0x1_0000_0000 == a / 0x1_0000_0000,
        (((v * 0x1_0000_0000 + a % 0x1_0000_0000) as u64) / 0x1_0000_0000) == v,
        (((v * 0x1_0000_0000 + a % 0x1_0000_0000) as u64) % 0x1_0000_0000) == a
            % 0x1_0000_0000,
{
    let lo = ((a / 0x1_0000_0000) * 0x1_0000_0000 + v) as u64;
    let hi = ((v * 0x1_0000_0000 + a % 0x1_0000_0000) as u64);
    assert(lo % 0x1_0000_0000 == v && lo / 0x1_0000_0000 == a / 0x1_0000_0000)
        by (nonlinear_arith)
        requires
            v < 0x1_0000_0000,
            a < 0x1_0000_0000_0000_0000,
            lo == (a / 0x1_0000_0000) * 0x1_0000_0000 + v,
    ;
    assert(hi / 0x1_0000_0000 == v && hi % 0x1_0000_0000 == a % 0x1_0000_0000)
        by (nonlinear_arith)
        requires
            v < 0x1_0000_0000,
            hi == v * 0x1_0000_0000 + a % 0x1_0000_0000,
    ;
}

/// The register map: the four registers of each queue's block (base
/// address, then the low and high halves of the ring address, the head and
/// the tail) are that queue's own registers, and no write to them touches
/// anything else; 0x8040 is the soft reset register and 0x8044 the
/// read-only hardware version, 1.
pub proof fn lemma_register_map(regs: Registers, v: u32)
    ensures
        regs.spec_write(spec_decode(0x8008).unwrap(), v) == (Registers {
            cmd_request: QueueRegisters { head: v, ..regs.cmd_request },
            ..regs
        }),
        regs.spec_write(spec_decode(0x800c).unwrap(), v) == (Registers {
            cmd_request: QueueRegisters { tail: v, ..regs.cmd_request },
            ..regs
        }),
        ({
            let w = regs.spec_write(spec_decode(0x8000).unwrap(), v);
            &&& w == (Registers { cmd_request: QueueRegisters { addr: w.cmd_request.addr, ..regs.cmd_request }, ..regs })
            &&& w.cmd_request.addr % 0x1_0000_0000 == v
            &&& w.cmd_request.addr / 0x1_0000_0000 == regs.cmd_request.addr / 0x1_0000_0000
        }),
        ({
            let w = regs.spec_write(spec_decode(0x8004).unwrap(), v);
            &&& w == (Registers { cmd_request: QueueRegisters { addr: w.cmd_request.addr, ..regs.cmd_request }, ..regs })
            &&& w.cmd_request.addr / 0x1_0000_0000 == v
            &&& w.cmd_request.addr % 0x1_0000_0000 == regs.cmd_request.addr % 0x1_0000_0000
        }),
        regs.spec_read(spec_decode(0x8000).unwrap()) == regs.cmd_request.addr % 0x1_0000_0000,
        regs.spec_read(spec_decode(0x8004).unwrap()) == regs.cmd_request.addr / 0x1_0000_0000,
        regs.spec_read(spec_decode(0x8008).unwrap()) == regs.cmd_request.head,
        regs.spec_read(spec_decode(0x800c).unwrap()) == regs.cmd_request.tail,
        regs.spec_write(spec_decode(0x8018).unwrap(), v) == (Registers {
            cmd_response: QueueRegisters { head: v, ..regs.cmd_response },
            ..regs
        }),
        regs.spec_write(spec_decode(0x801c).unwrap(), v) == (Registers {
            cmd_response: QueueRegisters { tail: v, ..regs.cmd_response },
            ..regs
        }),
        ({
            let w = regs.spec_write(spec_decode(0x8010).unwrap(), v);
            &&& w == (Registers { cmd_response: QueueRegisters { addr: w.cmd_response.addr, ..regs.cmd_response }, ..regs })
            &&& w.cmd_response.addr % 0x1_0000_0000 == v
            &&& w.cmd_response.addr / 0x1_0000_0000 == regs.cmd_response.addr / 0x1_0000_0000
        }),
        ({
            let w = regs.spec_write(spec_decode(0x8014).unwrap(), v);
            &&& w == (Registers { cmd_response: QueueRegisters { addr: w.cmd_response.addr, ..regs.cmd_response }, ..regs })
            &&& w.cmd_response.addr / 0x1_0000_0000 == v
            &&& w.cmd_response.addr % 0x1_0000_0000 == regs.cmd_response.addr % 0x1_0000_0000
        }),
        regs.spec_read(spec_decode(0x8010).unwrap()) == regs.cmd_response.addr % 0x1_0000_0000,
        regs.spec_read(spec_decode(0x8014).unwrap()) == regs.cmd_response.addr / 0x1_0000_0000,
        regs.spec_read(spec_decode(0x8018).unwrap()) == regs.cmd_response.head,
        regs.spec_read(spec_decode(0x801c).unwrap()) == regs.cmd_response.tail,
        regs.spec_write(spec_decode(0x8028).unwrap(), v) == (Registers {
            meta_report: QueueRegisters { head: v, ..regs.meta_report },
            ..regs
        }),
        regs.spec_write(spec_decode(0x802c).unwrap(), v) == (Registers {
            meta_report: QueueRegisters { tail: v, ..regs.meta_report },
            ..regs
        }),
        ({
            let w = regs.spec_write(spec_decode(0x8020).unwrap(), v);
            &&& w == (Registers { meta_report: QueueRegisters { addr: w.meta_report.addr, ..regs.meta_report }, ..regs })
            &&& w.meta_report.addr % 0x1_0000_0000 == v
            &&& w.meta_report.addr / 0x1_0000_0000 == regs.meta_report.addr / 0x1_0000_0000
        }),
        ({
            let w = regs.spec_write(spec_decode(0x8024).unwrap(), v);
            &&& w == (Registers { meta_report: QueueRegisters { addr: w.meta_report.addr, ..regs.meta_report }, ..regs })
            &&& w.meta_report.addr / 0x1_0000_0000 == v
            &&& w.meta_report.addr % 0x1_0000_0000 == regs.meta_report.addr % 0x1_0000_0000
        }),
        regs.spec_read(spec_decode(0x8020).unwrap()) == regs.meta_report.addr % 0x1_0000_0000,
        regs.spec_read(spec_decode(0x8024).unwrap()) == regs.meta_report.addr / 0x1_0000_0000,
        regs.spec_read(spec_decode(0x8028).unwrap()) == regs.meta_report.head,
        regs.spec_read(spec_decode(0x802c).unwrap()) == regs.meta_report.tail,
        regs.spec_write(spec_decode(0x8038).unwrap(), v) == (Registers {
            send: QueueRegisters { head: v, ..regs.send },
            ..regs
        }),
        regs.spec_write(spec_decode(0x803c).unwrap(), v) == (Registers {
            send: QueueRegisters { tail: v, ..regs.send },
            ..regs
        }),
        ({
            let w = regs.spec_write(spec_decode(0x8030).unwrap(), v);
            &&& w == (Registers { send: QueueRegisters { addr: w.send.addr, ..regs.send }, ..regs })
            &&& w.send.addr % 0x1_0000_0000 == v
            &&& w.send.addr / 0x1_0000_0000 == regs.send.addr / 0x1_0000_0000
        }),
        ({
            let w = regs.spec_write(spec_decode(0x8034).unwrap(), v);
            &&& w == (Registers { send: QueueRegisters { addr: w.send.addr, ..regs.send }, ..regs })
            &&& w.send.addr / 0x1_0000_0000 == v
            &&& w.send.addr % 0x1_0000_0000 == regs.send.addr % 0x1_0000_0000
        }),
        regs.spec_read(spec_decode(0x8030).unwrap()) == regs.send.addr % 0x1_0000_0000,
        regs.spec_read(spec_decode(0x8034).unwrap()) == regs.send.addr / 0x1_0000_0000,
        regs.spec_read(spec_decode(0x8038).unwrap()) == regs.send.head,
        regs.spec_read(spec_decode(0x803c).unwrap()) == regs.send.tail,
        regs.spec_write(spec_decode(0x8040).unwrap(), v) == (Registers { reset: v, ..regs }),
        regs.spec_read(spec_decode(0x8040).unwrap()) == regs.reset,
        regs.spec_write(spec_decode(0x8044).unwrap(), v) == regs,
        regs.spec_read(spec_decode(0x8044).unwrap()) == 1,
{
    lemma_decode_of_address(Register::Queue(QueueKind::CommandRequest, QueueRegister::AddrLow));
    lemma_decode_of_address(Register::Queue(QueueKind::CommandRequest, QueueRegister::AddrHigh));
    lemma_decode_of_address(Register::Queue(QueueKind::CommandRequest, QueueRegister::Head));
    lemma_decode_of_address(Register::Queue(QueueKind::CommandRequest, QueueRegister::Tail));
    lemma_address_halves(regs.cmd_request.addr, v);
    lemma_decode_of_address(Register::Queue(QueueKind::CommandResponse, QueueRegister::AddrLow));
    lemma_decode_of_address(Register::Queue(QueueKind::CommandResponse, QueueRegister::AddrHigh));
    lemma_decode_of_address(Register::Queue(QueueKind::CommandResponse, QueueRegister::Head));
    lemma_decode_of_address(Register::Queue(QueueKind::CommandResponse, QueueRegister::Tail));
    lemma_address_halves(regs.cmd_response.addr, v);
    lemma_decode_of_address(Register::Queue(QueueKind::MetaReport, QueueRegister::AddrLow));
    lemma_decode_of_address(Register::Queue(QueueKind::MetaReport, QueueRegister::AddrHigh));
    lemma_decode_of_address(Register::Queue(QueueKind::MetaReport, QueueRegister::Head));
    lemma_decode_of_address(Register::Queue(QueueKind::MetaReport, QueueRegister::Tail));
    lemma_address_halves(regs.meta_report.addr, v);
    lemma_decode_of_address(Register::Queue(QueueKind::Send, QueueRegister::AddrLow));
    lemma_decode_of_address(Register::Queue(QueueKind::Send, QueueRegister::AddrHigh));
    lemma_decode_of_address(Register::Queue(QueueKind::Send, QueueRegister::Head));
    lemma_decode_of_address(Register::Queue(QueueKind::Send, QueueRegister::Tail));
    lemma_address_halves(regs.send.addr, v);
    lemma_decode_of_address(Register::SoftReset);
    lemma_decode_of_address(Register::HardwareVersion);
}

} // verus!
