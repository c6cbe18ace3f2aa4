//! Serving register reads and writes that the simulator forwards over RPC.

use vstd::prelude::*;

use crate::csr::{spec_decode, Registers};

verus! {

/// A register access request or response exchanged with the simulator.
#[derive(Debug, Clone, Copy, PartialEq, Eq, Structural)]
pub struct BarIoInfo {
    pub value: u64,
    pub addr: u64,
    pub valid: u64,
    pub pci_tag: u64,
}

impl BarIoInfo {
    /// An empty request slot: nothing valid yet.
    pub fn new() -> (res: Self)
        ensures
            res == (BarIoInfo { value: 0, addr: 0, valid: 0, pci_tag: 0 }),
    {
        BarIoInfo { value: 0, addr: 0, valid: 0, pci_tag: 0 }
    }

    /// The answer to the read request tagged `pci_tag`.
    pub fn new_read_response(pci_tag: u64, value: u64) -> (res: Self)
        ensures
            res == (BarIoInfo { value, addr: 0, valid: 1, pci_tag }),
    {
        BarIoInfo { value, addr: 0, valid: 1, pci_tag }
    }

    /// The answer to the write request tagged `pci_tag`.
    pub fn new_write_response(pci_tag: u64, success: bool) -> (res: Self)
        ensures
            res == (BarIoInfo { value: if success { 1 } else { 0 }, addr: 0, valid: 1, pci_tag }),
    {
        BarIoInfo {
            value: if success {
                1
            } else {
                0
            },
            addr: 0,
            valid: 1,
            pci_tag,
        }
    }

    /// Whether the slot holds a request.
    pub fn is_valid(&self) -> (res: bool)
        ensures
            res == (self.valid == 1),
    {
        self.valid == 1
    }
}

/// Forwards register accesses of one simulator client to the device.
#[derive(Debug, Clone, Copy, PartialEq, Eq, Structural)]
pub struct Proxy {
    pub client_id: u64,
}

impl Proxy {
    pub fn new(client_id: u64) -> (res: Self)
        ensures
            res.client_id == client_id,
    {
        Proxy { client_id }
    }

    /// Serves a read request: the response carries the register's value and
    /// the request's tag.
    pub fn handle_read_request(&self, csrs: &Registers, req: &BarIoInfo) -> (res: BarIoInfo)
        requires
            Registers::spec_readable(req.addr),
        ensures
            res == BarIoInfo::new_read_response_spec(
                req.pci_tag,
                csrs.spec_read(spec_decode(req.addr).unwrap()) as u64,
            ),
    {
        let value = csrs.read(req.addr);
        BarIoInfo::new_read_response(req.pci_tag, value as u64)
    }

    /// Serves a write request: the low 32 bits of its value go to the
    /// register, and the response reports success with the request's tag.
    pub fn handle_write_request(&self, csrs: &mut Registers, req: &BarIoInfo) -> (res: BarIoInfo)
        requires
            Registers::spec_writable(req.addr),
        ensures
            *final(csrs) == old(csrs).spec_write(
                spec_decode(req.addr).unwrap(),
                (req.value % 0x1_0000_0000) as u32,
            ),
            res == (BarIoInfo { value: 1, addr: 0, valid: 1, pci_tag: req.pci_tag }),
    {
        let v = req.value;
        assert(v as u32 == v % 0x1_0000_0000) by (bit_vector);
        csrs.write(req.addr, v as u32);
        BarIoInfo::new_write_response(req.pci_tag, true)
    }
}

impl BarIoInfo {
    /// The read response of `new_read_response`.
    pub open spec fn new_read_response_spec(pci_tag: u64, value: u64) -> BarIoInfo {
        BarIoInfo { value, addr: 0, valid: 1, pci_tag }
    }
}

} // verus!
