//! The device side of the four queues: descriptors are read from and
//! written to host memory at the slots that the queue registers name.

use vstd::prelude::*;
use vstd::bytes::spec_u64_to_le_bytes;

use crate::command_descriptors::{
    DescriptorRef, SetNetworkParameter, UpdateErrorPacketSequenceNumberRecoverPoint,
    UpdateMemoryRegionTable, UpdatePageTable,
};
use crate::command_request::{CommonHeader, Header, Opcode, Unknown};
use crate::csr::{QueueRegisters, Registers};
use crate::descriptor::{RawDescriptor, DESCRIPTOR_ALIGN, DESCRIPTOR_SIZE};
use crate::dma::{spec_write_bytes, writes_extended_by, Client, DmaClient};
use crate::operations::common::Common;
use crate::operations::write::{Builder as WriteBuilder, Write, WritePacket};
use crate::send::{Opcode as SendOpcode, Seg0, Seg1, VariableLengthSge};
use crate::types::DmaAddress;

verus! {

/// Number of slots of the command request ring.
pub const COMMAND_REQUEST_RING_SLOTS: u32 = 128;

/// Address of slot `index` of a ring of 32-byte descriptors.
pub open spec fn slot_addr(q: QueueRegisters, index: u32) -> int {
    q.addr + index * 32
}

impl QueueRegisters {
    /// Address of slot `index` of the ring.
    pub fn index(&self, index: u32) -> (res: u64)
        requires
            self.addr + index * 32 <= u64::MAX,
        ensures
            res == slot_addr(*self, index),
    {
        self.addr + (index as u64) * 32
    }
}

impl QueueRegisters {
    /// Base address of the ring.
    pub fn addr(&self) -> (res: u64)
        ensures
            res == self.addr,
    {
        self.addr
    }

    /// Index of the slot that the producer fills next.
    pub fn head(&self) -> (res: u32)
        ensures
            res == self.head,
    {
        self.head
    }

    /// Index of the oldest slot that the consumer has not taken.
    pub fn tail(&self) -> (res: u32)
        ensures
            res == self.tail,
    {
        self.tail
    }

    /// Takes one slot from the tail of the command request ring.
    pub fn advance_command_request(&mut self)
        ensures
            *final(self) == (QueueRegisters {
                tail: ((old(self).tail + 1) % COMMAND_REQUEST_RING_SLOTS as int) as u32,
                ..*old(self)
            }),
    {
        self.tail = ((self.tail as u64 + 1) % COMMAND_REQUEST_RING_SLOTS as u64) as u32;
    }

    /// Takes one slot from the tail of a work ring.
    pub fn advance_tail(&mut self)
        requires
            old(self).tail < u32::MAX,
        ensures
            *final(self) == (QueueRegisters { tail: (old(self).tail + 1) as u32, ..*old(self) }),
    {
        self.tail = self.tail + 1;
    }

    /// Fills one slot at the head of a completion ring.
    pub fn advance_head(&mut self)
        requires
            old(self).head < u32::MAX,
        ensures
            *final(self) == (QueueRegisters { head: (old(self).head + 1) as u32, ..*old(self) }),
    {
        self.head = self.head + 1;
    }
}

/// The registers and the memory access of the device, and the doorbells
/// rung on the command request and send rings that the workers have not
/// taken yet (the heads they were rung for, oldest first).
pub struct DeviceInner<R: Client> {
    pub csrs: Registers,
    pub dma_client: DmaClient<R>,
    pub command_request_doorbells: Vec<u32>,
    pub send_doorbells: Vec<u32>,
}

impl<R: Client> DeviceInner<R> {
    /// The memory that the device reaches.
    pub open spec fn memory(&self) -> Seq<u8> {
        self.dma_client.rpc.memory()
    }

    /// The memory is made of whole words and addressable.
    pub open spec fn memory_wf(&self) -> bool {
        self.memory().len() % 64 == 0 && self.memory().len() <= u64::MAX
    }

    /// Whether slot `index` of a ring lies inside the memory.
    pub open spec fn slot_in_memory(&self, q: QueueRegisters, index: u32) -> bool {
        slot_addr(q, index) + 32 <= self.memory().len()
    }

    /// Whether the oldest slot of a work ring whose descriptors have
    /// alignment `align` can be taken: the ring is not empty, its base is
    /// aligned and the slot lies in memory.
    pub open spec fn spec_can_pop(&self, q: QueueRegisters, align: u64) -> bool {
        &&& self.memory_wf()
        &&& q.tail < q.head
        &&& align > 0
        &&& q.addr % align == 0
        &&& self.slot_in_memory(q, q.tail)
    }

    /// Whether `self` holds the same pending doorbells as `before`.
    pub open spec fn same_doorbells(&self, before: &Self) -> bool {
        &&& self.command_request_doorbells@ == before.command_request_doorbells@
        &&& self.send_doorbells@ == before.send_doorbells@
    }

    /// Whether a command response can be posted now.
    pub open spec fn spec_response_room(&self) -> bool {
        let q = self.csrs.cmd_response;
        &&& self.memory_wf()
        &&& q.tail <= q.head
        &&& q.head < u32::MAX
        &&& self.slot_in_memory(q, q.head)
    }

    /// Whether `self` is `before` after posting the response header `h` at
    /// the head of the command response ring: the header's 8 bytes are
    /// written there, the head moves on by one, nothing else changes.
    pub open spec fn spec_responded(&self, before: &Self, h: CommonHeader) -> bool {
        let q = before.csrs.cmd_response;
        &&& self.memory() == spec_write_bytes(
            before.memory(),
            slot_addr(q, q.head),
            spec_u64_to_le_bytes(h.0),
        )
        &&& self.csrs == (Registers {
            cmd_response: QueueRegisters { head: (q.head + 1) as u32, ..q },
            ..before.csrs
        })
        &&& self.dma_client.client_id == before.dma_client.client_id
        &&& self.same_doorbells(before)
        &&& writes_extended_by(
            before.dma_client.rpc.word_writes(),
            self.dma_client.rpc.word_writes(),
            before.dma_client.client_id,
        )
    }

    /// A device with the given registers and memory access and no pending
    /// doorbell.
    pub fn new(csrs: Registers, dma_client: DmaClient<R>) -> (res: Self)
        ensures
            res.csrs == csrs,
            res.dma_client == dma_client,
            res.command_request_doorbells@ == Seq::<u32>::empty(),
            res.send_doorbells@ == Seq::<u32>::empty(),
    {
        DeviceInner {
            csrs,
            dma_client,
            command_request_doorbells: Vec::new(),
            send_doorbells: Vec::new(),
        }
    }

    /// Reads the descriptor at slot `index` of a ring whose descriptors
    /// have alignment `align` (32 for command requests, 1 for send segments).
    fn read_slot(&self, q: QueueRegisters, index: u32, align: u64) -> (res: Vec<u8>)
        requires
            self.memory_wf(),
            align == 1 || align == DESCRIPTOR_ALIGN,
            q.addr % align == 0,
            self.slot_in_memory(q, index),
        ensures
            res@ == self.memory().subrange(slot_addr(q, index), slot_addr(q, index) + 32),
    {
        let addr = q.index(index);
        assert(addr % align == 0) by {
            if align == 32 {
                assert((q.addr + index * 32) % 32 == q.addr % 32) by (nonlinear_arith);
            }
        }
        self.dma_client.read(addr, DESCRIPTOR_SIZE, align)
    }

    /// Takes the oldest command request from its ring: reads the descriptor
    /// at the tail and advances the tail around the ring.
    pub fn pop_command_request(&mut self) -> (res: Unknown)
        requires
            old(self).spec_can_pop(old(self).csrs.cmd_request, DESCRIPTOR_ALIGN),
        ensures
            res == Unknown::spec_from_bytes(
                old(self).memory().subrange(
                    slot_addr(old(self).csrs.cmd_request, old(self).csrs.cmd_request.tail),
                    slot_addr(old(self).csrs.cmd_request, old(self).csrs.cmd_request.tail) + 32,
                ),
            ),
            final(self).csrs == (Registers {
                cmd_request: QueueRegisters {
                    tail: ((old(self).csrs.cmd_request.tail + 1) % COMMAND_REQUEST_RING_SLOTS as int) as u32,
                    ..old(self).csrs.cmd_request
                },
                ..old(self).csrs
            }),
            final(self).csrs.cmd_request.tail == (old(self).csrs.cmd_request.tail + 1) % 128,
            final(self).memory() == old(self).memory(),
            final(self).dma_client == old(self).dma_client,
            final(self).same_doorbells(old(self)),
    {
        let q = self.csrs.cmd_request;
        let raw = self.read_slot(q, q.tail, DESCRIPTOR_ALIGN);
        let res = Unknown::from_bytes(raw.as_slice());
        self.csrs.cmd_request.advance_command_request();
        res
    }

    /// Takes the oldest send segment from its ring: reads the descriptor at
    /// the tail and advances the tail.
    pub fn pop_send(&mut self) -> (res: RawDescriptor)
        requires
            old(self).spec_can_pop(old(self).csrs.send, 1),
        ensures
            res == RawDescriptor::spec_from_bytes(
                old(self).memory().subrange(
                    slot_addr(old(self).csrs.send, old(self).csrs.send.tail),
                    slot_addr(old(self).csrs.send, old(self).csrs.send.tail) + 32,
                ),
            ),
            final(self).csrs == (Registers {
                send: QueueRegisters { tail: (old(self).csrs.send.tail + 1) as u32, ..old(self).csrs.send },
                ..old(self).csrs
            }),
            final(self).memory() == old(self).memory(),
            final(self).dma_client == old(self).dma_client,
            final(self).same_doorbells(old(self)),
    {
        let q = self.csrs.send;
        let raw = self.read_slot(q, q.tail, 1);
        let res = RawDescriptor::from_bytes(raw.as_slice());
        self.csrs.send.advance_tail();
        res
    }

    /// Posts a response header at the head of the command response ring and
    /// advances the head.
    pub fn push_command_response(&mut self, header: CommonHeader)
        requires
            old(self).spec_response_room(),
        ensures
            final(self).spec_responded(old(self), header),
    {
        let q = self.csrs.cmd_response;
        let addr = q.index(q.head);
        let bytes = vstd::bytes::u64_to_le_bytes(header.0);
        self.dma_client.write(addr, bytes.as_slice());
        self.csrs.cmd_response.advance_head();
    }

    /// Posts a descriptor at the head of the meta report ring and advances
    /// the head.
    pub fn push_meta_report(&mut self, desc: RawDescriptor)
        requires
            old(self).memory_wf(),
            old(self).csrs.meta_report.tail <= old(self).csrs.meta_report.head,
            old(self).csrs.meta_report.head < u32::MAX,
            old(self).slot_in_memory(old(self).csrs.meta_report, old(self).csrs.meta_report.head),
        ensures
            final(self).memory() == spec_write_bytes(
                old(self).memory(),
                slot_addr(old(self).csrs.meta_report, old(self).csrs.meta_report.head),
                desc.spec_bytes(),
            ),
            final(self).csrs == (Registers {
                meta_report: QueueRegisters {
                    head: (old(self).csrs.meta_report.head + 1) as u32,
                    ..old(self).csrs.meta_report
                },
                ..old(self).csrs
            }),
            final(self).dma_client.client_id == old(self).dma_client.client_id,
            final(self).same_doorbells(old(self)),
            writes_extended_by(
                old(self).dma_client.rpc.word_writes(),
                final(self).dma_client.rpc.word_writes(),
                old(self).dma_client.client_id,
            ),
    {
        let q = self.csrs.meta_report;
        let addr = q.index(q.head);
        let bytes = desc.to_bytes();
        self.dma_client.write(addr, bytes.as_slice());
        self.csrs.meta_report.advance_head();
    }

    /// The send segment `k` places after the tail of the send ring.
    pub open spec fn spec_pending_send(&self, k: int) -> RawDescriptor {
        let q = self.csrs.send;
        let a = q.addr + (q.tail + k) * 32;
        RawDescriptor::spec_from_bytes(self.memory().subrange(a, a + 32))
    }

    /// Whether the send ring holds a whole write request at its tail: three
    /// segments inside memory, a valid seg0 with the write
    /// opcode, a seg1 with known MTU and queue pair type, and a
    /// scatter/gather segment with one element.
    pub open spec fn spec_write_request_ready(&self) -> bool {
        let q = self.csrs.send;
        let seg0 = Seg0::spec_from_raw(self.spec_pending_send(0));
        let seg1 = Seg1::spec_from_raw(self.spec_pending_send(1));
        let sge = VariableLengthSge::spec_from_raw(self.spec_pending_send(2));
        &&& self.memory_wf()
        &&& q.tail + 3 <= q.head
        &&& q.addr + (q.tail + 3) * 32 <= self.memory().len()
        &&& seg0.header.spec_valid()
        &&& SendOpcode::spec_from_code(seg0.header.spec_opcode_code()) == Some(SendOpcode::Write)
        &&& Common::seg1_codes_valid(seg1)
        &&& sge.sge2.spec_is_empty()
    }

    /// The write request that the three segments at the tail of the send
    /// ring make.
    pub open spec fn spec_pending_write(&self) -> Write {
        let seg0 = Seg0::spec_from_raw(self.spec_pending_send(0));
        let seg1 = Seg1::spec_from_raw(self.spec_pending_send(1));
        let sge = VariableLengthSge::spec_from_raw(self.spec_pending_send(2));
        Write {
            common: Common::spec_from_seg0(seg0).spec_with_seg1(seg1),
            last: seg0.header.spec_last(),
            first: seg0.header.spec_first(),
            sge: sge.sge1,
        }
    }

    /// Whether the memory is made of whole words.
    pub fn is_memory_wf(&self) -> (res: bool)
        ensures
            res == self.memory_wf(),
    {
        let len = self.dma_client.rpc.len();
        len % 64 == 0 && (len as u64) <= u64::MAX
    }

    /// Whether slot `index` of ring `q` lies inside the memory.
    pub fn is_slot_in_memory(&self, q: QueueRegisters, index: u32) -> (res: bool)
        ensures
            res == self.slot_in_memory(q, index),
    {
        let len = self.dma_client.rpc.len() as u64;
        if q.addr > len {
            return false;
        }
        let room = (len - q.addr) / 32;
        let ok = room >= index as u64 + 1;
        assert(ok == (q.addr + index * 32 + 32 <= len)) by (nonlinear_arith)
            requires
                q.addr <= len,
                room == (len - q.addr) / 32,
                ok == (room >= index + 1),
        ;
        ok
    }

    /// Whether the oldest slot of work ring `q`, whose descriptors have
    /// alignment `align`, can be taken now.
    pub fn can_pop(&self, q: QueueRegisters, align: u64) -> (res: bool)
        ensures
            res == self.spec_can_pop(q, align),
    {
        self.is_memory_wf() && q.tail < q.head && align > 0 && q.addr % align == 0
            && self.is_slot_in_memory(q, q.tail)
    }

    /// Whether `pop_command_request` can run now.
    pub fn command_request_pending(&self) -> (res: bool)
        ensures
            res == self.spec_can_pop(self.csrs.cmd_request, DESCRIPTOR_ALIGN),
    {
        self.can_pop(self.csrs.cmd_request, DESCRIPTOR_ALIGN)
    }

    /// Whether `pop_send` can run now.
    pub fn send_pending(&self) -> (res: bool)
        ensures
            res == self.spec_can_pop(self.csrs.send, 1),
    {
        self.can_pop(self.csrs.send, 1)
    }

    /// Whether a response can be posted now.
    pub fn command_response_room(&self) -> (res: bool)
        ensures
            res == self.spec_response_room(),
    {
        let q = self.csrs.cmd_response;
        self.is_memory_wf() && q.tail <= q.head && q.head < u32::MAX && self.is_slot_in_memory(
            q,
            q.head,
        )
    }

    /// Whether `next_write_request` can run now.
    pub fn write_request_ready(&self) -> (res: bool)
        ensures
            res == self.spec_write_request_ready(),
    {
        if !self.is_memory_wf() {
            return false;
        }
        let q = self.csrs.send;
        let len = self.dma_client.rpc.len() as u64;
        if q.tail as u64 + 3 > q.head as u64 {
            return false;
        }
        if q.addr > len || (len - q.addr) / 32 < q.tail as u64 + 3 {
            assert(!(q.addr + (q.tail + 3) * 32 <= len)) by (nonlinear_arith)
                requires
                    q.addr > len || (len - q.addr) / 32 < q.tail + 3,
            ;
            return false;
        }
        assert(q.addr + (q.tail + 3) * 32 <= len) by (nonlinear_arith)
            requires
                q.addr <= len,
                (len - q.addr) / 32 >= q.tail + 3,
        ;
        let a0 = q.addr + (q.tail as u64) * 32;
        proof {
            assert(a0 + 32 == q.addr + (q.tail + 1) * 32);
            assert(a0 + 64 == q.addr + (q.tail + 2) * 32);
        }
        let raw0 = RawDescriptor::from_bytes(self.dma_client.read(a0, 32, 1).as_slice());
        let raw1 = RawDescriptor::from_bytes(self.dma_client.read(a0 + 32, 32, 1).as_slice());
        let raw2 = RawDescriptor::from_bytes(self.dma_client.read(a0 + 64, 32, 1).as_slice());
        let seg0 = Seg0::from_raw(&raw0);
        let seg1 = Seg1::from_raw(&raw1);
        let sge = VariableLengthSge::from_raw(&raw2);
        let op_ok = match seg0.header.opcode() {
            Ok(SendOpcode::Write) => true,
            _ => false,
        };
        let codes_ok = seg1.path_mtu_kind().is_ok() && seg1.queue_pair_type().is_ok();
        let s2 = sge.sge2;
        seg0.header.valid() && op_ok && codes_ok && s2.local_key.0 == 0 && s2.len == 0
            && s2.local_addr.0 == 0
    }

    /// Takes a write request (seg0, seg1 and the scatter/gather segment)
    /// from the tail of the send ring.
    pub fn next_write_request(&mut self) -> (res: Write)
        requires
            old(self).spec_write_request_ready(),
        ensures
            res == old(self).spec_pending_write(),
            final(self).csrs == (Registers {
                send: QueueRegisters { tail: (old(self).csrs.send.tail + 3) as u32, ..old(self).csrs.send },
                ..old(self).csrs
            }),
            final(self).memory() == old(self).memory(),
            final(self).dma_client == old(self).dma_client,
            final(self).same_doorbells(old(self)),
    {
        let raw0 = self.pop_send();
        let seg0 = Seg0::from_raw(&raw0);
        let builder = WriteBuilder::from_seg0(seg0);
        let raw1 = self.pop_send();
        let seg1 = Seg1::from_raw(&raw1);
        let builder = builder.with_seg1(seg1);
        let raw2 = self.pop_send();
        let sge = VariableLengthSge::from_raw(&raw2);
        builder.with_sge(sge)
    }

    /// Answers a command request: posts the response header with the
    /// request's opcode and user data and the given success flag (see
    /// `lemma_response_answers_request`).
    pub fn respond(&mut self, request: &DescriptorRef, success: bool)
        requires
            old(self).spec_response_room(),
        ensures
            final(self).spec_responded(old(self), request.spec_response(success)),
    {
        let h = request.response(success);
        self.push_command_response(h);
    }

    /// Handles a page table update: the request is answered with success.
    pub fn handle_update_page_table(&mut self, req: &UpdatePageTable)
        requires
            old(self).spec_response_room(),
        ensures
            final(self).spec_responded(
                old(self),
                CommonHeader::spec_new(Opcode::UpdatePageTable, true, req.0.header.spec_user_data()),
            ),
    {
        let h = CommonHeader::new(Opcode::UpdatePageTable, true, req.header().user_data());
        self.push_command_response(h);
    }

    /// Handles a network parameter update: the request is answered with
    /// success.
    pub fn handle_set_network_parameter(&mut self, req: &SetNetworkParameter)
        requires
            old(self).spec_response_room(),
        ensures
            final(self).spec_responded(
                old(self),
                CommonHeader::spec_new(Opcode::SetNetworkParam, true, req.0.header.spec_user_data()),
            ),
    {
        let h = CommonHeader::new(Opcode::SetNetworkParam, true, req.header().user_data());
        self.push_command_response(h);
    }

    /// Handles a memory region registration, given what updating the memory
    /// region table with `Context::from_req(req)` gave: on success the request
    /// is answered with success; on failure nothing is posted and the error
    /// is returned.
    pub fn handle_update_memory_region_table<E>(
        &mut self,
        req: &UpdateMemoryRegionTable,
        update: Result<(), E>,
    ) -> (res: Result<(), E>)
        requires
            old(self).spec_response_room(),
        ensures
            match update {
                Ok(()) => res is Ok && final(self).spec_responded(
                    old(self),
                    CommonHeader::spec_new(Opcode::UpdateMrTable, true, req.0.header.spec_user_data()),
                ),
                Err(e) => res == Err::<(), E>(e) && *final(self) == *old(self),
            },
    {
        match update {
            Ok(()) => {
                let h = CommonHeader::new(Opcode::UpdateMrTable, true, req.header().user_data());
                self.push_command_response(h);
                Ok(())
            },
            Err(e) => Err(e),
        }
    }

    /// Handles a request to resume a queue pair, given whether the queue pair
    /// exists and recovered from the sequence number: the request is answered
    /// with that as its success flag.
    pub fn handle_update_error_psn_recover_point(
        &mut self,
        req: &UpdateErrorPacketSequenceNumberRecoverPoint,
        recovered: bool,
    )
        requires
            old(self).spec_response_room(),
        ensures
            final(self).spec_responded(
                old(self),
                CommonHeader::spec_new(
                    Opcode::UpdateErrorPsnRecoverPoint,
                    recovered,
                    req.0.header.spec_user_data(),
                ),
            ),
    {
        let h = CommonHeader::new(
            Opcode::UpdateErrorPsnRecoverPoint,
            recovered,
            req.header().user_data(),
        );
        self.push_command_response(h);
    }

    /// Reads the payload of a write packet: its `len` bytes at `dma_addr`,
    /// the device address that the packet's local buffer translates to.
    pub fn read_payload(&self, packet: &WritePacket, dma_addr: DmaAddress) -> (res: Vec<u8>)
        requires
            self.memory_wf(),
            dma_addr.0 + packet.len <= self.memory().len(),
        ensures
            res@ == self.memory().subrange(dma_addr.0 as int, dma_addr.0 + packet.len),
    {
        self.dma_client.read(dma_addr.0, packet.len as usize, 1)
    }

    /// Notify the device that the driver moved the head of the send ring to
    /// `head`: records the doorbell for the send worker and returns.
    pub fn send_doorbell(&mut self, head: u32)
        ensures
            final(self).send_doorbells@ == old(self).send_doorbells@.push(head),
            final(self).command_request_doorbells@ == old(self).command_request_doorbells@,
            final(self).csrs == old(self).csrs,
            final(self).dma_client == old(self).dma_client,
    {
        self.send_doorbells.push(head);
    }

    /// Takes the oldest doorbell of the command request ring, if any.
    pub fn next_command_request_doorbell(&mut self) -> (res: Option<u32>)
        ensures
            old(self).command_request_doorbells@.len() == 0 ==> res is None
                && final(self).command_request_doorbells@ == old(self).command_request_doorbells@,
            old(self).command_request_doorbells@.len() > 0 ==> res == Some(
                old(self).command_request_doorbells@[0],
            ) && final(self).command_request_doorbells@
                == old(self).command_request_doorbells@.drop_first(),
            final(self).send_doorbells@ == old(self).send_doorbells@,
            final(self).csrs == old(self).csrs,
            final(self).dma_client == old(self).dma_client,
    {
        if self.command_request_doorbells.len() == 0 {
            None
        } else {
            let head = self.command_request_doorbells.remove(0);
            assert(self.command_request_doorbells@ =~= old(self).command_request_doorbells@.drop_first());
            Some(head)
        }
    }

    /// Takes the oldest doorbell of the send ring, if any.
    pub fn next_send_doorbell(&mut self) -> (res: Option<u32>)
        ensures
            old(self).send_doorbells@.len() == 0 ==> res is None && final(self).send_doorbells@
                == old(self).send_doorbells@,
            old(self).send_doorbells@.len() > 0 ==> res == Some(old(self).send_doorbells@[0])
                && final(self).send_doorbells@ == old(self).send_doorbells@.drop_first(),
            final(self).command_request_doorbells@ == old(self).command_request_doorbells@,
            final(self).csrs == old(self).csrs,
            final(self).dma_client == old(self).dma_client,
    {
        if self.send_doorbells.len() == 0 {
            None
        } else {
            let head = self.send_doorbells.remove(0);
            assert(self.send_doorbells@ =~= old(self).send_doorbells@.drop_first());
            Some(head)
        }
    }
}

/// Doorbells of the command request ring.
pub trait CommandRequestQueueAbility {
    /// The doorbells rung and not yet taken by the worker, oldest first.
    spec fn spec_doorbells(&self) -> Seq<u32>;

    /// Notify the device that there are new descriptors, up to `head`. It
    /// only records the notification and does not block: taking and handling
    /// the requests is the worker's part (`pop_command_request` and the
    /// `handle_*` functions).
    fn doorbell(&mut self, head: u32)
        ensures
            final(self).spec_doorbells() == old(self).spec_doorbells().push(head),
    ;
}

impl<R: Client> CommandRequestQueueAbility for DeviceInner<R> {
    open spec fn spec_doorbells(&self) -> Seq<u32> {
        self.command_request_doorbells@
    }

    fn doorbell(&mut self, head: u32)
        ensures
            final(self).send_doorbells@ == old(self).send_doorbells@,
            final(self).csrs == old(self).csrs,
            final(self).dma_client == old(self).dma_client,
    {
        self.command_request_doorbells.push(head);
    }
}

/// A descriptor posted at `addr` (as `push_meta_report` does) reads back from
/// that slot as the same descriptor.
pub proof fn lemma_posted_descriptor_reads_back(mem: Seq<u8>, addr: int, d: RawDescriptor)
    requires
        0 <= addr,
        addr + 32 <= mem.len(),
    ensures
        RawDescriptor::spec_from_bytes(
            spec_write_bytes(mem, addr, d.spec_bytes()).subrange(addr, addr + 32),
        ) == d,
{
    vstd::bytes::lemma_auto_spec_u64_to_from_le_bytes();
    assert(spec_u64_to_le_bytes(d.w0).len() == 8);
    assert(spec_u64_to_le_bytes(d.w1).len() == 8);
    assert(spec_u64_to_le_bytes(d.w2).len() == 8);
    assert(spec_u64_to_le_bytes(d.w3).len() == 8);
    crate::descriptor::lemma_from_own_bytes(d);
    crate::dma::lemma_read_after_write(mem, addr, d.spec_bytes());
}

/// A response header posted at `addr` (as `push_command_response` and
/// `respond` do) reads back from the first 8 bytes of that slot as the same
/// header.
pub proof fn lemma_posted_header_reads_back(mem: Seq<u8>, addr: int, h: CommonHeader)
    requires
        0 <= addr,
        addr + 8 <= mem.len(),
    ensures
        CommonHeader(
            vstd::bytes::spec_u64_from_le_bytes(
                spec_write_bytes(mem, addr, spec_u64_to_le_bytes(h.0)).subrange(addr, addr + 8),
            ),
        ) == h,
{
    vstd::bytes::lemma_auto_spec_u64_to_from_le_bytes();
    assert(spec_u64_to_le_bytes(h.0).len() == 8);
    crate::dma::lemma_read_after_write(mem, addr, spec_u64_to_le_bytes(h.0));
}

/// A command request that the doorbell takes is answered in kind: when the
/// response for it is posted at `addr` (as `respond` does), the header that
/// reads back from there is valid, carries the request's opcode and user data
/// and the success flag given.
pub proof fn lemma_posted_response_answers_request(
    mem: Seq<u8>,
    addr: int,
    raw: Unknown,
    success: bool,
)
    requires
        raw.header.spec_opcode() is Ok,
        0 <= addr,
        addr + 8 <= mem.len(),
    ensures
        DescriptorRef::spec_parse(raw) matches Ok(d) && {
            let posted = spec_write_bytes(mem, addr, spec_u64_to_le_bytes(d.spec_response(success).0));
            let h = CommonHeader(
                vstd::bytes::spec_u64_from_le_bytes(posted.subrange(addr, addr + 8)),
            );
            &&& h.spec_valid()
            &&& h.spec_is_success() == success
            &&& h.spec_opcode() == raw.header.spec_opcode()
            &&& h.spec_user_data() == raw.header.spec_user_data()
        },
{
    crate::command_descriptors::lemma_response_answers_request(raw, success);
    let d = DescriptorRef::spec_parse(raw)->Ok_0;
    lemma_posted_header_reads_back(mem, addr, d.spec_response(success));
}

} // verus!
