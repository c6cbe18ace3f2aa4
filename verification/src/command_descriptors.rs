//! The six kinds of command request descriptor and their fields.
//!
//! Field positions are bit positions in the 32-byte descriptor (see
//! `command_request`); every field lies inside one 64-bit word.

use vstd::prelude::*;

use crate::bits::{field, get_field, lemma_low_masks};
use crate::command_request::{CommonHeader, Header, Opcode, Unknown};
use crate::errors::ParseDescriptorError;
use crate::types::{
    mac_address, new_mac_address, DmaAddress, MemoryAccessFlag, MemoryRegionKey,
    PacketSequenceNumber, Pmtu, QueuePairNumber, QueuePairType, VirtualAddress,
};

verus! {

/// Creates, modifies or destroys a queue pair.
///
/// Bits: 64 valid, 65 error, 72..=95 queue pair number, 96..=127 protection
/// domain handler, 128..=131 queue pair type, 136..=143 remote access flags,
/// 144..=146 packet MTU, 152..=175 peer queue pair number.
#[derive(Debug, Clone, Copy, PartialEq, Eq, Structural)]
pub struct QueuePairManagement(pub Unknown);

/// Sets the IP gateway, netmask, address and MAC address of the device.
///
/// Bits: 64..=95 gateway, 96..=127 netmask, 128..=159 IP address,
/// 192..=239 MAC address.
#[derive(Debug, Clone, Copy, PartialEq, Eq, Structural)]
pub struct SetNetworkParameter(pub Unknown);

/// Tells the device where to write raw packets that it receives.
///
/// Bits: 64..=127 write base address, 128..=159 memory region key.
#[derive(Debug, Clone, Copy, PartialEq, Eq, Structural)]
pub struct SetRawPacketReceiveMeta(pub Unknown);

/// Asks the device to resume a queue pair from a packet sequence number.
///
/// Bits: 64..=87 packet sequence number, 96..=119 queue pair number.
#[derive(Debug, Clone, Copy, PartialEq, Eq, Structural)]
pub struct UpdateErrorPacketSequenceNumberRecoverPoint(pub Unknown);

/// Registers a memory region.
///
/// Bits: 64..=127 base virtual address, 128..=159 length, 160..=191 key,
/// 192..=223 protection domain handler, 224..=231 access flags,
/// 232..=248 page table offset.
#[derive(Debug, Clone, Copy, PartialEq, Eq, Structural)]
pub struct UpdateMemoryRegionTable(pub Unknown);

/// Asks the device to read page table entries by DMA.
///
/// Bits: 64..=127 DMA address, 128..=159 first index, 160..=191 length in
/// bytes to read.
#[derive(Debug, Clone, Copy, PartialEq, Eq, Structural)]
pub struct UpdatePageTable(pub Unknown);

impl Header for QueuePairManagement {
    open spec fn spec_header(&self) -> CommonHeader {
        self.0.header
    }

    fn header(&self) -> (res: &CommonHeader) {
        &self.0.header
    }
}

impl Header for SetNetworkParameter {
    open spec fn spec_header(&self) -> CommonHeader {
        self.0.header
    }

    fn header(&self) -> (res: &CommonHeader) {
        &self.0.header
    }
}

impl Header for SetRawPacketReceiveMeta {
    open spec fn spec_header(&self) -> CommonHeader {
        self.0.header
    }

    fn header(&self) -> (res: &CommonHeader) {
        &self.0.header
    }
}

impl Header for UpdateErrorPacketSequenceNumberRecoverPoint {
    open spec fn spec_header(&self) -> CommonHeader {
        self.0.header
    }

    fn header(&self) -> (res: &CommonHeader) {
        &self.0.header
    }
}

impl Header for UpdateMemoryRegionTable {
    open spec fn spec_header(&self) -> CommonHeader {
        self.0.header
    }

    fn header(&self) -> (res: &CommonHeader) {
        &self.0.header
    }
}

impl Header for UpdatePageTable {
    open spec fn spec_header(&self) -> CommonHeader {
        self.0.header
    }

    fn header(&self) -> (res: &CommonHeader) {
        &self.0.header
    }
}

impl AsRef<Unknown> for QueuePairManagement {
    fn as_ref(&self) -> (res: &Unknown)
        ensures
            *res == self.0,
    {
        &self.0
    }
}

impl AsRef<Unknown> for SetNetworkParameter {
    fn as_ref(&self) -> (res: &Unknown)
        ensures
            *res == self.0,
    {
        &self.0
    }
}

impl AsRef<Unknown> for SetRawPacketReceiveMeta {
    fn as_ref(&self) -> (res: &Unknown)
        ensures
            *res == self.0,
    {
        &self.0
    }
}

impl AsRef<Unknown> for UpdateErrorPacketSequenceNumberRecoverPoint {
    fn as_ref(&self) -> (res: &Unknown)
        ensures
            *res == self.0,
    {
        &self.0
    }
}

impl AsRef<Unknown> for UpdateMemoryRegionTable {
    fn as_ref(&self) -> (res: &Unknown)
        ensures
            *res == self.0,
    {
        &self.0
    }
}

impl AsRef<Unknown> for UpdatePageTable {
    fn as_ref(&self) -> (res: &Unknown)
        ensures
            *res == self.0,
    {
        &self.0
    }
}

impl QueuePairManagement {
    /// Views an unknown descriptor whose opcode is `QpManagement`.
    pub fn from_unknown(raw: Unknown) -> (res: Self)
        requires
            raw.header.spec_opcode() == Ok::<Opcode, ParseDescriptorError>(Opcode::QpManagement),
        ensures
            res.0 == raw,
    {
        QueuePairManagement(raw)
    }

    pub fn valid(&self) -> (res: bool)
        ensures
            res == (self.0.bits(64, 64) == 1),
    {
        get_field(self.0.body.0, 0, 1) == 1
    }

    pub fn error(&self) -> (res: bool)
        ensures
            res == (self.0.bits(65, 65) == 1),
    {
        get_field(self.0.body.0, 1, 1) == 1
    }

    pub fn queue_pair_number(&self) -> (res: u32)
        ensures
            res == self.0.bits(72, 95),
    {
        proof {
            lemma_low_masks();
        }
        get_field(self.0.body.0, 8, 24) as u32
    }

    pub fn protect_domain_handler(&self) -> (res: u32)
        ensures
            res == self.0.bits(96, 127),
    {
        proof {
            lemma_low_masks();
        }
        get_field(self.0.body.0, 32, 32) as u32
    }

    /// Whether the type and MTU codes of the descriptor name a queue pair
    /// type and an MTU.
    pub open spec fn spec_codes_valid(self) -> bool {
        &&& QueuePairType::spec_from_code(self.0.bits(128, 131) as u8) is Some
        &&& Pmtu::spec_from_code(self.0.bits(144, 146) as u8) is Some
    }

    pub fn queue_pair_type(&self) -> (res: QueuePairType)
        requires
            QueuePairType::spec_from_code(self.0.bits(128, 131) as u8) is Some,
        ensures
            Some(res) == QueuePairType::spec_from_code(self.0.bits(128, 131) as u8),
    {
        proof {
            lemma_low_masks();
        }
        let code = get_field(self.0.body.1, 0, 4) as u8;
        match QueuePairType::from_code(code) {
            Some(t) => t,
            None => QueuePairType::Rc,
        }
    }

    pub fn remote_queue_access_flag(&self) -> (res: MemoryAccessFlag)
        ensures
            res.0 == self.0.bits(136, 143),
    {
        proof {
            lemma_low_masks();
        }
        MemoryAccessFlag(get_field(self.0.body.1, 8, 8) as u8)
    }

    pub fn packet_mtu_kind(&self) -> (res: Pmtu)
        requires
            Pmtu::spec_from_code(self.0.bits(144, 146) as u8) is Some,
        ensures
            Some(res) == Pmtu::spec_from_code(self.0.bits(144, 146) as u8),
    {
        proof {
            lemma_low_masks();
        }
        let code = get_field(self.0.body.1, 16, 3) as u8;
        match Pmtu::from_code(code) {
            Some(m) => m,
            None => Pmtu::Mtu256,
        }
    }

    pub fn peer_queue_pair_number(&self) -> (res: u32)
        ensures
            res == self.0.bits(152, 175),
    {
        proof {
            lemma_low_masks();
        }
        get_field(self.0.body.1, 24, 24) as u32
    }
}

impl SetNetworkParameter {
    /// Views an unknown descriptor whose opcode is `SetNetworkParam`.
    pub fn from_unknown(raw: Unknown) -> (res: Self)
        requires
            raw.header.spec_opcode() == Ok::<Opcode, ParseDescriptorError>(Opcode::SetNetworkParam),
        ensures
            res.0 == raw,
    {
        SetNetworkParameter(raw)
    }

    /// The gateway address, as the number whose big-endian bytes are its
    /// octets.
    pub fn gateway(&self) -> (res: u32)
        ensures
            res == self.0.bits(64, 95),
    {
        proof {
            lemma_low_masks();
        }
        get_field(self.0.body.0, 0, 32) as u32
    }

    /// The subnet mask, as the number whose big-endian bytes are its octets.
    pub fn subnet_mask(&self) -> (res: u32)
        ensures
            res == self.0.bits(96, 127),
    {
        proof {
            lemma_low_masks();
        }
        get_field(self.0.body.0, 32, 32) as u32
    }

    /// The IP address, as the number whose big-endian bytes are its octets.
    pub fn ip(&self) -> (res: u32)
        ensures
            res == self.0.bits(128, 159),
    {
        proof {
            lemma_low_masks();
        }
        get_field(self.0.body.1, 0, 32) as u32
    }

    /// The MAC address: the six bytes of bits 192..=239, least significant
    /// first, that is bytes 24..=29 of the descriptor, in that order.
    pub fn mac(&self) -> (res: eui48::MacAddress)
        ensures
            res == mac_address(self.0.raw().spec_bytes().subrange(24, 30)),
    {
        let w = self.0.body.2;
        let bytes = [
            (w & 0xff) as u8,
            ((w >> 8u64) & 0xff) as u8,
            ((w >> 16u64) & 0xff) as u8,
            ((w >> 24u64) & 0xff) as u8,
            ((w >> 32u64) & 0xff) as u8,
            ((w >> 40u64) & 0xff) as u8,
        ];
        proof {
            vstd::bytes::lemma_auto_spec_u64_to_from_le_bytes();
            vstd::bytes::spec_u64_to_le_bytes_to_open(w);
            let r = self.0.raw();
            assert(vstd::bytes::spec_u64_to_le_bytes(r.w0).len() == 8);
            assert(vstd::bytes::spec_u64_to_le_bytes(r.w1).len() == 8);
            assert(vstd::bytes::spec_u64_to_le_bytes(r.w2).len() == 8);
            assert(vstd::bytes::spec_u64_to_le_bytes(r.w3).len() == 8);
            let b = r.spec_bytes();
            assert(b.subrange(24, 32) =~= vstd::bytes::spec_u64_to_le_bytes(w));
            assert forall|k: int| 0 <= k < 6 implies bytes@[k] == b[24 + k] by {
                assert(b[24 + k] == b.subrange(24, 32)[k]);
            }
            assert(bytes@ =~= b.subrange(24, 30));
        }
        new_mac_address(bytes)
    }
}

impl SetRawPacketReceiveMeta {
    /// Views an unknown descriptor whose opcode is `SetRawPacketReceiveMeta`.
    pub fn from_unknown(raw: Unknown) -> (res: Self)
        requires
            raw.header.spec_opcode() == Ok::<Opcode, ParseDescriptorError>(
                Opcode::SetRawPacketReceiveMeta,
            ),
        ensures
            res.0 == raw,
    {
        SetRawPacketReceiveMeta(raw)
    }

    pub fn write_base_addr(&self) -> (res: DmaAddress)
        ensures
            res.0 == self.0.bits(64, 127),
    {
        proof {
            lemma_low_masks();
        }
        DmaAddress(get_field(self.0.body.0, 0, 64))
    }

    pub fn write_mr_key(&self) -> (res: MemoryRegionKey)
        ensures
            res.0 == self.0.bits(128, 159),
    {
        proof {
            lemma_low_masks();
        }
        MemoryRegionKey::new(get_field(self.0.body.1, 0, 32) as u32)
    }
}

impl UpdateErrorPacketSequenceNumberRecoverPoint {
    /// Views an unknown descriptor whose opcode is `UpdateErrorPsnRecoverPoint`.
    pub fn from_unknown(raw: Unknown) -> (res: Self)
        requires
            raw.header.spec_opcode() == Ok::<Opcode, ParseDescriptorError>(
                Opcode::UpdateErrorPsnRecoverPoint,
            ),
        ensures
            res.0 == raw,
    {
        UpdateErrorPacketSequenceNumberRecoverPoint(raw)
    }

    pub fn packet_sequence_number(&self) -> (res: PacketSequenceNumber)
        ensures
            res == self.0.bits(64, 87),
    {
        proof {
            lemma_low_masks();
        }
        get_field(self.0.body.0, 0, 24) as u32
    }

    pub fn queue_pair_number(&self) -> (res: QueuePairNumber)
        ensures
            res == self.0.bits(96, 119),
    {
        proof {
            lemma_low_masks();
        }
        get_field(self.0.body.0, 32, 24) as u32
    }
}

impl UpdateMemoryRegionTable {
    /// Views an unknown descriptor whose opcode is `UpdateMrTable`.
    pub fn from_unknown(raw: Unknown) -> (res: Self)
        requires
            raw.header.spec_opcode() == Ok::<Opcode, ParseDescriptorError>(Opcode::UpdateMrTable),
        ensures
            res.0 == raw,
    {
        UpdateMemoryRegionTable(raw)
    }

    pub fn mr_base_va(&self) -> (res: VirtualAddress)
        ensures
            res.0 == self.0.bits(64, 127),
    {
        proof {
            lemma_low_masks();
        }
        VirtualAddress(get_field(self.0.body.0, 0, 64))
    }

    pub fn mr_len(&self) -> (res: u32)
        ensures
            res == self.0.bits(128, 159),
    {
        proof {
            lemma_low_masks();
        }
        get_field(self.0.body.1, 0, 32) as u32
    }

    pub fn mr_key(&self) -> (res: MemoryRegionKey)
        ensures
            res.0 == self.0.bits(160, 191),
    {
        proof {
            lemma_low_masks();
        }
        MemoryRegionKey::new(get_field(self.0.body.1, 32, 32) as u32)
    }

    pub fn pd_handler(&self) -> (res: u32)
        ensures
            res == self.0.bits(192, 223),
    {
        proof {
            lemma_low_masks();
        }
        get_field(self.0.body.2, 0, 32) as u32
    }

    pub fn access_flag(&self) -> (res: MemoryAccessFlag)
        ensures
            res.0 == self.0.bits(224, 231),
    {
        proof {
            lemma_low_masks();
        }
        MemoryAccessFlag(get_field(self.0.body.2, 32, 8) as u8)
    }

    pub fn page_table_offset(&self) -> (res: u32)
        ensures
            res == self.0.bits(232, 248),
    {
        proof {
            lemma_low_masks();
        }
        get_field(self.0.body.2, 40, 17) as u32
    }
}

impl UpdatePageTable {
    /// Views an unknown descriptor whose opcode is `UpdatePageTable`.
    pub fn from_unknown(raw: Unknown) -> (res: Self)
        requires
            raw.header.spec_opcode() == Ok::<Opcode, ParseDescriptorError>(Opcode::UpdatePageTable),
        ensures
            res.0 == raw,
    {
        UpdatePageTable(raw)
    }

    pub fn dma_addr(&self) -> (res: u64)
        ensures
            res == self.0.bits(64, 127),
    {
        proof {
            lemma_low_masks();
        }
        get_field(self.0.body.0, 0, 64)
    }

    pub fn start_index(&self) -> (res: u32)
        ensures
            res == self.0.bits(128, 159),
    {
        proof {
            lemma_low_masks();
        }
        get_field(self.0.body.1, 0, 32) as u32
    }

    pub fn dma_read_length(&self) -> (res: u32)
        ensures
            res == self.0.bits(160, 191),
    {
        proof {
            lemma_low_masks();
        }
        get_field(self.0.body.1, 32, 32) as u32
    }
}

/// What a memory region table entry records of a registered region.
#[derive(Debug, Clone, Copy, PartialEq, Eq, Structural)]
pub struct Context {
    pub va: VirtualAddress,
    pub len: u32,
    pub key: MemoryRegionKey,
    pub pd_handler: u32,
    pub access_flag: MemoryAccessFlag,
    pub page_table_offset: u32,
}

impl Context {
    /// The memory region that an `UpdateMemoryRegionTable` request registers.
    pub fn from_req(req: &UpdateMemoryRegionTable) -> (res: Self)
        ensures
            res.va.0 == req.0.bits(64, 127),
            res.len == req.0.bits(128, 159),
            res.key.0 == req.0.bits(160, 191),
            res.pd_handler == req.0.bits(192, 223),
            res.access_flag.0 == req.0.bits(224, 231),
            res.page_table_offset == req.0.bits(232, 248),
    {
        Context {
            va: req.mr_base_va(),
            len: req.mr_len(),
            key: req.mr_key(),
            pd_handler: req.pd_handler(),
            access_flag: req.access_flag(),
            page_table_offset: req.page_table_offset(),
        }
    }
}


/// A command request descriptor sorted by its command.
#[derive(Debug, Clone, Copy, PartialEq, Eq, Structural)]
pub enum DescriptorRef {
    UpdateMemoryRegionTable(UpdateMemoryRegionTable),
    UpdatePageTable(UpdatePageTable),
    QueuePairManagement(QueuePairManagement),
    SetNetworkParameter(SetNetworkParameter),
    SetRawPacketReceiveMeta(SetRawPacketReceiveMeta),
    UpdateErrorPacketSequenceNumberRecoverPoint(UpdateErrorPacketSequenceNumberRecoverPoint),
}

impl DescriptorRef {
    /// The command of the descriptor.
    pub open spec fn spec_opcode(self) -> Opcode {
        match self {
            DescriptorRef::UpdateMemoryRegionTable(_) => Opcode::UpdateMrTable,
            DescriptorRef::UpdatePageTable(_) => Opcode::UpdatePageTable,
            DescriptorRef::QueuePairManagement(_) => Opcode::QpManagement,
            DescriptorRef::SetNetworkParameter(_) => Opcode::SetNetworkParam,
            DescriptorRef::SetRawPacketReceiveMeta(_) => Opcode::SetRawPacketReceiveMeta,
            DescriptorRef::UpdateErrorPacketSequenceNumberRecoverPoint(_) => {
                Opcode::UpdateErrorPsnRecoverPoint
            },
        }
    }

    /// The descriptor that the variant holds.
    pub open spec fn spec_unknown(self) -> Unknown {
        match self {
            DescriptorRef::UpdateMemoryRegionTable(d) => d.0,
            DescriptorRef::UpdatePageTable(d) => d.0,
            DescriptorRef::QueuePairManagement(d) => d.0,
            DescriptorRef::SetNetworkParameter(d) => d.0,
            DescriptorRef::SetRawPacketReceiveMeta(d) => d.0,
            DescriptorRef::UpdateErrorPacketSequenceNumberRecoverPoint(d) => d.0,
        }
    }

    /// The descriptor `raw` sorted by its opcode, or the error for an
    /// unknown opcode.
    pub open spec fn spec_parse(raw: Unknown) -> Result<DescriptorRef, ParseDescriptorError> {
        match raw.header.spec_opcode() {
            Ok(op) => Ok(
                match op {
                    Opcode::UpdateMrTable => DescriptorRef::UpdateMemoryRegionTable(
                        UpdateMemoryRegionTable(raw),
                    ),
                    Opcode::UpdatePageTable => DescriptorRef::UpdatePageTable(UpdatePageTable(raw)),
                    Opcode::QpManagement => DescriptorRef::QueuePairManagement(
                        QueuePairManagement(raw),
                    ),
                    Opcode::SetNetworkParam => DescriptorRef::SetNetworkParameter(
                        SetNetworkParameter(raw),
                    ),
                    Opcode::SetRawPacketReceiveMeta => DescriptorRef::SetRawPacketReceiveMeta(
                        SetRawPacketReceiveMeta(raw),
                    ),
                    Opcode::UpdateErrorPsnRecoverPoint => {
                        DescriptorRef::UpdateErrorPacketSequenceNumberRecoverPoint(
                            UpdateErrorPacketSequenceNumberRecoverPoint(raw),
                        )
                    },
                },
            ),
            Err(e) => Err(e),
        }
    }

    /// Sorts a descriptor by the opcode in its header; an unknown opcode is
    /// an error.
    pub fn parse(raw: &Unknown) -> (res: Result<DescriptorRef, ParseDescriptorError>)
        ensures
            res == Self::spec_parse(*raw),
            match raw.header.spec_opcode() {
                Ok(op) => res matches Ok(d) && d.spec_opcode() == op && d.spec_unknown() == *raw,
                Err(e) => res == Err::<DescriptorRef, ParseDescriptorError>(e),
            },
    {
        match raw.header.opcode() {
            Ok(Opcode::UpdateMrTable) => Ok(
                DescriptorRef::UpdateMemoryRegionTable(UpdateMemoryRegionTable(*raw)),
            ),
            Ok(Opcode::UpdatePageTable) => Ok(
                DescriptorRef::UpdatePageTable(UpdatePageTable(*raw)),
            ),
            Ok(Opcode::QpManagement) => Ok(
                DescriptorRef::QueuePairManagement(QueuePairManagement(*raw)),
            ),
            Ok(Opcode::SetNetworkParam) => Ok(
                DescriptorRef::SetNetworkParameter(SetNetworkParameter(*raw)),
            ),
            Ok(Opcode::SetRawPacketReceiveMeta) => Ok(
                DescriptorRef::SetRawPacketReceiveMeta(SetRawPacketReceiveMeta(*raw)),
            ),
            Ok(Opcode::UpdateErrorPsnRecoverPoint) => Ok(
                DescriptorRef::UpdateErrorPacketSequenceNumberRecoverPoint(
                    UpdateErrorPacketSequenceNumberRecoverPoint(*raw),
                ),
            ),
            Err(e) => Err(e),
        }
    }

    /// The response header that answers this request.
    pub open spec fn spec_response(self, success: bool) -> CommonHeader {
        CommonHeader::spec_new(
            self.spec_opcode(),
            success,
            self.spec_unknown().header.spec_user_data(),
        )
    }

    /// The response header that answers this request: valid, with the
    /// request's opcode and user data and the given success flag.
    pub fn response(&self, success: bool) -> (res: CommonHeader)
        ensures
            res == self.spec_response(success),
            res.spec_valid(),
            res.spec_is_success() == success,
            res.spec_opcode() == Ok::<Opcode, ParseDescriptorError>(self.spec_opcode()),
            res.spec_extra_segment_cnt() == 0,
            field(res.0, 8, 24) == 0,
            res.spec_user_data() == self.spec_unknown().header.spec_user_data(),
    {
        let (opcode, user_data) = match self {
            DescriptorRef::UpdateMemoryRegionTable(d) => (
                Opcode::UpdateMrTable,
                d.header().user_data(),
            ),
            DescriptorRef::UpdatePageTable(d) => (Opcode::UpdatePageTable, d.header().user_data()),
            DescriptorRef::QueuePairManagement(d) => (Opcode::QpManagement, d.header().user_data()),
            DescriptorRef::SetNetworkParameter(d) => (
                Opcode::SetNetworkParam,
                d.header().user_data(),
            ),
            DescriptorRef::SetRawPacketReceiveMeta(d) => (
                Opcode::SetRawPacketReceiveMeta,
                d.header().user_data(),
            ),
            DescriptorRef::UpdateErrorPacketSequenceNumberRecoverPoint(d) => (
                Opcode::UpdateErrorPsnRecoverPoint,
                d.header().user_data(),
            ),
        };
        CommonHeader::new(opcode, success, user_data)
    }
}

/// A command request with a known opcode is parsed into the command it names,
/// and its response header, successful or not, is valid and carries the
/// request's opcode and user data, with nothing in the other bits.
pub proof fn lemma_response_answers_request(raw: Unknown, success: bool)
    requires
        raw.header.spec_opcode() is Ok,
    ensures
        DescriptorRef::spec_parse(raw) matches Ok(d) && {
            let h = d.spec_response(success);
            &&& d.spec_unknown() == raw
            &&& h.spec_valid()
            &&& h.spec_is_success() == success
            &&& h.spec_opcode() == raw.header.spec_opcode()
            &&& h.spec_user_data() == raw.header.spec_user_data()
            &&& h.spec_extra_segment_cnt() == 0
            &&& field(h.0, 8, 24) == 0
        },
{
    let op = raw.header.spec_opcode()->Ok_0;
    CommonHeader::lemma_new_fields(op, success, raw.header.spec_user_data());
}

} // verus!
