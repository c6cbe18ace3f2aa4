//! Plain value types shared by the queues and descriptors.

use vstd::prelude::*;

verus! {

/// A MAC address of the `eui48` crate; its six bytes are private to it.
#[verifier::external_type_specification]
#[verifier::external_body]
pub struct ExMacAddress(eui48::MacAddress);

/// The MAC address that `eui48::MacAddress::new` makes of the six bytes
/// `eui`.
pub uninterp spec fn mac_address(eui: Seq<u8>) -> eui48::MacAddress;

/// Makes the MAC address whose bytes are `eui`, first byte first, with
/// `eui48::MacAddress::new`. That function stores the bytes unchanged; the
/// contract names its result `mac_address(eui@)` and says nothing more, as
/// the bytes inside are not visible here.
#[verifier::external_body]
pub(crate) fn new_mac_address(eui: [u8; 6]) -> (res: eui48::MacAddress)
    ensures
        res == mac_address(eui@),
{
    eui48::MacAddress::new(eui)
}

/// A virtual address in the address space of a registered memory region.
#[derive(Debug, Clone, Copy, PartialEq, Eq, Structural)]
pub struct VirtualAddress(pub u64);

/// An address that the device uses to reach host memory.
#[derive(Debug, Clone, Copy, PartialEq, Eq, Structural)]
pub struct DmaAddress(pub u64);

impl From<u64> for VirtualAddress {
    fn from(addr: u64) -> (res: Self) {
        VirtualAddress(addr)
    }
}

impl vstd::std_specs::convert::FromSpecImpl<u64> for VirtualAddress {
    open spec fn obeys_from_spec() -> bool {
        true
    }

    open spec fn from_spec(addr: u64) -> Self {
        VirtualAddress(addr)
    }
}

impl From<u64> for DmaAddress {
    fn from(addr: u64) -> (res: Self) {
        DmaAddress(addr)
    }
}

impl vstd::std_specs::convert::FromSpecImpl<u64> for DmaAddress {
    open spec fn obeys_from_spec() -> bool {
        true
    }

    open spec fn from_spec(addr: u64) -> Self {
        DmaAddress(addr)
    }
}

/// Key of a registered memory region.
#[derive(Debug, Clone, Copy, PartialEq, Eq, Structural)]
pub struct MemoryRegionKey(pub u32);

impl MemoryRegionKey {
    pub fn new(key: u32) -> (res: Self)
        ensures
            res.0 == key,
    {
        MemoryRegionKey(key)
    }

    pub fn get(&self) -> (res: u32)
        ensures
            res == self.0,
    {
        self.0
    }
}

/// Packet sequence number (24 significant bits).
pub type PacketSequenceNumber = u32;

/// Queue pair number (24 significant bits).
pub type QueuePairNumber = u32;

/// Message sequence number.
pub type MessageSequenceNumber = u16;

/// Access rights of a memory region or queue pair (`ibv_access_flags`): every
/// one of the 8 bits names a right, so every byte is a valid set of flags.
#[derive(Debug, Clone, Copy, PartialEq, Eq, Structural)]
pub struct MemoryAccessFlag(pub u8);

/// Flags of a send request (`ibv_send_flags`): fence, signaled, solicited,
/// inline, ip checksum; every one of the 5 bits names a flag.
#[derive(Debug, Clone, Copy, PartialEq, Eq, Structural)]
pub struct SendFlag(pub u8);

/// Transport type of a queue pair (`ibv_qp_type`).
#[derive(Debug, Clone, Copy, PartialEq, Eq, Structural)]
pub enum QueuePairType {
    Rc,
    Uc,
    Ud,
    RawPacket,
    XrcSend,
    XrcRecv,
}

impl QueuePairType {
    /// The code of the type in descriptors.
    pub open spec fn spec_code(self) -> u8 {
        match self {
            QueuePairType::Rc => 2,
            QueuePairType::Uc => 3,
            QueuePairType::Ud => 4,
            QueuePairType::RawPacket => 8,
            QueuePairType::XrcSend => 9,
            QueuePairType::XrcRecv => 10,
        }
    }

    /// The type with code `code`, if there is one.
    pub open spec fn spec_from_code(code: u8) -> Option<QueuePairType> {
        if code == 2 {
            Some(QueuePairType::Rc)
        } else if code == 3 {
            Some(QueuePairType::Uc)
        } else if code == 4 {
            Some(QueuePairType::Ud)
        } else if code == 8 {
            Some(QueuePairType::RawPacket)
        } else if code == 9 {
            Some(QueuePairType::XrcSend)
        } else if code == 10 {
            Some(QueuePairType::XrcRecv)
        } else {
            None
        }
    }

    pub fn from_code(code: u8) -> (res: Option<QueuePairType>)
        ensures
            res == Self::spec_from_code(code),
            res matches Some(t) ==> t.spec_code() == code,
    {
        if code == 2 {
            Some(QueuePairType::Rc)
        } else if code == 3 {
            Some(QueuePairType::Uc)
        } else if code == 4 {
            Some(QueuePairType::Ud)
        } else if code == 8 {
            Some(QueuePairType::RawPacket)
        } else if code == 9 {
            Some(QueuePairType::XrcSend)
        } else if code == 10 {
            Some(QueuePairType::XrcRecv)
        } else {
            None
        }
    }

    pub fn code(&self) -> (res: u8)
        ensures
            res == self.spec_code(),
            Self::spec_from_code(res) == Some(*self),
    {
        match self {
            QueuePairType::Rc => 2,
            QueuePairType::Uc => 3,
            QueuePairType::Ud => 4,
            QueuePairType::RawPacket => 8,
            QueuePairType::XrcSend => 9,
            QueuePairType::XrcRecv => 10,
        }
    }
}

/// Path MTU of a queue pair, as the 3-bit code that the descriptors carry.
#[derive(Debug, Clone, Copy, PartialEq, Eq, Structural)]
pub enum Pmtu {
    Mtu256,
    Mtu512,
    Mtu1024,
    Mtu2048,
    Mtu4096,
}

impl Pmtu {
    /// The code of the MTU in descriptors (`ibv_mtu`).
    pub open spec fn spec_code(self) -> u8 {
        match self {
            Pmtu::Mtu256 => 1,
            Pmtu::Mtu512 => 2,
            Pmtu::Mtu1024 => 3,
            Pmtu::Mtu2048 => 4,
            Pmtu::Mtu4096 => 5,
        }
    }

    /// The MTU with code `code`, if there is one.
    pub open spec fn spec_from_code(code: u8) -> Option<Pmtu> {
        if code == 1 {
            Some(Pmtu::Mtu256)
        } else if code == 2 {
            Some(Pmtu::Mtu512)
        } else if code == 3 {
            Some(Pmtu::Mtu1024)
        } else if code == 4 {
            Some(Pmtu::Mtu2048)
        } else if code == 5 {
            Some(Pmtu::Mtu4096)
        } else {
            None
        }
    }

    pub fn from_code(code: u8) -> (res: Option<Pmtu>)
        ensures
            res == Self::spec_from_code(code),
            res matches Some(m) ==> m.spec_code() == code,
            res is Some <==> 1 <= code <= 5,
            res matches Some(m) ==> m.spec_bytes() == 128 * vstd::arithmetic::power2::pow2(
                code as nat,
            ),
    {
        proof {
            Self::lemma_mtu_codes(code);
        }
        if code == 1 {
            Some(Pmtu::Mtu256)
        } else if code == 2 {
            Some(Pmtu::Mtu512)
        } else if code == 3 {
            Some(Pmtu::Mtu1024)
        } else if code == 4 {
            Some(Pmtu::Mtu2048)
        } else if code == 5 {
            Some(Pmtu::Mtu4096)
        } else {
            None
        }
    }

    pub fn code(&self) -> (res: u8)
        ensures
            res == self.spec_code(),
            Self::spec_from_code(res) == Some(*self),
            1 <= res <= 5,
            self.spec_bytes() == 128 * vstd::arithmetic::power2::pow2(res as nat),
    {
        proof {
            Self::lemma_mtu_codes(self.spec_code());
        }
        match self {
            Pmtu::Mtu256 => 1,
            Pmtu::Mtu512 => 2,
            Pmtu::Mtu1024 => 3,
            Pmtu::Mtu2048 => 4,
            Pmtu::Mtu4096 => 5,
        }
    }

    /// Number of bytes of one packet of this MTU.
    pub open spec fn spec_bytes(self) -> u32 {
        match self {
            Pmtu::Mtu256 => 256,
            Pmtu::Mtu512 => 512,
            Pmtu::Mtu1024 => 1024,
            Pmtu::Mtu2048 => 2048,
            Pmtu::Mtu4096 => 4096,
        }
    }

    /// The MTU codes are those of `ibv_mtu`: codes 1 to 5 name the MTUs of
    /// 256, 512, 1024, 2048 and 4096 bytes (128 times 2 to the code), every
    /// MTU has the code that names it, and no other code names an MTU.
    pub proof fn lemma_mtu_codes(code: u8)
        ensures
            1 <= code <= 5 ==> (Self::spec_from_code(code) matches Some(m) && m.spec_bytes() == 128
                * vstd::arithmetic::power2::pow2(code as nat) && m.spec_code() == code),
            !(1 <= code <= 5) ==> Self::spec_from_code(code) is None,
            forall|m: Pmtu| #[trigger] Self::spec_from_code(m.spec_code()) == Some(m),
            forall|m: Pmtu| 1 <= #[trigger] m.spec_code() <= 5,
    {
        vstd::arithmetic::power2::lemma2_to64();
        assert forall|m: Pmtu| #[trigger] Self::spec_from_code(m.spec_code()) == Some(m) by {
            match m {
                Pmtu::Mtu256 => {},
                Pmtu::Mtu512 => {},
                Pmtu::Mtu1024 => {},
                Pmtu::Mtu2048 => {},
                Pmtu::Mtu4096 => {},
            }
        }
    }

    /// Number of bytes of one packet of this MTU.
    pub fn bytes(&self) -> (res: u32)
        ensures
            res == self.spec_bytes(),
    {
        match self {
            Pmtu::Mtu256 => 256,
            Pmtu::Mtu512 => 512,
            Pmtu::Mtu1024 => 1024,
            Pmtu::Mtu2048 => 2048,
            Pmtu::Mtu4096 => 4096,
        }
    }
}

} // verus!
