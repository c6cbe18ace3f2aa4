//! Raw 32-byte queue descriptors.

use vstd::prelude::*;
use vstd::bytes::{spec_u64_to_le_bytes, spec_u64_from_le_bytes, u64_from_le_bytes, u64_to_le_bytes};
use vstd::slice::slice_subrange;

use crate::bits::field;

verus! {

/// Size in bytes of every descriptor in the queues.
pub const DESCRIPTOR_SIZE: usize = 32;

/// Alignment in bytes of a command request descriptor in memory (send
/// segments are read as plain bytes and need none).
pub const DESCRIPTOR_ALIGN: u64 = 32;

/// A descriptor as it lies in host memory: four little-endian 64-bit words.
#[derive(Debug, Clone, Copy, PartialEq, Eq, Structural)]
pub struct RawDescriptor {
    pub w0: u64,
    pub w1: u64,
    pub w2: u64,
    pub w3: u64,
}

impl RawDescriptor {
    /// Word `i` of the descriptor (bits `64 * i .. 64 * i + 63`).
    pub open spec fn word(self, i: int) -> u64 {
        if i == 0 {
            self.w0
        } else if i == 1 {
            self.w1
        } else if i == 2 {
            self.w2
        } else {
            self.w3
        }
    }

    /// Bits `lo ..= hi` of the descriptor, counted from bit 0 of byte 0; both
    /// ends lie in one word.
    pub open spec fn bits(self, lo: int, hi: int) -> u64 {
        field(self.word(lo / 64), (lo % 64) as u64, (hi - lo + 1) as u64)
    }

    /// The 32 bytes of the descriptor.
    pub open spec fn spec_bytes(self) -> Seq<u8> {
        spec_u64_to_le_bytes(self.w0) + spec_u64_to_le_bytes(self.w1) + spec_u64_to_le_bytes(
            self.w2,
        ) + spec_u64_to_le_bytes(self.w3)
    }

    /// The descriptor whose bytes are `b`.
    pub open spec fn spec_from_bytes(b: Seq<u8>) -> RawDescriptor {
        RawDescriptor {
            w0: spec_u64_from_le_bytes(b.subrange(0, 8)),
            w1: spec_u64_from_le_bytes(b.subrange(8, 16)),
            w2: spec_u64_from_le_bytes(b.subrange(16, 24)),
            w3: spec_u64_from_le_bytes(b.subrange(24, 32)),
        }
    }

    /// Reads a descriptor from its 32 bytes.
    pub fn from_bytes(raw: &[u8]) -> (res: Self)
        requires
            raw@.len() == DESCRIPTOR_SIZE,
        ensures
            res.spec_bytes() == raw@,
            res == Self::spec_from_bytes(raw@),
    {
        let w0 = u64_from_le_bytes(slice_subrange(raw, 0, 8));
        let w1 = u64_from_le_bytes(slice_subrange(raw, 8, 16));
        let w2 = u64_from_le_bytes(slice_subrange(raw, 16, 24));
        let w3 = u64_from_le_bytes(slice_subrange(raw, 24, 32));
        let res = RawDescriptor { w0, w1, w2, w3 };
        proof {
            vstd::bytes::lemma_auto_spec_u64_to_from_le_bytes();
            assert(spec_u64_to_le_bytes(spec_u64_from_le_bytes(raw@.subrange(0, 8)))
                == raw@.subrange(0, 8));
            assert(spec_u64_to_le_bytes(spec_u64_from_le_bytes(raw@.subrange(8, 16)))
                == raw@.subrange(8, 16));
            assert(spec_u64_to_le_bytes(spec_u64_from_le_bytes(raw@.subrange(16, 24)))
                == raw@.subrange(16, 24));
            assert(spec_u64_to_le_bytes(spec_u64_from_le_bytes(raw@.subrange(24, 32)))
                == raw@.subrange(24, 32));
            assert(res.spec_bytes() =~= raw@);
        }
        res
    }

    /// The 32 bytes of the descriptor.
    pub fn to_bytes(&self) -> (res: Vec<u8>)
        ensures
            res@ == self.spec_bytes(),
            res@.len() == DESCRIPTOR_SIZE,
    {
        let mut res = u64_to_le_bytes(self.w0);
        let mut b1 = u64_to_le_bytes(self.w1);
        let mut b2 = u64_to_le_bytes(self.w2);
        let mut b3 = u64_to_le_bytes(self.w3);
        res.append(&mut b1);
        res.append(&mut b2);
        res.append(&mut b3);
        res
    }
}

/// Two descriptors with the same bytes are the same descriptor, so reading
/// back the bytes of a descriptor gives the descriptor again.
pub proof fn lemma_descriptor_bytes_roundtrip(d: RawDescriptor, e: RawDescriptor)
    requires
        d.spec_bytes() == e.spec_bytes(),
    ensures
        d == e,
{
    vstd::bytes::lemma_auto_spec_u64_to_from_le_bytes();
    let b = d.spec_bytes();
    assert(b.subrange(0, 8) =~= spec_u64_to_le_bytes(d.w0));
    assert(b.subrange(8, 16) =~= spec_u64_to_le_bytes(d.w1));
    assert(b.subrange(16, 24) =~= spec_u64_to_le_bytes(d.w2));
    assert(b.subrange(24, 32) =~= spec_u64_to_le_bytes(d.w3));
    let c = e.spec_bytes();
    assert(c.subrange(0, 8) =~= spec_u64_to_le_bytes(e.w0));
    assert(c.subrange(8, 16) =~= spec_u64_to_le_bytes(e.w1));
    assert(c.subrange(16, 24) =~= spec_u64_to_le_bytes(e.w2));
    assert(c.subrange(24, 32) =~= spec_u64_to_le_bytes(e.w3));
    assert(spec_u64_from_le_bytes(spec_u64_to_le_bytes(d.w0)) == d.w0);
    assert(spec_u64_from_le_bytes(spec_u64_to_le_bytes(d.w1)) == d.w1);
    assert(spec_u64_from_le_bytes(spec_u64_to_le_bytes(d.w2)) == d.w2);
    assert(spec_u64_from_le_bytes(spec_u64_to_le_bytes(d.w3)) == d.w3);
    assert(spec_u64_from_le_bytes(spec_u64_to_le_bytes(e.w0)) == e.w0);
    assert(spec_u64_from_le_bytes(spec_u64_to_le_bytes(e.w1)) == e.w1);
    assert(spec_u64_from_le_bytes(spec_u64_to_le_bytes(e.w2)) == e.w2);
    assert(spec_u64_from_le_bytes(spec_u64_to_le_bytes(e.w3)) == e.w3);
}

/// Reading a descriptor from its own bytes gives the descriptor back.
pub proof fn lemma_from_own_bytes(d: RawDescriptor)
    ensures
        RawDescriptor::spec_from_bytes(d.spec_bytes()) == d,
{
    vstd::bytes::lemma_auto_spec_u64_to_from_le_bytes();
    let b = d.spec_bytes();
    assert(b.subrange(0, 8) =~= spec_u64_to_le_bytes(d.w0));
    assert(b.subrange(8, 16) =~= spec_u64_to_le_bytes(d.w1));
    assert(b.subrange(16, 24) =~= spec_u64_to_le_bytes(d.w2));
    assert(b.subrange(24, 32) =~= spec_u64_to_le_bytes(d.w3));
}

/// Bit `8 * k` to bit `8 * k + 7` of a descriptor are its byte `k`: the
/// fields of a descriptor are laid out little-endian in its 32 bytes.
pub proof fn lemma_bits_are_bytes(d: RawDescriptor, k: int)
    requires
        0 <= k < 32,
    ensures
        d.bits(8 * k, 8 * k + 7) == d.spec_bytes()[k],
{
    crate::bits::lemma_low_masks();
    vstd::bytes::spec_u64_to_le_bytes_to_open(d.w0);
    vstd::bytes::spec_u64_to_le_bytes_to_open(d.w1);
    vstd::bytes::spec_u64_to_le_bytes_to_open(d.w2);
    vstd::bytes::spec_u64_to_le_bytes_to_open(d.w3);
    let i = k / 8;
    let j = k % 8;
    let w = d.word(i);
    let b = d.spec_bytes();
    assert(b[k] == spec_u64_to_le_bytes(w)[j]);
    assert((8 * k) / 64 == i && (8 * k) % 64 == 8 * j);
    assert(8 * k + 7 - 8 * k + 1 == 8);
    assert(forall|x: u64| #[trigger] (x & 0xff) == ((x & 0xff) as u8) as u64) by (bit_vector);
    assert((w >> 0u64) == w) by (bit_vector);
    let x = w >> ((8 * j) as u64);
    assert(x & 0xff == ((x & 0xff) as u8) as u64);
}

} // verus!
