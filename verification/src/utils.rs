//! Packet arithmetic helpers.

use vstd::prelude::*;

use crate::types::Pmtu;

verus! {

/// Bytes that the first packet of a transfer starting at `va` may carry: the
/// distance from `va` to the next multiple of `pmtu`.
pub open spec fn spec_first_packet_max_length(va: u64, pmtu: u32) -> int {
    pmtu - (va % (pmtu as u64))
}

/// `a / b` rounded up.
pub open spec fn div_ceil(a: int, b: int) -> int {
    (a + b - 1) / b
}

/// Number of packets that a transfer of `total_len` bytes at `raddr` is cut
/// into: the first packet runs up to the next `pmtu` boundary, every other
/// packet carries `pmtu` bytes, the last one what is left.
pub open spec fn spec_packet_cnt(pmtu: u32, raddr: u64, total_len: u32) -> int {
    let first_max = spec_first_packet_max_length(raddr, pmtu);
    let first = if total_len < first_max { total_len as int } else { first_max };
    1 + div_ceil(total_len - first, pmtu as int)
}

/// Get the length of the first packet.
///
/// A buffer is divided into packets at every multiple of `pmtu`: with
/// pmtu = 256 and va = 254 the first packet holds at most 2 bytes, with
/// va = 256 it holds at most 256.
pub fn get_first_packet_max_length(va: u64, pmtu: u32) -> (res: u32)
    requires
        pmtu > 0,
    ensures
        res == spec_first_packet_max_length(va, pmtu),
        0 < res <= pmtu,
{
    let offset = (va % (pmtu as u64)) as u32;
    pmtu - offset
}

/// Number of packets needed to send `total_len` bytes to `raddr`.
pub fn calculate_packet_cnt(pmtu: Pmtu, raddr: u64, total_len: u32) -> (res: u32)
    ensures
        res == spec_packet_cnt(pmtu.spec_bytes(), raddr, total_len),
{
    let mtu = pmtu.bytes();
    let first_pkt_max_len = get_first_packet_max_length(raddr, mtu);
    let first_pkt_len = if total_len < first_pkt_max_len { total_len } else { first_pkt_max_len };
    let rest = total_len - first_pkt_len;
    let tail_cnt = rest / mtu + if rest % mtu == 0 { 0 } else { 1 };
    assert(tail_cnt == div_ceil(rest as int, mtu as int)) by (nonlinear_arith)
        requires
            mtu > 0,
            tail_cnt == rest / mtu + if rest % mtu == 0 { 0int } else { 1int },
    {
        assert(rest == mtu * (rest / mtu) + rest % mtu);
    }
    1 + tail_cnt
}


/// The bytes of `s` read as a big-endian number, modulo 2^64 (so only the
/// last eight bytes count).
pub open spec fn spec_be_value(s: Seq<u8>) -> int
    decreases s.len(),
{
    if s.len() == 0 {
        0
    } else {
        (spec_be_value(s.drop_last()) * 256 + s.last()) % 0x1_0000_0000_0000_0000
    }
}

/// Reads the bytes of `slice` as a big-endian number; of a longer slice
/// only the last eight bytes count.
pub fn u8_slice_to_u64(slice: &[u8]) -> (res: u64)
    ensures
        res == spec_be_value(slice@),
{
    let mut a: u64 = 0;
    let mut i: usize = 0;
    while i < slice.len()
        invariant
            i <= slice@.len(),
            a == spec_be_value(slice@.take(i as int)),
        decreases slice@.len() - i,
    {
        let b = slice[i];
        let bb = b as u64;
        let shifted = a << 8u64;
        assert(shifted + bb <= u64::MAX && shifted + bb == ((a as int) * 256 + (bb as int))
            % 0x1_0000_0000_0000_0000) by (bit_vector)
            requires
                bb < 256,
                shifted == a << 8u64,
        ;
        let next = shifted + bb;
        assert(slice@.take(i + 1).drop_last() =~= slice@.take(i as int));
        a = next;
        i = i + 1;
    }
    assert(slice@.take(slice@.len() as int) =~= slice@);
    a
}

/// Alignment of aligned buffers: one page.
pub const PAGE_SIZE: usize = 4096;

/// Whether a page-aligned buffer of `size` bytes can be described: `size`
/// rounded up to a whole number of pages must not exceed `isize::MAX`.
pub open spec fn spec_aligned_size_ok(size: usize) -> bool {
    size + (PAGE_SIZE - size as int % PAGE_SIZE as int) % PAGE_SIZE as int <= isize::MAX
}

/// Checks that a page-aligned buffer of `size` bytes can be allocated.
pub fn aligned_size_ok(size: usize) -> (res: bool)
    ensures
        res == spec_aligned_size_ok(size),
{
    let pad = (PAGE_SIZE - size % PAGE_SIZE) % PAGE_SIZE;
    (size as u128) + (pad as u128) <= isize::MAX as u128
}

} // verus!
