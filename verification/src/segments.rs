//! Cutting a transfer into packet-sized segments.

use vstd::prelude::*;

use crate::types::{Pmtu, VirtualAddress};
use crate::utils::{div_ceil, spec_packet_cnt};

verus! {

/// A piece of a transfer that fits into one packet.
#[derive(Debug, Clone, Copy, PartialEq, Eq, Structural)]
pub struct Segment {
    pub va: VirtualAddress,
    pub len: u32,
}

impl Segment {
    pub fn new(va: VirtualAddress, len: u32) -> (res: Self)
        ensures
            res.va == va,
            res.len == len,
    {
        Self { va, len }
    }

    /// The segment as a pair of its start address and its length.
    pub open spec fn view_pair(self) -> (int, int) {
        (self.va.0 as int, self.len as int)
    }
}

pub open spec fn min(a: int, b: int) -> int {
    if a < b { a } else { b }
}

/// Length of the first segment: up to the next multiple of `mtu`, counted on
/// the low 32 bits of `va`.
pub open spec fn first_segment_len(va: int, len: int, mtu: int) -> int {
    min(len, mtu - (va % 0x1_0000_0000) % mtu)
}

/// The segments after the first: `remainder` bytes from `va` in pieces of
/// `mtu`, the last one shorter.
pub open spec fn rest_segments(va: int, remainder: int, mtu: int) -> Seq<(int, int)>
    decreases remainder,
{
    if remainder <= 0 || mtu <= 0 {
        seq![]
    } else {
        let l = min(remainder, mtu);
        seq![(va, l)] + rest_segments(va + l, remainder - l, mtu)
    }
}

/// All segments of a transfer of `len` bytes at `va` for path MTU `mtu`.
pub open spec fn spec_segments(va: int, len: int, mtu: int) -> Seq<(int, int)> {
    let f = first_segment_len(va, len, mtu);
    seq![(va, f)] + rest_segments(va + f, len - f, mtu)
}

/// Sum of the lengths of a sequence of segments.
pub open spec fn total_len(s: Seq<(int, int)>) -> int
    decreases s.len(),
{
    if s.len() == 0 {
        0
    } else {
        s[0].1 + total_len(s.drop_first())
    }
}

/// Each segment starts where the previous one ends.
pub open spec fn contiguous(s: Seq<(int, int)>) -> bool {
    forall|i: int| 0 <= i < s.len() - 1 ==> #[trigger] s[i + 1].0 == s[i].0 + s[i].1
}

/// Cuts `len` bytes at `va` into segments, the first one ending at the next
/// multiple of `path_mtu`, the others `path_mtu` long but the last.
pub fn generate_segments_from_request(va: u64, len: u32, path_mtu: u32) -> (res: Vec<Segment>)
    requires
        path_mtu > 0,
        va + len <= u64::MAX,
    ensures
        res@.map_values(|s: Segment| s.view_pair()) == spec_segments(
            va as int,
            len as int,
            path_mtu as int,
        ),
{
    let ghost va0 = va as int;
    let ghost len0 = len as int;
    let ghost mtu = path_mtu as int;
    let mut va = va;
    let mut segments: Vec<Segment> = Vec::new();
    let mut remainder = len;

    let offset = (va as u32) % path_mtu;
    assert((va as u32) as u64 == va % 0x1_0000_0000) by (bit_vector);
    let first = if remainder < path_mtu - offset {
        remainder
    } else {
        path_mtu - offset
    };
    segments.push(Segment::new(VirtualAddress(va), first));
    va = va + first as u64;
    remainder = remainder - first;

    assert(segments@.map_values(|s: Segment| s.view_pair()) + rest_segments(
        va as int,
        remainder as int,
        mtu,
    ) =~= spec_segments(va0, len0, mtu));

    while remainder > 0
        invariant
            mtu == path_mtu,
            path_mtu > 0,
            va + remainder <= u64::MAX,
            segments@.map_values(|s: Segment| s.view_pair()) + rest_segments(
                va as int,
                remainder as int,
                mtu,
            ) == spec_segments(va0, len0, mtu),
        decreases remainder,
    {
        let l = if remainder < path_mtu {
            remainder
        } else {
            path_mtu
        };
        let ghost before = segments@.map_values(|s: Segment| s.view_pair());
        segments.push(Segment::new(VirtualAddress(va), l));
        assert(segments@.map_values(|s: Segment| s.view_pair()) =~= before.push(
            (va as int, l as int),
        ));
        assert(rest_segments(va as int, remainder as int, mtu) == seq![(va as int, l as int)]
            + rest_segments(va + l, remainder - l, mtu));
        assert(before.push((va as int, l as int)) + rest_segments(va + l, remainder - l, mtu)
            =~= before + (seq![(va as int, l as int)] + rest_segments(
            va + l,
            remainder - l,
            mtu,
        )));
        va = va + l as u64;
        remainder = remainder - l;
    }
    assert(rest_segments(va as int, 0, mtu) =~= Seq::<(int, int)>::empty());
    assert(segments@.map_values(|s: Segment| s.view_pair()) + Seq::<(int, int)>::empty()
        =~= segments@.map_values(|s: Segment| s.view_pair()));
    segments
}


proof fn lemma_rest_segments(va: int, remainder: int, mtu: int)
    requires
        mtu > 0,
        remainder >= 0,
    ensures
        total_len(rest_segments(va, remainder, mtu)) == remainder,
        contiguous(rest_segments(va, remainder, mtu)),
        rest_segments(va, remainder, mtu).len() > 0 ==> rest_segments(va, remainder, mtu)[0].0
            == va,
        rest_segments(va, remainder, mtu).len() == div_ceil(remainder, mtu),
        forall|i: int|
            0 <= i < rest_segments(va, remainder, mtu).len() ==> 0 < (
            #[trigger] rest_segments(va, remainder, mtu)[i]).1 <= mtu,
        forall|i: int|
            0 <= i < rest_segments(va, remainder, mtu).len() - 1 ==> (
            #[trigger] rest_segments(va, remainder, mtu)[i]).1 == mtu,
        forall|i: int|
            0 <= i < rest_segments(va, remainder, mtu).len() ==> ((#[trigger] rest_segments(
                va,
                remainder,
                mtu,
            )[i]).0 - va) % mtu == 0,
    decreases remainder,
{
    let s = rest_segments(va, remainder, mtu);
    if remainder == 0 {
        assert(div_ceil(0, mtu) == 0) by (nonlinear_arith)
            requires
                mtu > 0,
        ;
    } else {
        let l = min(remainder, mtu);
        let t = rest_segments(va + l, remainder - l, mtu);
        lemma_rest_segments(va + l, remainder - l, mtu);
        assert(s == seq![(va, l)] + t);
        assert(s.drop_first() =~= t);
        assert forall|i: int| 0 <= i < s.len() - 1 implies #[trigger] s[i + 1].0 == s[i].0
            + s[i].1 by {
            if i > 0 {
                assert(s[i] == t[i - 1]);
                assert(s[i + 1] == t[i]);
            }
        }
        if remainder < mtu {
            assert(div_ceil(remainder, mtu) == 1) by (nonlinear_arith)
                requires
                    0 < remainder < mtu,
            ;
            assert(div_ceil(0, mtu) == 0) by (nonlinear_arith)
                requires
                    mtu > 0,
            ;
        } else {
            assert(div_ceil(remainder, mtu) == 1 + div_ceil(remainder - mtu, mtu))
                by (nonlinear_arith)
                requires
                    mtu > 0,
            {
                assert((remainder + mtu - 1) == (remainder - mtu + mtu - 1) + mtu * 1);
            }
        }
        assert forall|i: int| 0 <= i < s.len() implies 0 < (#[trigger] s[i]).1 <= mtu by {
            if i > 0 {
                assert(s[i] == t[i - 1]);
            }
        }
        assert forall|i: int| 0 <= i < s.len() - 1 implies (#[trigger] s[i]).1 == mtu by {
            if i > 0 {
                assert(s[i] == t[i - 1]);
            }
        }
        assert forall|i: int| 0 <= i < s.len() implies ((#[trigger] s[i]).0 - va) % mtu == 0 by {
            if i == 0 {
                assert(s[0] == (va, l));
                assert(0int % mtu == 0) by (nonlinear_arith)
                    requires
                        mtu > 0,
                ;
            } else {
                assert(s[i] == t[i - 1]);
                if l < mtu {
                    assert(t.len() == 0);
                }
                let d = t[i - 1].0 - (va + l);
                assert(d % mtu == 0);
                assert((d + mtu) % mtu == 0) by (nonlinear_arith)
                    requires
                        d % mtu == 0,
                        mtu > 0,
                ;
                assert(l == mtu);
                assert(s[i].0 - va == d + mtu);
            }
        }
    }
}

/// The segments of a transfer cover it exactly: the first starts at `va`,
/// each one starts where the previous ends, their lengths add up to `len`,
/// none is longer than the path MTU, and all but the first and the last are
/// exactly one MTU long.
pub proof fn lemma_segments_cover_request(va: u64, len: u32, path_mtu: u32)
    requires
        path_mtu > 0,
    ensures
        ({
            let s = spec_segments(va as int, len as int, path_mtu as int);
            &&& s.len() >= 1
            &&& s[0].0 == va
            &&& contiguous(s)
            &&& total_len(s) == len
            &&& forall|i: int| 0 <= i < s.len() ==> 0 <= (#[trigger] s[i]).1 <= path_mtu
            &&& forall|i: int| 0 < i < s.len() - 1 ==> (#[trigger] s[i]).1 == path_mtu
            &&& s[0].1 == min(len as int, path_mtu - (va as int % 0x1_0000_0000) % (path_mtu as int))
            &&& s.len() > 1 ==> (va as int % 0x1_0000_0000 + s[0].1) % (path_mtu as int) == 0
            &&& forall|i: int| 0 < i < s.len() ==> ((#[trigger] s[i]).0 - s[1].0) % (path_mtu as int) == 0
        }),
{
    let mtu = path_mtu as int;
    let s = spec_segments(va as int, len as int, mtu);
    let f = first_segment_len(va as int, len as int, mtu);
    let t = rest_segments(va + f, len - f, mtu);
    assert(0 <= (va as int % 0x1_0000_0000) % mtu < mtu) by (nonlinear_arith)
        requires
            mtu > 0,
    ;
    lemma_rest_segments(va + f, len - f, mtu);
    assert(s.drop_first() =~= t);
    assert forall|i: int| 0 <= i < s.len() - 1 implies #[trigger] s[i + 1].0 == s[i].0
        + s[i].1 by {
        if i > 0 {
            assert(s[i] == t[i - 1]);
            assert(s[i + 1] == t[i]);
        }
    }
    assert forall|i: int| 0 <= i < s.len() implies 0 <= (#[trigger] s[i]).1 <= path_mtu by {
        if i > 0 {
            assert(s[i] == t[i - 1]);
        }
    }
    assert forall|i: int| 0 < i < s.len() - 1 implies (#[trigger] s[i]).1 == path_mtu by {
        assert(s[i] == t[i - 1]);
    }
    if s.len() > 1 {
        let x = va as int % 0x1_0000_0000;
        assert(f < len);
        assert((x + (mtu - x % mtu)) % mtu == 0) by (nonlinear_arith)
            requires
                mtu > 0,
                x >= 0,
        ;
        assert(s[1] == t[0]);
    }
    assert forall|i: int| 0 < i < s.len() implies ((#[trigger] s[i]).0 - s[1].0) % (path_mtu as int) == 0 by {
        assert(s[i] == t[i - 1]);
        assert(s[1] == t[0]);
    }
}

/// For every path MTU, the number of segments that
/// `generate_segments_from_request` cuts a transfer into is the packet count
/// that `calculate_packet_cnt` gives for it.
pub proof fn lemma_segment_count_is_packet_cnt(pmtu: Pmtu, va: u64, len: u32)
    ensures
        spec_segments(va as int, len as int, pmtu.spec_bytes() as int).len() == spec_packet_cnt(
            pmtu.spec_bytes(),
            va,
            len,
        ),
{
    let mtu = pmtu.spec_bytes() as int;
    let f = first_segment_len(va as int, len as int, mtu);
    assert((va as int % 0x1_0000_0000) % mtu == va as int % mtu) by {
        assert(0x1_0000_0000int == mtu * (0x1_0000_0000int / mtu));
        vstd::arithmetic::div_mod::lemma_mod_mod(va as int, mtu, 0x1_0000_0000int / mtu);
    }
    assert(0 <= va as int % mtu < mtu) by (nonlinear_arith)
        requires
            mtu > 0,
    ;
    lemma_rest_segments(va + f, len - f, mtu);
}

/// The last of a run of contiguous segments ends where the first starts plus
/// their total length.
pub proof fn lemma_contiguous_end(s: Seq<(int, int)>)
    requires
        contiguous(s),
        s.len() > 0,
    ensures
        s[s.len() - 1].0 + s[s.len() - 1].1 == s[0].0 + total_len(s),
    decreases s.len(),
{
    let t = s.drop_first();
    if s.len() == 1 {
        assert(total_len(t) == 0);
    } else {
        assert forall|i: int| 0 <= i < t.len() - 1 implies #[trigger] t[i + 1].0 == t[i].0 + t[i].1 by {
            assert(t[i + 1] == s[i + 2]);
            assert(t[i] == s[i + 1]);
        }
        assert(t[0] == s[1]);
        assert(s[1].0 == s[0].0 + s[0].1);
        lemma_contiguous_end(t);
        assert(t[t.len() - 1] == s[s.len() - 1]);
    }
}

} // verus!
