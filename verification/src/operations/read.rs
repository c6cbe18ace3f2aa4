//! RDMA read requests.

use vstd::prelude::*;

use crate::operations::common::Common;
use crate::send::{ScatterGatherElement, Seg0, Seg1, VariableLengthSge};
use crate::types::{DmaAddress, MemoryRegionKey};

verus! {

/// An RDMA read request.
#[derive(Debug, Clone, Copy)]
pub struct Read {
    pub common: Common,
    pub sge: ScatterGatherElement,
}

/// Assembles a read request from its segments.
#[derive(Debug, Clone, Copy)]
pub struct Builder(pub Read);

impl Builder {
    /// Initialize the builder from seg0.
    pub fn from_seg0(seg0: Seg0) -> (res: Self)
        ensures
            res.0.common == Common::spec_from_seg0(seg0),
            res.0.sge.spec_is_empty(),
    {
        Builder(
            Read {
                common: Common::from_seg0(&seg0),
                sge: ScatterGatherElement {
                    local_key: MemoryRegionKey(0),
                    len: 0,
                    local_addr: DmaAddress(0),
                },
            },
        )
    }

    /// Read seg1 into the request; seg0 has been read.
    pub fn with_seg1(self, seg1: Seg1) -> (res: Self)
        requires
            Common::seg1_codes_valid(seg1),
        ensures
            res.0.common == self.0.common.spec_with_seg1(seg1),
            res.0.sge == self.0.sge,
    {
        let mut b = self;
        b.0.common.with_seg1(&seg1);
        b
    }

    /// Read the scatter/gather segment into the request and finish it; only
    /// one element is supported, so the second one must be empty.
    pub fn with_sge(self, sge: VariableLengthSge) -> (res: Read)
        requires
            sge.sge2.spec_is_empty(),
        ensures
            res.common == self.0.common,
            res.sge == sge.sge1,
    {
        let mut r = self.0;
        r.sge = sge.sge1;
        r
    }
}

} // verus!
