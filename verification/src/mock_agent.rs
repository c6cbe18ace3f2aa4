//! Bookkeeping of the mocked RPC agent, which replays captured network
//! fragments numbered by frame and fragment.

use vstd::prelude::*;

verus! {

/// Which captured fragment the mock agent hands out next.
#[derive(Debug, Clone, Copy, PartialEq, Eq, Structural)]
pub struct MockAgent {
    pub frame: u32,
    pub fragment: u32,
}

impl MockAgent {
    /// Starts at fragment 0 of frame 0.
    pub fn new() -> (res: Self)
        ensures
            res.frame == 0,
            res.fragment == 0,
    {
        MockAgent { frame: 0, fragment: 0 }
    }

    /// The frame and fragment numbers of the capture to replay now; the
    /// fragment counter moves on to the next fragment.
    pub fn next_capture(&mut self) -> (res: (u32, u32))
        requires
            old(self).fragment < u32::MAX,
        ensures
            res == (old(self).frame, old(self).fragment),
            final(self).frame == old(self).frame,
            final(self).fragment == old(self).fragment + 1,
    {
        let res = (self.frame, self.fragment);
        self.fragment = self.fragment + 1;
        res
    }

    /// Records that the replayed fragment was delivered; after the last
    /// fragment of a frame (`is_last == 1`) the next frame starts at its
    /// first fragment.
    pub fn capture_delivered(&mut self, is_last: u8)
        requires
            is_last == 1 ==> old(self).frame < u32::MAX,
        ensures
            is_last == 1 ==> final(self).frame == old(self).frame + 1 && final(self).fragment == 0,
            is_last != 1 ==> *final(self) == *old(self),
    {
        if is_last == 1 {
            self.frame = self.frame + 1;
            self.fragment = 0;
        }
    }
}

} // verus!
