//! The elapsed time of one rendered frame, in whole milliseconds.

use vstd::prelude::*;

verus! {

#[derive(Clone, Copy, Debug, PartialEq, Eq, Structural)]
pub struct FrameTime {
    pub t_ms: u32,
}

impl FrameTime {
    pub fn new() -> (r: FrameTime)
        ensures
            r.t_ms == 0,
    {
        FrameTime { t_ms: 0 }
    }

    pub fn of(ms: u32) -> (r: FrameTime)
        ensures
            r.t_ms == ms,
    {
        FrameTime { t_ms: ms }
    }
}

} // verus!
