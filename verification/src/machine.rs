//! A simulated endpoint in the link-layer simulation.
//!
//! A machine holds the frames that have arrived and not yet been consumed.
//! Consumption is most-recent-first: popping removes the last frame that was
//! delivered (a stack, not a FIFO queue), so a newer arrival is observed
//! before older ones.

use crate::frame::{Frame, FrameModel};
use vstd::prelude::*;

verus! {

/// A communicating endpoint: an unbounded buffer of received frames, filled
/// by a channel on delivery and drained most-recent-first by protocol logic.
pub struct Machine {
    /// Internal buffer of received frames; the last element is the most
    /// recently delivered one.
    pub frames: Vec<Frame>,
}

impl View for Machine {
    type V = Seq<FrameModel>;

    open spec fn view(&self) -> Seq<FrameModel> {
        self.frames@.map_values(|f: Frame| f@)
    }
}

impl Machine {
    /// A machine with an empty frame buffer.
    pub fn new() -> (r: Machine)
        ensures
            r@ == Seq::<FrameModel>::empty(),
    {
        let r = Machine { frames: Vec::new() };
        proof {
            assert(r@ =~= Seq::<FrameModel>::empty());
        }
        r
    }

    /// Removes and returns the most recently received frame, or `None` when
    /// the buffer is empty (not an error). Never blocks.
    pub fn pop_frame(&mut self) -> (r: Option<Frame>)
        ensures
            old(self)@.len() == 0 ==> r is None && final(self)@ == old(self)@,
            old(self)@.len() > 0 ==> ({
                &&& r matches Some(f) && f@ == old(self)@.last()
                &&& final(self)@ == old(self)@.drop_last()
            }),
    {
        let r = self.frames.pop();
        proof {
            if old(self)@.len() > 0 {
                assert(self@ =~= old(self)@.drop_last());
            }
        }
        r
    }
}

} // verus!
