//! The channel abstraction: moves a frame from a source machine to a
//! destination machine, deciding per call whether delivery succeeds.
//!
//! The polymorphic contract lets protocol logic be written once and run over
//! the lossless [`IdealChannel`] or the probabilistically lossy
//! [`NoisyChannel`]; adding a further loss model needs no change to the
//! protocol driver.

use crate::frame::Frame;
use crate::machine::Machine;
use rand::Rng;
use vstd::prelude::*;

verus! {

/// An abstract communication channel between two machines.
///
/// `transmit` either delivers the frame (the destination's buffer gains
/// exactly that frame, and the call returns it) or loses it (the destination
/// is untouched and the call returns `None`). The source machine is taken for
/// symmetry and future bookkeeping; no variant mutates it.
///
/// The two spec functions pin down the degenerate loss models: a channel with
/// `sure_delivery` never loses a frame, one with `sure_loss` never delivers
/// one. Both are properties of the channel value alone and survive every
/// transmission.
pub trait Channel {
    /// Holds when this channel delivers every frame: no loss is possible.
    spec fn sure_delivery(&self) -> bool;

    /// Holds when this channel never delivers a frame: every one is lost.
    spec fn sure_loss(&self) -> bool;

    /// Transmits `frame` from `source` to `destination`. Returns the frame on
    /// successful delivery and `None` when it was lost.
    fn transmit(&mut self, frame: Frame, source: &mut Machine, destination: &mut Machine) -> (r:
        Option<Frame>)
        ensures
            final(source)@ == old(source)@,
            final(self).sure_delivery() == old(self).sure_delivery(),
            final(self).sure_loss() == old(self).sure_loss(),
            (match r {
                Some(f) => f@ == frame@ && final(destination)@ == old(destination)@.push(frame@),
                None => final(destination)@ == old(destination)@,
            }),
            old(self).sure_delivery() ==> r is Some,
            old(self).sure_loss() ==> r is None,
    ;
}

/// A perfect channel: every frame is delivered intact and immediately.
pub struct IdealChannel;

/// An unreliable channel that may drop frames: each call makes one Bernoulli
/// draw and delivers the frame with probability
/// `delivery_num / delivery_den`. Lost frames leave no trace anywhere: the
/// channel keeps no record of how many it has dropped.
///
/// The probability is held as a ratio of integers so that the two degenerate
/// cases (never deliver, always deliver) are exact.
pub struct NoisyChannel {
    delivery_num: u32,
    delivery_den: u32,
}

/// Relies on rand's `Rng::gen_ratio` on the thread-local generator: it
/// returns true with probability `numerator / denominator`, panics unless
/// `0 < denominator` and `numerator <= denominator`, is always false when the
/// numerator is zero, and always true when numerator and denominator are
/// equal.
#[verifier::external_body]
fn draw_delivery(numerator: u32, denominator: u32) -> (r: bool)
    requires
        1 <= denominator,
        numerator <= denominator,
    ensures
        numerator == 0 ==> r == false,
        numerator == denominator ==> r == true,
{
    rand::thread_rng().gen_ratio(numerator, denominator)
}

impl NoisyChannel {
    #[verifier::type_invariant]
    spec fn ratio_wf(self) -> bool {
        1 <= self.delivery_den && self.delivery_num <= self.delivery_den
    }

    /// A lossy channel that delivers each frame with probability
    /// `delivery_num / delivery_den`.
    pub fn new(delivery_num: u32, delivery_den: u32) -> (r: NoisyChannel)
        requires
            1 <= delivery_den,
            delivery_num <= delivery_den,
        ensures
            r.sure_delivery() <==> delivery_num == delivery_den,
            r.sure_loss() <==> delivery_num == 0,
    {
        NoisyChannel { delivery_num, delivery_den }
    }
}

impl Channel for IdealChannel {
    open spec fn sure_delivery(&self) -> bool {
        true
    }

    open spec fn sure_loss(&self) -> bool {
        false
    }

    #[allow(unused_variables)]
    fn transmit(&mut self, frame: Frame, source: &mut Machine, destination: &mut Machine) -> (r:
        Option<Frame>) {
        let copy = frame.clone();
        destination.frames.push(copy);
        proof {
            assert(destination@ =~= old(destination)@.push(frame@));
        }
        Some(frame)
    }
}

impl Channel for NoisyChannel {
    closed spec fn sure_delivery(&self) -> bool {
        self.delivery_num == self.delivery_den
    }

    closed spec fn sure_loss(&self) -> bool {
        self.delivery_num == 0
    }

    #[allow(unused_variables)]
    fn transmit(&mut self, frame: Frame, source: &mut Machine, destination: &mut Machine) -> (r:
        Option<Frame>) {
        proof {
            use_type_invariant(&*self);
        }
        if draw_delivery(self.delivery_num, self.delivery_den) {
            let copy = frame.clone();
            destination.frames.push(copy);
            proof {
                assert(destination@ =~= old(destination)@.push(frame@));
            }
            Some(frame)
        } else {
            None
        }
    }
}

} // verus!
