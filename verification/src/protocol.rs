//! The stop-and-wait protocol driver.
//!
//! One logical transmission sends a data frame source-to-destination, lets
//! the destination synthesize a confirmation with the same id, sends that
//! confirmation back over the same channel (it can itself be lost), and then
//! polls the source machine's buffer, up to a bounded number of polls, for a
//! confirmation whose id matches. There is no retransmission: a lost data
//! frame is reported as lost and the id is not retried, and a lost or absent
//! confirmation surfaces only as a timeout.
//!
//! A confirmation popped while polling whose id does not match is quietly
//! dropped: it stays consumed, it is not requeued. Because the machine buffer
//! pops most-recent-first, an older relevant confirmation can be starved by
//! newer unrelated arrivals.

use crate::channel::Channel;
use crate::frame::{Frame, FrameKind, FrameModel};
use crate::machine::Machine;
use vstd::prelude::*;

verus! {

/// Outcome of one stop-and-wait exchange.
#[derive(Clone, Copy, PartialEq, Eq, Structural, Debug)]
pub enum SendOutcome {
    /// The data frame was lost on its way to the destination; the
    /// acknowledgment leg was never attempted.
    Lost,
    /// A confirmation with the matching id was observed within the poll
    /// budget.
    Acknowledged,
    /// The poll budget ran out without a matching confirmation.
    TimedOut,
}

/// Outcome of a single poll of a machine's buffer.
#[derive(Clone, Copy, PartialEq, Eq, Structural, Debug)]
pub enum PollOutcome {
    /// The popped frame was a confirmation with the expected id.
    Matched,
    /// A frame was popped but did not match; it stays consumed.
    Consumed,
    /// The buffer was empty.
    Empty,
}

/// A confirmation frame with this id acknowledges a data frame of the same id.
pub open spec fn is_matching_ack(f: FrameModel, id: u8) -> bool {
    f.kind == FrameKind::Confirmation && f.id == id
}

/// The model of the confirmation frame for `id`: same id, empty payload.
pub open spec fn ack_model(id: u8) -> FrameModel {
    FrameModel { id, data: Seq::empty(), kind: FrameKind::Confirmation }
}

/// The model of a data frame with the given id and payload.
pub open spec fn data_model(id: u8, payload: Seq<u8>) -> FrameModel {
    FrameModel { id, data: payload, kind: FrameKind::Data }
}

/// What a bounded run of polls makes of a buffer: frames are popped from the
/// most recent end until a matching confirmation turns up, the buffer is
/// empty, or the budget runs out. The result says whether a match was found
/// and what is left of the buffer; non-matching frames stay consumed.
pub open spec fn await_ack_spec(q: Seq<FrameModel>, id: u8, budget: nat) -> (bool, Seq<
    FrameModel,
>)
    decreases budget,
{
    if budget == 0 || q.len() == 0 {
        (false, q)
    } else if is_matching_ack(q.last(), id) {
        (true, q.drop_last())
    } else {
        await_ack_spec(q.drop_last(), id, (budget - 1) as nat)
    }
}

/// Pops one frame from `receiver` and classifies it: a confirmation carrying
/// `expected_id`, some other frame (which stays consumed), or nothing.
pub fn poll_for_ack(receiver: &mut Machine, expected_id: u8) -> (r: PollOutcome)
    ensures
        old(receiver)@.len() == 0 ==> r == PollOutcome::Empty && final(receiver)@ == old(
            receiver,
        )@,
        old(receiver)@.len() > 0 ==> ({
            &&& final(receiver)@ == old(receiver)@.drop_last()
            &&& r != PollOutcome::Empty
            &&& (r == PollOutcome::Matched <==> is_matching_ack(
                old(receiver)@.last(),
                expected_id,
            ))
        }),
{
    match receiver.pop_frame() {
        None => PollOutcome::Empty,
        Some(frame) => {
            if frame.kind == FrameKind::Confirmation && frame.id == expected_id {
                PollOutcome::Matched
            } else {
                PollOutcome::Consumed
            }
        },
    }
}

/// Polls `receiver` up to `max_polls` times for a confirmation carrying
/// `expected_id`. Returns whether one was found; every popped frame, matching
/// or not, stays consumed, exactly as [`await_ack_spec`] says.
pub fn await_ack(receiver: &mut Machine, expected_id: u8, max_polls: u32) -> (r: bool)
    ensures
        ({
            let (found, rest) = await_ack_spec(old(receiver)@, expected_id, max_polls as nat);
            r == found && final(receiver)@ == rest
        }),
{
    let mut remaining: u32 = max_polls;
    while remaining > 0
        invariant
            await_ack_spec(receiver@, expected_id, remaining as nat) == await_ack_spec(
                old(receiver)@,
                expected_id,
                max_polls as nat,
            ),
        decreases remaining,
    {
        match poll_for_ack(receiver, expected_id) {
            PollOutcome::Matched => {
                return true;
            },
            PollOutcome::Consumed => {
                remaining = remaining - 1;
            },
            PollOutcome::Empty => {
                remaining = remaining - 1;
            },
        }
    }
    false
}

/// One full stop-and-wait exchange for the frame id `id`.
///
/// Sends a data frame with `payload` from `source` to `destination` over
/// `channel`. When it is lost, reports [`SendOutcome::Lost`] and touches
/// nothing else. When it is delivered, the destination synthesizes a
/// confirmation with the same id and empty payload, the driver sends it back
/// destination-to-source over the same channel (it may be lost too), and then
/// polls `source` up to `max_polls` times for a matching confirmation.
///
/// Over a channel with `sure_delivery` and a poll budget of at least one, the
/// exchange is always acknowledged; over one with `sure_loss` it is always
/// reported lost and both machines are left untouched.
pub fn send_with_ack<C: Channel>(
    channel: &mut C,
    source: &mut Machine,
    destination: &mut Machine,
    id: u8,
    payload: Vec<u8>,
    max_polls: u32,
) -> (r: SendOutcome)
    ensures
        final(channel).sure_delivery() == old(channel).sure_delivery(),
        final(channel).sure_loss() == old(channel).sure_loss(),
        r == SendOutcome::Lost ==> final(destination)@ == old(destination)@ && final(source)@
            == old(source)@,
        r != SendOutcome::Lost ==> final(destination)@ == old(destination)@.push(
            data_model(id, payload@),
        ),
        r != SendOutcome::Lost ==> ({
            let with_ack = await_ack_spec(
                old(source)@.push(ack_model(id)),
                id,
                max_polls as nat,
            );
            let without_ack = await_ack_spec(old(source)@, id, max_polls as nat);
            ||| final(source)@ == with_ack.1 && (r == SendOutcome::Acknowledged <==> with_ack.0)
            ||| final(source)@ == without_ack.1 && (r == SendOutcome::Acknowledged
                <==> without_ack.0)
        }),
        old(channel).sure_delivery() && max_polls >= 1 ==> r == SendOutcome::Acknowledged,
        old(channel).sure_loss() ==> r == SendOutcome::Lost,
{
    let frame = Frame::new(id, payload, FrameKind::Data);
    match channel.transmit(frame, source, destination) {
        None => SendOutcome::Lost,
        Some(received) => {
            let ack = Frame::new(received.id, Vec::new(), FrameKind::Confirmation);
            proof {
                assert(ack@ =~= ack_model(id));
            }
            let delivered = channel.transmit(ack, destination, source);
            let got_ack = await_ack(source, id, max_polls);
            proof {
                if delivered is Some && max_polls >= 1 {
                    assert(is_matching_ack(ack_model(id), id));
                }
            }
            if got_ack {
                SendOutcome::Acknowledged
            } else {
                SendOutcome::TimedOut
            }
        },
    }
}

} // verus!
