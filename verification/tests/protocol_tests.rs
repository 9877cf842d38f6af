use net::channel::{IdealChannel, NoisyChannel};
use net::frame::{Frame, FrameKind};
use net::machine::Machine;
use net::protocol::{await_ack, poll_for_ack, send_with_ack, PollOutcome, SendOutcome};

// A 500 ms timeout polled every 10 ms allows 50 polls.
const POLLS_FOR_500_MS: u32 = 50;

#[test]
fn stop_and_wait_over_ideal_channel_acknowledges_every_frame() {
    let mut channel = IdealChannel;
    let mut source = Machine::new();
    let mut destination = Machine::new();
    for id in 0..3u8 {
        let outcome = send_with_ack(
            &mut channel,
            &mut source,
            &mut destination,
            id,
            "hi".as_bytes().to_vec(),
            POLLS_FOR_500_MS,
        );
        assert_eq!(outcome, SendOutcome::Acknowledged);
    }
    assert_eq!(destination.frames.len(), 3);
    assert_eq!(source.frames.len(), 0);
}

#[test]
fn stop_and_wait_over_lossy_channel_reports_every_frame_lost() {
    let mut channel = NoisyChannel::new(0, 1);
    let mut source = Machine::new();
    let mut destination = Machine::new();
    for id in 0..3u8 {
        let outcome = send_with_ack(
            &mut channel,
            &mut source,
            &mut destination,
            id,
            "hi".as_bytes().to_vec(),
            POLLS_FOR_500_MS,
        );
        assert_eq!(outcome, SendOutcome::Lost);
    }
    // The data leg never succeeds, so the acknowledgment leg is never
    // attempted: neither machine ever receives anything.
    assert_eq!(destination.frames.len(), 0);
    assert_eq!(source.frames.len(), 0);
}

#[test]
fn missing_ack_surfaces_as_timeout() {
    let mut channel = IdealChannel;
    let mut source = Machine::new();
    let mut destination = Machine::new();
    // No confirmation ever arrives at the sender with a zero poll budget.
    let outcome = send_with_ack(&mut channel, &mut source, &mut destination, 1, vec![9], 0);
    assert_eq!(outcome, SendOutcome::TimedOut);
    // The data frame itself was delivered.
    assert_eq!(destination.frames.len(), 1);
}

#[test]
fn poll_classifies_matching_confirmation() {
    let mut m = Machine::new();
    m.frames.push(Frame::new(4, vec![], FrameKind::Confirmation));
    assert_eq!(poll_for_ack(&mut m, 4), PollOutcome::Matched);
    assert_eq!(m.frames.len(), 0);
}

#[test]
fn poll_quietly_drops_unrelated_frames() {
    let mut m = Machine::new();
    m.frames.push(Frame::new(9, vec![], FrameKind::Confirmation));
    // A confirmation with a non-matching id is consumed, not requeued.
    assert_eq!(poll_for_ack(&mut m, 4), PollOutcome::Consumed);
    assert_eq!(m.frames.len(), 0);
    assert_eq!(poll_for_ack(&mut m, 4), PollOutcome::Empty);
}

#[test]
fn poll_does_not_match_data_frames() {
    let mut m = Machine::new();
    m.frames.push(Frame::new(4, vec![1], FrameKind::Data));
    assert_eq!(poll_for_ack(&mut m, 4), PollOutcome::Consumed);
}

#[test]
fn await_ack_finds_a_buried_confirmation_within_budget() {
    let mut m = Machine::new();
    m.frames.push(Frame::new(1, vec![], FrameKind::Confirmation));
    m.frames.push(Frame::new(2, vec![], FrameKind::Data));
    assert!(await_ack(&mut m, 1, 2));
    assert_eq!(m.frames.len(), 0);
}

#[test]
fn await_ack_starves_an_older_confirmation_when_budget_runs_out() {
    let mut m = Machine::new();
    m.frames.push(Frame::new(1, vec![], FrameKind::Confirmation));
    m.frames.push(Frame::new(2, vec![], FrameKind::Data));
    // Most-recent-first popping spends the single poll on the newer,
    // unrelated frame; the relevant confirmation is starved.
    assert!(!await_ack(&mut m, 1, 1));
    assert_eq!(m.frames.len(), 1);
}

#[test]
fn await_ack_on_empty_buffer_times_out() {
    let mut m = Machine::new();
    assert!(!await_ack(&mut m, 1, 10));
}

#[test]
fn ack_frames_carry_the_data_frame_id_and_empty_payload() {
    let mut channel = IdealChannel;
    let mut source = Machine::new();
    let mut destination = Machine::new();
    // With a zero poll budget the confirmation stays in the sender's buffer.
    let outcome = send_with_ack(&mut channel, &mut source, &mut destination, 11, vec![1, 2], 0);
    assert_eq!(outcome, SendOutcome::TimedOut);
    let ack = source.pop_frame().unwrap();
    assert_eq!(ack.id, 11);
    assert!(ack.data.is_empty());
    assert!(matches!(ack.kind, FrameKind::Confirmation));
}
