//! Deadlines, the frame channel and the trace of sent packets.
use oto::frame_channel::{frame_channel, FrameSendError, ReadStep, SendStep, MAX_FRAME};
use oto::pacer::{count_missed, Pacer, PacerFailure, PacerRegistration, PacerStep, FRAME_PERIOD};
use oto::send_trace::pair;

const MILLISECOND: u64 = 1_000_000;

fn registration() -> PacerRegistration {
    Pacer::new().register(true).unwrap()
}

#[test]
fn cancelled_wait_does_not_advance_or_lose_deadline() {
    let mut pacer = registration();
    let first = FRAME_PERIOD;
    pacer.activate(first).unwrap();
    for round in 0..4 {
        assert_eq!(
            pacer.next_deadline(round * 4 * MILLISECOND),
            PacerStep::Wait(first)
        );
    }
    assert_eq!(pacer.next_deadline(first), PacerStep::Due(first));
    assert_eq!(pacer.skipped(), 0);
}

#[test]
fn delayed_executor_recovers_once_without_catchup() {
    let mut pacer = registration();
    let first = FRAME_PERIOD;
    pacer.activate(first).unwrap();
    let now = FRAME_PERIOD * 8;
    assert_eq!(pacer.next_deadline(now), PacerStep::Due(first));
    assert_eq!(pacer.skipped(), 7);
    let next = now + FRAME_PERIOD;
    assert_eq!(pacer.next_deadline(now), PacerStep::Wait(next));
    assert_eq!(pacer.next_deadline(next), PacerStep::Due(next));
}

#[test]
fn stalled_sender_cannot_delay_another_sender() {
    let mut owner = Pacer::new();
    let mut stalled = owner.register(true).unwrap();
    let mut healthy = owner.register(true).unwrap();
    let first = FRAME_PERIOD;
    stalled.activate(first).unwrap();
    healthy.activate(first).unwrap();
    let mut now = first;
    for n in 0..5 {
        now = first + FRAME_PERIOD * n;
        assert_eq!(healthy.next_deadline(now), PacerStep::Due(now));
    }
    assert_eq!(healthy.skipped(), 0);
    assert_eq!(stalled.next_deadline(now), PacerStep::Due(first));
    assert_eq!(stalled.skipped(), 4);
}

#[test]
fn deactivate_and_rearm_cannot_deliver_an_old_tick() {
    let mut pacer = registration();
    pacer.activate(0).unwrap();
    pacer.deactivate();
    let now = 5_000 * MILLISECOND;
    assert_eq!(pacer.next_deadline(now), PacerStep::Idle);
    let first = now + FRAME_PERIOD;
    pacer.activate(first).unwrap();
    assert_eq!(pacer.next_deadline(first), PacerStep::Due(first));
    assert_eq!(pacer.skipped(), 0, "idle time is not missed active audio");
    pacer.unregister();
    assert_eq!(pacer.next_deadline(first), PacerStep::Closed);
    assert_eq!(pacer.activate(first), Err(PacerFailure::Closed));
}

#[test]
fn slow_frame_work_counts_missed_periods_without_double_counting() {
    let mut pacer = registration();
    let first = 0;
    pacer.activate(first).unwrap();
    assert_eq!(
        pacer.next_deadline(45 * MILLISECOND),
        PacerStep::Due(first)
    );
    assert_eq!(pacer.skipped(), 2);
    pacer.complete(first, 85 * MILLISECOND);
    assert_eq!(pacer.skipped(), 4);
    let next = first + 105 * MILLISECOND;
    assert_eq!(
        pacer.next_deadline(85 * MILLISECOND),
        PacerStep::Wait(next)
    );
    assert_eq!(pacer.next_deadline(next), PacerStep::Due(next));
}

#[test]
fn registration_needs_a_runtime() {
    assert_eq!(
        Pacer::new().register(false).unwrap_err(),
        PacerFailure::Closed
    );
    assert_eq!(count_missed(0, FRAME_PERIOD - 1), 0);
    assert_eq!(count_missed(0, FRAME_PERIOD), 1);
    assert_eq!(count_missed(FRAME_PERIOD, 0), 0);
}

#[test]
fn owned_consumption_releases_producer_without_a_timer_tick() {
    let mut channel = frame_channel();
    let mut output = [0; MAX_FRAME];
    assert_eq!(channel.poll_owned(&mut output), ReadStep::Pending);
    let mut published = false;
    assert_eq!(
        channel.poll_send(&[1], &mut published),
        SendStep::Wait { timer: false },
        "an owned reader wakes the producer itself"
    );
    assert_eq!(channel.poll_owned(&mut output), ReadStep::Frame(1));
    assert_eq!(output[0], 1);
    assert_eq!(channel.poll_send(&[1], &mut published), SendStep::Done(Ok(())));
    let mut published = false;
    assert!(matches!(channel.poll_send(&[2], &mut published), SendStep::Wait { .. }));
    assert_eq!(
        channel.poll_owned(&mut output),
        ReadStep::Frame(1),
        "next frame must be published without waiting for a timer tick"
    );
    assert_eq!(output[0], 2);
}

#[test]
fn owned_waiter_replacement_and_close_are_not_lost() {
    for undersized in [false, true] {
        let mut channel = frame_channel();
        let mut output = [0; MAX_FRAME];
        assert_eq!(channel.poll_owned(&mut output), ReadStep::Pending);
        let mut published = false;
        assert!(matches!(
            channel.poll_send(&[1, 2, 3], &mut published),
            SendStep::Wait { .. }
        ));
        // Cancelling the published send retains its bytes. The send after it must
        // observe consumption or close.
        let mut published = false;
        assert!(matches!(
            channel.poll_send(&[4], &mut published),
            SendStep::Wait { .. }
        ));
        let expected = if undersized {
            assert_eq!(channel.poll_owned(&mut []), ReadStep::Ended);
            FrameSendError::OutputTooSmall
        } else {
            channel.drop_reader();
            FrameSendError::Closed
        };
        assert_eq!(
            channel.poll_send(&[4], &mut published),
            SendStep::Done(Err(expected))
        );
    }
}

#[test]
fn ordinary_callback_read_does_not_wake_producer_scheduler() {
    let mut channel = frame_channel();
    let mut published = false;
    assert_eq!(
        channel.poll_send(&[7], &mut published),
        SendStep::Wait { timer: true },
        "the timer is the fallback for readers that do not wake the producer"
    );
    let mut output = [0; MAX_FRAME];
    assert_eq!(channel.poll_frame(&mut output), ReadStep::Frame(1));
    assert_eq!(channel.poll_send(&[7], &mut published), SendStep::Done(Ok(())));
}

#[test]
fn cancellation_retains_frame_and_next_send_waits_without_overwrite() {
    let mut channel = frame_channel();
    let first = [0xa5; MAX_FRAME];
    let second = [0x5a; MAX_FRAME];
    let mut output = [0; MAX_FRAME];
    let mut cancelled = false;
    assert!(matches!(
        channel.poll_send(&first, &mut cancelled),
        SendStep::Wait { .. }
    ));
    let mut published = false;
    assert!(matches!(
        channel.poll_send(&second, &mut published),
        SendStep::Wait { .. }
    ));
    assert_eq!(channel.poll_frame(&mut output), ReadStep::Frame(MAX_FRAME));
    assert_eq!(output, first);
    assert!(matches!(
        channel.poll_send(&second, &mut published),
        SendStep::Wait { .. }
    ));
    assert_eq!(channel.poll_frame(&mut output), ReadStep::Frame(MAX_FRAME));
    assert_eq!(output, second);
    assert_eq!(
        channel.poll_send(&second, &mut published),
        SendStep::Done(Ok(()))
    );
    assert_eq!(channel.poll_frame(&mut output), ReadStep::Pending);
    channel.drop_writer();
    assert_eq!(channel.poll_frame(&mut output), ReadStep::Ended);
}

#[test]
fn invalid_length_publishes_nothing_and_undersized_output_fails_without_copy() {
    let mut channel = frame_channel();
    let mut published = false;
    assert_eq!(
        channel.poll_send(&[], &mut published),
        SendStep::Done(Err(FrameSendError::InvalidLength))
    );
    assert_eq!(
        channel.poll_send(&[0; MAX_FRAME + 1], &mut published),
        SendStep::Done(Err(FrameSendError::InvalidLength))
    );
    assert!(!published);
    let mut small = [0xcc; 2];
    assert_eq!(channel.poll_frame(&mut small), ReadStep::Pending);
    assert!(matches!(
        channel.poll_send(&[1, 2, 3], &mut published),
        SendStep::Wait { .. }
    ));
    assert_eq!(channel.poll_frame(&mut small), ReadStep::Ended);
    assert_eq!(small, [0xcc; 2]);
    assert_eq!(
        channel.poll_send(&[1, 2, 3], &mut published),
        SendStep::Done(Err(FrameSendError::OutputTooSmall))
    );
    let mut published = false;
    assert_eq!(
        channel.poll_send(&[1], &mut published),
        SendStep::Done(Err(FrameSendError::OutputTooSmall))
    );
}

#[test]
fn dropping_writer_delivers_queued_frame_before_eof() {
    let mut channel = frame_channel();
    let mut published = false;
    assert!(matches!(
        channel.poll_send(&[7], &mut published),
        SendStep::Wait { .. }
    ));
    channel.drop_writer();
    let mut output = [0; MAX_FRAME];
    assert_eq!(channel.poll_frame(&mut output), ReadStep::Frame(1));
    assert_eq!(output[0], 7);
    assert_eq!(channel.poll_frame(&mut output), ReadStep::Ended);
}

#[test]
fn dropping_reader_releases_pending_and_future_sends() {
    let mut channel = frame_channel();
    let mut published = false;
    assert!(matches!(
        channel.poll_send(&[1], &mut published),
        SendStep::Wait { .. }
    ));
    channel.drop_reader();
    assert_eq!(
        channel.poll_send(&[1], &mut published),
        SendStep::Done(Err(FrameSendError::Closed))
    );
    let mut published = false;
    assert_eq!(
        channel.poll_send(&[2], &mut published),
        SendStep::Done(Err(FrameSendError::Closed))
    );
}

#[test]
fn channel_errors_have_messages() {
    for failure in [
        FrameSendError::InvalidLength,
        FrameSendError::Closed,
        FrameSendError::OutputTooSmall,
    ] {
        assert!(!failure.message().is_empty());
    }
}

#[test]
fn frames_keep_their_bytes_and_order() {
    let mut channel = frame_channel();
    let mut output = [0; MAX_FRAME];
    for sequence in 0..256_usize {
        let mut bytes = [0; MAX_FRAME];
        for (i, byte) in bytes.iter_mut().enumerate() {
            *byte = (sequence + i) as u8;
        }
        let mut published = false;
        assert!(matches!(
            channel.poll_send(&bytes, &mut published),
            SendStep::Wait { .. }
        ));
        assert_eq!(channel.poll_frame(&mut output), ReadStep::Frame(MAX_FRAME));
        assert_eq!(output, bytes);
        assert_eq!(
            channel.poll_send(&bytes, &mut published),
            SendStep::Done(Ok(()))
        );
    }
}

#[test]
fn bounded_trace_preserves_headers_and_exposes_missing_records() {
    let mut trace = pair(1, 0);
    let header = [0x80, 0x78, 0xff, 0xff, 0, 0, 3, 0xc0, 0, 0, 0, 7];
    assert!(trace.record(0, &header, 4, 8, false));
    assert!(trace.record(0, &header, 4, 8, false));
    assert_eq!(trace.dropped(), 1);
    let first = trace.pop().unwrap();
    assert_eq!(
        (first.index, first.sequence, first.timestamp, first.ssrc),
        (1, 65535, 960, 7)
    );
    assert_eq!(
        (first.connection_generation, first.source_generation),
        (4, 8)
    );
    assert!(!first.silence);
    trace.record(20 * MILLISECOND, &header, 5, 9, true);
    let third = trace.pop().unwrap();
    assert_eq!(third.index, 3);
    assert_eq!(third.elapsed_micros, 20000);
    assert!(third.silence);
    trace.abandon();
    assert!(!trace.record(20 * MILLISECOND, &header, 5, 9, false));
}
