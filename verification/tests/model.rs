//! Errors, snapshots, admission and counters.
use oto::audio::counters::AudioCounters;
use oto::audio::validity::TransportValidity;
use oto::audio::wake::WakeShared;
use oto::connection::{
    command_queued, reply_lost, AudioAdmission, QueueOutcome, StateStore, SubscriberSlots,
};
use oto::error::ErrorSource;
use oto::{
    AudioPhase, AudioSnapshot, CloseReason, ConnectionEvent, ConnectionGeneration, ConnectionPhase,
    DaveContext, DaveFailure, Error, ErrorKind, FailureSnapshot, Operation, Oto, ResourceLimits,
    RetryDisposition, SourceGeneration,
};

const MILLISECOND: u64 = 1_000_000;

fn dave_error(source: ErrorSource) -> Error {
    Error::new(
        ErrorKind::DaveTransition,
        Operation::StartAudio,
        None,
        RetryDisposition::Fatal,
        None,
        "DAVE media encryption failed",
    )
    .with_source(source)
}

#[test]
fn durable_dave_cause_survives_failure_and_resets_with_source_generation() {
    let error = dave_error(ErrorSource::Dave(DaveFailure::ResponseTimeout)).with_dave_context(
        DaveContext {
            active_version: 1,
            transition_pending: true,
            ready: false,
        },
    );
    let mut audio = AudioSnapshot::initial();
    audio.set_failure(&error);
    assert_eq!(
        audio.clone().dave_failure(),
        Some(DaveFailure::ResponseTimeout)
    );
    assert_eq!(audio.failure(), Some(ErrorKind::DaveTransition));
    assert_eq!(audio.clone().dave_context(), error.dave_context());
    let connection = FailureSnapshot::new(
        error.kind(),
        error.operation(),
        ConnectionGeneration::first(),
        error.retry_disposition(),
        None,
    )
    .with_dave_failure(error.dave_failure())
    .with_dave_context(error.dave_context());
    assert_eq!(connection.clone().dave_failure(), audio.dave_failure());
    assert_eq!(connection.clone().dave_context(), audio.dave_context());
    audio.set_generation(SourceGeneration::first());
    assert_eq!(audio.dave_failure(), None);
    assert_eq!(audio.dave_context(), None);
    assert_eq!(audio.failure(), None);
}

#[test]
fn arbitrary_backend_source_is_not_exposed_by_diagnostics() {
    let error = Error::new(
        ErrorKind::DaveTransition,
        Operation::Connect,
        None,
        RetryDisposition::Fatal,
        None,
        "DAVE failed",
    )
    .with_source(ErrorSource::Foreign);
    assert_eq!(error.dave_failure(), None);
    assert!(error.has_source());
    assert!(!format!("{error:?} {}", error.message()).contains("SECRET_TOKEN_AND_PAYLOAD"));
    assert_eq!(error.message(), "DAVE failed");
}

#[test]
fn send_gap_thresholds_retain_cumulative_counts_and_latest_time() {
    let mut counters = AudioCounters::new();
    for ms in [20, 39, 40, 99, 100, 999, 1000] {
        counters.observe_send_gap(ms * MILLISECOND, 1_700_000_000_000 + ms);
    }
    let stats = counters.snapshot();
    assert_eq!(stats.active_send_gap_counts(), [5, 3, 1]);
    assert_eq!(stats.last_active_send_gap().0, 1_000 * MILLISECOND);
    assert!(stats.last_active_send_gap().1 > 0);
    assert_eq!(stats.last_active_send_gap().1, 1_700_000_001_000);
    assert_eq!(stats.max_active_send_gap(), 1_000 * MILLISECOND);
}

#[test]
fn lateness_and_overruns_are_kept() {
    let mut counters = AudioCounters::new();
    assert_eq!(counters.snapshot().last_source_overrun_cpu(), None);
    counters.observe_lateness(5);
    counters.observe_lateness(3);
    counters.observe_overrun(9, None);
    assert_eq!(counters.snapshot().last_source_overrun_cpu(), None);
    counters.observe_overrun(4, Some(2));
    let stats = counters.snapshot();
    assert_eq!(stats.max_lateness(), 5);
    assert_eq!(stats.source_overruns(), 2);
    assert_eq!(stats.last_source_overrun_wall(), 4);
    assert_eq!(stats.last_source_overrun_cpu(), Some(2));
}

#[test]
fn cancelled_audio_admission_releases_its_reservation() {
    let mut admission = AudioAdmission::new();
    admission.reserve(ConnectionGeneration::first()).unwrap();
    assert!(admission.active());
    admission.settle(false);
    assert!(!admission.active());

    admission.reserve(ConnectionGeneration::first()).unwrap();
    admission.settle(true);
    assert!(admission.active());
    let refused = admission.reserve(ConnectionGeneration::first()).unwrap_err();
    assert_eq!(refused.kind(), ErrorKind::ResourceLimit);
}

#[test]
fn audio_identifiers_are_distinct() {
    let mut admission = AudioAdmission::new();
    let first = admission.take_id(ConnectionGeneration::first()).unwrap();
    let second = admission.take_id(ConnectionGeneration::first()).unwrap();
    assert_ne!(first, second);
}

#[test]
fn subscriber_slots_are_bounded() {
    let mut slots = SubscriberSlots::new(1);
    slots.subscribe(ConnectionGeneration::first()).unwrap();
    let refused = slots.subscribe(ConnectionGeneration::first()).unwrap_err();
    assert_eq!(refused.kind(), ErrorKind::ResourceLimit);
    slots.release();
    slots.subscribe(ConnectionGeneration::first()).unwrap();
}

#[test]
fn queue_outcomes_become_errors() {
    let generation = ConnectionGeneration::first();
    assert!(command_queued(QueueOutcome::Queued, Operation::Ping, generation).is_ok());
    let full = command_queued(QueueOutcome::Full, Operation::Ping, generation).unwrap_err();
    assert_eq!(full.kind(), ErrorKind::Overloaded);
    assert_eq!(full.operation(), Operation::Ping);
    let closed = command_queued(QueueOutcome::Closed, Operation::Ping, generation).unwrap_err();
    assert_eq!(closed.kind(), ErrorKind::Shutdown);
    assert_eq!(reply_lost(Operation::Ping, generation).kind(), ErrorKind::Shutdown);
}

#[test]
fn generations_count_up() {
    let first = ConnectionGeneration::first();
    let second = first.next().unwrap();
    assert_eq!((first.get(), second.get()), (1, 2));
    assert!(first.same(first) && !first.same(second));
    let source = SourceGeneration::first();
    assert_eq!(source.next().unwrap().get(), 2);
}

#[test]
fn state_changes_are_told_once() {
    let mut store = StateStore::new();
    store.phase_to(ConnectionPhase::Handshaking);
    store.rtt(7);
    assert_eq!(store.phase(), ConnectionPhase::Handshaking);
    assert_eq!(store.current.gateway_rtt(), Some(7));
    let events = store.take_events();
    assert!(events
        .iter()
        .any(|event| matches!(event, ConnectionEvent::StateChanged { .. })));
    assert!(store.take_events().is_empty());
    let failure = dave_error(ErrorSource::Dave(DaveFailure::Closed));
    store.fail(&failure, ConnectionPhase::Failed);
    let shown = store.current.failure().unwrap();
    assert_eq!(shown.kind(), ErrorKind::DaveTransition);
    assert_eq!(shown.dave_failure(), Some(DaveFailure::Closed));
    store.close(CloseReason::ExplicitShutdown);
    assert_eq!(store.current.close_reason(), Some(CloseReason::ExplicitShutdown));
}

#[test]
fn initial_audio_waits_for_its_source() {
    let snapshot = AudioSnapshot::initial();
    assert_eq!(snapshot.phase(), AudioPhase::WaitingForSource);
    assert_eq!(snapshot.stats().frames_sent(), 0);
}

#[test]
fn default_limits_are_consistent() {
    let limits = ResourceLimits::default();
    assert!(limits.validate().is_ok());
    let oto = Oto::builder().build().unwrap();
    assert_eq!(oto.limits(), limits);
    let exact = limits
        .with_encoded_opus_frame_bytes(1_275)
        .with_udp_datagram_bytes(1_275 + 16 + 32);
    assert!(exact.validate().is_ok());
    assert_eq!(exact.transport_payload_bytes(), 1_291);
}

#[test]
fn transport_invalidation_waits_for_inflight_send_and_refuses_new_sends() {
    let mut validity = TransportValidity::new();
    assert!(
        validity.try_acquire(),
        "valid transport admits an in-flight send"
    );
    assert!(
        !validity.invalidate(),
        "replacement waits for the admitted send to finish"
    );
    assert!(
        !validity.try_acquire(),
        "no send starts once invalidation begins"
    );
    assert!(validity.release(), "invalidation is notified");
    assert!(!validity.try_acquire());
}

#[test]
fn source_waker_defers_notifier_work_until_callback_finishes() {
    let mut shared = WakeShared::new();
    let generation = SourceGeneration::first().get();
    shared.begin_poll();
    assert!(
        !shared.wake(generation),
        "source wake must not execute Oto's scheduler inline"
    );
    assert_eq!(shared.latest_generation, generation);
    assert!(shared.end_poll(), "deferred wake must be delivered");
    shared.begin_poll();
    assert!(!shared.end_poll());
}

#[test]
fn source_wake_racing_poll_exit_is_never_lost() {
    let generation = SourceGeneration::first().get();
    for round in 0..1000 {
        let mut shared = WakeShared::new();
        shared.begin_poll();
        let notified = if round % 2 == 0 {
            let early = shared.wake(generation);
            shared.end_poll() || early
        } else {
            let early = shared.end_poll();
            shared.wake(generation) || early
        };
        assert!(notified);
    }
}

#[test]
fn limits_keep_what_they_are_given() {
    let limits = ResourceLimits::default()
        .with_gateway_text_bytes(11)
        .with_gateway_binary_bytes(12)
        .with_dave_binary_body_bytes(13)
        .with_dave_roster_members(14)
        .with_gateway_command_capacity(15)
        .with_event_capacity(16)
        .with_event_subscriber_capacity(17)
        .with_encoded_opus_frame_bytes(18)
        .with_udp_datagram_bytes(19)
        .with_sender_command_capacity(20)
        .with_staged_frame_capacity(21);
    assert_eq!(limits.gateway_text_bytes(), 11);
    assert_eq!(limits.gateway_binary_bytes(), 12);
    assert_eq!(limits.dave_binary_body_bytes(), 13);
    assert_eq!(limits.dave_roster_members(), 14);
    assert_eq!(limits.gateway_command_capacity(), 15);
    assert_eq!(limits.event_capacity(), 16);
    assert_eq!(limits.event_subscriber_capacity(), 17);
    assert_eq!(limits.encoded_opus_frame_bytes(), 18);
    assert_eq!(limits.udp_datagram_bytes(), 19);
    assert_eq!(limits.sender_command_capacity(), 20);
    assert_eq!(limits.staged_frame_capacity(), 21);
    assert!(limits.validate().is_err());
    assert!(ResourceLimits::default().validate().is_ok());
}
