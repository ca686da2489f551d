//! A paced sender, driven by hand.
use std::collections::VecDeque;

use openmls::prelude::tls_codec::{Deserialize, DeserializeBytes, Serialize};
use openmls::prelude::{
    BasicCredential, Ciphersuite, ExternalProposal, ExternalSender, GroupEpoch, GroupId,
    KeyPackageIn, MlsMessageIn, OpenMlsProvider, ProtocolVersion, SenderExtensionIndex, VLBytes,
};
use openmls_basic_credential::SignatureKeyPair;
use openmls_rust_crypto::OpenMlsRustCrypto;

use oto::audio::executor::{
    Answer, AudioAction, AudioEvent, EncryptReport, Executor, PollReport, PollStatus, Request,
    Surroundings, SILENCE_FRAMES, SOURCE_POLL_LIMIT,
};
use oto::audio::failure::{audio_queued, gateway_queued, gateway_stopped, pacer_error, Queueing};
use oto::audio::validity::TransportValidity;
use oto::dave::{Control, Core, MediaOutcome, Outbound, OPUS_MAX_ENCRYPTION_OVERHEAD_BYTES};
use oto::gateway::link::InstalledTransport;
use oto::pacer::{Pacer, PacerFailure, FRAME_PERIOD};
use oto::rtp::TransportMode;
use oto::testkit::crypto::decrypt_transport_packet;
use oto::transport::TransportEncoder;
use oto::{
    AudioPhase, AudioSnapshot, ConnectionGeneration, ConnectionPhase, DaveContext, DaveFailure,
    Error, ErrorKind, Operation,
};

const KEY: [u8; 32] = [0x42; 32];
const MODE: TransportMode = TransportMode::Aes256GcmRtpSize;
const MILLISECOND: u64 = 1_000_000;
const SILENCE: [u8; 3] = [0xF8, 0xFF, 0xFE];
const MY_USER_ID: u64 = 158_049_329_150_427_136;
const OTHER_USER_ID: u64 = 158_533_742_254_751_744;
const CHANNEL_ID: u64 = 927_310_423_890_473_011;

/// A member proposed by the gateway, whose commit the core takes as transition 7.
fn prepare_group(core: &mut Core) {
    let suite = Ciphersuite::MLS_128_DHKEMP256_AES128GCM_SHA256_P256;
    let provider = OpenMlsRustCrypto::default();
    let signer = SignatureKeyPair::new(suite.signature_algorithm()).unwrap();
    let sender = ExternalSender::new(
        signer.public().into(),
        BasicCredential::new(vec![0, 1, 1, 0]).into(),
    )
    .tls_serialize_detached()
    .unwrap();
    let mut joiner = Core::new(OTHER_USER_ID, CHANNEL_ID).unwrap();
    let actions = joiner.control(Control::ExternalSender(sender.clone())).unwrap();
    let [Outbound::Binary(package)] = actions.as_slice() else {
        panic!("expected key package");
    };
    let package = KeyPackageIn::tls_deserialize_exact_bytes(&package[1..])
        .unwrap()
        .validate(provider.crypto(), ProtocolVersion::Mls10)
        .unwrap();
    let message = ExternalProposal::new_add::<OpenMlsRustCrypto>(
        package,
        GroupId::from_slice(&CHANNEL_ID.to_be_bytes()),
        GroupEpoch::from(0),
        &signer,
        SenderExtensionIndex::new(0),
    )
    .unwrap();
    let mut proposals = vec![0];
    proposals.extend(
        VLBytes::new(message.tls_serialize_detached().unwrap())
            .tls_serialize_detached()
            .unwrap(),
    );
    core.control(Control::Roster(vec![OTHER_USER_ID])).unwrap();
    core.control(Control::PrepareTransition { protocol_version: 1, id: 7 })
        .unwrap();
    core.control(Control::ExternalSender(sender)).unwrap();
    let actions = core.control(Control::Proposals(proposals)).unwrap();
    let [Outbound::Binary(bytes)] = actions.as_slice() else {
        panic!("expected a commit");
    };
    let mut rest = &bytes[1..];
    MlsMessageIn::tls_deserialize(&mut rest).unwrap();
    let mut commit = vec![0, 7];
    commit.extend_from_slice(&bytes[1..bytes.len() - rest.len()]);
    core.control(Control::Commit(commit)).unwrap();
}

fn ready_core() -> Core {
    let mut core = Core::new(MY_USER_ID, CHANNEL_ID).unwrap();
    prepare_group(&mut core);
    core.control(Control::ExecuteTransition { id: 7 }).unwrap();
    assert!(core.snapshot().ready);
    core
}

fn installed(nonce: u32, dave: bool) -> InstalledTransport {
    let payload = 1_275 + OPUS_MAX_ENCRYPTION_OVERHEAD_BYTES;
    InstalledTransport {
        generation: ConnectionGeneration::first(),
        socket: 1,
        encoder: TransportEncoder::new_with_starts(MODE, &KEY, 7, payload, 2_048, 0, 0, nonce)
            .unwrap(),
        dave_protocol_version: if dave { 1 } else { 0 },
        has_dave: dave,
    }
}

/// What the source answers next.
enum Step {
    Frame(Vec<u8>),
    Length(usize),
    Ended,
    /// A frame; before it is encrypted, the group starts over.
    Reset(Vec<u8>),
}

struct Player {
    sender: Executor,
    now: u64,
    phase: ConnectionPhase,
    generation: ConnectionGeneration,
    core: Option<Core>,
    validity: TransportValidity,
    source: VecDeque<Step>,
    polls: usize,
    slow: Option<(u64, Option<u64>)>,
    callback: bool,
    requests: VecDeque<Request>,
    reset_on_speaking: bool,
    refuse_speaking: bool,
    fail_writes: bool,
    speaking: Vec<bool>,
    packets: Vec<Vec<u8>>,
    renewals: usize,
    result: Option<Result<AudioSnapshot, Error>>,
}

impl Player {
    fn new(transport: InstalledTransport, core: Option<Core>) -> Self {
        let pacer = Pacer::new().register(true).unwrap();
        Player {
            sender: Executor::new(transport, pacer, 1_275),
            now: 1_000 * MILLISECOND,
            phase: ConnectionPhase::Connected,
            generation: ConnectionGeneration::first(),
            core,
            validity: TransportValidity::new(),
            source: VecDeque::new(),
            polls: 0,
            slow: None,
            callback: true,
            requests: VecDeque::new(),
            reset_on_speaking: false,
            refuse_speaking: false,
            fail_writes: false,
            speaking: Vec::new(),
            packets: Vec::new(),
            renewals: 0,
            result: None,
        }
    }

    fn plain() -> Self {
        Player::new(installed(1, false), None)
    }

    fn around(&self) -> Surroundings {
        Surroundings {
            phase: self.phase,
            generation: self.generation,
            dave_ready: self.core.as_ref().is_some_and(|core| core.snapshot().ready),
            now: self.now,
        }
    }

    fn reset_group(&mut self) {
        let core = self.core.as_mut().unwrap();
        core.control(Control::PrepareEpoch { protocol_version: 1, epoch: 1 })
            .unwrap();
    }

    fn poll(&mut self) -> AudioEvent {
        self.polls += 1;
        let status = match self.source.pop_front() {
            None => PollStatus::Pending,
            Some(Step::Ended) => {
                self.source.push_front(Step::Ended);
                PollStatus::Ended
            }
            Some(Step::Length(length)) => PollStatus::Frame(length),
            Some(Step::Frame(bytes)) => {
                self.sender.frame[..bytes.len()].copy_from_slice(&bytes);
                PollStatus::Frame(bytes.len())
            }
            Some(Step::Reset(bytes)) => {
                self.reset_group();
                self.sender.frame[..bytes.len()].copy_from_slice(&bytes);
                PollStatus::Frame(bytes.len())
            }
        };
        let (wall, cpu) = self.slow.unwrap_or((0, Some(0)));
        AudioEvent::Polled(PollReport { callback: self.callback, wall, cpu, status })
    }

    fn encrypt(&mut self, len: usize) -> AudioEvent {
        let core = self.core.as_mut().unwrap();
        let mut output = Vec::new();
        AudioEvent::Encrypted(match core.encrypt_media(&self.sender.frame, len, &mut output) {
            Ok(MediaOutcome::Encrypted) => EncryptReport::Ready(output),
            Ok(MediaOutcome::NotReady) => EncryptReport::NotReady,
            Err(failure) => EncryptReport::Failed(failure),
        })
    }

    /// Hands an event to the sender and does what it asks for until it waits.
    fn feed(&mut self, event: AudioEvent) {
        let mut event = event;
        let mut admitted = false;
        loop {
            let around = self.around();
            let action = self.sender.step(around, event);
            if admitted && !matches!(action, AudioAction::Encrypt { .. } | AudioAction::Transmit) {
                self.validity.release();
                admitted = false;
            }
            event = match action {
                AudioAction::Wait { timeline } => {
                    assert_eq!(timeline, self.sender.active);
                    return;
                }
                AudioAction::Poll => self.poll(),
                AudioAction::Speak { generation, speaking } => {
                    assert!(generation.same(self.generation));
                    self.speaking.push(speaking);
                    if speaking && self.reset_on_speaking {
                        self.reset_on_speaking = false;
                        self.reset_group();
                    }
                    AudioEvent::Spoken(if self.refuse_speaking {
                        Err(gateway_stopped())
                    } else {
                        Ok(())
                    })
                }
                AudioAction::Look => match self.requests.pop_front() {
                    Some(request) => AudioEvent::Asked(request),
                    None => AudioEvent::NoRequest,
                },
                AudioAction::Admit => {
                    admitted = self.validity.try_acquire();
                    AudioEvent::Admitted(admitted)
                }
                AudioAction::Encrypt { len } => self.encrypt(len),
                AudioAction::Transmit => {
                    if !self.fail_writes {
                        self.packets.push(self.sender.packet.clone());
                    }
                    AudioEvent::Transmitted(!self.fail_writes, 1_700_000_000_000)
                }
                AudioAction::Renew { .. } => {
                    self.renewals += 1;
                    AudioEvent::Renewed(Ok(()))
                }
                AudioAction::Finish(result) => {
                    let context = self.core.as_ref().map(|core| DaveContext::from(core.snapshot()));
                    self.result = Some(self.sender.conclude(result.err(), context));
                    return;
                }
            };
        }
    }

    /// Lets one period pass.
    fn tick(&mut self) {
        self.now += FRAME_PERIOD;
        self.feed(AudioEvent::Timer);
    }

    fn wake(&mut self) {
        let generation = self.sender.generation.get();
        self.feed(AudioEvent::Woken(generation));
    }

    fn payload(&self, index: usize) -> Vec<u8> {
        let packet = &self.packets[index];
        decrypt_transport_packet(MODE, &KEY, packet, 2_048).unwrap().payload
    }

    fn snapshot(&self) -> AudioSnapshot {
        self.sender.store.snapshot()
    }
}

#[test]
fn overdue_opportunity_recovers_one_frame_without_waiting_or_catchup() {
    let mut player = Player::plain();
    player.source.push_back(Step::Frame(vec![1, 2, 3, 4]));
    player.feed(AudioEvent::Begin);
    assert_eq!(player.snapshot().stats().frames_sent(), 1);
    for delay in [37, 137] {
        for _ in 0..3 {
            player.source.push_back(Step::Frame(vec![1, 2, 3, 4]));
        }
        let before = player.snapshot().stats().frames_sent();
        player.now += FRAME_PERIOD + delay * MILLISECOND;
        player.feed(AudioEvent::Timer);
        assert_eq!(
            player.snapshot().stats().frames_sent(),
            before + 1,
            "recovery should send once now instead of adding another timer wait"
        );
        player.feed(AudioEvent::Timer);
        assert_eq!(player.snapshot().stats().frames_sent(), before + 1, "no catch-up tick retained");
        player.now += FRAME_PERIOD - MILLISECOND;
        player.feed(AudioEvent::Timer);
        assert_eq!(
            player.snapshot().stats().frames_sent(),
            before + 1,
            "next frame must wait a full period"
        );
        player.now += MILLISECOND;
        player.feed(AudioEvent::Timer);
        assert_eq!(player.snapshot().stats().frames_sent(), before + 2);
        player.source.clear();
    }
}

#[test]
fn failed_speaking_write_never_crosses_the_first_udp_packet_barrier() {
    let mut player = Player::plain();
    player.refuse_speaking = true;
    player.source.push_back(Step::Frame(vec![1, 2, 3, 4]));
    player.feed(AudioEvent::Begin);
    assert_eq!(player.snapshot().phase(), AudioPhase::Failed);
    assert_eq!(player.snapshot().failure(), Some(ErrorKind::Shutdown));
    assert!(
        player.packets.is_empty(),
        "no UDP packet may cross a failed Speaking barrier"
    );
}

#[test]
fn complete_paced_path_dave_encrypts_maximum_opus_and_all_terminal_silence() {
    verify_complete_paced_dave_path(false);
}

#[test]
fn owned_channel_preserves_dave_and_exact_terminal_silence() {
    verify_complete_paced_dave_path(true);
}

fn verify_complete_paced_dave_path(owned: bool) {
    let normal_frame = vec![0x55; 1_275];
    let mut player = Player::new(installed(1, true), Some(ready_core()));
    player.callback = !owned;
    player.source.push_back(Step::Frame(normal_frame.clone()));
    player.source.push_back(Step::Ended);
    player.feed(AudioEvent::Begin);
    for _ in 0..SILENCE_FRAMES + 3 {
        player.tick();
    }
    let observed: Vec<Vec<u8>> = (0..player.packets.len()).map(|i| player.payload(i)).collect();
    assert_eq!(
        observed.len(),
        1 + usize::from(SILENCE_FRAMES),
        "the terminal drain is exactly five silence frames"
    );
    assert_ne!(observed[0], normal_frame);
    assert!(observed[0].len() > normal_frame.len());
    for encrypted_silence in &observed[1..] {
        assert_ne!(encrypted_silence.as_slice(), SILENCE);
        assert!(encrypted_silence.len() > SILENCE.len());
    }
    assert!(observed
        .iter()
        .all(|payload| payload.ends_with(&[0xFA, 0xFA])));
    assert_eq!(
        player.snapshot().stats().silence_frames_sent(),
        u64::from(SILENCE_FRAMES)
    );
    player.feed(AudioEvent::Asked(Request::Stop));
    assert!(player.result.as_ref().unwrap().is_ok());
    assert_eq!(player.speaking, [true, false]);
}

#[test]
fn unready_dave_waits_without_plaintext_and_stop_remains_responsive() {
    let core = Core::new(7, 9).unwrap();
    let mut player = Player::new(installed(1, true), Some(core));
    player.source.push_back(Step::Frame(vec![1, 2, 3, 4]));
    player.feed(AudioEvent::Begin);
    player.now += 40 * MILLISECOND;
    player.feed(AudioEvent::Changed);
    assert_ne!(player.snapshot().phase(), AudioPhase::Failed);
    assert_eq!(player.snapshot().stats().frames_sent(), 0);
    player.feed(AudioEvent::Asked(Request::Stop));
    let stopped = player.result.take().unwrap().expect("Stop succeeds");
    assert_eq!(stopped.phase(), AudioPhase::Stopped);
    assert!(
        player.packets.is_empty(),
        "failed DAVE encryption cannot fall back to plaintext UDP"
    );
    assert_eq!(player.speaking, Vec::<bool>::new());
}

#[test]
fn dave_epoch_reset_during_speaking_preserves_sender_and_accepts_stop() {
    verify_epoch_reset(0, false);
}

#[test]
fn dave_epoch_reset_resumes_retained_frame_without_gateway_phase_update() {
    for owned in [false, true] {
        verify_epoch_reset(1, owned);
    }
}

#[test]
fn dave_epoch_reset_source_replacement_discards_old_staged_frame() {
    for owned in [false, true] {
        verify_epoch_reset(2, owned);
    }
}

#[test]
fn dave_epoch_reset_queued_ahead_of_inflight_media_retains_frame() {
    verify_epoch_reset(3, false);
}

#[test]
fn dave_epoch_reset_during_terminal_drain_finishes_exact_silence_tail() {
    verify_epoch_reset(4, false);
}

fn verify_epoch_reset(action: u8, owned: bool) {
    let mut player = Player::new(installed(1, true), Some(ready_core()));
    player.callback = !owned;
    player.reset_on_speaking = action < 3;
    if action == 3 {
        player.source.push_back(Step::Frame(vec![0x55; 64]));
        player.source.push_back(Step::Reset(vec![0x55; 128]));
    } else {
        player.source.push_back(Step::Frame(vec![0x55; 128]));
    }
    player.source.push_back(Step::Ended);
    player.feed(AudioEvent::Begin);
    if action == 3 {
        player.tick();
    }
    if action == 4 {
        player.tick();
        player.tick();
        assert_eq!(player.snapshot().stats().silence_frames_sent(), 2);
        player.reset_group();
    }
    player.feed(AudioEvent::Changed);
    player.tick();
    player.tick();
    assert_ne!(
        player.snapshot().phase(),
        AudioPhase::Failed,
        "an epoch reset is temporary, not a terminal encryption failure"
    );
    assert_eq!(
        player.snapshot().stats().frames_sent(),
        if action >= 3 { 1 } else { 0 }
    );
    let before = player.packets.len();
    player.tick();
    assert_eq!(
        player.packets.len(),
        before,
        "not-ready DAVE sends no plaintext or transport-only packet"
    );
    if action != 0 {
        if action == 2 {
            player.source.clear();
            player.source.push_back(Step::Frame(vec![0x77; 64]));
            player.source.push_back(Step::Ended);
            player.feed(AudioEvent::Asked(Request::Replace));
            assert!(matches!(player.sender.take_answer(), Answer::Replaced { .. }));
        }
        let mut fresh = Core::new(MY_USER_ID, CHANNEL_ID).unwrap();
        prepare_group(&mut fresh);
        player.core = Some(fresh);
        player.feed(AudioEvent::Changed);
        assert_eq!(player.packets.len(), before);
        player
            .core
            .as_mut()
            .unwrap()
            .control(Control::ExecuteTransition { id: 7 })
            .unwrap();
        // The connection stays connected throughout: readiness alone resumes.
        player.feed(AudioEvent::Changed);
        if player.packets.len() == before {
            player.tick();
        }
        assert!(
            player.packets.len() > before,
            "pending frame resumes after key establishment"
        );
        let payload = player.payload(before);
        let expected_len = match action {
            2 => 64,
            4 => SILENCE.len(),
            _ => 128,
        };
        assert!(
            payload.len() > expected_len && payload.len() <= expected_len + 16,
            "exact pending source frame, not an EOF silence frame: {}",
            payload.len()
        );
        assert!(payload.ends_with(&[0xFA, 0xFA]));
        for _ in 0..8 {
            player.tick();
        }
        assert_eq!(
            player.snapshot().stats().silence_frames_sent(),
            u64::from(SILENCE_FRAMES)
        );
        assert_eq!(
            player.snapshot().stats().frames_sent(),
            if action == 3 { 2 } else { 1 },
            "no dropped or duplicated source frame"
        );
    }
    player.feed(AudioEvent::Asked(Request::Stop));
    assert!(player.result.as_ref().unwrap().is_ok());
    assert_eq!(player.speaking, [true, false]);
}

#[test]
fn paced_sender_waits_for_readiness_then_sends_audio_and_exact_silence_drain() {
    let mut player = Player::plain();
    player.feed(AudioEvent::Begin);
    assert_eq!(player.polls, 1);
    assert_eq!(player.snapshot().phase(), AudioPhase::WaitingForSource);
    assert!(player.packets.is_empty());
    assert!(player.speaking.is_empty());

    player.source.push_back(Step::Frame(vec![1, 2, 3, 4]));
    player.wake();
    for _ in 0..6 {
        player.tick();
    }
    let stats = player.snapshot().stats();
    assert_eq!(stats.frames_sent(), 1);
    assert_eq!(stats.silence_frames_sent(), 5);
    assert_eq!(player.snapshot().phase(), AudioPhase::WaitingForSource);
    assert_eq!(player.speaking, [true, false]);
    assert_eq!(player.packets.len(), 6, "one media + five silence");
    assert_eq!(player.payload(0), [1, 2, 3, 4]);
    for index in 1..6 {
        assert_eq!(player.payload(index), [0xF8, 0xFF, 0xFE]);
    }

    let idle_polls = player.polls;
    player.feed(AudioEvent::Changed);
    assert_eq!(
        player.polls, idle_polls,
        "heartbeat state updates do not poll an idle source"
    );
    player.now += 70 * MILLISECOND;
    player.feed(AudioEvent::Timer);
    assert_eq!(player.polls, idle_polls, "idle source has no 20 ms polling");
    player.feed(AudioEvent::Asked(Request::Stop));
    let stopped = player.result.take().unwrap().unwrap();
    assert_eq!(stopped.phase(), AudioPhase::Stopped);
    assert_eq!(stopped.stats().frames_sent(), 1);
    assert_eq!(stopped.stats().silence_frames_sent(), 5);
    assert_eq!(stopped.stats().send_failures(), 0);

    let mut second = Player::plain();
    second.source.push_back(Step::Ended);
    second.feed(AudioEvent::Begin);
    assert_eq!(second.snapshot().phase(), AudioPhase::Stopped);
}

#[test]
fn real_audio_resumes_during_silence_drain_then_requires_a_fresh_five_frames() {
    let mut player = Player::plain();
    player.source.push_back(Step::Frame(vec![1, 2, 3]));
    player.feed(AudioEvent::Begin);
    player.tick();
    player.tick();
    let interrupted = player.snapshot().stats().silence_frames_sent();
    assert_eq!(interrupted, 2, "source resumes before drain ends");
    player.source.push_back(Step::Frame(vec![7, 8, 9]));
    for _ in 0..7 {
        player.tick();
    }
    let stats = player.snapshot().stats();
    assert_eq!(stats.frames_sent(), 2);
    assert_eq!(stats.silence_frames_sent(), interrupted + 5);
    assert_eq!(player.snapshot().phase(), AudioPhase::WaitingForSource);
    assert_eq!(player.speaking, [true, false], "resume does not flap Speaking");
    assert_eq!(player.payload(interrupted as usize + 1), [7, 8, 9]);
    assert_eq!(
        player.packets.len(),
        2 + interrupted as usize + 5,
        "only interrupted silence plus the new five-frame drain is sent"
    );
}

#[test]
fn off_cpu_poll_delay_does_not_permanently_kill_valid_audio() {
    let mut player = Player::plain();
    player.slow = Some((20 * MILLISECOND, Some(0)));
    player.source.push_back(Step::Frame(vec![7, 8, 9]));
    player.source.push_back(Step::Ended);
    player.feed(AudioEvent::Begin);
    player.slow = None;
    for _ in 0..6 {
        player.tick();
    }
    let snapshot = player.snapshot();
    assert_eq!(
        snapshot.phase(),
        AudioPhase::Stopped,
        "elapsed time alone must not reject a valid frame"
    );
    assert_eq!(snapshot.stats().frames_sent(), 1);
    assert_eq!(snapshot.stats().source_overruns(), 1);
}

#[test]
fn source_replacement_rejects_old_wakes_and_slow_source_isolated_failure() {
    let mut player = Player::plain();
    player.feed(AudioEvent::Begin);
    let old = player.sender.generation.get();
    player.feed(AudioEvent::Asked(Request::Replace));
    match player.sender.take_answer() {
        Answer::Replaced { generation, wake } => {
            assert_eq!(generation.get(), 2);
            assert!(wake);
        }
        _ => panic!("source replaces"),
    }
    player.source.push_back(Step::Frame(vec![7, 8, 9]));
    player.feed(AudioEvent::Woken(old));
    assert!(player.packets.is_empty(), "old wake cannot send");
    player.wake();
    assert_eq!(player.snapshot().stats().frames_sent(), 1);
    assert_eq!(player.payload(0), [7, 8, 9]);

    let mut invalid = Player::plain();
    invalid.source.push_back(Step::Length(1_276));
    invalid.feed(AudioEvent::Begin);
    assert_eq!(invalid.snapshot().phase(), AudioPhase::Failed);
    assert_eq!(
        invalid.snapshot().failure(),
        Some(ErrorKind::FrameSourceContract)
    );

    let mut slow = Player::plain();
    slow.slow = Some((SOURCE_POLL_LIMIT + 1, Some(SOURCE_POLL_LIMIT + 1)));
    slow.source.push_back(Step::Frame(vec![1]));
    slow.feed(AudioEvent::Begin);
    assert_eq!(slow.snapshot().failure(), Some(ErrorKind::FrameSourceContract));
    assert_eq!(slow.snapshot().stats().source_overruns(), 1);
    assert!(slow.packets.is_empty(), "slow source emits no media");
}

#[test]
fn udp_send_failure_is_typed_and_emits_no_partial_media_packet() {
    let mut player = Player::plain();
    player.fail_writes = true;
    player.source.push_back(Step::Frame(vec![1, 2, 3, 4]));
    player.feed(AudioEvent::Begin);
    let state = player.snapshot();
    assert_eq!(state.phase(), AudioPhase::Failed);
    assert_eq!(state.failure(), Some(ErrorKind::SendIo));
    assert_eq!(state.stats().send_failures(), 1);
    assert!(player.packets.is_empty());
    assert_eq!(player.speaking, [true], "Speaking write precedes failed UDP");
}

#[test]
fn nonce_exhaustion_renews_the_full_transport_before_another_media_packet() {
    let mut player = Player::new(installed(u32::MAX, false), None);
    for _ in 0..3 {
        player.source.push_back(Step::Frame(vec![1, 2, 3]));
    }
    player.feed(AudioEvent::Begin);
    assert_eq!(player.packets.len(), 1);
    player.tick();
    assert_eq!(player.renewals, 1);
    assert_eq!(player.packets.len(), 1, "no packet under a used nonce");
    assert!(player.sender.transport.is_none());
    assert_ne!(player.snapshot().phase(), AudioPhase::Failed);
    player.feed(AudioEvent::Transport(Some(installed(1, false))));
    assert_eq!(player.packets.len(), 2, "the kept frame is sent on the new transport");
    assert_eq!(player.snapshot().stats().frames_sent(), 2);
}

#[test]
fn a_lost_connection_pauses_and_resumes_without_catch_up() {
    let mut player = Player::plain();
    for _ in 0..10 {
        player.source.push_back(Step::Frame(vec![1, 2, 3]));
    }
    player.feed(AudioEvent::Begin);
    player.tick();
    assert_eq!(player.packets.len(), 2);
    player.phase = ConnectionPhase::Resuming;
    player.feed(AudioEvent::Changed);
    assert_eq!(player.snapshot().phase(), AudioPhase::Starting);
    for _ in 0..5 {
        player.tick();
    }
    assert_eq!(player.packets.len(), 2);
    player.phase = ConnectionPhase::Connected;
    player.feed(AudioEvent::Changed);
    assert_eq!(player.packets.len(), 3);
    assert_eq!(player.snapshot().stats().skipped_deadlines(), 0);
    assert_eq!(player.speaking, [true, true]);
}

#[test]
fn an_invalid_transport_keeps_the_frame() {
    let mut player = Player::plain();
    player.validity.invalidate();
    player.source.push_back(Step::Frame(vec![1, 2, 3]));
    player.feed(AudioEvent::Begin);
    assert!(player.packets.is_empty());
    assert!(player.sender.transport.is_none());
    player.validity = TransportValidity::new();
    player.feed(AudioEvent::Transport(Some(installed(1, false))));
    assert_eq!(player.payload(0), [1, 2, 3]);
}

#[test]
fn requests_during_the_announcement_are_taken_first() {
    let mut player = Player::plain();
    player.source.push_back(Step::Frame(vec![1, 2, 3]));
    player.requests.push_back(Request::Stop);
    player.feed(AudioEvent::Begin);
    assert!(player.packets.is_empty());
    assert_eq!(player.speaking, [true, false]);
    assert!(matches!(player.sender.take_answer(), Answer::Stopping));
    assert!(player.result.as_ref().unwrap().is_ok());
}

#[test]
fn stopping_an_active_sender_drains_silence() {
    let mut player = Player::plain();
    for _ in 0..10 {
        player.source.push_back(Step::Frame(vec![1, 2, 3]));
    }
    player.feed(AudioEvent::Begin);
    player.feed(AudioEvent::Asked(Request::Stop));
    assert!(player.result.is_none());
    player.feed(AudioEvent::Asked(Request::Stop));
    match player.sender.take_answer() {
        Answer::Refused(error) => assert_eq!(error.kind(), ErrorKind::Overloaded),
        _ => panic!("one stop at a time"),
    }
    for _ in 0..5 {
        player.tick();
    }
    let stopped = player.result.take().unwrap().unwrap();
    assert_eq!(stopped.phase(), AudioPhase::Stopped);
    assert_eq!(stopped.stats().silence_frames_sent(), 5);
    assert_eq!(player.packets.len(), 6);
}

#[test]
fn a_lost_owner_fails_with_its_state() {
    let mut player = Player::new(installed(1, true), Some(ready_core()));
    player.feed(AudioEvent::DaveStopped);
    let error = player.result.take().unwrap().unwrap_err();
    assert_eq!(error.kind(), ErrorKind::DaveTransition);
    assert_eq!(error.dave_failure(), Some(DaveFailure::Closed));
    assert!(error.dave_context().unwrap().ready);
    assert_eq!(player.snapshot().dave_failure(), Some(DaveFailure::Closed));
}

#[test]
fn queue_failures_are_typed() {
    assert!(gateway_queued(Queueing::Sent).is_ok());
    assert_eq!(gateway_queued(Queueing::Closed).unwrap_err().kind(), ErrorKind::Shutdown);
    assert_eq!(gateway_queued(Queueing::Full).unwrap_err().kind(), ErrorKind::Overloaded);
    let full = audio_queued(Queueing::Full, Operation::StopAudio).unwrap_err();
    assert_eq!((full.kind(), full.operation()), (ErrorKind::Overloaded, Operation::StopAudio));
    assert_eq!(pacer_error(PacerFailure::Exhausted).kind(), ErrorKind::Overloaded);
    assert_eq!(pacer_error(PacerFailure::Closed).kind(), ErrorKind::Shutdown);
}
