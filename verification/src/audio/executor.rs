//! The decisions of a paced sender.
//!
//! The sender never performs I/O itself. Each event yields an action: the caller
//! performs it and reports back with the next event.
use vstd::prelude::*;

use crate::audio::counters::increment;
use crate::audio::failure::{audio_error, pacer_error};
use crate::audio::store::{AudioState, AudioStore};
use crate::error::{DaveContext, DaveFailure, Error, ErrorKind, ErrorSource, Operation, RetryDisposition};
use crate::gateway::link::{InstalledState, InstalledTransport};
use crate::model::{
    AudioPhase, AudioSnapshot, AudioStats, ConnectionGeneration, ConnectionPhase, SourceGeneration,
};
use crate::pacer::{PacerFailure, PacerRegistration, PacerStep, FRAME_PERIOD};
use crate::transport::{EncoderState, TransportCryptoFailure};
use crate::wire::copy_range;

verus! {

/// How long a poll of a source may run, in nanoseconds.
pub const SOURCE_POLL_LIMIT: u64 = 2_000_000;

/// How many silence frames end a run of frames.
pub const SILENCE_FRAMES: u8 = 5;

/// How many bytes a silence frame has.
pub const SILENCE_BYTES: usize = 3;

/// The bytes of a silence frame.
pub open spec fn silence() -> Seq<u8> {
    seq![0xF8u8, 0xFFu8, 0xFEu8]
}

/// What a frame is sent for. An instant is the deadline that it is sent at.
#[derive(Clone, Copy, Debug, PartialEq, Eq, Structural)]
pub enum Purpose {
    /// The first frame of a timeline.
    Start,
    /// A frame of a timeline.
    Frame(u64),
    /// A silence frame of a timeline.
    Silence(u64),
}

/// What a caller asked of the sender.
#[derive(Clone, Copy, Debug, PartialEq, Eq, Structural)]
pub enum Request {
    Replace,
    Stop,
}

/// What the sender waits for.
#[derive(Clone, Copy, Debug, PartialEq, Eq, Structural)]
pub enum Stage {
    /// Whatever comes next.
    Waiting,
    /// A poll of the source that may start a timeline.
    StartPolling,
    /// The announcement that it speaks, before the staged frame starts a timeline.
    StartSpeaking(usize),
    /// Whether a request came in the meantime.
    StartLooking(usize),
    /// The announcement that it does not speak, before a request is taken.
    StartQuieting(Request),
    /// A poll of the source at a deadline.
    TickPolling(u64),
    /// Admission of a send to the transport.
    Admitting(Purpose, usize),
    /// Media encryption.
    Encrypting(Purpose),
    /// A write to the socket.
    Transmitting(Purpose),
    /// A renewal of the transport.
    Renewing(Purpose),
    /// The announcement that it does not speak, after the last silence frame.
    DrainQuieting,
    /// The announcement that it does not speak, before it stops.
    StopQuieting,
    /// Nothing: the sender is done.
    Finished,
}

/// What the sender sees of the connection, and the time.
#[derive(Clone, Copy, Debug, PartialEq, Eq, Structural)]
pub struct Surroundings {
    pub phase: ConnectionPhase,
    pub generation: ConnectionGeneration,
    /// Whether the DAVE owner of the transport is ready.
    pub dave_ready: bool,
    pub now: u64,
}

/// What a poll of the source answered.
#[derive(Clone, Copy, Debug, PartialEq, Eq, Structural)]
pub enum PollStatus {
    Frame(usize),
    Ended,
    Pending,
}

/// A poll of the source: its answer and how long it ran, in nanoseconds.
#[derive(Clone, Copy, Debug, PartialEq, Eq, Structural)]
pub struct PollReport {
    /// Whether the source is a callback of the user, whose running time is bounded.
    pub callback: bool,
    pub wall: u64,
    /// The time that the thread ran, where the platform tells.
    pub cpu: Option<u64>,
    pub status: PollStatus,
}

/// What became of media encryption.
#[derive(Debug)]
pub enum EncryptReport {
    /// The owner is gone.
    OwnerFailed(DaveFailure),
    Failed(DaveFailure),
    /// The owner is not ready; the frame is kept.
    NotReady,
    Ready(Vec<u8>),
}

/// The mathematical form of an [`EncryptReport`].
pub ghost enum EncryptValue {
    OwnerFailed(DaveFailure),
    Failed(DaveFailure),
    NotReady,
    Ready(Seq<u8>),
}

impl EncryptReport {
    /// The report as a mathematical value.
    pub open spec fn value(self) -> EncryptValue {
        match self {
            EncryptReport::OwnerFailed(failure) => EncryptValue::OwnerFailed(failure),
            EncryptReport::Failed(failure) => EncryptValue::Failed(failure),
            EncryptReport::NotReady => EncryptValue::NotReady,
            EncryptReport::Ready(bytes) => EncryptValue::Ready(bytes@),
        }
    }
}

/// What happens to a sender.
pub enum AudioEvent {
    /// The sender begins.
    Begin,
    /// The sender is cancelled, or the connection is gone.
    Cancelled,
    /// A request of a caller.
    Asked(Request),
    /// No caller is left.
    Forsaken,
    /// A transport was installed; `None` when none will be any more.
    Transport(Option<InstalledTransport>),
    /// The state of the connection or of the DAVE owner changed.
    Changed,
    /// The DAVE owner is gone.
    DaveStopped,
    /// The timer of the timeline ran out.
    Timer,
    /// A source of this generation woke the sender.
    Woken(u64),
    /// The source was polled.
    Polled(PollReport),
    /// The announcement was made, or failed.
    Spoken(Result<(), Error>),
    /// No request came in the meantime.
    NoRequest,
    /// The transport admitted the send, or did not.
    Admitted(bool),
    /// Media encryption was tried.
    Encrypted(EncryptReport),
    /// The packet was written, whole or not, at this time of day in milliseconds.
    Transmitted(bool, u64),
    /// The transport is being renewed, or is not.
    Renewed(Result<(), Error>),
}

/// The value of a result without contents.
pub open spec fn result_value(result: Result<(), Error>) -> Result<(), crate::error::ErrorView> {
    match result {
        Ok(()) => Ok(()),
        Err(error) => Err(error@),
    }
}

/// The mathematical form of an [`AudioEvent`].
pub ghost enum EventValue {
    Begin,
    Cancelled,
    Asked(Request),
    Forsaken,
    Transport(Option<InstalledState>),
    Changed,
    DaveStopped,
    Timer,
    Woken(u64),
    Polled(PollReport),
    Spoken(Result<(), crate::error::ErrorView>),
    NoRequest,
    Admitted(bool),
    Encrypted(EncryptValue),
    Transmitted(bool, u64),
    Renewed(Result<(), crate::error::ErrorView>),
}

/// The value of an optional transport.
pub open spec fn installed_value(transport: Option<InstalledTransport>) -> Option<InstalledState> {
    match transport {
        Some(transport) => Some(transport@),
        None => None,
    }
}

impl AudioEvent {
    /// The event as a mathematical value.
    pub open spec fn value(self) -> EventValue {
        match self {
            AudioEvent::Begin => EventValue::Begin,
            AudioEvent::Cancelled => EventValue::Cancelled,
            AudioEvent::Asked(request) => EventValue::Asked(request),
            AudioEvent::Forsaken => EventValue::Forsaken,
            AudioEvent::Transport(update) => EventValue::Transport(installed_value(update)),
            AudioEvent::Changed => EventValue::Changed,
            AudioEvent::DaveStopped => EventValue::DaveStopped,
            AudioEvent::Timer => EventValue::Timer,
            AudioEvent::Woken(generation) => EventValue::Woken(generation),
            AudioEvent::Polled(report) => EventValue::Polled(report),
            AudioEvent::Spoken(result) => EventValue::Spoken(result_value(result)),
            AudioEvent::NoRequest => EventValue::NoRequest,
            AudioEvent::Admitted(admitted) => EventValue::Admitted(admitted),
            AudioEvent::Encrypted(report) => EventValue::Encrypted(report.value()),
            AudioEvent::Transmitted(whole, unix_ms) => EventValue::Transmitted(whole, unix_ms),
            AudioEvent::Renewed(result) => EventValue::Renewed(result_value(result)),
        }
    }
}

/// What is to be done for a sender.
pub enum AudioAction {
    /// Wait for the next event; the timer counts only where there is a timeline, a wake
    /// only where there is none.
    Wait { timeline: bool },
    /// Poll the source into the frame.
    Poll,
    /// Announce through the gateway whether it speaks.
    Speak { generation: ConnectionGeneration, speaking: bool },
    /// Look whether a request came.
    Look,
    /// Ask the transport to admit a send; it stays admitted until the send ends.
    Admit,
    /// Encrypt this many bytes of the frame.
    Encrypt { len: usize },
    /// Write the packet to the socket.
    Transmit,
    /// Ask the gateway to renew the transport.
    Renew { generation: ConnectionGeneration },
    /// The sender is done.
    Finish(Result<(), Error>),
}

/// The mathematical form of an [`AudioAction`].
pub ghost enum ActionValue {
    Wait { timeline: bool },
    Poll,
    Speak { generation: ConnectionGeneration, speaking: bool },
    Look,
    Admit,
    Encrypt { len: usize },
    Transmit,
    Renew { generation: ConnectionGeneration },
    Finish(Result<(), crate::error::ErrorView>),
}

impl AudioAction {
    /// The action as a mathematical value.
    pub open spec fn value(self) -> ActionValue {
        match self {
            AudioAction::Wait { timeline } => ActionValue::Wait { timeline },
            AudioAction::Poll => ActionValue::Poll,
            AudioAction::Speak { generation, speaking } => ActionValue::Speak {
                generation,
                speaking,
            },
            AudioAction::Look => ActionValue::Look,
            AudioAction::Admit => ActionValue::Admit,
            AudioAction::Encrypt { len } => ActionValue::Encrypt { len },
            AudioAction::Transmit => ActionValue::Transmit,
            AudioAction::Renew { generation } => ActionValue::Renew { generation },
            AudioAction::Finish(result) => ActionValue::Finish(result_value(result)),
        }
    }
}

/// The answer to the latest request.
pub enum Answer {
    Nothing,
    /// The source was replaced; the sender is to be woken where it has no timeline.
    Replaced { generation: SourceGeneration, wake: bool },
    /// The sender stops; the answer follows when it is done.
    Stopping,
    Refused(Error),
}

/// The mathematical form of an [`Answer`].
pub ghost enum AnswerValue {
    Nothing,
    Replaced { generation: SourceGeneration, wake: bool },
    Stopping,
    Refused(crate::error::ErrorView),
}

impl Answer {
    /// The answer as a mathematical value.
    pub open spec fn value(self) -> AnswerValue {
        match self {
            Answer::Nothing => AnswerValue::Nothing,
            Answer::Replaced { generation, wake } => AnswerValue::Replaced { generation, wake },
            Answer::Stopping => AnswerValue::Stopping,
            Answer::Refused(error) => AnswerValue::Refused(error@),
        }
    }
}

/// The state of a paced sender.
pub struct Executor {
    pub generation: SourceGeneration,
    pub transport: Option<InstalledTransport>,
    pub pacer: PacerRegistration,
    pub store: AudioStore,
    /// The buffer that the source is polled into.
    pub frame: Vec<u8>,
    /// How many bytes of the buffer are a frame that was not sent yet.
    pub staged: Option<usize>,
    pub packet: Vec<u8>,
    pub connection_was_ready: bool,
    pub speaking: bool,
    /// Whether there is a timeline.
    pub active: bool,
    pub last_packet: Option<u64>,
    pub silence_sent: u8,
    pub source_ended: bool,
    pub stopping: bool,
    pub stage: Stage,
    pub answer: Answer,
}

/// The mathematical form of an [`Executor`].
pub ghost struct ExecState {
    pub generation: SourceGeneration,
    pub transport: Option<InstalledState>,
    pub pacer: PacerRegistration,
    pub store: AudioState,
    pub frame: Seq<u8>,
    pub staged: Option<usize>,
    pub packet: Seq<u8>,
    pub connection_was_ready: bool,
    pub speaking: bool,
    pub active: bool,
    pub last_packet: Option<u64>,
    pub silence_sent: u8,
    pub source_ended: bool,
    pub stopping: bool,
    pub stage: Stage,
    pub answer: AnswerValue,
}

impl View for Executor {
    type V = ExecState;

    open spec fn view(&self) -> ExecState {
        ExecState {
            generation: self.generation,
            transport: installed_value(self.transport),
            pacer: self.pacer,
            store: self.store@,
            frame: self.frame@,
            staged: self.staged,
            packet: self.packet@,
            connection_was_ready: self.connection_was_ready,
            speaking: self.speaking,
            active: self.active,
            last_packet: self.last_packet,
            silence_sent: self.silence_sent,
            source_ended: self.source_ended,
            stopping: self.stopping,
            stage: self.stage,
            answer: self.answer.value(),
        }
    }
}

/// What a poll of the source comes to.
#[derive(Clone, Copy, Debug, PartialEq, Eq, Structural)]
pub enum Polled {
    Frame(usize),
    Pending,
    Ended,
}

/// The failure of a source that broke its contract.
pub open spec fn source_failure(message: Seq<char>) -> crate::error::ErrorView {
    crate::audio::failure::audio_failure(
        ErrorKind::FrameSourceContract,
        Operation::StartAudio,
        RetryDisposition::Fatal,
        message,
    )
}

/// The failure of a sender without a transport.
pub open spec fn unavailable_failure() -> crate::error::ErrorView {
    crate::audio::failure::audio_failure(
        ErrorKind::SendIo,
        Operation::StartAudio,
        RetryDisposition::RetryingInternally,
        "audio transport is unavailable"@,
    )
}

/// The failure of a write to the socket.
pub open spec fn send_failure() -> crate::error::ErrorView {
    crate::audio::failure::audio_failure(
        ErrorKind::SendIo,
        Operation::StartAudio,
        RetryDisposition::RetryingInternally,
        "UDP audio send failed or timed out"@,
    )
}

/// The failure of transport encryption.
pub open spec fn encryption_failure() -> crate::error::ErrorView {
    crate::audio::failure::audio_failure(
        ErrorKind::TransportCrypto,
        Operation::StartAudio,
        RetryDisposition::Fatal,
        "transport encryption failed"@,
    )
}

/// The failure of media encryption, with its cause.
pub open spec fn media_failure(message: Seq<char>, cause: DaveFailure) -> crate::error::ErrorView {
    crate::error::ErrorView {
        source: Some(ErrorSource::Dave(cause)),
        ..crate::audio::failure::audio_failure(
            ErrorKind::DaveTransition,
            Operation::StartAudio,
            RetryDisposition::Fatal,
            message,
        )
    }
}

/// The failure of a sender that will get no transport any more.
pub open spec fn updates_closed_failure() -> crate::error::ErrorView {
    crate::audio::failure::audio_failure(
        ErrorKind::Shutdown,
        Operation::StartAudio,
        RetryDisposition::Shutdown,
        "audio transport update channel closed"@,
    )
}

/// The failure of a request that the generations do not suffice for.
pub open spec fn exhausted_failure(request: Request) -> crate::error::ErrorView {
    match request {
        Request::Replace => crate::audio::failure::audio_failure(
            ErrorKind::ResourceLimit,
            Operation::ReplaceSource,
            RetryDisposition::Fatal,
            "audio source generation exhausted"@,
        ),
        Request::Stop => crate::audio::failure::audio_failure(
            ErrorKind::ResourceLimit,
            Operation::StopAudio,
            RetryDisposition::Fatal,
            "audio source generation exhausted during stop"@,
        ),
    }
}

/// The answer to a second request to stop.
pub open spec fn stopping_failure() -> crate::error::ErrorView {
    crate::audio::failure::audio_failure(
        ErrorKind::Overloaded,
        Operation::StopAudio,
        RetryDisposition::Fatal,
        "audio stop is already in progress"@,
    )
}

/// Whether an encoder makes a packet of a payload of this length.
pub open spec fn encodable(encoder: EncoderState, length: nat) -> bool {
    &&& length <= encoder.max_payload_bytes
    &&& encoder.next_nonce is Some
    &&& crate::rtp::sealable(encoder.mode, length)
}

impl ExecState {
    /// Whether media can be sent: the connection is up in the generation of the
    /// transport, and where the transport asks for DAVE, its owner is ready.
    pub open spec fn ready(self, around: Surroundings) -> bool {
        match self.transport {
            Some(transport) => {
                &&& around.phase == ConnectionPhase::Connected
                &&& around.generation == transport.generation
                &&& transport.dave_protocol_version == 0 || (transport.has_dave
                    && around.dave_ready)
            },
            None => false,
        }
    }

    /// Another stage.
    pub open spec fn at(self, stage: Stage) -> ExecState {
        ExecState { stage, ..self }
    }

    /// Another phase.
    pub open spec fn phase(self, phase: AudioPhase) -> ExecState {
        ExecState { store: self.store.phase(phase), ..self }
    }

    /// Other counters.
    pub open spec fn counting(self, stats: AudioStats) -> ExecState {
        ExecState { store: self.store.with_stats(stats), ..self }
    }

    /// The sender fails.
    pub open spec fn fails(self, error: crate::error::ErrorView) -> (ExecState, ActionValue) {
        (self.at(Stage::Finished), ActionValue::Finish(Err(error)))
    }

    /// The sender is done.
    pub open spec fn finishes(self) -> (ExecState, ActionValue) {
        (self.at(Stage::Finished), ActionValue::Finish(Ok(())))
    }

    /// Nothing is left to do now. A sender that stops is done once it has no timeline.
    pub open spec fn settles(self) -> (ExecState, ActionValue) {
        if self.stopping && !self.active {
            self.finishes()
        } else {
            (self.at(Stage::Waiting), ActionValue::Wait { timeline: self.active })
        }
    }

    /// The timeline ends.
    pub open spec fn paused(self) -> ExecState {
        ExecState {
            last_packet: None,
            active: false,
            pacer: if self.active {
                self.pacer.deactivated()
            } else {
                self.pacer
            },
            ..self
        }
    }

    /// The sender announces whether it speaks and goes on at a stage.
    pub open spec fn announces(self, speaking: bool, stage: Stage) -> (ExecState, ActionValue) {
        match self.transport {
            Some(transport) => (
                self.at(stage),
                ActionValue::Speak { generation: transport.generation, speaking },
            ),
            None => self.fails(unavailable_failure()),
        }
    }

    /// A send is to be admitted.
    pub open spec fn sends(self, purpose: Purpose, len: usize) -> (ExecState, ActionValue) {
        (self.at(Stage::Admitting(purpose, len)), ActionValue::Admit)
    }

    /// A timeline starts a period from now.
    pub open spec fn starts_timeline(self, now: u64) -> (ExecState, ActionValue) {
        let started = ExecState {
            active: true,
            pacer: self.pacer.activated(crate::gateway::backoff::later(now, FRAME_PERIOD)),
            ..self
        };
        if self.pacer.registered {
            started.settles()
        } else {
            started.fails(crate::audio::failure::pacer_failure(PacerFailure::Closed))
        }
    }

    /// The silence that is left of a run is sent.
    pub open spec fn resumes_drain(self, now: u64) -> (ExecState, ActionValue) {
        self.phase(AudioPhase::DrainingSilence).starts_timeline(now)
    }

    /// A timeline may start: the source is polled, unless a frame is staged.
    #[verifier::opaque]
    pub open spec fn tries_start(self, around: Surroundings) -> (ExecState, ActionValue) {
        if self.stopping || !self.ready(around) {
            self.settles()
        } else {
            match self.staged {
                Some(len) => self.starts_frame(around, len),
                None => (self.at(Stage::StartPolling), ActionValue::Poll),
            }
        }
    }

    /// A frame is there to start a timeline.
    pub open spec fn starts_frame(self, around: Surroundings, len: usize) -> (
        ExecState,
        ActionValue,
    ) {
        let starting = self.phase(AudioPhase::Starting);
        if self.speaking {
            starting.starts_speaking(around, len)
        } else {
            starting.announces(true, Stage::StartSpeaking(len))
        }
    }

    /// The sender speaks, and a frame is there to start a timeline.
    pub open spec fn starts_speaking(self, around: Surroundings, len: usize) -> (
        ExecState,
        ActionValue,
    ) {
        if self.ready(around) {
            (self.at(Stage::StartLooking(len)), ActionValue::Look)
        } else {
            (ExecState { connection_was_ready: false, ..self }).settles()
        }
    }

    /// The source answered a poll that may start a timeline.
    #[verifier::opaque]
    pub open spec fn start_polled(self, around: Surroundings, polled: Polled) -> (
        ExecState,
        ActionValue,
    ) {
        match polled {
            Polled::Frame(len) => self.starts_frame(around, len),
            Polled::Pending => if self.speaking {
                self.resumes_drain(around.now)
            } else {
                self.phase(AudioPhase::WaitingForSource).settles()
            },
            Polled::Ended => {
                let ended = ExecState { source_ended: true, ..self };
                if self.speaking {
                    ended.resumes_drain(around.now)
                } else {
                    ended.phase(AudioPhase::Stopped).settles()
                }
            },
        }
    }

    /// The sender with the count of a poll that ran too long.
    pub open spec fn poll_counted(self, report: PollReport) -> ExecState {
        if report.callback && report.wall > SOURCE_POLL_LIMIT {
            self.counting(
                AudioStats {
                    source_overruns: crate::model::counted(self.store.stats.source_overruns),
                    last_source_overrun_wall: report.wall,
                    last_source_overrun_cpu: report.cpu,
                    ..self.store.stats
                },
            )
        } else {
            self
        }
    }

    /// Whether a poll broke the bound on its running time. A thread that was not
    /// running is not held against the source, where the platform tells.
    pub open spec fn poll_overran(self, report: PollReport) -> bool {
        &&& report.callback
        &&& report.wall > SOURCE_POLL_LIMIT
        &&& match report.cpu {
            Some(cpu) => cpu > SOURCE_POLL_LIMIT,
            None => true,
        }
    }

    /// What a poll comes to: its answer, or the failure of the source.
    pub open spec fn judged(self, report: PollReport) -> Result<Polled, crate::error::ErrorView> {
        if self.poll_overran(report) {
            Err(source_failure("FrameSource poll exceeded its execution time bound"@))
        } else {
            match report.status {
                PollStatus::Frame(len) => if 1 <= len <= self.frame.len() {
                    Ok(Polled::Frame(len))
                } else {
                    Err(source_failure("FrameSource returned an invalid encoded frame length"@))
                },
                PollStatus::Ended => Ok(Polled::Ended),
                PollStatus::Pending => Ok(Polled::Pending),
            }
        }
    }

    /// The sender after a poll: a frame is staged until it is sent.
    pub open spec fn after_poll(self, report: PollReport) -> ExecState {
        let counted = self.poll_counted(report);
        match self.judged(report) {
            Ok(Polled::Frame(len)) => ExecState { staged: Some(len), ..counted },
            _ => counted,
        }
    }

    /// The buffer with a silence frame in front.
    pub open spec fn silenced(self) -> ExecState {
        ExecState {
            frame: silence() + self.frame.subrange(SILENCE_BYTES as int, self.frame.len() as int),
            ..self
        }
    }

    /// The source answered at a deadline.
    #[verifier::opaque]
    pub open spec fn tick_polled(self, deadline: u64, polled: Polled) -> (ExecState, ActionValue) {
        match polled {
            Polled::Frame(len) => (ExecState {
                silence_sent: 0,
                source_ended: false,
                ..self
            }).phase(AudioPhase::Sending).sends(Purpose::Frame(deadline), len),
            _ => (ExecState {
                source_ended: self.source_ended || polled == Polled::Ended,
                ..self.counting(
                    AudioStats {
                        frames_unavailable: crate::model::counted(
                            self.store.stats.frames_unavailable,
                        ),
                        ..self.store.stats
                    },
                )
            }).phase(AudioPhase::DrainingSilence).silenced().sends(
                Purpose::Silence(deadline),
                SILENCE_BYTES,
            ),
        }
    }

    /// The counts at a deadline.
    pub open spec fn tick_counted(self, deadline: u64, now: u64) -> ExecState {
        self.counting(
            AudioStats {
                skipped_deadlines: self.pacer.skipped,
                max_lateness: crate::audio::counters::longer(
                    self.store.stats.max_lateness,
                    crate::gateway::backoff::elapsed(deadline, now),
                ),
                ..self.store.stats
            },
        )
    }

    /// A deadline came. A late one still permits one frame.
    #[verifier::opaque]
    pub open spec fn ticks(self, around: Surroundings, deadline: u64) -> (ExecState, ActionValue) {
        let counted = self.tick_counted(deadline, around.now);
        if !self.ready(around) {
            counted.settles()
        } else if self.stopping {
            counted.tick_polled(deadline, Polled::Ended)
        } else {
            match self.staged {
                Some(len) => counted.tick_polled(deadline, Polled::Frame(len)),
                None => (counted.at(Stage::TickPolling(deadline)), ActionValue::Poll),
            }
        }
    }

    /// The work of a deadline is done. Where it took a period, the next deadline is a
    /// period away.
    pub open spec fn tick_ends(self, now: u64, deadline: u64) -> (ExecState, ActionValue) {
        if self.active {
            let lateness = crate::gateway::backoff::elapsed(deadline, now);
            let counted = if lateness >= FRAME_PERIOD {
                self.counting(
                    AudioStats {
                        max_lateness: crate::audio::counters::longer(
                            self.store.stats.max_lateness,
                            lateness,
                        ),
                        ..self.store.stats
                    },
                )
            } else {
                self
            };
            (ExecState { pacer: self.pacer.completed(deadline, now), ..counted }).settles()
        } else {
            self.settles()
        }
    }

    /// A frame could not be sent now: the sender waits until it can start again.
    pub open spec fn held_back(self) -> ExecState {
        ExecState { connection_was_ready: false, ..self }
    }

    /// A frame was sent, or was not and is kept.
    #[verifier::opaque]
    pub open spec fn send_ends(self, around: Surroundings, purpose: Purpose, sent: bool) -> (
        ExecState,
        ActionValue,
    ) {
        match purpose {
            Purpose::Start => if sent {
                (ExecState { silence_sent: 0, source_ended: false, ..self }).phase(
                    AudioPhase::Sending,
                ).starts_timeline(around.now)
            } else {
                self.held_back().phase(AudioPhase::Starting).settles()
            },
            Purpose::Frame(deadline) => if sent {
                self.tick_ends(around.now, deadline)
            } else {
                self.held_back().paused().phase(AudioPhase::Starting).settles()
            },
            Purpose::Silence(deadline) => if sent {
                self.silence_ends(around.now, deadline)
            } else {
                self.held_back().paused().phase(AudioPhase::Starting).settles()
            },
        }
    }

    /// A silence frame was sent. The last one of a run ends the timeline, and the sender
    /// announces that it does not speak.
    pub open spec fn silence_ends(self, now: u64, deadline: u64) -> (ExecState, ActionValue) {
        let counted = ExecState {
            silence_sent: if self.silence_sent == u8::MAX {
                u8::MAX
            } else {
                (self.silence_sent + 1) as u8
            },
            ..self.counting(
                AudioStats {
                    silence_frames_sent: crate::model::counted(
                        self.store.stats.silence_frames_sent,
                    ),
                    ..self.store.stats
                },
            )
        };
        if counted.silence_sent == SILENCE_FRAMES {
            if self.speaking {
                counted.paused().announces(false, Stage::DrainQuieting)
            } else {
                counted.paused().drained()
            }
        } else {
            counted.tick_ends(now, deadline)
        }
    }

    /// The last silence frame of a run was sent, and the sender does not speak.
    pub open spec fn drained(self) -> (ExecState, ActionValue) {
        self.phase(
            if self.stopping || self.source_ended {
                AudioPhase::Stopped
            } else {
                AudioPhase::WaitingForSource
            },
        ).settles()
    }

    /// The transport with another encoder.
    pub open spec fn with_encoder(self, encoder: EncoderState) -> ExecState {
        ExecState {
            transport: Some(InstalledState { encoder, ..self.transport->0 }),
            ..self
        }
    }

    /// The transport encrypts a payload.
    #[verifier::opaque]
    pub open spec fn encodes(self, purpose: Purpose, payload: Seq<u8>) -> (ExecState, ActionValue) {
        let encoder = self.transport->0.encoder;
        if encodable(encoder, payload.len()) {
            let packet = crate::rtp::rtp_packet(
                encoder.mode,
                encoder.key,
                encoder.next_fields(payload),
            );
            (
                (ExecState { packet, ..self.with_encoder(encoder.packet_made()) }).at(
                    Stage::Transmitting(purpose),
                ),
                ActionValue::Transmit,
            )
        } else if payload.len() > encoder.max_payload_bytes {
            self.fails(encryption_failure())
        } else if encoder.next_nonce is None {
            (
                self.at(Stage::Renewing(purpose)),
                ActionValue::Renew { generation: self.transport->0.generation },
            )
        } else {
            self.with_encoder(encoder.nonce_used()).fails(encryption_failure())
        }
    }

    /// The sender without a transport.
    pub open spec fn bare(self) -> ExecState {
        ExecState { transport: None, ..self }
    }

    /// The transport admitted a send, or did not. Under DAVE the frame is encrypted
    /// first.
    pub open spec fn admitted(
        self,
        around: Surroundings,
        purpose: Purpose,
        len: usize,
        admitted: bool,
    ) -> (ExecState, ActionValue) {
        match self.transport {
            Some(transport) if admitted => if transport.has_dave {
                (self.at(Stage::Encrypting(purpose)), ActionValue::Encrypt { len })
            } else {
                self.encodes(purpose, self.frame.subrange(0, len as int))
            },
            _ => self.bare().send_ends(around, purpose, false),
        }
    }

    /// Media encryption was tried.
    pub open spec fn encrypted(
        self,
        around: Surroundings,
        purpose: Purpose,
        report: EncryptValue,
    ) -> (ExecState, ActionValue) {
        match report {
            EncryptValue::OwnerFailed(cause) => self.fails(
                media_failure("DAVE media encryption owner failed"@, cause),
            ),
            EncryptValue::Failed(cause) => self.fails(
                media_failure("DAVE media encryption failed"@, cause),
            ),
            EncryptValue::NotReady => self.send_ends(around, purpose, false),
            EncryptValue::Ready(payload) => if self.transport is Some {
                self.encodes(purpose, payload)
            } else {
                self.send_ends(around, purpose, false)
            },
        }
    }

    /// A packet was written.
    pub open spec fn packet_counted(self, now: u64, unix_ms: u64, silent: bool) -> ExecState {
        let gapped = match self.last_packet {
            Some(previous) => crate::audio::counters::gap_observed(
                self.store.stats,
                crate::gateway::backoff::elapsed(previous, now),
                unix_ms,
            ),
            None => self.store.stats,
        };
        (ExecState { staged: None, last_packet: Some(now), ..self }).counting(
            if silent {
                gapped
            } else {
                AudioStats { frames_sent: crate::model::counted(gapped.frames_sent), ..gapped }
            },
        )
    }

    /// A packet was written, whole or not.
    pub open spec fn transmitted(
        self,
        around: Surroundings,
        purpose: Purpose,
        whole: bool,
        unix_ms: u64,
    ) -> (ExecState, ActionValue) {
        if whole {
            self.packet_counted(around.now, unix_ms, purpose is Silence).send_ends(
                around,
                purpose,
                true,
            )
        } else {
            self.counting(
                AudioStats {
                    send_failures: crate::model::counted(self.store.stats.send_failures),
                    ..self.store.stats
                },
            ).fails(send_failure())
        }
    }

    /// The answer to the latest request.
    pub open spec fn answering(self, answer: AnswerValue) -> ExecState {
        ExecState { answer, ..self }
    }

    /// The source is replaced, or the sender stops.
    #[verifier::opaque]
    pub open spec fn asked(self, request: Request) -> (ExecState, ActionValue) {
        match (request, self.generation.following()) {
            (Request::Replace, Some(generation)) => (ExecState {
                generation,
                staged: None,
                source_ended: false,
                silence_sent: 0,
                store: self.store.replace_generation(generation),
                ..self
            }).answering(
                AnswerValue::Replaced { generation, wake: !self.active },
            ).settles(),
            (Request::Stop, _) if self.stopping => self.answering(
                AnswerValue::Refused(stopping_failure()),
            ).settles(),
            (Request::Stop, Some(generation)) => {
                let stopped = (ExecState {
                    generation,
                    staged: None,
                    source_ended: true,
                    stopping: true,
                    store: self.store.invalidate_generation(generation),
                    ..self
                }).answering(AnswerValue::Stopping);
                if self.active {
                    stopped.settles()
                } else if self.speaking {
                    stopped.announces(false, Stage::StopQuieting)
                } else {
                    stopped.phase(AudioPhase::Stopped).finishes()
                }
            },
            (request, None) => self.answering(
                AnswerValue::Refused(exhausted_failure(request)),
            ).fails(exhausted_failure(request)),
        }
    }

    /// A transport was installed.
    pub open spec fn installs(self, around: Surroundings, update: InstalledState) -> (
        ExecState,
        ActionValue,
    ) {
        let fitted = ExecState { speaking: false, transport: Some(update), ..self.paused() };
        let seen = ExecState { connection_was_ready: fitted.ready(around), ..fitted };
        if update.dave_protocol_version != 0 && !(update.has_dave && around.dave_ready) {
            seen.phase(AudioPhase::Starting).settles()
        } else {
            seen.tries_start(around)
        }
    }

    /// Whether the gateway may have forgotten that the sender speaks.
    pub open spec fn forgotten(self, around: Surroundings) -> bool {
        ||| !(around.phase == ConnectionPhase::Connected || around.phase
            == ConnectionPhase::EstablishingDave)
        ||| !(self.transport matches Some(transport) && transport.generation == around.generation)
    }

    /// The connection or the DAVE owner changed.
    pub open spec fn changes(self, around: Surroundings) -> (ExecState, ActionValue) {
        let ready = self.ready(around);
        let seen = ExecState { connection_was_ready: ready, ..self };
        if !ready {
            (ExecState {
                speaking: self.speaking && !self.forgotten(around),
                ..seen.paused()
            }).phase(AudioPhase::Starting).settles()
        } else if !self.connection_was_ready && !self.active {
            seen.tries_start(around)
        } else {
            seen.settles()
        }
    }

    /// The timer ran out.
    pub open spec fn timed(self, around: Surroundings) -> (ExecState, ActionValue) {
        let stepped = ExecState { pacer: self.pacer.stepped(around.now), ..self };
        match self.pacer.step(around.now) {
            PacerStep::Closed => self.fails(
                crate::audio::failure::pacer_failure(PacerFailure::Closed),
            ),
            PacerStep::Due(deadline) => stepped.ticks(around, deadline),
            _ => self.settles(),
        }
    }

    /// An event that comes from outside, while the sender waits.
    #[verifier::opaque]
    pub open spec fn happens(self, around: Surroundings, event: EventValue) -> (
        ExecState,
        ActionValue,
    ) {
        match event {
            EventValue::Begin => if self.active {
                self.settles()
            } else {
                (ExecState { connection_was_ready: self.ready(around), ..self }).tries_start(around)
            },
            EventValue::Cancelled | EventValue::Forsaken => self.finishes(),
            EventValue::Asked(request) => self.asked(request),
            EventValue::Transport(Some(update)) => self.installs(around, update),
            EventValue::Transport(None) => self.fails(updates_closed_failure()),
            EventValue::Changed => self.changes(around),
            EventValue::DaveStopped => self.fails(
                media_failure("DAVE readiness owner stopped"@, DaveFailure::Closed),
            ),
            EventValue::Timer => if self.active {
                self.timed(around)
            } else {
                self.settles()
            },
            EventValue::Woken(generation) => if !self.active && self.generation.number()
                == generation {
                self.tries_start(around)
            } else {
                self.settles()
            },
            _ => self.settles(),
        }
    }

    /// The announcement that the sender waits for was made.
    #[verifier::opaque]
    pub open spec fn spoken(self, around: Surroundings) -> (ExecState, ActionValue) {
        match self.stage {
            Stage::StartSpeaking(len) => (ExecState { speaking: true, ..self }).starts_speaking(
                around,
                len,
            ),
            Stage::StartQuieting(request) => (ExecState { speaking: false, ..self }).asked(request),
            Stage::DrainQuieting => (ExecState { speaking: false, ..self }).drained(),
            Stage::StopQuieting => (ExecState { speaking: false, ..self }).phase(
                AudioPhase::Stopped,
            ).finishes(),
            _ => self.unexpected(),
        }
    }

    /// An event that the stage does not ask for changes nothing.
    pub open spec fn unexpected(self) -> (ExecState, ActionValue) {
        (self, ActionValue::Wait { timeline: self.active })
    }

    /// What an event leads to.
    pub open spec fn step(self, around: Surroundings, event: EventValue) -> (
        ExecState,
        ActionValue,
    ) {
        match (self.stage, event) {
            (Stage::Waiting, event) => self.happens(around, event),
            (Stage::StartPolling, EventValue::Polled(report)) => match self.judged(report) {
                Ok(polled) => self.after_poll(report).start_polled(around, polled),
                Err(error) => self.after_poll(report).fails(error),
            },
            (Stage::TickPolling(deadline), EventValue::Polled(report)) => match self.judged(
                report,
            ) {
                Ok(polled) => self.after_poll(report).tick_polled(deadline, polled),
                Err(error) => self.after_poll(report).fails(error),
            },
            (
                Stage::StartSpeaking(_) | Stage::StartQuieting(_) | Stage::DrainQuieting
                | Stage::StopQuieting,
                EventValue::Spoken(result),
            ) => match result {
                Ok(()) => self.spoken(around),
                Err(error) => self.fails(error),
            },
            (Stage::StartLooking(len), EventValue::NoRequest) => self.sends(Purpose::Start, len),
            (Stage::StartLooking(_), EventValue::Asked(request)) => self.announces(
                false,
                Stage::StartQuieting(request),
            ),
            (Stage::Admitting(purpose, len), EventValue::Admitted(admitted)) => self.admitted(
                around,
                purpose,
                len,
                admitted,
            ),
            (Stage::Encrypting(purpose), EventValue::Encrypted(report)) => self.encrypted(
                around,
                purpose,
                report,
            ),
            (Stage::Transmitting(purpose), EventValue::Transmitted(whole, unix_ms)) => {
                self.transmitted(around, purpose, whole, unix_ms)
            },
            (Stage::Renewing(purpose), EventValue::Renewed(result)) => match result {
                Ok(()) => self.bare().send_ends(around, purpose, false),
                Err(error) => self.fails(error),
            },
            _ => self.unexpected(),
        }
    }
    /// What holds of a sender at every stage.
    ///
    /// There is room for a silence frame; a staged frame is in the buffer; a timeline
    /// has silence left to send; a sender that stops keeps no frame.
    pub open spec fn sound(self) -> bool {
        &&& self.frame.len() >= SILENCE_BYTES
        &&& self.staged matches Some(len) ==> 1 <= len <= self.frame.len()
        &&& self.stopping ==> self.staged is None
        &&& self.active ==> self.silence_sent < SILENCE_FRAMES
        &&& self.speaking && self.staged is None && !(self.stage is DrainQuieting || self.stage
            is StopQuieting || self.stage is Finished) ==> self.silence_sent < SILENCE_FRAMES
        &&& match self.stage {
            Stage::StartSpeaking(len) | Stage::StartLooking(len) => {
                &&& self.staged == Some(len)
                &&& !self.active
                &&& self.stage is StartLooking ==> self.speaking
            },
            Stage::StartPolling => self.staged is None && !self.active && !self.stopping,
            Stage::TickPolling(_) => self.staged is None && self.active && !self.stopping,
            Stage::StartQuieting(_) | Stage::DrainQuieting | Stage::StopQuieting => !self.active,
            Stage::Admitting(purpose, len) => {
                &&& 1 <= len <= self.frame.len()
                &&& self.purposeful(purpose)
                &&& purpose !is Silence ==> self.staged == Some(len)
                &&& purpose is Silence ==> len == SILENCE_BYTES && self.frame.subrange(
                    0,
                    len as int,
                ) == silence()
            },
            Stage::Encrypting(purpose) | Stage::Transmitting(purpose) | Stage::Renewing(
                purpose,
            ) => self.purposeful(purpose),
            _ => true,
        }
    }

    /// Whether the state is one in which a frame is sent for a purpose.
    pub open spec fn purposeful(self, purpose: Purpose) -> bool {
        match purpose {
            Purpose::Start => !self.active && self.speaking && self.staged is Some,
            Purpose::Frame(_) => self.active && self.silence_sent == 0 && self.staged is Some,
            Purpose::Silence(_) => self.active && self.staged is None,
        }
    }

    /// A failure as the sender reports it.
    pub open spec fn told(self, error: crate::error::ErrorView, context: Option<DaveContext>) -> crate::error::ErrorView {
        if error.dave_failure() is Some && context is Some && (self.transport matches Some(
            transport,
        ) && transport.has_dave) {
            crate::error::ErrorView { dave_context: context, ..error }
        } else {
            error
        }
    }

    /// The sender after its end.
    pub open spec fn concluded(self, failure: Option<crate::error::ErrorView>) -> ExecState {
        ExecState {
            store: match failure {
                Some(error) => self.store.fail(error),
                None => if self.store.current.phase == AudioPhase::Failed {
                    self.store
                } else {
                    self.store.phase(AudioPhase::Stopped)
                },
            },
            pacer: PacerRegistration { next: None, registered: false, ..self.pacer },
            ..self
        }
    }

    /// A send that ended keeps the sender sound.
    proof fn send_ends_soundly(self, around: Surroundings, purpose: Purpose, sent: bool)
        requires
            self.frame.len() >= SILENCE_BYTES,
            self.staged matches Some(len) ==> 1 <= len <= self.frame.len(),
            self.stopping ==> self.staged is None,
            match purpose {
                Purpose::Start => !self.active && self.speaking,
                Purpose::Frame(_) => self.active && self.silence_sent == 0,
                Purpose::Silence(_) => self.active && self.silence_sent < SILENCE_FRAMES,
            },
            !sent && purpose !is Silence ==> self.staged is Some,
        ensures
            self.send_ends(around, purpose, sent).0.sound(),
    {
        reveal(ExecState::send_ends);
    }

    /// An answer of the source at a deadline keeps the sender sound.
    proof fn tick_polled_soundly(self, deadline: u64, polled: Polled)
        requires
            self.frame.len() >= SILENCE_BYTES,
            self.staged matches Some(len) ==> 1 <= len <= self.frame.len(),
            self.stopping ==> self.staged is None,
            self.active,
            self.silence_sent < SILENCE_FRAMES,
            polled matches Polled::Frame(len) ==> self.staged == Some(len),
            polled !is Frame ==> self.staged is None,
        ensures
            self.tick_polled(deadline, polled).0.sound(),
    {
        reveal(ExecState::tick_polled);
        let frame = self.silenced().frame;
        assert(frame.len() == self.frame.len());
        assert(frame.subrange(0, SILENCE_BYTES as int) =~= silence());
        if polled !is Frame {
            assert(self.tick_polled(deadline, polled).0.frame == frame);
        }
    }

    /// A deadline keeps a waiting sender sound.
    proof fn ticks_soundly(self, around: Surroundings, deadline: u64)
        requires
            self.sound(),
            self.stage is Waiting,
            self.active,
        ensures
            self.ticks(around, deadline).0.sound(),
    {
        reveal(ExecState::ticks);
        let counted = self.tick_counted(deadline, around.now);
        if self.ready(around) {
            if self.stopping {
                counted.tick_polled_soundly(deadline, Polled::Ended);
            } else if let Some(len) = self.staged {
                counted.tick_polled_soundly(deadline, Polled::Frame(len));
            }
        }
    }

    /// An attempt to start keeps the sender sound.
    proof fn tries_start_soundly(self, around: Surroundings)
        requires
            self.sound(),
            self.stage is Waiting,
            !self.active,
        ensures
            self.tries_start(around).0.sound(),
    {
        reveal(ExecState::tries_start);
    }

    /// A request keeps the sender sound.
    proof fn asked_soundly(self, request: Request)
        requires
            self.sound(),
            self.stage is Waiting || (self.stage is StartQuieting && !self.speaking),
        ensures
            self.asked(request).0.sound(),
    {
        reveal(ExecState::asked);
    }

    /// What comes from outside keeps a waiting sender sound.
    proof fn happens_soundly(self, around: Surroundings, event: EventValue)
        requires
            self.sound(),
            self.stage is Waiting,
        ensures
            self.happens(around, event).0.sound(),
    {
        reveal(ExecState::happens);
        match event {
            EventValue::Begin => {
                if !self.active {
                    (ExecState {
                        connection_was_ready: self.ready(around),
                        ..self
                    }).tries_start_soundly(around);
                }
            },
            EventValue::Asked(request) => {
                self.asked_soundly(request);
            },
            EventValue::Transport(Some(update)) => {
                let fitted = ExecState {
                    speaking: false,
                    transport: Some(update),
                    ..self.paused()
                };
                (ExecState {
                    connection_was_ready: fitted.ready(around),
                    ..fitted
                }).tries_start_soundly(around);
            },
            EventValue::Changed => {
                if !self.active {
                    (ExecState {
                        connection_was_ready: self.ready(around),
                        ..self
                    }).tries_start_soundly(around);
                }
            },
            EventValue::Woken(_) => {
                if !self.active {
                    self.tries_start_soundly(around);
                }
            },
            EventValue::Timer => {
                if self.active {
                    if let PacerStep::Due(deadline) = self.pacer.step(around.now) {
                        (ExecState {
                            pacer: self.pacer.stepped(around.now),
                            ..self
                        }).ticks_soundly(around, deadline);
                    }
                }
            },
            _ => {},
        }
    }

    /// An answer of the source that may start a timeline keeps the sender sound.
    proof fn start_polled_soundly(self, around: Surroundings, report: PollReport)
        requires
            self.sound(),
            self.stage is StartPolling,
        ensures
            match self.judged(report) {
                Ok(polled) => self.after_poll(report).start_polled(around, polled).0.sound(),
                Err(error) => self.after_poll(report).fails(error).0.sound(),
            },
    {
        reveal(ExecState::start_polled);
    }

    /// An announcement keeps the sender sound.
    proof fn spoken_soundly(self, around: Surroundings)
        requires
            self.sound(),
        ensures
            self.spoken(around).0.sound(),
    {
        reveal(ExecState::spoken);
        if let Stage::StartQuieting(request) = self.stage {
            (ExecState { speaking: false, ..self }).asked_soundly(request);
        }
    }

    /// Encrypting a payload keeps the sender sound.
    proof fn encodes_soundly(self, purpose: Purpose, payload: Seq<u8>)
        requires
            self.sound(),
            self.purposeful(purpose),
        ensures
            self.encodes(purpose, payload).0.sound(),
    {
        reveal(ExecState::encodes);
    }

    /// Every step keeps the sender sound.
    pub proof fn steps_keep_the_sender_sound(self, around: Surroundings, event: EventValue)
        requires
            self.sound(),
        ensures
            self.step(around, event).0.sound(),
    {
        let stepped = self.step(around, event);
        match (self.stage, event) {
            (Stage::Waiting, event) => {
                self.happens_soundly(around, event);
                assert(stepped == self.happens(around, event));
            },
            (Stage::StartPolling, EventValue::Polled(report)) => {
                self.start_polled_soundly(around, report);
            },
            (Stage::TickPolling(deadline), EventValue::Polled(report)) => {
                if let Ok(polled) = self.judged(report) {
                    self.after_poll(report).tick_polled_soundly(deadline, polled);
                    assert(stepped == self.after_poll(report).tick_polled(deadline, polled));
                }
            },
            (
                Stage::StartSpeaking(_) | Stage::StartQuieting(_) | Stage::DrainQuieting
                | Stage::StopQuieting,
                EventValue::Spoken(result),
            ) => {
                if result is Ok {
                    self.spoken_soundly(around);
                    assert(stepped == self.spoken(around));
                }
            },
            (Stage::StartLooking(_), _) => {},
            (Stage::Admitting(purpose, len), EventValue::Admitted(_)) => {
                self.bare().send_ends_soundly(around, purpose, false);
                self.encodes_soundly(purpose, self.frame.subrange(0, len as int));
            },
            (Stage::Encrypting(purpose), EventValue::Encrypted(report)) => {
                self.send_ends_soundly(around, purpose, false);
                if let EncryptValue::Ready(payload) = report {
                    self.encodes_soundly(purpose, payload);
                }
            },
            (Stage::Transmitting(purpose), EventValue::Transmitted(_, unix_ms)) => {
                self.packet_counted(around.now, unix_ms, purpose is Silence).send_ends_soundly(
                    around,
                    purpose,
                    true,
                );
            },
            (Stage::Renewing(purpose), EventValue::Renewed(_)) => {
                self.bare().send_ends_soundly(around, purpose, false);
            },
            _ => {
                assert(stepped == self.unexpected());
            },
        }
    }
}

/// Writes a silence frame in front of the buffer.
fn write_silence(frame: &mut Vec<u8>)
    requires
        old(frame)@.len() >= SILENCE_BYTES,
    ensures
        final(frame)@ == silence() + old(frame)@.subrange(
            SILENCE_BYTES as int,
            old(frame)@.len() as int,
        ),
{
    frame.set(0, 0xF8);
    frame.set(1, 0xFF);
    frame.set(2, 0xFE);
    assert(frame@ =~= silence() + old(frame)@.subrange(
        SILENCE_BYTES as int,
        old(frame)@.len() as int,
    ));
}

impl Executor {
    /// Creates a sender for its first source. The buffer has room for the longest frame,
    /// and for a silence frame.
    pub fn new(transport: InstalledTransport, pacer: PacerRegistration, max_frame_bytes: usize) -> (
        executor: Self)
        requires
            max_frame_bytes >= SILENCE_BYTES,
        ensures
            executor@.sound(),
            executor@.generation.number() == 1,
            executor@.generation == executor@.store.current.generation,
            executor@.transport == Some(transport@),
            executor@.pacer == pacer,
            executor@.store.current.phase == AudioPhase::WaitingForSource,
            executor@.store.stats.zero(),
            executor@.frame == Seq::new(max_frame_bytes as nat, |i: int| 0u8),
            executor@.packet.len() == 0,
            executor@.staged is None,
            !executor@.connection_was_ready,
            !executor@.speaking,
            !executor@.active,
            executor@.last_packet is None,
            executor@.silence_sent == 0,
            !executor@.source_ended,
            !executor@.stopping,
            executor@.stage == Stage::Waiting,
            executor@.answer is Nothing,
    {
        let mut frame: Vec<u8> = Vec::new();
        let mut index: usize = 0;
        while index < max_frame_bytes
            invariant
                index <= max_frame_bytes,
                frame@ == Seq::new(index as nat, |i: int| 0u8),
            decreases max_frame_bytes - index,
        {
            frame.push(0);
            index = index + 1;
            assert(frame@ =~= Seq::new(index as nat, |i: int| 0u8));
        }
        let store = AudioStore::new();
        Executor {
            generation: store.current.generation(),
            transport: Some(transport),
            pacer,
            store,
            frame,
            staged: None,
            packet: Vec::new(),
            connection_was_ready: false,
            speaking: false,
            active: false,
            last_packet: None,
            silence_sent: 0,
            source_ended: false,
            stopping: false,
            stage: Stage::Waiting,
            answer: Answer::Nothing,
        }
    }

    /// Returns whether media can be sent.
    pub fn connection_ready(&self, around: Surroundings) -> (ready: bool)
        ensures
            ready == self@.ready(around),
    {
        match &self.transport {
            Some(transport) => around.phase == ConnectionPhase::Connected && around.generation.same(
                transport.generation,
            ) && (transport.dave_protocol_version == 0 || (transport.has_dave
                && around.dave_ready)),
            None => false,
        }
    }

    /// Takes the answer to the latest request.
    pub fn take_answer(&mut self) -> (answer: Answer)
        ensures
            answer.value() == old(self)@.answer,
            final(self)@ == old(self)@.answering(AnswerValue::Nothing),
    {
        let mut answer = Answer::Nothing;
        core::mem::swap(&mut self.answer, &mut answer);
        answer
    }

    fn fails(&mut self, error: Error) -> (action: AudioAction)
        ensures
            (final(self)@, action.value()) == old(self)@.fails(error@),
    {
        self.stage = Stage::Finished;
        AudioAction::Finish(Err(error))
    }

    fn finishes(&mut self) -> (action: AudioAction)
        ensures
            (final(self)@, action.value()) == old(self)@.finishes(),
    {
        self.stage = Stage::Finished;
        AudioAction::Finish(Ok(()))
    }

    fn settles(&mut self) -> (action: AudioAction)
        ensures
            (final(self)@, action.value()) == old(self)@.settles(),
    {
        if self.stopping && !self.active {
            self.finishes()
        } else {
            self.stage = Stage::Waiting;
            AudioAction::Wait { timeline: self.active }
        }
    }

    fn pause(&mut self)
        ensures
            final(self)@ == old(self)@.paused(),
    {
        self.last_packet = None;
        if self.active {
            self.pacer.deactivate();
            self.active = false;
        }
    }

    fn announces(&mut self, speaking: bool, stage: Stage) -> (action: AudioAction)
        ensures
            (final(self)@, action.value()) == old(self)@.announces(speaking, stage),
    {
        match &self.transport {
            Some(transport) => {
                let generation = transport.generation;
                self.stage = stage;
                AudioAction::Speak { generation, speaking }
            },
            None => self.fails(
                audio_error(
                    ErrorKind::SendIo,
                    Operation::StartAudio,
                    RetryDisposition::RetryingInternally,
                    "audio transport is unavailable",
                ),
            ),
        }
    }

    fn sends(&mut self, purpose: Purpose, len: usize) -> (action: AudioAction)
        ensures
            (final(self)@, action.value()) == old(self)@.sends(purpose, len),
    {
        self.stage = Stage::Admitting(purpose, len);
        AudioAction::Admit
    }

    fn starts_timeline(&mut self, now: u64) -> (action: AudioAction)
        ensures
            (final(self)@, action.value()) == old(self)@.starts_timeline(now),
    {
        self.active = true;
        match self.pacer.activate(now.saturating_add(FRAME_PERIOD)) {
            Ok(()) => self.settles(),
            Err(failure) => self.fails(pacer_error(failure)),
        }
    }

    fn resumes_drain(&mut self, now: u64) -> (action: AudioAction)
        ensures
            (final(self)@, action.value()) == old(self)@.resumes_drain(now),
    {
        self.store.phase(AudioPhase::DrainingSilence);
        self.starts_timeline(now)
    }

    fn tries_start(&mut self, around: Surroundings) -> (action: AudioAction)
        ensures
            (final(self)@, action.value()) == old(self)@.tries_start(around),
    {
        proof {
            reveal(ExecState::tries_start);
        }
        if self.stopping || !self.connection_ready(around) {
            return self.settles();
        }
        match self.staged {
            Some(len) => self.starts_frame(around, len),
            None => {
                self.stage = Stage::StartPolling;
                AudioAction::Poll
            },
        }
    }

    fn starts_frame(&mut self, around: Surroundings, len: usize) -> (action: AudioAction)
        ensures
            (final(self)@, action.value()) == old(self)@.starts_frame(around, len),
    {
        self.store.phase(AudioPhase::Starting);
        if self.speaking {
            self.starts_speaking(around, len)
        } else {
            self.announces(true, Stage::StartSpeaking(len))
        }
    }

    fn starts_speaking(&mut self, around: Surroundings, len: usize) -> (action: AudioAction)
        ensures
            (final(self)@, action.value()) == old(self)@.starts_speaking(around, len),
    {
        if self.connection_ready(around) {
            self.stage = Stage::StartLooking(len);
            AudioAction::Look
        } else {
            self.connection_was_ready = false;
            self.settles()
        }
    }

    fn start_polled(&mut self, around: Surroundings, polled: Polled) -> (action: AudioAction)
        ensures
            (final(self)@, action.value()) == old(self)@.start_polled(around, polled),
    {
        proof {
            reveal(ExecState::start_polled);
        }
        match polled {
            Polled::Frame(len) => self.starts_frame(around, len),
            Polled::Pending => {
                if self.speaking {
                    self.resumes_drain(around.now)
                } else {
                    self.store.phase(AudioPhase::WaitingForSource);
                    self.settles()
                }
            },
            Polled::Ended => {
                self.source_ended = true;
                if self.speaking {
                    self.resumes_drain(around.now)
                } else {
                    self.store.phase(AudioPhase::Stopped);
                    self.settles()
                }
            },
        }
    }

    /// Judges a poll of the source: how long it ran, and what it answered. A frame is
    /// staged until it is sent.
    pub fn judge_poll(&mut self, report: PollReport) -> (judged: Result<Polled, Error>)
        ensures
            final(self)@ == old(self)@.after_poll(report),
            match judged {
                Ok(polled) => old(self)@.judged(report) == Ok::<Polled, crate::error::ErrorView>(
                    polled,
                ),
                Err(error) => old(self)@.judged(report) == Err::<Polled, crate::error::ErrorView>(
                    error@,
                ),
            },
    {
        if report.callback && report.wall > SOURCE_POLL_LIMIT {
            self.store.counters.observe_overrun(report.wall, report.cpu);
            let overran = match report.cpu {
                Some(cpu) => cpu > SOURCE_POLL_LIMIT,
                None => true,
            };
            if overran {
                return Err(
                    audio_error(
                        ErrorKind::FrameSourceContract,
                        Operation::StartAudio,
                        RetryDisposition::Fatal,
                        "FrameSource poll exceeded its execution time bound",
                    ),
                );
            }
        }
        match report.status {
            PollStatus::Frame(len) => {
                if 1 <= len && len <= self.frame.len() {
                    self.staged = Some(len);
                    Ok(Polled::Frame(len))
                } else {
                    Err(
                        audio_error(
                            ErrorKind::FrameSourceContract,
                            Operation::StartAudio,
                            RetryDisposition::Fatal,
                            "FrameSource returned an invalid encoded frame length",
                        ),
                    )
                }
            },
            PollStatus::Ended => Ok(Polled::Ended),
            PollStatus::Pending => Ok(Polled::Pending),
        }
    }

    fn tick_polled(&mut self, deadline: u64, polled: Polled) -> (action: AudioAction)
        requires
            old(self)@.frame.len() >= SILENCE_BYTES,
        ensures
            (final(self)@, action.value()) == old(self)@.tick_polled(deadline, polled),
    {
        proof {
            reveal(ExecState::tick_polled);
        }
        match polled {
            Polled::Frame(len) => {
                self.silence_sent = 0;
                self.source_ended = false;
                self.store.phase(AudioPhase::Sending);
                self.sends(Purpose::Frame(deadline), len)
            },
            _ => {
                self.store.counters.stats.frames_unavailable = increment(
                    self.store.counters.stats.frames_unavailable,
                );
                if polled == Polled::Ended {
                    self.source_ended = true;
                }
                self.store.phase(AudioPhase::DrainingSilence);
                write_silence(&mut self.frame);
                self.sends(Purpose::Silence(deadline), SILENCE_BYTES)
            },
        }
    }

    fn ticks(&mut self, around: Surroundings, deadline: u64) -> (action: AudioAction)
        requires
            old(self)@.frame.len() >= SILENCE_BYTES,
        ensures
            (final(self)@, action.value()) == old(self)@.ticks(around, deadline),
    {
        proof {
            reveal(ExecState::ticks);
        }
        self.store.counters.stats.skipped_deadlines = self.pacer.skipped();
        self.store.counters.observe_lateness(around.now.saturating_sub(deadline));
        if !self.connection_ready(around) {
            return self.settles();
        }
        if self.stopping {
            return self.tick_polled(deadline, Polled::Ended);
        }
        match self.staged {
            Some(len) => self.tick_polled(deadline, Polled::Frame(len)),
            None => {
                self.stage = Stage::TickPolling(deadline);
                AudioAction::Poll
            },
        }
    }

    fn tick_ends(&mut self, now: u64, deadline: u64) -> (action: AudioAction)
        ensures
            (final(self)@, action.value()) == old(self)@.tick_ends(now, deadline),
    {
        if self.active {
            let lateness: u64 = now.saturating_sub(deadline);
            if lateness >= FRAME_PERIOD {
                self.store.counters.observe_lateness(lateness);
            }
            self.pacer.complete(deadline, now);
        }
        self.settles()
    }

    fn held_back(&mut self) -> (action: AudioAction)
        ensures
            (final(self)@, action.value()) == old(self)@.held_back().paused().phase(AudioPhase::Starting).settles(),
    {
        self.connection_was_ready = false;
        self.pause();
        self.store.phase(AudioPhase::Starting);
        self.settles()
    }

    fn silence_sent(&mut self, now: u64, deadline: u64) -> (action: AudioAction)
        ensures
            (final(self)@, action.value()) == old(self)@.silence_ends(now, deadline),
    {
        self.store.counters.stats.silence_frames_sent = increment(
            self.store.counters.stats.silence_frames_sent,
        );
        self.silence_sent = self.silence_sent.saturating_add(1);
        if self.silence_sent == SILENCE_FRAMES {
            self.pause();
            if self.speaking {
                self.announces(false, Stage::DrainQuieting)
            } else {
                self.drained()
            }
        } else {
            self.tick_ends(now, deadline)
        }
    }

    fn send_ends(&mut self, around: Surroundings, purpose: Purpose, sent: bool) -> (action: AudioAction)
        ensures
            (final(self)@, action.value()) == old(self)@.send_ends(around, purpose, sent),
    {
        proof {
            reveal(ExecState::send_ends);
        }
        match purpose {
            Purpose::Start => {
                if sent {
                    self.silence_sent = 0;
                    self.source_ended = false;
                    self.store.phase(AudioPhase::Sending);
                    self.starts_timeline(around.now)
                } else {
                    self.connection_was_ready = false;
                    self.store.phase(AudioPhase::Starting);
                    self.settles()
                }
            },
            Purpose::Frame(deadline) => {
                if sent {
                    self.tick_ends(around.now, deadline)
                } else {
                    self.held_back()
                }
            },
            Purpose::Silence(deadline) => {
                if sent {
                    self.silence_sent(around.now, deadline)
                } else {
                    self.held_back()
                }
            },
        }
    }

    fn drained(&mut self) -> (action: AudioAction)
        ensures
            (final(self)@, action.value()) == old(self)@.drained(),
    {
        if self.stopping || self.source_ended {
            self.store.phase(AudioPhase::Stopped);
        } else {
            self.store.phase(AudioPhase::WaitingForSource);
        }
        self.settles()
    }

    fn encodes(&mut self, purpose: Purpose, payload: &[u8]) -> (action: AudioAction)
        requires
            old(self)@.transport is Some,
        ensures
            (final(self)@, action.value()) == old(self)@.encodes(purpose, payload@),
    {
        proof {
            reveal(ExecState::encodes);
        }
        let mut transport = match self.transport.take() {
            Some(transport) => transport,
            None => return AudioAction::Transmit,
        };
        let generation = transport.generation;
        let encoded = transport.encoder.encrypt_next(payload, &mut self.packet);
        self.transport = Some(transport);
        match encoded {
            Ok(()) => {
                self.stage = Stage::Transmitting(purpose);
                AudioAction::Transmit
            },
            Err(TransportCryptoFailure::NonceExhausted) => {
                self.stage = Stage::Renewing(purpose);
                AudioAction::Renew { generation }
            },
            Err(_) => self.fails(
                audio_error(
                    ErrorKind::TransportCrypto,
                    Operation::StartAudio,
                    RetryDisposition::Fatal,
                    "transport encryption failed",
                ),
            ),
        }
    }

    fn admitted(&mut self, around: Surroundings, purpose: Purpose, len: usize, admitted: bool) -> (action: AudioAction)
        requires
            len <= old(self)@.frame.len(),
        ensures
            (final(self)@, action.value()) == old(self)@.admitted(around, purpose, len, admitted),
    {
        let has_dave = match &self.transport {
            Some(transport) if admitted => transport.has_dave,
            _ => {
                self.transport = None;
                return self.send_ends(around, purpose, false);
            },
        };
        if has_dave {
            self.stage = Stage::Encrypting(purpose);
            AudioAction::Encrypt { len }
        } else {
            let payload = copy_range(self.frame.as_slice(), 0, len);
            self.encodes(purpose, payload.as_slice())
        }
    }

    fn encrypted(&mut self, around: Surroundings, purpose: Purpose, report: EncryptReport) -> (action: AudioAction)
        ensures
            (final(self)@, action.value()) == old(self)@.encrypted(around, purpose, report.value()),
    {
        match report {
            EncryptReport::OwnerFailed(cause) => self.fails(
                media_error("DAVE media encryption owner failed", cause),
            ),
            EncryptReport::Failed(cause) => self.fails(
                media_error("DAVE media encryption failed", cause),
            ),
            EncryptReport::NotReady => self.send_ends(around, purpose, false),
            EncryptReport::Ready(payload) => {
                if self.transport.is_some() {
                    self.encodes(purpose, payload.as_slice())
                } else {
                    self.send_ends(around, purpose, false)
                }
            },
        }
    }

    fn transmitted(&mut self, around: Surroundings, purpose: Purpose, whole: bool, unix_ms: u64) -> (action: AudioAction)
        ensures
            (final(self)@, action.value()) == old(self)@.transmitted(around, purpose, whole, unix_ms),
    {
        if !whole {
            self.store.counters.stats.send_failures = increment(
                self.store.counters.stats.send_failures,
            );
            return self.fails(
                audio_error(
                    ErrorKind::SendIo,
                    Operation::StartAudio,
                    RetryDisposition::RetryingInternally,
                    "UDP audio send failed or timed out",
                ),
            );
        }
        self.staged = None;
        if let Some(previous) = self.last_packet {
            self.store.counters.observe_send_gap(around.now.saturating_sub(previous), unix_ms);
        }
        self.last_packet = Some(around.now);
        let silent = match purpose {
            Purpose::Silence(_) => true,
            _ => false,
        };
        if !silent {
            self.store.counters.stats.frames_sent = increment(self.store.counters.stats.frames_sent);
        }
        self.send_ends(around, purpose, true)
    }

    fn replaces(&mut self) -> (action: AudioAction)
        ensures
            (final(self)@, action.value()) == old(self)@.asked(Request::Replace),
    {
        proof {
            reveal(ExecState::asked);
        }
        match self.generation.next() {
            Some(generation) => {
                self.generation = generation;
                self.staged = None;
                self.source_ended = false;
                self.silence_sent = 0;
                self.store.replace_generation(generation);
                self.answer = Answer::Replaced { generation, wake: !self.active };
                self.settles()
            },
            None => {
                let error = audio_error(
                    ErrorKind::ResourceLimit,
                    Operation::ReplaceSource,
                    RetryDisposition::Fatal,
                    "audio source generation exhausted",
                );
                self.answer = Answer::Refused(error);
                self.fails(error)
            },
        }
    }

    fn stops(&mut self) -> (action: AudioAction)
        ensures
            (final(self)@, action.value()) == old(self)@.asked(Request::Stop),
    {
        proof {
            reveal(ExecState::asked);
        }
        if self.stopping {
            self.answer = Answer::Refused(
                audio_error(
                    ErrorKind::Overloaded,
                    Operation::StopAudio,
                    RetryDisposition::Fatal,
                    "audio stop is already in progress",
                ),
            );
            return self.settles();
        }
        match self.generation.next() {
            Some(generation) => {
                self.generation = generation;
                self.staged = None;
                self.store.invalidate_generation(generation);
                self.stopping = true;
                self.source_ended = true;
                self.answer = Answer::Stopping;
                if self.active {
                    self.settles()
                } else if self.speaking {
                    self.announces(false, Stage::StopQuieting)
                } else {
                    self.store.phase(AudioPhase::Stopped);
                    self.finishes()
                }
            },
            None => {
                let error = audio_error(
                    ErrorKind::ResourceLimit,
                    Operation::StopAudio,
                    RetryDisposition::Fatal,
                    "audio source generation exhausted during stop",
                );
                self.answer = Answer::Refused(error);
                self.fails(error)
            },
        }
    }

    fn asked(&mut self, request: Request) -> (action: AudioAction)
        ensures
            (final(self)@, action.value()) == old(self)@.asked(request),
    {
        match request {
            Request::Replace => self.replaces(),
            Request::Stop => self.stops(),
        }
    }

    fn installs(&mut self, around: Surroundings, update: InstalledTransport) -> (action: AudioAction)
        ensures
            (final(self)@, action.value()) == old(self)@.installs(around, update@),
    {
        self.pause();
        self.speaking = false;
        let waits = update.dave_protocol_version != 0 && !(update.has_dave && around.dave_ready);
        self.transport = Some(update);
        self.connection_was_ready = self.connection_ready(around);
        if waits {
            self.store.phase(AudioPhase::Starting);
            self.settles()
        } else {
            self.tries_start(around)
        }
    }

    fn changes(&mut self, around: Surroundings) -> (action: AudioAction)
        ensures
            (final(self)@, action.value()) == old(self)@.changes(around),
    {
        let ready = self.connection_ready(around);
        let became_ready = ready && !self.connection_was_ready;
        self.connection_was_ready = ready;
        if !ready {
            self.pause();
            let known = match &self.transport {
                Some(transport) => transport.generation.same(around.generation),
                None => false,
            };
            if !(around.phase == ConnectionPhase::Connected || around.phase
                == ConnectionPhase::EstablishingDave) || !known {
                self.speaking = false;
            }
            self.store.phase(AudioPhase::Starting);
            self.settles()
        } else if became_ready && !self.active {
            self.tries_start(around)
        } else {
            self.settles()
        }
    }

    fn timed(&mut self, around: Surroundings) -> (action: AudioAction)
        requires
            old(self)@.frame.len() >= SILENCE_BYTES,
        ensures
            (final(self)@, action.value()) == old(self)@.timed(around),
    {
        match self.pacer.next_deadline(around.now) {
            PacerStep::Closed => self.fails(pacer_error(PacerFailure::Closed)),
            PacerStep::Due(deadline) => self.ticks(around, deadline),
            _ => self.settles(),
        }
    }

    fn happens(&mut self, around: Surroundings, event: AudioEvent) -> (action: AudioAction)
        requires
            old(self)@.frame.len() >= SILENCE_BYTES,
        ensures
            (final(self)@, action.value()) == old(self)@.happens(around, event.value()),
    {
        proof {
            reveal(ExecState::happens);
        }
        match event {
            AudioEvent::Begin => {
                if self.active {
                    self.settles()
                } else {
                    self.connection_was_ready = self.connection_ready(around);
                    self.tries_start(around)
                }
            },
            AudioEvent::Cancelled | AudioEvent::Forsaken => self.finishes(),
            AudioEvent::Asked(request) => self.asked(request),
            AudioEvent::Transport(Some(update)) => self.installs(around, update),
            AudioEvent::Transport(None) => self.fails(
                audio_error(
                    ErrorKind::Shutdown,
                    Operation::StartAudio,
                    RetryDisposition::Shutdown,
                    "audio transport update channel closed",
                ),
            ),
            AudioEvent::Changed => self.changes(around),
            AudioEvent::DaveStopped => self.fails(
                media_error("DAVE readiness owner stopped", DaveFailure::Closed),
            ),
            AudioEvent::Timer => {
                if self.active {
                    self.timed(around)
                } else {
                    self.settles()
                }
            },
            AudioEvent::Woken(generation) => {
                if !self.active && self.generation.get() == generation {
                    self.tries_start(around)
                } else {
                    self.settles()
                }
            },
            _ => self.settles(),
        }
    }

    fn spoken(&mut self, around: Surroundings) -> (action: AudioAction)
        ensures
            (final(self)@, action.value()) == old(self)@.spoken(around),
    {
        proof {
            reveal(ExecState::spoken);
        }
        match self.stage {
            Stage::StartSpeaking(len) => {
                self.speaking = true;
                self.starts_speaking(around, len)
            },
            Stage::StartQuieting(request) => {
                self.speaking = false;
                self.asked(request)
            },
            Stage::DrainQuieting => {
                self.speaking = false;
                self.drained()
            },
            Stage::StopQuieting => {
                self.speaking = false;
                self.store.phase(AudioPhase::Stopped);
                self.finishes()
            },
            _ => AudioAction::Wait { timeline: self.active },
        }
    }

    /// Takes an event: the state moves on, and the result says what is to be done next.
    pub fn step(&mut self, around: Surroundings, event: AudioEvent) -> (action: AudioAction)
        requires
            old(self)@.sound(),
        ensures
            (final(self)@, action.value()) == old(self)@.step(around, event.value()),
            final(self)@.sound(),
    {
        proof {
            old(self)@.steps_keep_the_sender_sound(around, event.value());
        }
        match (self.stage, event) {
            (Stage::Waiting, event) => self.happens(around, event),
            (Stage::StartPolling, AudioEvent::Polled(report)) => match self.judge_poll(report) {
                Ok(polled) => self.start_polled(around, polled),
                Err(error) => self.fails(error),
            },
            (Stage::TickPolling(deadline), AudioEvent::Polled(report)) => match self.judge_poll(
                report,
            ) {
                Ok(polled) => self.tick_polled(deadline, polled),
                Err(error) => self.fails(error),
            },
            (
                Stage::StartSpeaking(_) | Stage::StartQuieting(_) | Stage::DrainQuieting
                | Stage::StopQuieting,
                AudioEvent::Spoken(result),
            ) => match result {
                Ok(()) => self.spoken(around),
                Err(error) => self.fails(error),
            },
            (Stage::StartLooking(len), AudioEvent::NoRequest) => self.sends(Purpose::Start, len),
            (Stage::StartLooking(_), AudioEvent::Asked(request)) => self.announces(
                false,
                Stage::StartQuieting(request),
            ),
            (Stage::Admitting(purpose, len), AudioEvent::Admitted(admitted)) => self.admitted(
                around,
                purpose,
                len,
                admitted,
            ),
            (Stage::Encrypting(purpose), AudioEvent::Encrypted(report)) => self.encrypted(
                around,
                purpose,
                report,
            ),
            (Stage::Transmitting(purpose), AudioEvent::Transmitted(whole, unix_ms)) => {
                self.transmitted(around, purpose, whole, unix_ms)
            },
            (Stage::Renewing(purpose), AudioEvent::Renewed(result)) => match result {
                Ok(()) => {
                    self.transport = None;
                    self.send_ends(around, purpose, false)
                },
                Err(error) => self.fails(error),
            },
            _ => AudioAction::Wait { timeline: self.active },
        }
    }

    /// Concludes a sender that is done: the durable state names the failure or the end,
    /// and the registration with the pacer ends. A failure with a DAVE cause gets the
    /// state of the owner.
    pub fn conclude(&mut self, failure: Option<Error>, context: Option<DaveContext>) -> (result:
        Result<AudioSnapshot, Error>)
        ensures
            ({
                let told = match failure {
                    Some(error) => Some(old(self)@.told(error@, context)),
                    None => None,
                };
                &&& final(self)@ == old(self)@.concluded(told)
                &&& match result {
                    Ok(snapshot) => {
                        &&& told is None
                        &&& snapshot == (AudioSnapshot {
                            stats: final(self)@.store.stats,
                            ..final(self)@.store.current
                        })
                    },
                    Err(error) => told == Some(error@),
                }
            }),
    {
        let has_dave = match &self.transport {
            Some(transport) => transport.has_dave,
            None => false,
        };
        let result = match failure {
            Some(error) => {
                let error = match context {
                    Some(context) if has_dave && error.dave_failure().is_some() =>
                        error.with_dave_context(context),
                    _ => error,
                };
                self.store.fail(&error);
                Err(error)
            },
            None => {
                if self.store.current.phase() != AudioPhase::Failed {
                    self.store.phase(AudioPhase::Stopped);
                }
                Ok(self.store.snapshot())
            },
        };
        self.pacer.unregister();
        result
    }
}

/// Creates the failure of media encryption, with its cause.
fn media_error(message: &'static str, cause: DaveFailure) -> (error: Error)
    ensures
        error@ == media_failure(message@, cause),
{
    audio_error(
        ErrorKind::DaveTransition,
        Operation::StartAudio,
        RetryDisposition::Fatal,
        message,
    ).with_source(ErrorSource::Dave(cause))
}

} // verus!
