//! The state of a connection that outlives a WebSocket, and what the control loop
//! decides between sessions.
use vstd::prelude::*;

use crate::connection::{StateStore, StoreState};
use crate::error::{Error, ErrorSource, Operation};
use crate::gateway::backoff::{backoff_delay, MAX_RECONNECT_ATTEMPTS};
use crate::gateway::failure::{
    attached_error, clean_close_error, dave_required_error, encoder_attached_error, endpoint_error,
    fresh_attach_error, fresh_audio_error, fresh_ping_error, generation_exhausted_error,
    heartbeat_budget_error, resume_budget_error, retrying_error, shutdown_error, Attempt,
};
use crate::gateway::info::ValidatedInfo;
use crate::gateway::payload::SequenceNumber;
use crate::model::{CloseReason, ConnectInfo, ConnectionGeneration, ConnectionPhase};
use crate::rtp::TransportMode;
use crate::transport::{EncoderState, TransportEncoder};

verus! {

/// The UDP transport of a connection. The socket is known by a number.
pub struct TransportSlot {
    pub socket: u64,
    pub ssrc: u32,
    pub selected_mode: TransportMode,
    pub encoder: Option<TransportEncoder>,
    pub dave_protocol_version: u16,
    pub has_dave: bool,
    pub session_ready: bool,
}

/// The mathematical form of a [`TransportSlot`].
pub ghost struct SlotState {
    pub socket: u64,
    pub ssrc: u32,
    pub selected_mode: TransportMode,
    pub encoder: Option<EncoderState>,
    pub dave_protocol_version: u16,
    pub has_dave: bool,
    pub session_ready: bool,
}

/// The value of an optional encoder.
pub open spec fn encoder_value(encoder: Option<TransportEncoder>) -> Option<EncoderState> {
    match encoder {
        Some(encoder) => Some(encoder@),
        None => None,
    }
}

impl View for TransportSlot {
    type V = SlotState;

    open spec fn view(&self) -> SlotState {
        SlotState {
            socket: self.socket,
            ssrc: self.ssrc,
            selected_mode: self.selected_mode,
            encoder: encoder_value(self.encoder),
            dave_protocol_version: self.dave_protocol_version,
            has_dave: self.has_dave,
            session_ready: self.session_ready,
        }
    }
}

/// The value of an optional transport.
pub open spec fn slot_value(slot: Option<TransportSlot>) -> Option<SlotState> {
    match slot {
        Some(slot) => Some(slot@),
        None => None,
    }
}

/// A transport as the audio sender gets it.
pub struct InstalledTransport {
    pub generation: ConnectionGeneration,
    pub socket: u64,
    pub encoder: TransportEncoder,
    pub dave_protocol_version: u16,
    pub has_dave: bool,
}

/// The mathematical form of an [`InstalledTransport`].
pub ghost struct InstalledState {
    pub generation: ConnectionGeneration,
    pub socket: u64,
    pub encoder: EncoderState,
    pub dave_protocol_version: u16,
    pub has_dave: bool,
}

impl View for InstalledTransport {
    type V = InstalledState;

    open spec fn view(&self) -> InstalledState {
        InstalledState {
            generation: self.generation,
            socket: self.socket,
            encoder: self.encoder@,
            dave_protocol_version: self.dave_protocol_version,
            has_dave: self.has_dave,
        }
    }
}

/// The answer that the caller who connects waits for. It is given once.
pub enum InitialReply {
    /// The caller waits.
    Waiting,
    /// The answer is to be handed over.
    Ready(Result<(), Error>),
    /// The answer was handed over.
    Sent,
}

/// The mathematical form of an [`InitialReply`].
pub ghost enum InitialValue {
    Waiting,
    Ready(Result<(), crate::error::ErrorView>),
    Sent,
}

impl InitialReply {
    /// The reply as a mathematical value.
    pub open spec fn value(self) -> InitialValue {
        match self {
            InitialReply::Waiting => InitialValue::Waiting,
            InitialReply::Ready(Ok(())) => InitialValue::Ready(Ok(())),
            InitialReply::Ready(Err(error)) => InitialValue::Ready(Err(error@)),
            InitialReply::Sent => InitialValue::Sent,
        }
    }
}

/// What outlives a WebSocket.
pub struct Link {
    pub info: ValidatedInfo,
    pub attempt: Attempt,
    pub latest_sequence: Option<SequenceNumber>,
    pub heartbeat_nonce: u64,
    pub reconnect_attempts: u8,
    pub transport: Option<TransportSlot>,
    pub attachment: Option<u64>,
    pub dave: bool,
    pub dave_roster: Vec<u64>,
    pub store: StateStore,
    pub initial: InitialReply,
}

/// The mathematical form of a [`Link`].
pub ghost struct LinkState {
    pub info: ConnectInfo,
    pub attempt: Attempt,
    /// The sequence number that a resume would acknowledge.
    pub latest_sequence: Option<SequenceNumber>,
    /// The number of the latest heartbeat.
    pub heartbeat_nonce: u64,
    /// How many attempts in a row failed.
    pub reconnect_attempts: u8,
    pub transport: Option<SlotState>,
    /// The audio sender in force.
    pub attachment: Option<u64>,
    /// Whether a DAVE owner runs.
    pub dave: bool,
    pub dave_roster: Seq<u64>,
    pub store: StoreState,
    pub initial: InitialValue,
}

impl View for Link {
    type V = LinkState;

    open spec fn view(&self) -> LinkState {
        LinkState {
            info: self.info@,
            attempt: self.attempt,
            latest_sequence: self.latest_sequence,
            heartbeat_nonce: self.heartbeat_nonce,
            reconnect_attempts: self.reconnect_attempts,
            transport: slot_value(self.transport),
            attachment: self.attachment,
            dave: self.dave,
            dave_roster: self.dave_roster@,
            store: self.store@,
            initial: self.initial.value(),
        }
    }
}

/// What happens after a session or a failed attempt.
pub enum Continuation {
    /// Attempt again at once.
    Retry,
    /// Attempt again after this many milliseconds.
    Backoff(u64),
    /// Wait for fresh voice information.
    AwaitReplacement,
    /// The connection is over.
    Finished,
}

/// How a session ended.
pub enum SessionOutcome {
    Resume,
    FreshIdentify,
    Replace(ValidatedInfo),
    NeedsFresh(Error),
    Fatal(Error),
    CleanRemote,
    Shutdown,
}

/// The mathematical form of a [`SessionOutcome`].
pub ghost enum OutcomeValue {
    Resume,
    FreshIdentify,
    Replace(ConnectInfo),
    NeedsFresh(crate::error::ErrorView),
    Fatal(crate::error::ErrorView),
    CleanRemote,
    Shutdown,
}

impl SessionOutcome {
    /// The outcome as a mathematical value.
    pub open spec fn value(self) -> OutcomeValue {
        match self {
            SessionOutcome::Resume => OutcomeValue::Resume,
            SessionOutcome::FreshIdentify => OutcomeValue::FreshIdentify,
            SessionOutcome::Replace(info) => OutcomeValue::Replace(info@),
            SessionOutcome::NeedsFresh(error) => OutcomeValue::NeedsFresh(error@),
            SessionOutcome::Fatal(error) => OutcomeValue::Fatal(error@),
            SessionOutcome::CleanRemote => OutcomeValue::CleanRemote,
            SessionOutcome::Shutdown => OutcomeValue::Shutdown,
        }
    }
}

/// A command that comes while no session runs and asks for nothing but an answer.
#[derive(Clone, Copy, Debug, PartialEq, Eq, Structural)]
pub enum IdleCommand {
    Ping,
    AttachAudio,
    Speaking,
    RenewTransport,
}

impl LinkState {
    /// The generation of the connection.
    pub open spec fn generation(self) -> ConnectionGeneration {
        self.store.current.generation
    }

    /// The caller who connects gets an answer, unless it has one.
    pub open spec fn answered(self, reply: Result<(), crate::error::ErrorView>) -> LinkState {
        if self.initial is Waiting {
            LinkState { initial: InitialValue::Ready(reply), ..self }
        } else {
            self
        }
    }

    /// Another durable state.
    pub open spec fn stored(self, store: StoreState) -> LinkState {
        LinkState { store, ..self }
    }

    /// Everything that belongs to the session is forgotten.
    pub open spec fn forgotten(self) -> LinkState {
        LinkState {
            latest_sequence: None,
            transport: None,
            dave: false,
            dave_roster: Seq::empty(),
            ..self
        }
    }

    /// Fresh voice information starts over with a full budget.
    pub open spec fn replaced(self, info: ConnectInfo) -> LinkState {
        LinkState { info, reconnect_attempts: 0, attempt: Attempt::Identify, ..self.forgotten() }
    }

    /// An attempt begins.
    pub open spec fn attempt_begun(self) -> LinkState {
        self.stored(
            match self.attempt {
                Attempt::Identify => if self.reconnect_attempts == 0 {
                    self.store.phase_to(ConnectionPhase::Connecting)
                } else {
                    self.store.reconnecting()
                },
                Attempt::Resume => self.store.resume_started(),
            },
        )
    }

    /// One more attempt failed.
    pub open spec fn attempt_failed(self) -> LinkState {
        LinkState {
            reconnect_attempts: if self.reconnect_attempts == u8::MAX {
                u8::MAX
            } else {
                (self.reconnect_attempts + 1) as u8
            },
            ..self
        }
    }

    /// Whether the budget of attempts is used up.
    pub open spec fn exhausted(self) -> bool {
        self.reconnect_attempts > MAX_RECONNECT_ATTEMPTS
    }

    /// The connection fails for good.
    pub open spec fn terminated(self, error: crate::error::ErrorView) -> LinkState {
        self.stored(self.store.fail(error, ConnectionPhase::Failed)).answered(Err(error))
    }

    /// The connection is shut down, unless it is over already.
    pub open spec fn shut_down(self) -> LinkState {
        let told = self.answered(
            Err(crate::gateway::failure::shutdown_failure(self.generation())),
        );
        if told.store.current.phase == ConnectionPhase::Closed || told.store.current.phase
            == ConnectionPhase::Failed {
            told
        } else {
            told.stored(
                told.store.phase_to(ConnectionPhase::Closing).close(CloseReason::ExplicitShutdown),
            )
        }
    }

    /// What a failed connection attempt leads to.
    pub open spec fn connect_failed(self, error: crate::error::ErrorView) -> LinkState {
        let counted = self.attempt_failed();
        if counted.exhausted() {
            counted.terminated(error)
        } else {
            LinkState {
                attempt: if self.latest_sequence is Some {
                    Attempt::Resume
                } else {
                    Attempt::Identify
                },
                ..counted
            }
        }
    }

    /// What the end of a session leads to.
    pub open spec fn session_ended(self, outcome: OutcomeValue) -> LinkState {
        match outcome {
            OutcomeValue::Resume => {
                let counted = self.attempt_failed();
                if counted.exhausted() {
                    counted.terminated(
                        crate::gateway::failure::heartbeat_budget_failure(self.generation()),
                    )
                } else if self.latest_sequence is Some && self.transport is Some {
                    LinkState { attempt: Attempt::Resume, ..counted }
                } else {
                    LinkState { attempt: Attempt::Identify, ..counted.forgotten() }
                }
            },
            OutcomeValue::FreshIdentify => {
                let counted = self.forgotten().attempt_failed();
                if counted.exhausted() {
                    counted.terminated(
                        crate::gateway::failure::resume_budget_failure(self.generation()),
                    )
                } else {
                    LinkState { attempt: Attempt::Identify, ..counted }
                }
            },
            OutcomeValue::Replace(info) => self.replaced(info),
            OutcomeValue::NeedsFresh(error) => self.stored(
                self.store.fail(error, ConnectionPhase::NeedsFreshVoiceInfo),
            ).answered(Err(error)),
            OutcomeValue::Fatal(error) => self.terminated(error),
            OutcomeValue::CleanRemote => {
                let told = self.answered(
                    Err(crate::gateway::failure::clean_close_failure(self.generation())),
                );
                told.stored(told.store.close(CloseReason::CleanRemote))
            },
            OutcomeValue::Shutdown => self.shut_down(),
        }
    }

    /// How the control loop goes on after a session.
    pub open spec fn continues(self, outcome: OutcomeValue, continuation: Continuation) -> bool {
        match outcome {
            OutcomeValue::Resume | OutcomeValue::FreshIdentify => {
                let counted = self.attempt_failed();
                if counted.exhausted() {
                    continuation is Finished
                } else {
                    continuation matches Continuation::Backoff(millis) && millis
                        == crate::gateway::backoff::delay_millis(
                        counted.reconnect_attempts,
                        self.info,
                    )
                }
            },
            OutcomeValue::Replace(_) => continuation is Retry,
            OutcomeValue::NeedsFresh(_) => continuation is AwaitReplacement,
            _ => continuation is Finished,
        }
    }

    /// How the control loop goes on after an attempt that did not reach the gateway.
    pub open spec fn connect_continues(self, timed_out: bool, continuation: Continuation) -> bool {
        let counted = self.attempt_failed();
        if counted.exhausted() {
            continuation is Finished
        } else if timed_out {
            continuation is Retry
        } else {
            continuation matches Continuation::Backoff(millis) && millis
                == crate::gateway::backoff::delay_millis(counted.reconnect_attempts, self.info)
        }
    }

    /// The failure of an attempt that did not reach the gateway.
    pub open spec fn connect_failure(self, timed_out: bool) -> crate::error::ErrorView {
        let plain = crate::gateway::failure::endpoint_failure(self.generation());
        if timed_out {
            plain
        } else {
            crate::error::ErrorView { source: Some(ErrorSource::Foreign), ..plain }
        }
    }

    /// Whether the transport carries media.
    pub open spec fn transport_ready(self) -> bool {
        self.transport matches Some(slot) && slot.session_ready
    }

    /// Why an audio sender cannot be attached, the sender in force being gone or not
    /// and the DAVE owner being ready or not.
    pub open spec fn attach_failure(self, sender_gone: bool, dave_ready: bool) -> Option<
        crate::error::ErrorView,
    > {
        let generation = self.generation();
        if self.attachment is Some && !sender_gone {
            Some(crate::gateway::failure::attached_failure(generation))
        } else if !self.transport_ready() {
            Some(crate::gateway::failure::retrying_failure(Operation::StartAudio, generation))
        } else if self.transport->0.dave_protocol_version != 0 && !(self.transport->0.has_dave
            && dave_ready) {
            Some(crate::gateway::failure::dave_required_failure(generation))
        } else if self.transport->0.encoder is None {
            Some(crate::gateway::failure::encoder_attached_failure(generation))
        } else {
            None
        }
    }

    /// An attachment that is not in force any more.
    pub open spec fn unattached(self) -> LinkState {
        LinkState { attachment: None, ..self }
    }

    /// The transport with another encoder.
    pub open spec fn with_encoder(self, encoder: Option<EncoderState>) -> LinkState {
        LinkState { transport: Some(SlotState { encoder, ..self.transport->0 }), ..self }
    }

    /// An audio sender gives its transport back.
    pub open spec fn detached(self, audio_id: u64, returned: InstalledState) -> LinkState {
        if self.attachment != Some(audio_id) {
            self
        } else if self.transport is None {
            self.unattached()
        } else if returned.generation == self.generation() && self.transport->0.session_ready
            && self.transport->0.encoder is None && self.transport->0.socket == returned.socket {
            self.unattached().with_encoder(Some(returned.encoder))
        } else {
            self.unattached()
        }
    }

    /// Fresh voice information is admitted under the next generation; `None` where
    /// there is no next one, which ends the connection.
    pub open spec fn replacement_admitted(
        self,
        next: Option<ConnectionGeneration>,
    ) -> LinkState {
        match next {
            Some(generation) => self.stored(self.store.replace_generation(generation)),
            None => self.stored(
                self.store.fail(
                    crate::gateway::failure::generation_exhausted_failure(self.generation()),
                    ConnectionPhase::Failed,
                ),
            ),
        }
    }
}

/// The answer to a command while the gateway is being reached.
pub open spec fn idle_answer(
    command: IdleCommand,
    generation: ConnectionGeneration,
) -> crate::error::ErrorView {
    match command {
        IdleCommand::Ping => crate::gateway::failure::retrying_failure(Operation::Ping, generation),
        _ => crate::gateway::failure::retrying_failure(Operation::StartAudio, generation),
    }
}

/// The answer to a command while fresh voice information is awaited.
pub open spec fn awaiting_answer(
    command: IdleCommand,
    generation: ConnectionGeneration,
) -> crate::error::ErrorView {
    match command {
        IdleCommand::Ping => crate::gateway::failure::fresh_ping_failure(generation),
        IdleCommand::AttachAudio => crate::gateway::failure::fresh_attach_failure(generation),
        _ => crate::gateway::failure::fresh_audio_failure(generation),
    }
}

impl Link {
    /// Creates the state of a new connection.
    pub fn new(info: ValidatedInfo) -> (link: Self)
        ensures
            link@.info == info@,
            link@.attempt == Attempt::Identify,
            link@.latest_sequence is None,
            link@.heartbeat_nonce == 0,
            link@.reconnect_attempts == 0,
            link@.transport is None,
            link@.attachment is None,
            !link@.dave,
            link@.dave_roster == Seq::<u64>::empty(),
            link@.initial is Waiting,
            link@.generation().number() == 1,
            link@.store.current.phase == ConnectionPhase::Connecting,
            link@.store.events.len() == 0,
    {
        Link {
            info,
            attempt: Attempt::Identify,
            latest_sequence: None,
            heartbeat_nonce: 0,
            reconnect_attempts: 0,
            transport: None,
            attachment: None,
            dave: false,
            dave_roster: Vec::new(),
            store: StateStore::new(),
            initial: InitialReply::Waiting,
        }
    }

    /// Answers the caller who connects, unless it has an answer.
    pub fn answer_initial(&mut self, reply: Result<(), Error>)
        ensures
            final(self)@ == old(self)@.answered(
                match reply {
                    Ok(()) => Ok(()),
                    Err(error) => Err(error@),
                },
            ),
    {
        if let InitialReply::Waiting = self.initial {
            self.initial = InitialReply::Ready(reply);
        }
    }

    /// Takes the answer to hand over, once.
    pub fn take_initial(&mut self) -> (reply: Option<Result<(), Error>>)
        ensures
            match old(self)@.initial {
                InitialValue::Ready(value) => {
                    &&& final(self)@ == (LinkState { initial: InitialValue::Sent, ..old(self)@ })
                    &&& match value {
                        Ok(()) => reply matches Some(Ok(())),
                        Err(failure) => reply matches Some(Err(error)) && error@ == failure,
                    }
                },
                _ => reply is None && final(self)@ == old(self)@,
            },
    {
        let reply = match self.initial {
            InitialReply::Ready(reply) => reply,
            _ => return None,
        };
        self.initial = InitialReply::Sent;
        Some(reply)
    }

    /// Begins an attempt.
    pub fn begin_attempt(&mut self)
        ensures
            final(self)@ == old(self)@.attempt_begun(),
    {
        match self.attempt {
            Attempt::Identify => {
                if self.reconnect_attempts == 0 {
                    self.store.phase_to(ConnectionPhase::Connecting)
                } else {
                    self.store.reconnecting()
                }
            },
            Attempt::Resume => self.store.resume_started(),
        }
    }

    /// Fails the connection for good.
    pub fn terminal(&mut self, error: Error)
        ensures
            final(self)@ == old(self)@.terminated(error@),
    {
        self.store.fail(&error, ConnectionPhase::Failed);
        self.answer_initial(Err(error));
    }

    /// Shuts the connection down, unless it is over already.
    pub fn finish_shutdown(&mut self)
        ensures
            final(self)@ == old(self)@.shut_down(),
    {
        self.answer_initial(Err(shutdown_error(self.store.generation())));
        if self.store.phase() != ConnectionPhase::Closed && self.store.phase()
            != ConnectionPhase::Failed {
            self.store.phase_to(ConnectionPhase::Closing);
            self.store.close(CloseReason::ExplicitShutdown);
        }
    }

    fn count_attempt(&mut self)
        ensures
            final(self)@ == old(self)@.attempt_failed(),
    {
        self.reconnect_attempts = self.reconnect_attempts.saturating_add(1);
    }

    fn forget_session(&mut self)
        ensures
            final(self)@ == old(self)@.forgotten(),
    {
        self.latest_sequence = None;
        self.transport = None;
        self.dave = false;
        self.dave_roster = Vec::new();
        assert(self@.dave_roster =~= Seq::<u64>::empty());
    }

    /// Decides after an attempt that did not reach the gateway. A rejected attempt is
    /// followed by a delay, one that timed out is not.
    pub fn connect_failed(&mut self, timed_out: bool) -> (continuation: Continuation)
        ensures
            final(self)@ == old(self)@.connect_failed(old(self)@.connect_failure(timed_out)),
            old(self)@.connect_continues(timed_out, continuation),
    {
        let plain = endpoint_error(self.store.generation());
        let error = if timed_out {
            plain
        } else {
            plain.with_source(ErrorSource::Foreign)
        };
        self.count_attempt();
        if self.reconnect_attempts > MAX_RECONNECT_ATTEMPTS {
            self.terminal(error);
            return Continuation::Finished;
        }
        self.attempt = if self.latest_sequence.is_some() {
            Attempt::Resume
        } else {
            Attempt::Identify
        };
        if timed_out {
            Continuation::Retry
        } else {
            Continuation::Backoff(backoff_delay(self.reconnect_attempts, self.info.info()))
        }
    }

    /// Decides after a session.
    pub fn session_ended(&mut self, outcome: SessionOutcome) -> (continuation: Continuation)
        ensures
            final(self)@ == old(self)@.session_ended(outcome.value()),
            old(self)@.continues(outcome.value(), continuation),
    {
        match outcome {
            SessionOutcome::Resume => {
                self.count_attempt();
                if self.reconnect_attempts > MAX_RECONNECT_ATTEMPTS {
                    self.terminal(heartbeat_budget_error(self.store.generation()));
                    return Continuation::Finished;
                }
                if self.latest_sequence.is_some() && self.transport.is_some() {
                    self.attempt = Attempt::Resume;
                } else {
                    self.forget_session();
                    self.attempt = Attempt::Identify;
                }
                Continuation::Backoff(backoff_delay(self.reconnect_attempts, self.info.info()))
            },
            SessionOutcome::FreshIdentify => {
                self.forget_session();
                self.count_attempt();
                if self.reconnect_attempts > MAX_RECONNECT_ATTEMPTS {
                    self.terminal(resume_budget_error(self.store.generation()));
                    return Continuation::Finished;
                }
                self.attempt = Attempt::Identify;
                Continuation::Backoff(backoff_delay(self.reconnect_attempts, self.info.info()))
            },
            SessionOutcome::Replace(info) => {
                self.replace_info(info);
                Continuation::Retry
            },
            SessionOutcome::NeedsFresh(error) => {
                self.store.fail(&error, ConnectionPhase::NeedsFreshVoiceInfo);
                self.answer_initial(Err(error));
                Continuation::AwaitReplacement
            },
            SessionOutcome::Fatal(error) => {
                self.terminal(error);
                Continuation::Finished
            },
            SessionOutcome::CleanRemote => {
                self.answer_initial(Err(clean_close_error(self.store.generation())));
                self.store.close(CloseReason::CleanRemote);
                Continuation::Finished
            },
            SessionOutcome::Shutdown => {
                self.finish_shutdown();
                Continuation::Finished
            },
        }
    }

    /// Starts over with fresh voice information.
    pub fn replace_info(&mut self, info: ValidatedInfo)
        ensures
            final(self)@ == old(self)@.replaced(info@),
    {
        self.forget_session();
        self.info = info;
        self.reconnect_attempts = 0;
        self.attempt = Attempt::Identify;
    }

    /// Admits fresh voice information under the next generation, once the old
    /// transport admits no more sends. Without a next generation the connection fails.
    pub fn admit_replacement(&mut self) -> (generation: Result<ConnectionGeneration, Error>)
        ensures
            match generation {
                Ok(next) => {
                    &&& next.number() == old(self)@.generation().number() + 1 <= u64::MAX
                    &&& final(self)@ == old(self)@.replacement_admitted(Some(next))
                },
                Err(error) => {
                    &&& old(self)@.generation().number() == u64::MAX
                    &&& error@ == crate::gateway::failure::generation_exhausted_failure(
                        old(self)@.generation(),
                    )
                    &&& final(self)@ == old(self)@.replacement_admitted(None)
                },
            },
    {
        match self.store.generation().next() {
            Some(generation) => {
                self.store.replace_generation(generation);
                Ok(generation)
            },
            None => {
                let error = generation_exhausted_error(self.store.generation());
                self.store.fail(&error, ConnectionPhase::Failed);
                Err(error)
            },
        }
    }

    /// Answers a command while the gateway is being reached.
    pub fn answer_idle(&self, command: IdleCommand) -> (error: Error)
        ensures
            error@ == idle_answer(command, self@.generation()),
    {
        match command {
            IdleCommand::Ping => retrying_error(Operation::Ping, self.store.generation()),
            _ => retrying_error(Operation::StartAudio, self.store.generation()),
        }
    }

    /// Answers a command while fresh voice information is awaited.
    pub fn answer_awaiting(&self, command: IdleCommand) -> (error: Error)
        ensures
            error@ == awaiting_answer(command, self@.generation()),
    {
        match command {
            IdleCommand::Ping => fresh_ping_error(self.store.generation()),
            IdleCommand::AttachAudio => fresh_attach_error(self.store.generation()),
            _ => fresh_audio_error(self.store.generation()),
        }
    }

    /// Hands the encoder of the transport to an audio sender.
    pub fn attach_audio(&mut self, sender_gone: bool, dave_ready: bool) -> (installed: Result<
        InstalledTransport,
        Error,
    >)
        ensures
            match installed {
                Ok(installed) => {
                    let slot = old(self)@.transport->0;
                    &&& old(self)@.attach_failure(sender_gone, dave_ready) is None
                    &&& installed@ == (InstalledState {
                        generation: old(self)@.generation(),
                        socket: slot.socket,
                        encoder: slot.encoder->0,
                        dave_protocol_version: slot.dave_protocol_version,
                        has_dave: slot.has_dave,
                    })
                    &&& final(self)@ == old(self)@.unattached().with_encoder(None)
                },
                Err(error) => {
                    &&& old(self)@.attach_failure(sender_gone, dave_ready) == Some(error@)
                    &&& final(self)@ == (if old(self)@.attachment is Some && !sender_gone {
                        old(self)@
                    } else {
                        old(self)@.unattached()
                    })
                },
            },
    {
        let generation = self.store.generation();
        if self.attachment.is_some() && !sender_gone {
            return Err(attached_error(generation));
        }
        self.attachment = None;
        let mut slot = match self.transport.take() {
            Some(slot) => slot,
            None => return Err(retrying_error(Operation::StartAudio, generation)),
        };
        let result = if !slot.session_ready {
            Err(retrying_error(Operation::StartAudio, generation))
        } else if slot.dave_protocol_version != 0 && !(slot.has_dave && dave_ready) {
            Err(dave_required_error(generation))
        } else {
            match slot.encoder.take() {
                Some(encoder) => Ok(
                    InstalledTransport {
                        generation,
                        socket: slot.socket,
                        encoder,
                        dave_protocol_version: slot.dave_protocol_version,
                        has_dave: slot.has_dave,
                    },
                ),
                None => Err(encoder_attached_error(generation)),
            }
        };
        self.transport = Some(slot);
        result
    }

    /// Records that the audio sender took its transport.
    pub fn attached(&mut self, audio_id: u64)
        ensures
            final(self)@ == (LinkState { attachment: Some(audio_id), ..old(self)@ }),
    {
        self.attachment = Some(audio_id);
    }

    /// Takes back the encoder that an audio sender did not take.
    pub fn attach_refused(&mut self, encoder: TransportEncoder)
        ensures
            final(self)@ == (if old(self)@.transport is Some {
                old(self)@.with_encoder(Some(encoder@))
            } else {
                old(self)@
            }),
    {
        if let Some(slot) = self.transport.take() {
            self.transport = Some(TransportSlot { encoder: Some(encoder), ..slot });
        }
    }

    /// Takes back the transport of an audio sender. The encoder is kept only where it
    /// belongs to the transport in force.
    pub fn detach_audio(&mut self, audio_id: u64, returned: InstalledTransport)
        ensures
            final(self)@ == old(self)@.detached(audio_id, returned@),
    {
        let current = match self.attachment {
            Some(current) => current == audio_id,
            None => false,
        };
        if !current {
            return;
        }
        self.attachment = None;
        let generation = self.store.generation();
        if let Some(slot) = self.transport.take() {
            if returned.generation.same(generation) && slot.session_ready && slot.encoder.is_none()
                && slot.socket == returned.socket {
                self.transport = Some(
                    TransportSlot { encoder: Some(returned.encoder), ..slot },
                );
            } else {
                self.transport = Some(slot);
            }
        }
    }
}

} // verus!
