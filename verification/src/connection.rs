//! Durable connection state, event admission and audio admission.
use vstd::prelude::*;

use crate::audio::failure::pacer_error;
use crate::error::{Error, ErrorKind, Operation, RetryDisposition};
use crate::model::{
    CloseReason, ConnectionEvent, ConnectionGeneration, ConnectionPhase, ConnectionSnapshot,
    FailureSnapshot,
};
use crate::pacer::PacerFailure;

verus! {

/// The durable state of a connection together with the events that are still to be
/// published, in order.
pub struct StateStore {
    pub current: ConnectionSnapshot,
    pub events: Vec<ConnectionEvent>,
}

/// The mathematical form of a [`StateStore`].
pub ghost struct StoreState {
    pub current: ConnectionSnapshot,
    pub events: Seq<ConnectionEvent>,
}

impl View for StateStore {
    type V = StoreState;

    open spec fn view(&self) -> StoreState {
        StoreState { current: self.current, events: self.events@ }
    }
}

/// The event for entering a phase.
pub open spec fn state_changed(current: ConnectionSnapshot) -> ConnectionEvent {
    ConnectionEvent::StateChanged { generation: current.generation, phase: current.phase }
}

impl StoreState {
    /// The state after an event was added.
    pub open spec fn publish(self, event: ConnectionEvent) -> StoreState {
        StoreState { events: self.events.push(event), ..self }
    }

    /// The state with other durable contents.
    pub open spec fn with_current(self, current: ConnectionSnapshot) -> StoreState {
        StoreState { current, ..self }
    }

    /// Entering a phase; nothing happens in the phase that is current.
    pub open spec fn phase_to(self, phase: ConnectionPhase) -> StoreState {
        if self.current.phase == phase {
            self
        } else {
            let current = ConnectionSnapshot { phase, ..self.current };
            self.with_current(current).publish(state_changed(current))
        }
    }

    /// Replacing the generation.
    pub open spec fn replace_generation(self, generation: ConnectionGeneration) -> StoreState {
        let current = ConnectionSnapshot {
            phase: ConnectionPhase::Connecting,
            ..self.current.with_generation(generation)
        };
        self.with_current(current).publish(
            ConnectionEvent::VoiceInfoReplaced { old: self.current.generation, new: generation },
        ).publish(state_changed(current))
    }

    /// Starting a buffered resume.
    pub open spec fn resume_started(self) -> StoreState {
        let current = ConnectionSnapshot {
            phase: ConnectionPhase::Resuming,
            stats: crate::model::ConnectionStats {
                resume_attempts: crate::model::counted(self.current.stats.resume_attempts),
                ..self.current.stats
            },
            ..self.current
        };
        self.with_current(current).publish(
            ConnectionEvent::ResumeStarted { generation: current.generation },
        ).publish(state_changed(current))
    }

    /// A buffered resume that led to a phase.
    pub open spec fn resume_succeeded(self, phase: ConnectionPhase) -> StoreState {
        let current = ConnectionSnapshot {
            phase,
            stats: crate::model::ConnectionStats {
                resume_successes: crate::model::counted(self.current.stats.resume_successes),
                ..self.current.stats
            },
            ..self.current
        };
        self.with_current(current).publish(
            ConnectionEvent::ResumeSucceeded { generation: current.generation },
        ).publish(state_changed(current))
    }

    /// A fresh identification after a failure.
    pub open spec fn reconnecting(self) -> StoreState {
        let current = ConnectionSnapshot {
            stats: crate::model::ConnectionStats {
                reconnect_attempts: crate::model::counted(self.current.stats.reconnect_attempts),
                ..self.current.stats
            },
            ..self.current
        };
        self.with_current(current).phase_to(ConnectionPhase::Reconnecting)
    }

    /// A heartbeat timeout.
    pub open spec fn heartbeat_timeout(self) -> StoreState {
        self.with_current(
            ConnectionSnapshot {
                stats: crate::model::ConnectionStats {
                    heartbeat_timeouts: crate::model::counted(
                        self.current.stats.heartbeat_timeouts,
                    ),
                    ..self.current.stats
                },
                ..self.current
            },
        )
    }

    /// A message with an unknown opcode.
    pub open spec fn unknown_opcode(self) -> StoreState {
        self.with_current(
            ConnectionSnapshot {
                stats: crate::model::ConnectionStats {
                    unknown_opcodes: crate::model::counted(self.current.stats.unknown_opcodes),
                    ..self.current.stats
                },
                ..self.current
            },
        )
    }

    /// Discarded datagrams.
    pub open spec fn discarded_udp_datagrams(self, count: u64) -> StoreState {
        self.with_current(
            ConnectionSnapshot {
                stats: crate::model::ConnectionStats {
                    discarded_udp_datagrams: if self.current.stats.discarded_udp_datagrams + count
                        > u64::MAX {
                        u64::MAX
                    } else {
                        (self.current.stats.discarded_udp_datagrams + count) as u64
                    },
                    ..self.current.stats
                },
                ..self.current
            },
        )
    }

    /// A heartbeat round trip.
    pub open spec fn rtt(self, rtt: u64) -> StoreState {
        self.with_current(ConnectionSnapshot { gateway_rtt: Some(rtt), ..self.current })
    }

    /// A failure that leads to a phase.
    pub open spec fn fail(self, error: crate::error::ErrorView, phase: ConnectionPhase) -> StoreState {
        let failure = FailureSnapshot::of(error, self.current.generation);
        let current = ConnectionSnapshot {
            failure: Some(failure),
            phase,
            close_reason: if phase == ConnectionPhase::Failed {
                Some(CloseReason::TerminalFailure)
            } else {
                self.current.close_reason
            },
            ..self.current
        };
        self.with_current(current).publish(ConnectionEvent::Failure(failure)).publish(
            state_changed(current),
        )
    }

    /// The end of the connection.
    pub open spec fn close(self, reason: CloseReason) -> StoreState {
        let current = ConnectionSnapshot {
            close_reason: Some(reason),
            phase: ConnectionPhase::Closed,
            ..self.current
        };
        self.with_current(current).publish(ConnectionEvent::Closed(reason)).publish(
            state_changed(current),
        )
    }
}

impl StateStore {
    /// Creates the store of a new connection.
    pub fn new() -> (store: Self)
        ensures
            store@.current.generation.number() == 1,
            store@.current.phase == ConnectionPhase::Connecting,
            store@.current.failure is None,
            store@.current.close_reason is None,
            store@.current.gateway_rtt is None,
            store@.current.stats == crate::model::ConnectionStats::zero(),
            store@.events == Seq::<ConnectionEvent>::empty(),
    {
        StateStore { current: ConnectionSnapshot::initial(), events: Vec::new() }
    }

    /// Takes the events that are still to be published.
    pub fn take_events(&mut self) -> (events: Vec<ConnectionEvent>)
        ensures
            events@ == old(self)@.events,
            final(self)@ == (StoreState { events: Seq::empty(), ..old(self)@ }),
    {
        let mut events: Vec<ConnectionEvent> = Vec::new();
        events.append(&mut self.events);
        assert(events@ =~= old(self)@.events);
        events
    }

    /// Returns the current generation.
    pub fn generation(&self) -> (generation: ConnectionGeneration)
        ensures
            generation == self@.current.generation,
    {
        self.current.generation()
    }

    /// Returns the current phase.
    pub fn phase(&self) -> (phase: ConnectionPhase)
        ensures
            phase == self@.current.phase,
    {
        self.current.phase()
    }

    fn publish(&mut self, event: ConnectionEvent)
        ensures
            final(self)@ == old(self)@.publish(event),
    {
        self.events.push(event);
    }

    fn publish_state(&mut self)
        ensures
            final(self)@ == old(self)@.publish(state_changed(old(self)@.current)),
    {
        let event = ConnectionEvent::StateChanged {
            generation: self.current.generation(),
            phase: self.current.phase(),
        };
        self.publish(event);
    }

    /// Enters a phase.
    pub fn phase_to(&mut self, phase: ConnectionPhase)
        ensures
            final(self)@ == old(self)@.phase_to(phase),
    {
        if self.current.phase() == phase {
            return;
        }
        self.current.set_phase(phase);
        self.publish_state();
    }

    /// Replaces the generation.
    pub fn replace_generation(&mut self, generation: ConnectionGeneration)
        ensures
            final(self)@ == old(self)@.replace_generation(generation),
    {
        let replaced = self.current.generation();
        self.current.set_generation(generation);
        self.current.set_phase(ConnectionPhase::Connecting);
        self.publish(ConnectionEvent::VoiceInfoReplaced { old: replaced, new: generation });
        self.publish_state();
    }

    /// Starts a buffered resume.
    pub fn resume_started(&mut self)
        ensures
            final(self)@ == old(self)@.resume_started(),
    {
        self.current.stats.resuming();
        self.current.set_phase(ConnectionPhase::Resuming);
        let generation = self.current.generation();
        self.publish(ConnectionEvent::ResumeStarted { generation });
        self.publish_state();
    }

    /// Records a buffered resume that led to a phase.
    pub fn resume_succeeded(&mut self, phase: ConnectionPhase)
        ensures
            final(self)@ == old(self)@.resume_succeeded(phase),
    {
        self.current.stats.resumed();
        self.current.set_phase(phase);
        let generation = self.current.generation();
        self.publish(ConnectionEvent::ResumeSucceeded { generation });
        self.publish_state();
    }

    /// Records a fresh identification after a failure.
    pub fn reconnecting(&mut self)
        ensures
            final(self)@ == old(self)@.reconnecting(),
    {
        self.current.stats.reconnecting();
        self.phase_to(ConnectionPhase::Reconnecting);
    }

    /// Records a heartbeat timeout.
    pub fn heartbeat_timeout(&mut self)
        ensures
            final(self)@ == old(self)@.heartbeat_timeout(),
    {
        self.current.stats.heartbeat_timeout();
    }

    /// Records a message with an unknown opcode.
    pub fn unknown_opcode(&mut self)
        ensures
            final(self)@ == old(self)@.unknown_opcode(),
    {
        self.current.stats.unknown_opcode();
    }

    /// Records discarded datagrams.
    pub fn discarded_udp_datagrams(&mut self, count: u64)
        ensures
            final(self)@ == old(self)@.discarded_udp_datagrams(count),
    {
        self.current.stats.add_discarded_udp_datagrams(count);
    }

    /// Records a heartbeat round trip.
    pub fn rtt(&mut self, rtt: u64)
        ensures
            final(self)@ == old(self)@.rtt(rtt),
    {
        self.current.set_rtt(rtt);
    }

    /// Records a failure that leads to a phase. The DAVE cause and the observed DAVE
    /// state stay with the durable failure.
    pub fn fail(&mut self, error: &Error, phase: ConnectionPhase)
        ensures
            final(self)@ == old(self)@.fail(error@, phase),
    {
        let failure = FailureSnapshot::new(
            error.kind(),
            error.operation(),
            self.current.generation(),
            error.retry_disposition(),
            error.safe_code(),
        ).with_dave_failure(error.dave_failure()).with_dave_context(error.dave_context());
        self.current.set_failure(failure);
        self.current.set_phase(phase);
        if phase == ConnectionPhase::Failed {
            self.current.set_close_reason(CloseReason::TerminalFailure);
        }
        self.publish(ConnectionEvent::Failure(failure));
        self.publish_state();
    }

    /// Ends the connection.
    pub fn close(&mut self, reason: CloseReason)
        ensures
            final(self)@ == old(self)@.close(reason),
    {
        self.current.set_close_reason(reason);
        self.current.set_phase(ConnectionPhase::Closed);
        self.publish(ConnectionEvent::Closed(reason));
        self.publish_state();
    }
}

/// Entering the phase that is current publishes nothing, so a phase is announced once.
pub proof fn repeated_phases_are_silent(state: StoreState, phase: ConnectionPhase)
    ensures
        state.phase_to(phase).phase_to(phase) == state.phase_to(phase),
        state.phase_to(phase).current.phase == phase,
        state.phase_to(phase).current.generation == state.current.generation,
{
}

/// After any change of phase, the event published last names the phase and the
/// generation that the durable state shows.
pub proof fn the_last_event_is_the_current_state(
    state: StoreState,
    generation: ConnectionGeneration,
    phase: ConnectionPhase,
    reason: CloseReason,
    error: crate::error::ErrorView,
)
    ensures
        state.replace_generation(generation).events.last() == state_changed(
            state.replace_generation(generation).current,
        ),
        state.resume_started().events.last() == state_changed(state.resume_started().current),
        state.resume_succeeded(phase).events.last() == state_changed(
            state.resume_succeeded(phase).current,
        ),
        state.fail(error, phase).events.last() == state_changed(state.fail(error, phase).current),
        state.close(reason).events.last() == state_changed(state.close(reason).current),
        state.current.phase != phase ==> state.phase_to(phase).events.last() == state_changed(
            state.phase_to(phase).current,
        ),
{
}

/// How many subscribers hold a receiver, within a fixed bound.
pub struct SubscriberSlots {
    taken: usize,
    capacity: usize,
}

impl SubscriberSlots {
    /// How many slots are taken.
    pub closed spec fn in_use(self) -> nat {
        self.taken as nat
    }

    /// How many slots there are.
    pub closed spec fn bound(self) -> nat {
        self.capacity as nat
    }

    #[verifier::type_invariant]
    spec fn well_formed(self) -> bool {
        self.taken <= self.capacity
    }

    /// Creates slots that are all free.
    pub fn new(capacity: usize) -> (slots: Self)
        ensures
            slots.in_use() == 0,
            slots.bound() == capacity,
    {
        SubscriberSlots { taken: 0, capacity }
    }

    /// Takes a slot for a subscriber of this generation, unless all are taken.
    pub fn subscribe(&mut self, generation: ConnectionGeneration) -> (result: Result<(), Error>)
        ensures
            final(self).bound() == old(self).bound(),
            final(self).in_use() <= final(self).bound(),
            match result {
                Ok(()) => final(self).in_use() == old(self).in_use() + 1,
                Err(error) => {
                    &&& old(self).in_use() == old(self).bound()
                    &&& final(self).in_use() == old(self).in_use()
                    &&& error@ == crate::error::ErrorView::plain(
                        ErrorKind::ResourceLimit,
                        Operation::Connect,
                        Some(generation),
                        RetryDisposition::Fatal,
                        None,
                        "event subscriber limit reached"@,
                    )
                },
            },
            result is Ok <==> old(self).in_use() < old(self).bound(),
    {
        proof {
            use_type_invariant(&*self);
        }
        if self.taken >= self.capacity {
            return Err(
                Error::new(
                    ErrorKind::ResourceLimit,
                    Operation::Connect,
                    Some(generation),
                    RetryDisposition::Fatal,
                    None,
                    "event subscriber limit reached",
                ),
            );
        }
        self.taken = self.taken + 1;
        Ok(())
    }

    /// Gives a slot back.
    pub fn release(&mut self)
        ensures
            final(self).bound() == old(self).bound(),
            final(self).in_use() == (if old(self).in_use() == 0 {
                0
            } else {
                old(self).in_use() - 1
            }),
    {
        proof {
            use_type_invariant(&*self);
        }
        if self.taken > 0 {
            self.taken = self.taken - 1;
        }
    }
}

/// Admission of the one audio sender of a connection.
pub struct AudioAdmission {
    active: bool,
    next_id: u64,
}

impl AudioAdmission {
    /// Whether a sender is admitted.
    pub closed spec fn is_active(self) -> bool {
        self.active
    }

    /// The identifier of the next attachment.
    pub closed spec fn upcoming(self) -> u64 {
        self.next_id
    }

    /// Creates the admission of a connection without a sender.
    pub fn new() -> (admission: Self)
        ensures
            !admission.is_active(),
            admission.upcoming() == 1,
    {
        AudioAdmission { active: false, next_id: 1 }
    }

    /// Reserves the place of the sender; a second sender is refused.
    pub fn reserve(&mut self, generation: ConnectionGeneration) -> (result: Result<(), Error>)
        ensures
            final(self).is_active(),
            final(self).upcoming() == old(self).upcoming(),
            result is Ok <==> !old(self).is_active(),
            result matches Err(error) ==> error@ == crate::error::ErrorView::plain(
                ErrorKind::ResourceLimit,
                Operation::StartAudio,
                Some(generation),
                RetryDisposition::Fatal,
                None,
                "a paced audio sender is already attached"@,
            ),
    {
        if self.active {
            return Err(
                Error::new(
                    ErrorKind::ResourceLimit,
                    Operation::StartAudio,
                    Some(generation),
                    RetryDisposition::Fatal,
                    None,
                    "a paced audio sender is already attached",
                ),
            );
        }
        self.active = true;
        Ok(())
    }

    /// Settles a reservation: it is kept where the attachment was committed, and given
    /// back where it was cancelled or failed.
    pub fn settle(&mut self, committed: bool)
        ensures
            final(self).is_active() == (old(self).is_active() && committed),
            final(self).upcoming() == old(self).upcoming(),
    {
        if !committed {
            self.active = false;
        }
    }

    /// Returns whether a sender is admitted.
    pub fn active(&self) -> (active: bool)
        ensures
            active == self.is_active(),
    {
        self.active
    }

    /// Takes the identifier of a new attachment. Identifiers are never used twice.
    pub fn take_id(&mut self, generation: ConnectionGeneration) -> (id: Result<u64, Error>)
        ensures
            final(self).is_active() == old(self).is_active(),
            match id {
                Ok(id) => {
                    &&& id == old(self).upcoming()
                    &&& final(self).upcoming() == id + 1
                },
                Err(error) => {
                    &&& old(self).upcoming() == u64::MAX
                    &&& final(self).upcoming() == old(self).upcoming()
                    &&& error@ == crate::error::ErrorView::plain(
                        ErrorKind::ResourceLimit,
                        Operation::StartAudio,
                        Some(generation),
                        RetryDisposition::Fatal,
                        None,
                        "audio attachment identifier exhausted"@,
                    )
                },
            },
    {
        let id: u64 = self.next_id;
        match id.checked_add(1) {
            Some(following) => {
                self.next_id = following;
                Ok(id)
            },
            None => Err(
                Error::new(
                    ErrorKind::ResourceLimit,
                    Operation::StartAudio,
                    Some(generation),
                    RetryDisposition::Fatal,
                    None,
                    "audio attachment identifier exhausted",
                ),
            ),
        }
    }
}

/// How sending a command to the gateway owner ended.
#[derive(Clone, Copy, Debug, PartialEq, Eq, Structural)]
pub enum QueueOutcome {
    /// The command is in the queue.
    Queued,
    /// The queue stayed full until the deadline.
    Full,
    /// The owner is gone.
    Closed,
}

/// Turns the outcome of queueing a gateway command into the caller's result.
pub fn command_queued(
    outcome: QueueOutcome,
    operation: Operation,
    generation: ConnectionGeneration,
) -> (result: Result<(), Error>)
    ensures
        match outcome {
            QueueOutcome::Queued => result is Ok,
            QueueOutcome::Full => result matches Err(error) && error@
                == crate::error::ErrorView::plain(
                ErrorKind::Overloaded,
                operation,
                Some(generation),
                RetryDisposition::Fatal,
                None,
                "gateway command queue remained full"@,
            ),
            QueueOutcome::Closed => result matches Err(error) && error@
                == crate::error::ErrorView::plain(
                ErrorKind::Shutdown,
                operation,
                Some(generation),
                RetryDisposition::Shutdown,
                None,
                "connection is closed"@,
            ),
        },
{
    match outcome {
        QueueOutcome::Queued => Ok(()),
        QueueOutcome::Full => Err(
            Error::new(
                ErrorKind::Overloaded,
                operation,
                Some(generation),
                RetryDisposition::Fatal,
                None,
                "gateway command queue remained full",
            ),
        ),
        QueueOutcome::Closed => Err(
            Error::new(
                ErrorKind::Shutdown,
                operation,
                Some(generation),
                RetryDisposition::Shutdown,
                None,
                "connection is closed",
            ),
        ),
    }
}

/// The failure of an operation whose reply never came.
pub fn reply_lost(operation: Operation, generation: ConnectionGeneration) -> (error: Error)
    ensures
        error@ == crate::error::ErrorView::plain(
            ErrorKind::Shutdown,
            operation,
            Some(generation),
            RetryDisposition::Shutdown,
            None,
            reply_lost_text(operation),
        ),
{
    let message = match operation {
        Operation::Ping => "connection closed before ping completed",
        Operation::ReplaceVoiceInfo => "connection closed before voice info replacement completed",
        Operation::StartAudio => "gateway owner stopped before audio attachment completed",
        _ => "connection control task stopped during connect",
    };
    Error::new(
        ErrorKind::Shutdown,
        operation,
        Some(generation),
        RetryDisposition::Shutdown,
        None,
        message,
    )
}

/// The text of the failure of an operation whose reply never came.
pub open spec fn reply_lost_text(operation: Operation) -> Seq<char> {
    match operation {
        Operation::Ping => "connection closed before ping completed"@,
        Operation::ReplaceVoiceInfo =>
            "connection closed before voice info replacement completed"@,
        Operation::StartAudio => "gateway owner stopped before audio attachment completed"@,
        _ => "connection control task stopped during connect"@,
    }
}

/// The failure of an audio sender that gets no place with the pacer.
pub fn pacing_unavailable(failure: PacerFailure, generation: ConnectionGeneration) -> (error: Error)
    ensures
        error@ == (crate::error::ErrorView {
            generation: Some(generation),
            ..crate::audio::failure::pacer_failure(failure)
        }),
{
    pacer_error(failure).for_operation_generation(Operation::StartAudio, generation)
}

/// The failure of connecting without a running runtime.
pub fn runtime_unavailable() -> (error: Error)
    ensures
        error@ == crate::error::ErrorView::plain(
            ErrorKind::RuntimeUnavailable,
            Operation::Connect,
            None,
            RetryDisposition::Fatal,
            None,
            "a running Tokio runtime is required"@,
        ),
{
    Error::new(
        ErrorKind::RuntimeUnavailable,
        Operation::Connect,
        None,
        RetryDisposition::Fatal,
        None,
        "a running Tokio runtime is required",
    )
}

/// A phase that is entered is announced by one event that names it and the generation; what
/// was announced before stays, and nothing else of the durable state changes.
pub proof fn phases_are_announced_once(state: StoreState, phase: ConnectionPhase)
    ensures
        ({
            let after = state.phase_to(phase);
            &&& after.current.phase == phase
            &&& after.current.failure == state.current.failure
            &&& after.current.close_reason == state.current.close_reason
            &&& after.current.gateway_rtt == state.current.gateway_rtt
            &&& after.current.stats == state.current.stats
            &&& state.current.phase == phase ==> after.events == state.events
            &&& state.current.phase != phase ==> after.events == state.events.push(
                ConnectionEvent::StateChanged { generation: state.current.generation, phase },
            )
        }),
{
}

/// Fresh voice information is announced by the generations that it replaced and brought, and
/// the connecting phase of the new one; its failures, its end and its round trip are not
/// those of the old one, and the counters go on.
pub proof fn replacements_are_announced(state: StoreState, generation: ConnectionGeneration)
    ensures
        ({
            let after = state.replace_generation(generation);
            &&& after.current.generation == generation
            &&& after.current.phase == ConnectionPhase::Connecting
            &&& after.current.failure is None
            &&& after.current.close_reason is None
            &&& after.current.gateway_rtt is None
            &&& after.current.stats == state.current.stats
            &&& after.events == state.events.push(
                ConnectionEvent::VoiceInfoReplaced {
                    old: state.current.generation,
                    new: generation,
                },
            ).push(
                ConnectionEvent::StateChanged { generation, phase: ConnectionPhase::Connecting },
            )
        }),
{
}

/// A resume is announced and counted when it starts, and again when it succeeds, each on a
/// counter of its own; a reconnection is counted on a third one.
pub proof fn resumes_are_counted_and_announced(state: StoreState, phase: ConnectionPhase)
    requires
        state.current.stats.resume_attempts < u64::MAX,
        state.current.stats.resume_successes < u64::MAX,
        state.current.stats.reconnect_attempts < u64::MAX,
    ensures
        ({
            let generation = state.current.generation;
            let started = state.resume_started();
            let succeeded = state.resume_succeeded(phase);
            let again = state.reconnecting();
            &&& started.current.phase == ConnectionPhase::Resuming
            &&& started.current.stats.resume_attempts == state.current.stats.resume_attempts + 1
            &&& started.current.stats.resume_successes == state.current.stats.resume_successes
            &&& started.events == state.events.push(
                ConnectionEvent::ResumeStarted { generation },
            ).push(
                ConnectionEvent::StateChanged { generation, phase: ConnectionPhase::Resuming },
            )
            &&& succeeded.current.phase == phase
            &&& succeeded.current.stats.resume_successes == state.current.stats.resume_successes
                + 1
            &&& succeeded.current.stats.resume_attempts == state.current.stats.resume_attempts
            &&& succeeded.events == state.events.push(
                ConnectionEvent::ResumeSucceeded { generation },
            ).push(ConnectionEvent::StateChanged { generation, phase })
            &&& again.current.phase == ConnectionPhase::Reconnecting
            &&& again.current.stats.reconnect_attempts == state.current.stats.reconnect_attempts
                + 1
            &&& again.current.stats.resume_attempts == state.current.stats.resume_attempts
        }),
{
}

/// Heartbeat timeouts, unknown opcodes and discarded datagrams are counted on their own
/// counters, silently and without a change of phase.
pub proof fn counts_are_silent(state: StoreState, count: u64, rtt: u64)
    requires
        state.current.stats.heartbeat_timeouts < u64::MAX,
        state.current.stats.unknown_opcodes < u64::MAX,
        state.current.stats.discarded_udp_datagrams + count <= u64::MAX,
    ensures
        ({
            let late = state.heartbeat_timeout();
            let odd = state.unknown_opcode();
            let drained = state.discarded_udp_datagrams(count);
            let measured = state.rtt(rtt);
            &&& late.current.stats.heartbeat_timeouts == state.current.stats.heartbeat_timeouts + 1
            &&& late.current.stats.unknown_opcodes == state.current.stats.unknown_opcodes
            &&& odd.current.stats.unknown_opcodes == state.current.stats.unknown_opcodes + 1
            &&& odd.current.stats.heartbeat_timeouts == state.current.stats.heartbeat_timeouts
            &&& drained.current.stats.discarded_udp_datagrams
                == state.current.stats.discarded_udp_datagrams + count
            &&& measured.current.gateway_rtt == Some(rtt)
            &&& measured.current.stats == state.current.stats
            &&& late.events == state.events && odd.events == state.events && drained.events
                == state.events && measured.events == state.events
            &&& late.current.phase == state.current.phase && odd.current.phase
                == state.current.phase && drained.current.phase == state.current.phase
                && measured.current.phase == state.current.phase
        }),
{
}

/// A failure is announced as durable state shows it, then its phase. Only one that fails the
/// connection for good gives it a reason for its end.
pub proof fn failures_are_announced(
    state: StoreState,
    error: crate::error::ErrorView,
    phase: ConnectionPhase,
)
    ensures
        ({
            let after = state.fail(error, phase);
            let shown = after.current.failure->0;
            &&& after.current.failure is Some
            &&& shown.kind == error.kind
            &&& shown.operation == error.operation
            &&& shown.retry == error.retry
            &&& shown.safe_code == error.safe_code
            &&& shown.generation == state.current.generation
            &&& shown.dave_failure == error.dave_failure()
            &&& after.current.phase == phase
            &&& phase == ConnectionPhase::Failed ==> after.current.close_reason == Some(
                CloseReason::TerminalFailure,
            )
            &&& phase != ConnectionPhase::Failed ==> after.current.close_reason
                == state.current.close_reason
            &&& after.current.stats == state.current.stats
            &&& after.events == state.events.push(ConnectionEvent::Failure(shown)).push(
                ConnectionEvent::StateChanged { generation: state.current.generation, phase },
            )
        }),
{
}

/// The end of a connection is announced with its reason, then the closed phase.
pub proof fn ends_are_announced(state: StoreState, reason: CloseReason)
    ensures
        ({
            let after = state.close(reason);
            &&& after.current.phase == ConnectionPhase::Closed
            &&& after.current.close_reason == Some(reason)
            &&& after.current.failure == state.current.failure
            &&& after.current.generation == state.current.generation
            &&& after.events == state.events.push(ConnectionEvent::Closed(reason)).push(
                ConnectionEvent::StateChanged {
                    generation: state.current.generation,
                    phase: ConnectionPhase::Closed,
                },
            )
        }),
{
}

} // verus!
