//! What one WebSocket session decides, event by event.
//!
//! The session never performs I/O. Each event yields a step that says what to send,
//! what to run, or how the session ends; the caller performs it and reports back.
use vstd::prelude::*;

use crate::dave::Control;
use crate::error::{Error, ErrorSource, Operation};
use crate::gateway::backoff::next_deadline;
use crate::gateway::decode::{decode_hello, parse_ready, ReadyData};
use crate::gateway::failure::{
    nonce_exhausted_error, ping_limit_error, protocol_error, retrying_error, udp_discovery_error,
    unsupported_transport_error, write_failed_error, write_timeout_error, Attempt,
};
use crate::gateway::link::{Link, LinkState, SlotState, TransportSlot};
use crate::gateway::payload::{
    heartbeat_payload, identify_payload, resume_payload, select_protocol_payload, SequenceNumber,
};
use crate::json::Json;
use crate::model::{ConnectionGeneration, ConnectionPhase};
use crate::rtp::TransportMode;
use crate::transport::{select_mode, DiscoveredAddress};

verus! {

/// How many heartbeats may be missed.
pub const MAX_MISSED_HEARTBEATS: u8 = 2;

/// The state of one WebSocket session. Instants and spans are nanoseconds.
#[derive(Clone, Copy, Debug, PartialEq, Eq)]
pub struct Session {
    pub heartbeat_interval: Option<u64>,
    pub heartbeat_deadline: Option<u64>,
    /// The number of the heartbeat in flight, and when it was sent.
    pub outstanding: Option<(u64, u64)>,
    pub missed_heartbeats: u8,
    /// How many pings wait for an acknowledgement.
    pub pending_pings: usize,
    pub discovery_running: bool,
}

/// What the sequence field of a message holds.
#[derive(Clone, Copy, Debug, PartialEq, Eq, Structural)]
pub enum SequenceField {
    Absent,
    Integer(SequenceNumber),
    /// A number that is no integer of 64 bits.
    Fractional,
}

/// A write failed: the failure as the operation saw it.
pub open spec fn write_failure(
    timed_out: bool,
    operation: Operation,
    generation: ConnectionGeneration,
) -> crate::error::ErrorView {
    let raw = if timed_out {
        crate::gateway::failure::write_timeout_failure()
    } else {
        crate::error::ErrorView {
            source: Some(ErrorSource::Foreign),
            ..crate::gateway::failure::write_failed_failure()
        }
    };
    crate::error::ErrorView { operation, generation: Some(generation), ..raw }
}

/// Labels a failed write with the operation that made it.
pub fn write_error(timed_out: bool, operation: Operation, generation: ConnectionGeneration) -> (error:
    Error)
    ensures
        error@ == write_failure(timed_out, operation, generation),
{
    let raw = if timed_out {
        write_timeout_error()
    } else {
        write_failed_error().with_source(ErrorSource::Foreign)
    };
    raw.for_operation_generation(operation, generation)
}

/// The failure of a session that cannot number its next heartbeat.
pub open spec fn unnumbered_failure(
    operation: Operation,
    generation: ConnectionGeneration,
) -> crate::error::ErrorView {
    crate::error::ErrorView {
        operation,
        generation: Some(generation),
        ..crate::gateway::failure::nonce_exhausted_failure()
    }
}

impl LinkState {
    /// The next heartbeat is numbered.
    pub open spec fn beat_numbered(self) -> LinkState {
        LinkState { heartbeat_nonce: (self.heartbeat_nonce + 1) as u64, ..self }
    }

    /// Whether no further heartbeat can be numbered.
    pub open spec fn beats_exhausted(self) -> bool {
        self.heartbeat_nonce == u64::MAX
    }

    /// The heartbeat with the current number.
    pub open spec fn beat(self) -> crate::json::JsonValue {
        crate::gateway::payload::heartbeat_value(self.heartbeat_nonce, self.latest_sequence)
    }

    /// The message that opens the session.
    pub open spec fn opening(self) -> crate::json::JsonValue {
        match self.attempt {
            Attempt::Identify => crate::gateway::payload::identify_value(self.info),
            Attempt::Resume => crate::gateway::payload::resume_value(
                self.info,
                self.latest_sequence,
            ),
        }
    }

    /// The session got as far as media: the budget of attempts is full again.
    pub open spec fn progressed(self) -> LinkState {
        LinkState { reconnect_attempts: 0, ..self }
    }

    /// The phase that readiness of DAVE leads to.
    pub open spec fn dave_phase(self, ready: bool) -> LinkState {
        self.stored(
            self.store.phase_to(
                if ready {
                    ConnectionPhase::Connected
                } else {
                    ConnectionPhase::EstablishingDave
                },
            ),
        )
    }

    /// The phase that a resumed session continues in.
    pub open spec fn resumed_phase(self, dave_ready: bool) -> ConnectionPhase {
        match self.transport {
            Some(slot) => if !slot.session_ready {
                ConnectionPhase::EstablishingTransport
            } else if slot.dave_protocol_version == 0 || (slot.has_dave && dave_ready) {
                ConnectionPhase::Connected
            } else {
                ConnectionPhase::EstablishingDave
            },
            None => ConnectionPhase::EstablishingTransport,
        }
    }

    /// A command of an audio sender that is not the one in force, or that came for
    /// another generation.
    pub open spec fn superseded(self, audio_id: u64, generation: ConnectionGeneration) -> bool {
        generation != self.generation() || self.attachment != Some(audio_id)
    }
}

/// Numbers the next heartbeat and builds it.
pub fn number_beat(link: &mut Link) -> (beat: Option<Json>)
    ensures
        match beat {
            Some(json) => {
                &&& !old(link)@.beats_exhausted()
                &&& final(link)@ == old(link)@.beat_numbered()
                &&& json.value() == final(link)@.beat()
            },
            None => old(link)@.beats_exhausted() && final(link)@ == old(link)@,
        },
{
    match link.heartbeat_nonce.checked_add(1) {
        Some(nonce) => {
            link.heartbeat_nonce = nonce;
            Some(heartbeat_payload(nonce, link.latest_sequence))
        },
        None => None,
    }
}

/// The failure of a session that cannot number its next heartbeat.
pub fn unnumbered_error(operation: Operation, generation: ConnectionGeneration) -> (error: Error)
    ensures
        error@ == unnumbered_failure(operation, generation),
{
    nonce_exhausted_error().for_operation_generation(operation, generation)
}

/// What a hello message leads to.
pub enum HelloStep {
    /// Send the opening and then the first heartbeat; a failed write is fatal.
    Open(Json),
    Fatal(Error),
}

/// What the next heartbeat deadline leads to.
pub enum BeatStep {
    /// Send the heartbeat; a failed write fails the pings and asks for a resume.
    Send(Json),
    /// A heartbeat is in flight; one more may be missed.
    Waiting,
    /// Too many heartbeats were missed, or none can be numbered: the pings fail and
    /// the session asks for a resume.
    GiveUp,
}

/// What a ping command leads to.
pub enum PingStep {
    /// Refuse the ping.
    Refuse(Error),
    /// Wait for the heartbeat in flight.
    Wait,
    /// Send a heartbeat and wait for it; a failed write fails the pings and is fatal.
    Send(Json),
    /// No heartbeat can be numbered: the pings fail and the session ends.
    Fatal(Error),
}

/// What an acknowledgement leads to.
pub enum AckStep {
    /// The waiting pings took this many nanoseconds.
    Pong(u64),
    /// The acknowledgement is for no heartbeat in flight.
    Ignore,
    Fatal(Error),
}

/// What a ready message leads to.
pub enum ReadyStep {
    /// Discover the public address through this server.
    Discover {
        ip: String,
        port: u16,
        ssrc: u32,
        mode: TransportMode,
        generation: ConnectionGeneration,
    },
    Fatal(Error),
}

/// How discovery ended.
pub struct DiscoveryCompletion {
    pub generation: ConnectionGeneration,
    pub ssrc: u32,
    pub mode: TransportMode,
    /// The number of the socket and the public address.
    pub result: Option<(u64, DiscoveredAddress)>,
}

/// What the end of discovery leads to.
pub enum DiscoveredStep {
    /// Select the transport; a failed write is fatal.
    Select(Json),
    /// The discovery belonged to an earlier generation.
    Stale,
    Fatal(Error),
}

/// What a message for the DAVE owner leads to.
pub enum DaveStep {
    /// Run a control; afterwards the phase follows the readiness of the owner.
    Run(Control),
    /// Run a control; the phase stays.
    RunQuietly(Control),
    /// Nothing is left to do.
    Done,
    Fatal(Error),
}

impl Session {
    /// The state of a new session.
    pub open spec fn fresh() -> Session {
        Session {
            heartbeat_interval: None,
            heartbeat_deadline: None,
            outstanding: None,
            missed_heartbeats: 0,
            pending_pings: 0,
            discovery_running: false,
        }
    }

    /// Creates the state of a new session.
    pub fn new() -> (session: Self)
        ensures
            session == Session::fresh(),
    {
        Session {
            heartbeat_interval: None,
            heartbeat_deadline: None,
            outstanding: None,
            missed_heartbeats: 0,
            pending_pings: 0,
            discovery_running: false,
        }
    }

    /// What a hello message leads to.
    pub open spec fn hello_leads(
        self,
        link: LinkState,
        data: crate::json::JsonValue,
        after: Session,
        step: HelloStep,
    ) -> bool {
        let interval = crate::gateway::decode::hello_interval(data);
        if self.heartbeat_interval is Some || interval is None {
            &&& step matches HelloStep::Fatal(error) && error@
                == crate::gateway::failure::protocol_failure(link.generation())
            &&& after == self
        } else {
            &&& after == (Session {
                heartbeat_interval: Some((interval->0 * 1_000_000) as u64),
                ..self
            })
            &&& step matches HelloStep::Open(opening) && opening.value() == link.opening()
        }
    }

    /// Takes a hello message: it sets the heartbeat interval, once, and the session is
    /// opened.
    pub fn hello(&mut self, link: &Link, data: &Json) -> (step: HelloStep)
        ensures
            old(self).hello_leads(link@, data.value(), *final(self), step),
    {
        let generation = link.store.generation();
        if self.heartbeat_interval.is_some() {
            return HelloStep::Fatal(protocol_error(generation));
        }
        let millis: u64 = match decode_hello(data) {
            Some(millis) => millis,
            None => return HelloStep::Fatal(protocol_error(generation)),
        };
        self.heartbeat_interval = Some(millis * 1_000_000);
        let opening = match link.attempt {
            Attempt::Identify => identify_payload(&link.info),
            Attempt::Resume => resume_payload(&link.info, link.latest_sequence),
        };
        HelloStep::Open(opening)
    }

    /// Records that the heartbeat with the current number was sent.
    pub fn beat_sent(&mut self, link: &Link, now: u64)
        ensures
            *final(self) == (Session {
                outstanding: Some((link@.heartbeat_nonce, now)),
                ..*old(self)
            }),
    {
        self.outstanding = Some((link.heartbeat_nonce, now));
    }

    /// Starts the heartbeat clock, once the session was opened.
    pub fn start_beating(&mut self, now: u64)
        ensures
            *final(self) == (match old(self).heartbeat_interval {
                Some(interval) => Session {
                    heartbeat_deadline: Some(crate::gateway::backoff::later(now, interval)),
                    ..*old(self)
                },
                None => *old(self),
            }),
    {
        if let Some(interval) = self.heartbeat_interval {
            self.heartbeat_deadline = Some(now.saturating_add(interval));
        }
    }

    /// The session after its heartbeat deadline moved on.
    pub open spec fn deadline_passed(self, now: u64) -> Session {
        match (self.heartbeat_deadline, self.heartbeat_interval) {
            (Some(deadline), Some(interval)) => Session {
                heartbeat_deadline: Some(
                    crate::gateway::backoff::following_deadline(deadline, interval, now),
                ),
                ..self
            },
            _ => self,
        }
    }

    /// What a heartbeat deadline leads to.
    pub open spec fn beat_leads(
        self,
        link: LinkState,
        now: u64,
        after: Session,
        link_after: LinkState,
        step: BeatStep,
    ) -> bool {
        let moved = self.deadline_passed(now);
        if self.outstanding is Some {
            let missed = if self.missed_heartbeats == u8::MAX {
                u8::MAX
            } else {
                (self.missed_heartbeats + 1) as u8
            };
            if missed >= MAX_MISSED_HEARTBEATS {
                &&& step is GiveUp
                &&& after == (Session { missed_heartbeats: missed, pending_pings: 0, ..moved })
                &&& link_after == link.stored(link.store.heartbeat_timeout())
            } else {
                &&& step is Waiting
                &&& after == (Session { missed_heartbeats: missed, ..moved })
                &&& link_after == link
            }
        } else if link.beats_exhausted() {
            &&& step is GiveUp
            &&& after == (Session { pending_pings: 0, ..moved })
            &&& link_after == link
        } else {
            &&& step matches BeatStep::Send(beat) && beat.value() == link_after.beat()
            &&& after == moved
            &&& link_after == link.beat_numbered()
        }
    }

    /// Takes a heartbeat deadline: a heartbeat is sent, unless one is in flight; the
    /// second one missed in a row ends the session.
    pub fn heartbeat_due(&mut self, link: &mut Link, now: u64) -> (step: BeatStep)
        ensures
            old(self).beat_leads(old(link)@, now, *final(self), final(link)@, step),
    {
        if let Some(deadline) = self.heartbeat_deadline {
            if let Some(interval) = self.heartbeat_interval {
                self.heartbeat_deadline = Some(next_deadline(deadline, interval, now));
            }
        }
        if self.outstanding.is_some() {
            self.missed_heartbeats = self.missed_heartbeats.saturating_add(1);
            if self.missed_heartbeats >= MAX_MISSED_HEARTBEATS {
                link.store.heartbeat_timeout();
                self.pending_pings = 0;
                return BeatStep::GiveUp;
            }
            return BeatStep::Waiting;
        }
        match number_beat(link) {
            Some(beat) => BeatStep::Send(beat),
            None => {
                self.pending_pings = 0;
                BeatStep::GiveUp
            },
        }
    }

    /// The failure of the pings that wait, when the session ends.
    pub fn fail_pings(&mut self, link: &Link) -> (error: Error)
        ensures
            *final(self) == (Session { pending_pings: 0, ..*old(self) }),
            error@ == crate::gateway::failure::retrying_failure(
                Operation::Ping,
                link@.generation(),
            ),
    {
        self.pending_pings = 0;
        retrying_error(Operation::Ping, link.store.generation())
    }

    /// What a ping command leads to.
    pub open spec fn ping_leads(
        self,
        link: LinkState,
        capacity: usize,
        after: Session,
        link_after: LinkState,
        step: PingStep,
    ) -> bool {
        let generation = link.generation();
        if self.heartbeat_interval is None {
            &&& step matches PingStep::Refuse(error) && error@
                == crate::gateway::failure::retrying_failure(Operation::Ping, generation)
            &&& after == self
            &&& link_after == link
        } else if self.pending_pings >= capacity {
            &&& step matches PingStep::Refuse(error) && error@
                == crate::gateway::failure::ping_limit_failure(generation)
            &&& after == self
            &&& link_after == link
        } else if self.outstanding is Some {
            &&& step is Wait
            &&& after == (Session { pending_pings: (self.pending_pings + 1) as usize, ..self })
            &&& link_after == link
        } else if link.beats_exhausted() {
            &&& step matches PingStep::Fatal(error) && error@ == unnumbered_failure(
                Operation::Ping,
                generation,
            )
            &&& after == (Session { pending_pings: 0, ..self })
            &&& link_after == link
        } else {
            &&& step matches PingStep::Send(beat) && beat.value() == link_after.beat()
            &&& after == (Session { pending_pings: (self.pending_pings + 1) as usize, ..self })
            &&& link_after == link.beat_numbered()
        }
    }

    /// Takes a ping command. Pings share the heartbeat in flight, and their number is
    /// bounded.
    pub fn ping(&mut self, link: &mut Link, capacity: usize) -> (step: PingStep)
        ensures
            old(self).ping_leads(old(link)@, capacity, *final(self), final(link)@, step),
    {
        let generation = link.store.generation();
        if self.heartbeat_interval.is_none() {
            return PingStep::Refuse(retrying_error(Operation::Ping, generation));
        }
        if self.pending_pings >= capacity {
            return PingStep::Refuse(ping_limit_error(generation));
        }
        self.pending_pings = self.pending_pings + 1;
        if self.outstanding.is_some() {
            return PingStep::Wait;
        }
        match number_beat(link) {
            Some(beat) => PingStep::Send(beat),
            None => {
                self.pending_pings = 0;
                PingStep::Fatal(unnumbered_error(Operation::Ping, generation))
            },
        }
    }

    /// The heartbeat in flight: its number and when it was sent.
    pub open spec fn beat_in_flight(self) -> (u64, u64)
        recommends
            self.outstanding is Some,
    {
        self.outstanding->0
    }

    /// What a heartbeat acknowledgement leads to.
    pub open spec fn ack_leads(
        self,
        link: LinkState,
        data: crate::json::JsonValue,
        now: u64,
        after: Session,
        link_after: LinkState,
        step: AckStep,
    ) -> bool {
        match data.unsigned_member("t"@) {
            None => {
                &&& step matches AckStep::Fatal(error) && error@
                    == crate::gateway::failure::protocol_failure(link.generation())
                &&& after == self
                &&& link_after == link
            },
            Some(nonce) => if self.outstanding is Some && self.beat_in_flight().0 == nonce {
                let rtt = crate::gateway::backoff::elapsed(self.beat_in_flight().1, now);
                &&& step matches AckStep::Pong(measured) && measured == rtt
                &&& after == (Session {
                    outstanding: None,
                    missed_heartbeats: 0,
                    pending_pings: 0,
                    ..self
                })
                &&& link_after == link.stored(link.store.rtt(rtt))
            } else {
                &&& step is Ignore
                &&& after == self
                &&& link_after == link
            },
        }
    }

    /// Takes a heartbeat acknowledgement.
    pub fn acknowledge(&mut self, link: &mut Link, data: &Json, now: u64) -> (step: AckStep)
        ensures
            old(self).ack_leads(old(link)@, data.value(), now, *final(self), final(link)@, step),
    {
        let nonce: u64 = match data.u64_member("t") {
            Some(nonce) => nonce,
            None => return AckStep::Fatal(protocol_error(link.store.generation())),
        };
        if let Some((expected, sent)) = self.outstanding {
            if nonce == expected {
                let rtt: u64 = now.saturating_sub(sent);
                self.outstanding = None;
                self.missed_heartbeats = 0;
                self.pending_pings = 0;
                link.store.rtt(rtt);
                return AckStep::Pong(rtt);
            }
        }
        AckStep::Ignore
    }

    /// What a ready message leads to.
    pub open spec fn ready_leads(
        self,
        link: LinkState,
        data: Option<ReadyData>,
        after: Session,
        link_after: LinkState,
        step: ReadyStep,
    ) -> bool {
        let generation = link.generation();
        let refused = after == self && link_after == link;
        match data {
            None => {
                &&& refused
                &&& step matches ReadyStep::Fatal(error) && error@ == (crate::error::ErrorView {
                    source: Some(ErrorSource::Foreign),
                    ..crate::gateway::failure::protocol_failure(generation)
                })
            },
            Some(ready) => if !ready.acceptable() {
                &&& refused
                &&& step matches ReadyStep::Fatal(error) && error@
                    == crate::gateway::failure::protocol_failure(generation)
            } else if !crate::transport::offers(ready.modes@, TransportMode::Aes256GcmRtpSize)
                && !crate::transport::offers(
                ready.modes@,
                TransportMode::XChaCha20Poly1305RtpSize,
            ) {
                &&& refused
                &&& step matches ReadyStep::Fatal(error) && error@
                    == crate::gateway::failure::unsupported_transport_failure(generation)
            } else {
                let cleared = (LinkState { transport: None, ..link }).progressed();
                &&& after == (Session { discovery_running: true, ..self })
                &&& link_after == cleared.stored(
                    cleared.store.phase_to(ConnectionPhase::EstablishingTransport),
                )
                &&& step matches ReadyStep::Discover { ip, port, ssrc, mode, generation: found }
                    && ip == ready.ip && port == ready.port && ssrc == ready.ssrc && found
                    == generation && mode == (if crate::transport::offers(
                    ready.modes@,
                    TransportMode::Aes256GcmRtpSize,
                ) {
                    TransportMode::Aes256GcmRtpSize
                } else {
                    TransportMode::XChaCha20Poly1305RtpSize
                })
            },
        }
    }

    /// Takes a ready message: a transport mode is picked and discovery begins. An
    /// earlier transport is dropped.
    pub fn ready(&mut self, link: &mut Link, data: Option<ReadyData>) -> (step: ReadyStep)
        ensures
            old(self).ready_leads(old(link)@, data, *final(self), final(link)@, step),
    {
        let generation = link.store.generation();
        let ready = match parse_ready(data, generation) {
            Ok(ready) => ready,
            Err(error) => return ReadyStep::Fatal(error),
        };
        let mode = match select_mode(ready.modes.as_slice()) {
            Some(mode) => mode,
            None => return ReadyStep::Fatal(unsupported_transport_error(generation)),
        };
        link.transport = None;
        self.discovery_running = true;
        link.store.phase_to(ConnectionPhase::EstablishingTransport);
        link.reconnect_attempts = 0;
        ReadyStep::Discover { ip: ready.ip, port: ready.port, ssrc: ready.ssrc, mode, generation }
    }

    /// What the end of discovery leads to. A result of an earlier generation is
    /// dropped.
    pub open spec fn discovery_leads(
        self,
        link: LinkState,
        completion: Option<DiscoveryCompletion>,
        after: Session,
        link_after: LinkState,
        step: DiscoveredStep,
    ) -> bool {
        let generation = link.generation();
        match completion {
            None => {
                &&& step matches DiscoveredStep::Fatal(error) && error@
                    == crate::gateway::failure::udp_discovery_failure(generation)
                &&& after == self
                &&& link_after == link
            },
            Some(completion) => {
                &&& after == (Session { discovery_running: false, ..self })
                &&& if completion.generation != generation {
                    step is Stale && link_after == link
                } else {
                    match completion.result {
                        None => {
                            &&& step matches DiscoveredStep::Fatal(error) && error@ == (
                            crate::error::ErrorView {
                                source: Some(ErrorSource::Foreign),
                                ..crate::gateway::failure::udp_discovery_failure(generation)
                            })
                            &&& link_after == link
                        },
                        Some((socket, public)) => {
                            &&& step matches DiscoveredStep::Select(json) && json.value()
                                == crate::gateway::payload::select_protocol_value(
                                public.address@,
                                public.port,
                                completion.mode,
                            )
                            &&& link_after == (LinkState {
                                transport: Some(
                                    SlotState {
                                        socket,
                                        ssrc: completion.ssrc,
                                        selected_mode: completion.mode,
                                        encoder: None,
                                        dave_protocol_version: 0,
                                        has_dave: false,
                                        session_ready: false,
                                    },
                                ),
                                ..link
                            })
                        },
                    }
                }
            },
        }
    }

    /// Takes the end of discovery.
    pub fn discovered(&mut self, link: &mut Link, completion: Option<DiscoveryCompletion>) -> (step:
        DiscoveredStep)
        ensures
            old(self).discovery_leads(old(link)@, completion, *final(self), final(link)@, step),
    {
        let generation = link.store.generation();
        let completion = match completion {
            Some(completion) => completion,
            None => return DiscoveredStep::Fatal(udp_discovery_error(generation)),
        };
        self.discovery_running = false;
        if !completion.generation.same(generation) {
            return DiscoveredStep::Stale;
        }
        match completion.result {
            None => DiscoveredStep::Fatal(
                udp_discovery_error(generation).with_source(ErrorSource::Foreign),
            ),
            Some((socket, public)) => {
                let select = select_protocol_payload(
                    public.address.as_str(),
                    public.port,
                    completion.mode,
                );
                link.transport = Some(
                    TransportSlot {
                        socket,
                        ssrc: completion.ssrc,
                        selected_mode: completion.mode,
                        encoder: None,
                        dave_protocol_version: 0,
                        has_dave: false,
                        session_ready: false,
                    },
                );
                DiscoveredStep::Select(select)
            },
        }
    }
}

} // verus!
