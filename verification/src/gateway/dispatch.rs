//! How messages, commands and datagrams are answered while a session runs.
use vstd::prelude::*;

use crate::config::ResourceLimits;
use crate::dave::{Control, Outbound};
use crate::error::{DaveFailure, Error, ErrorSource, Operation};
use crate::gateway::decode::{
    decode_dave_binary_envelope, decode_dave_json_control, decode_dave_roster,
    decode_disconnected_user, DaveBinaryEnvelopeError, DaveRosterError, ReadyData,
    SessionDescriptionData,
};
use crate::gateway::description::{describe, DescribeStep};
use crate::gateway::failure::{
    close_outcome, dave_error, frame_limit_error, protocol_error, resource_error, retrying_error,
    superseded_audio_error, Attempt, CloseOutcome,
};
use crate::gateway::link::{Link, LinkState, OutcomeValue, SessionOutcome};
use crate::gateway::payload::{
    dave_outbound_messages, speaking_payload, OutboundMessage, SequenceNumber,
};
use crate::gateway::session::{
    write_error, AckStep, DaveStep, HelloStep, ReadyStep, SequenceField, Session,
};
use crate::json::Json;
use crate::model::{ConnectionGeneration, ConnectionPhase};
use crate::roster::copy_users;

verus! {

/// How many datagrams are drained at a time.
pub const UDP_DRAIN_BATCH: usize = 32;

/// A text message of the gateway.
pub struct TextMessage {
    pub opcode: u64,
    pub sequence: SequenceField,
    pub data: Json,
    /// The contents of a ready message, where the data has their shape.
    pub ready: Option<ReadyData>,
    /// The contents of a session description, where the data has their shape.
    pub description: Option<SessionDescriptionData>,
}

/// What a text message leads to.
pub enum TextStep {
    Hello(HelloStep),
    Ready(ReadyStep),
    Describe(DescribeStep),
    Acknowledge(AckStep),
    Dave(DaveStep),
    /// Nothing is left to do.
    Done,
    Fatal(Error),
}

impl LinkState {
    /// The link after a message with a sequence field.
    pub open spec fn sequenced(self, sequence: SequenceField) -> LinkState {
        match sequence {
            SequenceField::Integer(number) => LinkState { latest_sequence: Some(number), ..self },
            _ => self,
        }
    }

    /// A session was resumed.
    pub open spec fn resumed(self, dave_ready: bool) -> LinkState {
        let full = self.progressed();
        full.stored(full.store.resume_succeeded(full.resumed_phase(dave_ready)))
    }

    /// A message with an opcode that has no meaning here.
    pub open spec fn puzzled(self) -> LinkState {
        self.stored(self.store.unknown_opcode())
    }

    /// What a roster message leads to. The roster is kept for a DAVE owner to come.
    pub open spec fn roster_leads(
        self,
        data: crate::json::JsonValue,
        max_members: usize,
        after: LinkState,
        step: DaveStep,
    ) -> bool {
        match crate::gateway::decode::roster_users(data, max_members) {
            Ok(users) => {
                &&& after == (LinkState { dave_roster: users, ..self })
                &&& if self.dave {
                    step matches DaveStep::RunQuietly(Control::Roster(listed)) && listed@ == users
                } else {
                    step is Done
                }
            },
            Err(failure) => {
                &&& after == self
                &&& step matches DaveStep::Fatal(error) && error@ == (match failure {
                    DaveRosterError::Malformed => crate::gateway::failure::protocol_failure(
                        self.generation(),
                    ),
                    DaveRosterError::TooManyMembers => crate::gateway::failure::resource_failure(
                        self.generation(),
                    ),
                })
            },
        }
    }

    /// The user of a disconnect message.
    pub open spec fn leaver(data: crate::json::JsonValue) -> Option<u64> {
        match data.member("user_id"@) {
            Some(value) => crate::gateway::decode::json_user(value),
            None => None,
        }
    }

    /// What a disconnect message leads to.
    pub open spec fn leave_leads(
        self,
        data: crate::json::JsonValue,
        after: LinkState,
        step: DaveStep,
    ) -> bool {
        match LinkState::leaver(data) {
            Some(user) => {
                &&& after == (LinkState {
                    dave_roster: self.dave_roster.filter(|member: u64| member != user),
                    ..self
                })
                &&& if self.dave {
                    step matches DaveStep::RunQuietly(Control::MemberDisconnected(left)) && left
                        == user
                } else {
                    step is Done
                }
            },
            None => {
                &&& after == self
                &&& step matches DaveStep::Fatal(error) && error@
                    == crate::gateway::failure::protocol_failure(self.generation())
            },
        }
    }

    /// What a JSON control leads to.
    pub open spec fn control_leads(
        self,
        opcode: u64,
        data: crate::json::JsonValue,
        step: DaveStep,
    ) -> bool {
        match crate::gateway::decode::json_control(opcode, data) {
            Some(control) if self.dave => step == DaveStep::Run(control),
            _ => step matches DaveStep::Fatal(error) && error@
                == crate::gateway::failure::protocol_failure(self.generation()),
        }
    }

    /// What a binary message leads to.
    pub open spec fn binary_leads(
        self,
        bytes: Seq<u8>,
        limits: ResourceLimits,
        after: LinkState,
        step: DaveStep,
    ) -> bool {
        let generation = self.generation();
        let body = crate::gateway::decode::envelope_body(bytes);
        let failure = if bytes.len() > limits.gateway_binary_bytes {
            Some(DaveBinaryEnvelopeError::BodyTooLarge)
        } else {
            crate::gateway::decode::envelope_failure(bytes, limits.dave_binary_body_bytes)
        };
        match failure {
            Some(DaveBinaryEnvelopeError::BodyTooLarge) => {
                &&& after == self
                &&& step matches DaveStep::Fatal(error) && error@
                    == crate::gateway::failure::resource_failure(generation)
            },
            Some(DaveBinaryEnvelopeError::Malformed) => {
                &&& after == self
                &&& step matches DaveStep::Fatal(error) && error@
                    == crate::gateway::failure::protocol_failure(generation)
            },
            None => {
                let counted = LinkState {
                    latest_sequence: Some(
                        SequenceNumber::Unsigned(
                            crate::wire::be16_value(bytes[0], bytes[1]) as u64,
                        ),
                    ),
                    ..self
                };
                if crate::gateway::decode::min_body_bytes(bytes[2]) is None {
                    step is Done && after == counted.puzzled()
                } else {
                    &&& after == counted
                    &&& if self.dave {
                        step matches DaveStep::Run(control)
                            && crate::gateway::decode::is_binary_control(
                            bytes[2],
                            body,
                            Some(control),
                        )
                    } else {
                        step matches DaveStep::Fatal(error) && error@
                            == crate::gateway::failure::protocol_failure(generation)
                    }
                }
            },
        }
    }

    /// Why an audio sender cannot announce that it speaks.
    pub open spec fn speaking_failure(
        self,
        audio_id: u64,
        generation: ConnectionGeneration,
    ) -> Option<crate::error::ErrorView> {
        if self.superseded(audio_id, generation) {
            Some(crate::gateway::failure::superseded_audio_failure(self.generation()))
        } else if !self.transport_ready() {
            Some(
                crate::gateway::failure::retrying_failure(
                    Operation::StartAudio,
                    self.generation(),
                ),
            )
        } else {
            None
        }
    }
}

fn superseded(link: &Link, audio_id: u64, generation: ConnectionGeneration) -> (superseded: bool)
    ensures
        superseded == link@.superseded(audio_id, generation),
{
    let attached = match link.attachment {
        Some(current) => current == audio_id,
        None => false,
    };
    !generation.same(link.store.generation()) || !attached
}

/// Takes a command to announce whether an audio sender speaks. The announcement is to
/// be sent; a failed write asks for a resume.
pub fn announce_speaking(
    link: &Link,
    audio_id: u64,
    generation: ConnectionGeneration,
    speaking: bool,
) -> (announcement: Result<Json, Error>)
    ensures
        match announcement {
            Ok(json) => {
                &&& link@.speaking_failure(audio_id, generation) is None
                &&& json.value() == crate::gateway::payload::speaking_value(
                    link@.transport->0.ssrc,
                    speaking,
                )
            },
            Err(error) => link@.speaking_failure(audio_id, generation) == Some(error@),
        },
{
    if superseded(link, audio_id, generation) {
        return Err(superseded_audio_error(link.store.generation()));
    }
    if let Some(slot) = &link.transport {
        if slot.session_ready {
            return Ok(speaking_payload(slot.ssrc, speaking));
        }
    }
    Err(retrying_error(Operation::StartAudio, link.store.generation()))
}

/// Takes a command to renew the transport. Once admitted, the session ends and the
/// next one identifies afresh.
pub fn renew_transport(link: &Link, audio_id: u64, generation: ConnectionGeneration) -> (admitted:
    Result<(), Error>)
    ensures
        match admitted {
            Ok(()) => !link@.superseded(audio_id, generation),
            Err(error) => {
                &&& link@.superseded(audio_id, generation)
                &&& error@ == crate::gateway::failure::superseded_audio_failure(link@.generation())
            },
        },
{
    if superseded(link, audio_id, generation) {
        Err(superseded_audio_error(link.store.generation()))
    } else {
        Ok(())
    }
}

/// Whether a close frame, which may carry a code, leads to an outcome.
pub open spec fn close_leads(
    generation: ConnectionGeneration,
    code: Option<u16>,
    outcome: SessionOutcome,
) -> bool {
    match code {
        None => outcome is Resume,
        Some(code) => match outcome {
            SessionOutcome::Resume => crate::gateway::failure::follows_policy(
                CloseOutcome::Resume,
                code,
                generation,
            ),
            SessionOutcome::FreshIdentify => crate::gateway::failure::follows_policy(
                CloseOutcome::FreshIdentify,
                code,
                generation,
            ),
            SessionOutcome::CleanRemote => crate::gateway::failure::follows_policy(
                CloseOutcome::CleanRemote,
                code,
                generation,
            ),
            SessionOutcome::NeedsFresh(error) => crate::gateway::failure::follows_policy(
                CloseOutcome::NeedsFresh(error),
                code,
                generation,
            ),
            SessionOutcome::Fatal(error) => crate::gateway::failure::follows_policy(
                CloseOutcome::Fatal(error),
                code,
                generation,
            ),
            _ => false,
        },
    }
}

/// Takes a close frame, which may carry a code.
pub fn close_frame(link: &Link, code: Option<u16>) -> (outcome: SessionOutcome)
    ensures
        close_leads(link@.generation(), code, outcome),
{
    let code: u16 = match code {
        Some(code) => code,
        None => return SessionOutcome::Resume,
    };
    match close_outcome(code, link.store.generation(), link.attempt) {
        CloseOutcome::Resume => SessionOutcome::Resume,
        CloseOutcome::FreshIdentify => SessionOutcome::FreshIdentify,
        CloseOutcome::NeedsFresh(error) => SessionOutcome::NeedsFresh(error),
        CloseOutcome::Fatal(error) => SessionOutcome::Fatal(error),
        CloseOutcome::CleanRemote => SessionOutcome::CleanRemote,
    }
}

/// Decides after the stream ended without a close frame: a session that was under way
/// is resumed.
pub fn resumable_outcome(link: &Link) -> (outcome: SessionOutcome)
    ensures
        outcome.value() == (if link@.latest_sequence is Some {
            OutcomeValue::Resume
        } else {
            OutcomeValue::FreshIdentify
        }),
{
    if link.latest_sequence.is_some() {
        SessionOutcome::Resume
    } else {
        SessionOutcome::FreshIdentify
    }
}

/// How the stream of the gateway or the media socket gave out.
#[derive(Clone, Copy, Debug, PartialEq, Eq, Structural)]
pub enum StreamEnd {
    /// The stream ended or failed without a close frame.
    Lost,
    /// A frame was longer than its bound.
    FrameTooLong,
    /// The media socket failed.
    SocketFailed,
}

/// What the end of the stream or of the media socket leads to: a session that was under
/// way is resumed where the stream was lost.
pub open spec fn stream_leads(link: LinkState, end: StreamEnd) -> OutcomeValue {
    match end {
        StreamEnd::Lost => if link.latest_sequence is Some {
            OutcomeValue::Resume
        } else {
            OutcomeValue::FreshIdentify
        },
        StreamEnd::FrameTooLong => OutcomeValue::Fatal(
            crate::gateway::failure::frame_limit_failure(link.generation()),
        ),
        StreamEnd::SocketFailed => OutcomeValue::FreshIdentify,
    }
}

/// Decides after the stream or the media socket gave out.
pub fn stream_ended(link: &Link, end: StreamEnd) -> (outcome: SessionOutcome)
    ensures
        outcome.value() == stream_leads(link@, end),
{
    match end {
        StreamEnd::Lost => resumable_outcome(link),
        StreamEnd::FrameTooLong => SessionOutcome::Fatal(frame_limit_error(link.store.generation())),
        StreamEnd::SocketFailed => SessionOutcome::FreshIdentify,
    }
}

/// What a message to the gateway is written for.
#[derive(Clone, Copy, Debug, PartialEq, Eq, Structural)]
pub enum Written {
    /// The session is opened, with its first heartbeat.
    Opening,
    /// A heartbeat falls due.
    Heartbeat,
    /// A caller asked for a heartbeat.
    Ping,
    /// An audio sender announces itself.
    Speaking,
    /// The transport is selected.
    Selection,
    /// The DAVE owner answers a control.
    Dave,
    /// A WebSocket ping is answered.
    Pong,
}

/// What a failed write leads to: the failure of the connection where the handshake
/// cannot go on, a resume elsewhere. An unanswered WebSocket ping counts only where the
/// write timed out.
pub open spec fn write_leads(
    generation: ConnectionGeneration,
    written: Written,
    timed_out: bool,
) -> Option<OutcomeValue> {
    match written {
        Written::Opening | Written::Selection | Written::Dave => Some(
            OutcomeValue::Fatal(
                crate::gateway::session::write_failure(timed_out, Operation::Connect, generation),
            ),
        ),
        Written::Ping => Some(
            OutcomeValue::Fatal(
                crate::gateway::session::write_failure(timed_out, Operation::Ping, generation),
            ),
        ),
        Written::Heartbeat | Written::Speaking => Some(OutcomeValue::Resume),
        Written::Pong => if timed_out {
            Some(OutcomeValue::Resume)
        } else {
            None
        },
    }
}

/// Decides after a failed write. Without an outcome the session goes on.
pub fn write_failed(link: &Link, written: Written, timed_out: bool) -> (outcome: Option<
    SessionOutcome,
>)
    ensures
        match outcome {
            Some(outcome) => write_leads(link@.generation(), written, timed_out) == Some(
                outcome.value(),
            ),
            None => write_leads(link@.generation(), written, timed_out) is None,
        },
{
    let generation = link.store.generation();
    match written {
        Written::Opening | Written::Selection | Written::Dave => Some(
            SessionOutcome::Fatal(write_error(timed_out, Operation::Connect, generation)),
        ),
        Written::Ping => Some(
            SessionOutcome::Fatal(write_error(timed_out, Operation::Ping, generation)),
        ),
        Written::Heartbeat | Written::Speaking => Some(SessionOutcome::Resume),
        Written::Pong => if timed_out {
            Some(SessionOutcome::Resume)
        } else {
            None
        },
    }
}

/// What a read of the media socket brought.
#[derive(Clone, Copy, Debug, PartialEq, Eq, Structural)]
pub enum DrainEvent {
    Datagram,
    Empty,
    Failed,
}

/// How draining the media socket goes on.
#[derive(Clone, Copy, Debug, PartialEq, Eq, Structural)]
pub enum DrainStep {
    /// Read again.
    More,
    /// This many datagrams were discarded.
    Done,
    /// The session ends and the next one identifies afresh.
    Failed,
}

/// Counts what a read of the media socket brought, up to a batch.
pub fn drain_udp(discarded: &mut usize, event: DrainEvent) -> (step: DrainStep)
    requires
        *old(discarded) < UDP_DRAIN_BATCH,
    ensures
        *final(discarded) == (if event == DrainEvent::Datagram {
            *old(discarded) + 1
        } else {
            *old(discarded) as int
        }),
        step == (match event {
            DrainEvent::Datagram => if *final(discarded) < UDP_DRAIN_BATCH {
                DrainStep::More
            } else {
                DrainStep::Done
            },
            DrainEvent::Empty => DrainStep::Done,
            DrainEvent::Failed => DrainStep::Failed,
        }),
{
    match event {
        DrainEvent::Datagram => {
            *discarded = *discarded + 1;
            if *discarded < UDP_DRAIN_BATCH {
                DrainStep::More
            } else {
                DrainStep::Done
            }
        },
        DrainEvent::Empty => DrainStep::Done,
        DrainEvent::Failed => DrainStep::Failed,
    }
}

/// A batch of discarded datagrams is full at the thirty-second.
pub proof fn batches_are_full_at_thirty_two(discarded: usize)
    ensures
        discarded < UDP_DRAIN_BATCH <==> discarded < 32,
{
}

/// Counts discarded datagrams.
pub fn count_discarded(link: &mut Link, discarded: usize)
    ensures
        final(link)@ == (if discarded == 0 {
            old(link)@
        } else {
            old(link)@.stored(old(link)@.store.discarded_udp_datagrams(discarded as u64))
        }),
{
    if discarded != 0 {
        link.store.discarded_udp_datagrams(discarded as u64);
    }
}

/// Checks the length of a text message in bytes.
pub fn admit_text(link: &Link, length: usize, limits: &ResourceLimits) -> (admitted: Result<
    (),
    Error,
>)
    ensures
        match admitted {
            Ok(()) => length <= limits.gateway_text_bytes,
            Err(error) => {
                &&& length > limits.gateway_text_bytes
                &&& error@ == crate::gateway::failure::resource_failure(link@.generation())
            },
        },
{
    if length > limits.gateway_text_bytes {
        Err(resource_error(link.store.generation()))
    } else {
        Ok(())
    }
}

/// Turns the answer of the DAVE owner into the messages to send.
pub fn dave_messages(
    link: &Link,
    actions: Result<Vec<Outbound>, DaveFailure>,
    limits: &ResourceLimits,
) -> (messages: Result<Vec<OutboundMessage>, Error>)
    ensures
        match actions {
            Ok(actions) => crate::gateway::payload::carried(
                actions@,
                limits.gateway_binary_bytes,
                link@.generation(),
                messages,
            ),
            Err(failure) => messages matches Err(error) && error@ == (crate::error::ErrorView {
                source: Some(ErrorSource::Dave(failure)),
                ..crate::gateway::failure::dave_setup_failure(link@.generation())
            }),
        },
{
    let generation = link.store.generation();
    match actions {
        Ok(actions) => dave_outbound_messages(actions, limits.gateway_binary_bytes, generation),
        Err(failure) => Err(dave_error(generation).with_source(ErrorSource::Dave(failure))),
    }
}

/// Lets the phase follow the readiness of the DAVE owner, once a control was run.
pub fn follow_dave(link: &mut Link, ready: bool)
    ensures
        final(link)@ == old(link)@.dave_phase(ready),
{
    link.store.phase_to(
        if ready {
            ConnectionPhase::Connected
        } else {
            ConnectionPhase::EstablishingDave
        },
    );
}

fn roster(link: &mut Link, data: &Json, max_members: usize) -> (step: DaveStep)
    ensures
        old(link)@.roster_leads(data.value(), max_members, final(link)@, step),
{
    let generation = link.store.generation();
    match decode_dave_roster(data, max_members) {
        Ok(users) => {
            let step = if link.dave {
                DaveStep::RunQuietly(Control::Roster(copy_users(&users)))
            } else {
                DaveStep::Done
            };
            link.dave_roster = users;
            step
        },
        Err(DaveRosterError::Malformed) => DaveStep::Fatal(protocol_error(generation)),
        Err(DaveRosterError::TooManyMembers) => DaveStep::Fatal(resource_error(generation)),
    }
}

fn leave(link: &mut Link, data: &Json) -> (step: DaveStep)
    ensures
        old(link)@.leave_leads(data.value(), final(link)@, step),
{
    match decode_disconnected_user(data) {
        Some(user) => {
            link.dave_roster = crate::roster::without_user(&link.dave_roster, user);
            if link.dave {
                DaveStep::RunQuietly(Control::MemberDisconnected(user))
            } else {
                DaveStep::Done
            }
        },
        None => DaveStep::Fatal(protocol_error(link.store.generation())),
    }
}

fn json_control(link: &Link, opcode: u64, data: &Json) -> (step: DaveStep)
    ensures
        link@.control_leads(opcode, data.value(), step),
{
    match decode_dave_json_control(opcode, data) {
        Some(control) => if link.dave {
            DaveStep::Run(control)
        } else {
            DaveStep::Fatal(protocol_error(link.store.generation()))
        },
        None => DaveStep::Fatal(protocol_error(link.store.generation())),
    }
}

/// Takes a binary message: a sequence number, an opcode and a body for the DAVE owner.
pub fn binary_message(link: &mut Link, bytes: &[u8], limits: &ResourceLimits) -> (step: DaveStep)
    ensures
        old(link)@.binary_leads(bytes@, *limits, final(link)@, step),
{
    let generation = link.store.generation();
    if bytes.len() > limits.gateway_binary_bytes {
        return DaveStep::Fatal(resource_error(generation));
    }
    match decode_dave_binary_envelope(bytes, limits.dave_binary_body_bytes) {
        Ok((sequence, control)) => {
            link.latest_sequence = Some(SequenceNumber::Unsigned(sequence as u64));
            match control {
                Some(control) => if link.dave {
                    DaveStep::Run(control)
                } else {
                    DaveStep::Fatal(protocol_error(generation))
                },
                None => {
                    link.store.unknown_opcode();
                    DaveStep::Done
                },
            }
        },
        Err(DaveBinaryEnvelopeError::Malformed) => DaveStep::Fatal(protocol_error(generation)),
        Err(DaveBinaryEnvelopeError::BodyTooLarge) => DaveStep::Fatal(resource_error(generation)),
    }
}

fn resumed(link: &mut Link, dave_ready: bool)
    ensures
        final(link)@ == old(link)@.resumed(dave_ready),
{
    link.reconnect_attempts = 0;
    let phase = match &link.transport {
        Some(slot) => if !slot.session_ready {
            ConnectionPhase::EstablishingTransport
        } else if slot.dave_protocol_version == 0 || (slot.has_dave && dave_ready) {
            ConnectionPhase::Connected
        } else {
            ConnectionPhase::EstablishingDave
        },
        None => ConnectionPhase::EstablishingTransport,
    };
    link.store.resume_succeeded(phase);
}

impl Session {
    /// What a text message leads to once its sequence is noted. A ready message counts
    /// only while identifying, a resumed message only while resuming.
    pub open spec fn opcode_leads(
        self,
        link: LinkState,
        message: TextMessage,
        limits: ResourceLimits,
        dave_ready: bool,
        now: u64,
        after: Session,
        link_after: LinkState,
        step: TextStep,
    ) -> bool {
        let data = message.data.value();
        if message.opcode == 8 {
            &&& link_after == link
            &&& step matches TextStep::Hello(hello) && self.hello_leads(link, data, after, hello)
        } else if message.opcode == 2 && link.attempt == Attempt::Identify {
            step matches TextStep::Ready(ready) && self.ready_leads(
                link,
                message.ready,
                after,
                link_after,
                ready,
            )
        } else if message.opcode == 4 {
            &&& after == self
            &&& link_after == link
            &&& step matches TextStep::Describe(describe) && link.described(
                message.description,
                limits,
                describe,
            )
        } else if message.opcode == 6 {
            step matches TextStep::Acknowledge(ack) && self.ack_leads(
                link,
                data,
                now,
                after,
                link_after,
                ack,
            )
        } else if message.opcode == 9 && link.attempt == Attempt::Resume {
            &&& after == self
            &&& link_after == link.resumed(dave_ready)
            &&& step is Done
        } else if message.opcode == 11 {
            &&& after == self
            &&& step matches TextStep::Dave(dave) && link.roster_leads(
                data,
                limits.dave_roster_members,
                link_after,
                dave,
            )
        } else if message.opcode == 13 {
            &&& after == self
            &&& step matches TextStep::Dave(dave) && link.leave_leads(data, link_after, dave)
        } else if message.opcode == 21 || message.opcode == 22 || message.opcode == 24 {
            &&& after == self
            &&& link_after == link
            &&& step matches TextStep::Dave(dave) && link.control_leads(
                message.opcode,
                data,
                dave,
            )
        } else {
            &&& after == self
            &&& link_after == link.puzzled()
            &&& step is Done
        }
    }

    /// What a text message leads to; `None` stands for text that does not have the
    /// shape of a message.
    pub open spec fn text_leads(
        self,
        link: LinkState,
        message: Option<TextMessage>,
        limits: ResourceLimits,
        dave_ready: bool,
        now: u64,
        after: Session,
        link_after: LinkState,
        step: TextStep,
    ) -> bool {
        let protocol = crate::gateway::failure::protocol_failure(link.generation());
        match message {
            None => {
                &&& after == self
                &&& link_after == link
                &&& step matches TextStep::Fatal(error) && error@ == (crate::error::ErrorView {
                    source: Some(ErrorSource::Foreign),
                    ..protocol
                })
            },
            Some(message) => if message.sequence == SequenceField::Fractional {
                &&& after == self
                &&& link_after == link
                &&& step matches TextStep::Fatal(error) && error@ == protocol
            } else {
                self.opcode_leads(
                    link.sequenced(message.sequence),
                    message,
                    limits,
                    dave_ready,
                    now,
                    after,
                    link_after,
                    step,
                )
            },
        }
    }

    /// Takes a text message.
    pub fn text_message(
        &mut self,
        link: &mut Link,
        message: Option<TextMessage>,
        limits: &ResourceLimits,
        dave_ready: bool,
        now: u64,
    ) -> (step: TextStep)
        requires
            limits.consistent(),
        ensures
            old(self).text_leads(
                old(link)@,
                message,
                *limits,
                dave_ready,
                now,
                *final(self),
                final(link)@,
                step,
            ),
    {
        let generation = link.store.generation();
        let message = match message {
            Some(message) => message,
            None => return TextStep::Fatal(
                protocol_error(generation).with_source(ErrorSource::Foreign),
            ),
        };
        match message.sequence {
            SequenceField::Absent => {},
            SequenceField::Integer(number) => {
                link.latest_sequence = Some(number);
            },
            SequenceField::Fractional => return TextStep::Fatal(protocol_error(generation)),
        }
        let opcode: u64 = message.opcode;
        if opcode == 8 {
            TextStep::Hello(self.hello(link, &message.data))
        } else if opcode == 2 && link.attempt == Attempt::Identify {
            TextStep::Ready(self.ready(link, message.ready))
        } else if opcode == 4 {
            TextStep::Describe(describe(link, message.description, limits))
        } else if opcode == 6 {
            TextStep::Acknowledge(self.acknowledge(link, &message.data, now))
        } else if opcode == 9 && link.attempt == Attempt::Resume {
            resumed(link, dave_ready);
            TextStep::Done
        } else if opcode == 11 {
            TextStep::Dave(roster(link, &message.data, limits.dave_roster_members))
        } else if opcode == 13 {
            TextStep::Dave(leave(link, &message.data))
        } else if opcode == 21 || opcode == 22 || opcode == 24 {
            TextStep::Dave(json_control(link, opcode, &message.data))
        } else {
            link.store.unknown_opcode();
            TextStep::Done
        }
    }
}

} // verus!
