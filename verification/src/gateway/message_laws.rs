//! What the messages of the gateway lead to, in terms of what they say.
use vstd::prelude::*;

use crate::audio::executor::{ExecState, Surroundings};
use crate::config::ResourceLimits;
use crate::dave::Control;
use crate::error::{ErrorKind, Operation};
use crate::gateway::decode::ReadyData;
use crate::gateway::description::DescribeStep;
use crate::gateway::dispatch::{TextMessage, TextStep};
use crate::gateway::failure::Attempt;
use crate::gateway::link::{LinkState, SlotState};
use crate::gateway::payload::SequenceNumber;
use crate::gateway::session::{
    AckStep, BeatStep, DaveStep, DiscoveredStep, DiscoveryCompletion, HelloStep, PingStep,
    ReadyStep, SequenceField, Session,
};
use crate::model::{ConnectionGeneration, ConnectionPhase};
use crate::rtp::TransportMode;
use crate::transport::EncoderState;

verus! {

/// One message of the gateway and what it leads to.
pub ghost struct Heard {
    pub session: Session,
    pub link: LinkState,
    pub message: TextMessage,
    pub limits: ResourceLimits,
    pub dave_ready: bool,
    pub now: u64,
    pub after: Session,
    pub link_after: LinkState,
    pub step: TextStep,
}

impl Heard {
    /// The message was taken, and had a sequence number or none.
    pub open spec fn taken(self) -> bool {
        &&& self.message.sequence != SequenceField::Fractional
        &&& self.session.text_leads(
            self.link,
            Some(self.message),
            self.limits,
            self.dave_ready,
            self.now,
            self.after,
            self.link_after,
            self.step,
        )
    }

    /// The step is the failure of the session with a kind.
    pub open spec fn fails(self, kind: ErrorKind) -> bool {
        let error = match self.step {
            TextStep::Hello(HelloStep::Fatal(error)) => Some(error),
            TextStep::Ready(ReadyStep::Fatal(error)) => Some(error),
            TextStep::Acknowledge(AckStep::Fatal(error)) => Some(error),
            TextStep::Dave(DaveStep::Fatal(error)) => Some(error),
            TextStep::Fatal(error) => Some(error),
            _ => None,
        };
        &&& error is Some
        &&& error->0@.kind == kind
        &&& error->0@.generation == Some(self.link.generation())
    }
}

/// The users that a roster message names, each as a positive decimal number, are the roster
/// of the link from then on, in their order. A DAVE owner that runs is handed exactly the
/// roster that the link has after the message; without an owner nothing is run.
pub proof fn rosters_reach_the_owner(heard: Heard)
    requires
        heard.taken(),
        heard.message.opcode == 11,
    ensures
        heard.after == heard.session,
        heard.link_after.dave == heard.link.dave,
        heard.link_after.transport == heard.link.transport,
        heard.link_after.store == heard.link.store,
        match heard.message.data.value().array_member("user_ids"@) {
            Some(named) if named.len() <= heard.limits.dave_roster_members && forall|i: int|
                0 <= i < named.len() ==> {
                    &&& (#[trigger] named[i]).text() is Some
                    &&& crate::text::parsed_u64(named[i].text()->0) is Some
                    &&& crate::text::parsed_u64(named[i].text()->0)->0 > 0
                } => {
                &&& heard.link_after.dave_roster.len() == named.len()
                &&& forall|i: int|
                    0 <= i < named.len() ==> crate::text::parsed_u64(
                        (#[trigger] named[i]).text()->0,
                    ) == Some(heard.link_after.dave_roster[i])
                &&& heard.link.dave ==> {
                    &&& heard.step matches TextStep::Dave(
                        DaveStep::RunQuietly(Control::Roster(listed)),
                    )
                    &&& listed@ == heard.link_after.dave_roster
                }
                &&& !heard.link.dave ==> heard.step matches TextStep::Dave(DaveStep::Done)
            },
            Some(named) if named.len() > heard.limits.dave_roster_members => {
                &&& heard.link_after.dave_roster == heard.link.dave_roster
                &&& heard.fails(ErrorKind::ResourceLimit)
            },
            _ => {
                &&& heard.link_after.dave_roster == heard.link.dave_roster
                &&& heard.fails(ErrorKind::GatewayProtocol)
            },
        },
{
    let data = heard.message.data.value();
    if let Some(named) = data.array_member("user_ids"@) {
        assert forall|i: int| 0 <= i < named.len() implies (crate::gateway::decode::json_user(
            #[trigger] named[i],
        ) is Some <==> {
            &&& named[i].text() is Some
            &&& crate::text::parsed_u64(named[i].text()->0) is Some
            &&& crate::text::parsed_u64(named[i].text()->0)->0 > 0
        }) by {}
    }
}

/// The user that a disconnect message names is not on the roster afterwards, and every other
/// one that was is, in order. A DAVE owner that runs is told of exactly that user.
pub proof fn departures_leave_the_roster(heard: Heard, user: u64)
    requires
        heard.taken(),
        heard.message.opcode == 13,
        heard.message.data.value().member("user_id"@) is Some,
        heard.message.data.value().member("user_id"@)->0.text() is Some,
        crate::text::parsed_u64(heard.message.data.value().member("user_id"@)->0.text()->0)
            == Some(user),
        user != 0,
    ensures
        heard.link_after.dave_roster == heard.link.dave_roster.filter(|member: u64| member != user),
        !heard.link_after.dave_roster.contains(user),
        forall|member: u64|
            member != user ==> (heard.link_after.dave_roster.contains(member)
                <==> #[trigger] heard.link.dave_roster.contains(member)),
        heard.link.dave ==> (heard.step matches TextStep::Dave(
            DaveStep::RunQuietly(Control::MemberDisconnected(left)),
        ) && left == user),
        !heard.link.dave ==> heard.step matches TextStep::Dave(DaveStep::Done),
        heard.link_after.store == heard.link.store,
        heard.link_after.transport == heard.link.transport,
{
    let kept = |member: u64| member != user;
    let before = heard.link.dave_roster;
    assert(heard.link_after.dave_roster == before.filter(kept));
    assert forall|member: u64| member != user implies (heard.link_after.dave_roster.contains(member)
        <==> #[trigger] before.contains(member)) by {
        if before.contains(member) {
            let i = choose|i: int| 0 <= i < before.len() && before[i] == member;
            assert(kept(before[i]));
            before.lemma_filter_contains(kept, i);
        }
        if before.filter(kept).contains(member) {
            before.lemma_filter_contains_rev(kept, member);
        }
    }
    if before.filter(kept).contains(user) {
        let i = choose|i: int|
            0 <= i < before.filter(kept).len() && before.filter(kept)[i] == user;
        before.lemma_filter_pred(kept, i);
    }
}

/// A session that is resumed over a transport that carries media is connected exactly where
/// an audio sender that holds the transport may send over it: without DAVE at once, under
/// DAVE with an owner that is ready. With an owner that is not ready it establishes DAVE.
pub proof fn resumed_sessions_are_connected_when_media_may_flow(
    heard: Heard,
    sender: ExecState,
    around: Surroundings,
    encoder: EncoderState,
)
    requires
        heard.taken(),
        heard.message.opcode == 9,
        heard.link.attempt == Attempt::Resume,
        heard.link.transport is Some,
        heard.link.transport->0.session_ready,
        sender.transport is Some,
        sender.transport->0.generation == heard.link.generation(),
        sender.transport->0.dave_protocol_version
            == heard.link.transport->0.dave_protocol_version,
        sender.transport->0.has_dave == heard.link.transport->0.has_dave,
        around.phase == ConnectionPhase::Connected,
        around.generation == heard.link.generation(),
        around.dave_ready == heard.dave_ready,
    ensures
        ({
            let phase = heard.link_after.store.current.phase;
            let slot = heard.link.transport->0;
            &&& phase == ConnectionPhase::Connected <==> sender.ready(around)
            &&& phase == ConnectionPhase::Connected <==> heard.link_after.unattached().with_encoder(
                Some(encoder),
            ).attach_failure(true, heard.dave_ready) is None
            &&& slot.dave_protocol_version == 0 ==> phase == ConnectionPhase::Connected
            &&& slot.dave_protocol_version != 0 && slot.has_dave && heard.dave_ready ==> phase
                == ConnectionPhase::Connected
            &&& slot.dave_protocol_version != 0 && !heard.dave_ready ==> phase
                == ConnectionPhase::EstablishingDave
            &&& slot.dave_protocol_version != 0 && !slot.has_dave ==> phase
                == ConnectionPhase::EstablishingDave
        }),
        heard.step is Done,
        heard.link_after.transport == heard.link.transport,
{
}

/// A resumed session has its full budget of attempts again, counts one more success, and
/// keeps its sequence number. Without a transport that carries media it establishes one.
pub proof fn resumed_sessions_start_afresh(heard: Heard)
    requires
        heard.taken(),
        heard.message.opcode == 9,
        heard.link.attempt == Attempt::Resume,
    ensures
        heard.after == heard.session,
        heard.link_after.reconnect_attempts == 0,
        heard.link.store.current.stats.resume_successes < u64::MAX
            ==> heard.link_after.store.current.stats.resume_successes
            == heard.link.store.current.stats.resume_successes + 1,
        heard.link.transport is None || !heard.link.transport->0.session_ready
            ==> heard.link_after.store.current.phase == ConnectionPhase::EstablishingTransport,
        heard.link_after.generation() == heard.link.generation(),
        heard.link_after.dave_roster == heard.link.dave_roster,
        heard.link_after.initial == heard.link.initial,
{
}

/// Whatever a message is about, a sequence number that it carries is the one that the next
/// heartbeat and the next resumption acknowledge; a message without one leaves it.
pub proof fn sequence_numbers_are_acknowledged(heard: Heard)
    requires
        heard.taken(),
    ensures
        heard.message.sequence matches SequenceField::Integer(number)
            ==> heard.link_after.latest_sequence == Some(number),
        heard.message.sequence is Absent ==> heard.link_after.latest_sequence
            == heard.link.latest_sequence,
        heard.message.sequence matches SequenceField::Integer(SequenceNumber::Unsigned(number))
            ==> heard.link_after.beat().contents().unsigned_member("seq_ack"@) == Some(number),
{
    let latest = heard.link_after.latest_sequence;
    if let SequenceField::Integer(SequenceNumber::Unsigned(number)) = heard.message.sequence {
        crate::gateway::payload::heartbeats_carry_their_number(
            heard.link_after.heartbeat_nonce,
            number,
            0,
        );
    }
}

/// A number that is no integer, and a text that is no message, fail the session and change
/// nothing.
pub proof fn unreadable_messages_fail_the_session(
    session: Session,
    link: LinkState,
    message: Option<TextMessage>,
    limits: ResourceLimits,
    dave_ready: bool,
    now: u64,
    after: Session,
    link_after: LinkState,
    step: TextStep,
)
    requires
        session.text_leads(link, message, limits, dave_ready, now, after, link_after, step),
        message is None || message->0.sequence == SequenceField::Fractional,
    ensures
        after == session,
        link_after == link,
        step matches TextStep::Fatal(error) && error@.kind == ErrorKind::GatewayProtocol,
{
}

/// The first hello with an interval between ten milliseconds and five minutes opens the
/// session at that interval; any other hello, and a second one, fails it. A fresh session
/// identifies, one that is resumed resumes with the number that came last.
pub proof fn hello_opens_the_session_once(heard: Heard)
    requires
        heard.taken(),
        heard.message.opcode == 8,
    ensures
        ({
            let interval = heard.message.data.value().unsigned_member("heartbeat_interval"@);
            if heard.session.heartbeat_interval is None && interval is Some && 10 <= interval->0
                <= 300_000 {
                &&& heard.after.heartbeat_interval is Some
                &&& heard.after.heartbeat_interval->0 == interval->0 * 1_000_000
                &&& heard.after.heartbeat_deadline == heard.session.heartbeat_deadline
                &&& heard.after.outstanding == heard.session.outstanding
                &&& heard.step matches TextStep::Hello(HelloStep::Open(opening))
                &&& heard.link.attempt == Attempt::Identify ==> opening.value().unsigned_member(
                    "op"@,
                ) == Some(0u64)
                &&& heard.link.attempt == Attempt::Resume ==> {
                    &&& opening.value().unsigned_member("op"@) == Some(7u64)
                    &&& opening.value().contents().member("seq_ack"@)
                        == heard.link_after.beat().contents().member("seq_ack"@)
                }
                &&& opening.value().contents().text_member("session_id"@) == Some(
                    heard.link.info.session_id,
                )
            } else {
                heard.after == heard.session && heard.fails(ErrorKind::GatewayProtocol)
            }
        }),
        heard.link_after.store == heard.link.store,
        heard.link_after.transport == heard.link.transport,
{
    crate::gateway::payload::identification_carries_the_voice_information(heard.link.info);
    crate::gateway::payload::resumption_names_the_identified_session(
        heard.link.info,
        heard.link_after.latest_sequence,
        heard.link_after.heartbeat_nonce,
    );
}

/// A ready message while identifying drops the transport that was there and asks for the
/// discovery of the stream, the address and the port that it names, for the current
/// generation. Of the modes on offer AES is preferred.
pub proof fn ready_messages_ask_for_discovery(heard: Heard, ready: ReadyData)
    requires
        heard.taken(),
        heard.message.opcode == 2,
        heard.link.attempt == Attempt::Identify,
        heard.message.ready == Some(ready),
    ensures
        ({
            let aes = crate::transport::offers(ready.modes@, TransportMode::Aes256GcmRtpSize);
            let chacha = crate::transport::offers(
                ready.modes@,
                TransportMode::XChaCha20Poly1305RtpSize,
            );
            if ready.port == 0 || ready.modes@.len() == 0 || ready.modes@.len() > 32 {
                heard.fails(ErrorKind::GatewayProtocol) && heard.after == heard.session
            } else if !aes && !chacha {
                heard.fails(ErrorKind::UnsupportedTransport) && heard.after == heard.session
            } else {
                &&& heard.step matches TextStep::Ready(
                    ReadyStep::Discover { ip, port, ssrc, mode, generation },
                )
                &&& ip == ready.ip
                &&& port == ready.port
                &&& ssrc == ready.ssrc
                &&& generation == heard.link.generation()
                &&& mode == TransportMode::Aes256GcmRtpSize <==> aes
                &&& mode == TransportMode::XChaCha20Poly1305RtpSize <==> !aes
                &&& heard.after.discovery_running
                &&& heard.link_after.transport is None
                &&& heard.link_after.reconnect_attempts == 0
                &&& heard.link_after.store.current.phase == ConnectionPhase::EstablishingTransport
            }
        }),
        heard.link_after.dave == heard.link.dave,
        heard.link_after.initial == heard.link.initial,
        heard.link_after.attachment == heard.link.attachment,
{
}

/// A ready message while resuming, a resumed message while identifying and every opcode
/// without a meaning are counted, and do nothing else.
pub proof fn meaningless_messages_are_counted(heard: Heard)
    requires
        heard.taken(),
        heard.message.sequence is Absent,
        ({
            let opcode = heard.message.opcode;
            ||| opcode == 2 && heard.link.attempt == Attempt::Resume
            ||| opcode == 9 && heard.link.attempt == Attempt::Identify
            ||| !(opcode == 2 || opcode == 4 || opcode == 6 || opcode == 8 || opcode == 9 || opcode
                == 11 || opcode == 13 || opcode == 21 || opcode == 22 || opcode == 24)
        }),
        heard.link.store.current.stats.unknown_opcodes < u64::MAX,
    ensures
        heard.step is Done,
        heard.after == heard.session,
        heard.link_after.store.current.stats.unknown_opcodes
            == heard.link.store.current.stats.unknown_opcodes + 1,
        heard.link_after.store.current.phase == heard.link.store.current.phase,
        heard.link_after.store.events == heard.link.store.events,
        heard.link_after.transport == heard.link.transport,
        heard.link_after.dave_roster == heard.link.dave_roster,
        heard.link_after.reconnect_attempts == heard.link.reconnect_attempts,
{
}

/// A JSON control of DAVE is run where an owner runs, with the numbers that it carries;
/// one that lacks a number, and one without an owner, fails the session.
pub proof fn controls_are_run_with_their_numbers(heard: Heard)
    requires
        heard.taken(),
        heard.message.opcode == 21 || heard.message.opcode == 22 || heard.message.opcode == 24,
    ensures
        ({
            let data = heard.message.data.value();
            let version = data.unsigned_member("protocol_version"@);
            let id = data.unsigned_member("transition_id"@);
            let epoch = data.unsigned_member("epoch"@);
            let opcode = heard.message.opcode;
            let known = opcode == 22 || version is Some && version->0 < 65_536;
            let numbered = if opcode == 24 {
                epoch is Some
            } else {
                id is Some && id->0 < 65_536
            };
            if heard.link.dave && known && numbered {
                &&& heard.step matches TextStep::Dave(DaveStep::Run(control))
                &&& opcode == 21 ==> (control matches Control::PrepareTransition {
                    protocol_version,
                    id: asked,
                } && protocol_version == version->0 && asked == id->0)
                &&& opcode == 22 ==> (control matches Control::ExecuteTransition { id: asked }
                    && asked == id->0)
                &&& opcode == 24 ==> (control matches Control::PrepareEpoch {
                    protocol_version,
                    epoch: asked,
                } && protocol_version == version->0 && asked == epoch->0)
            } else {
                heard.fails(ErrorKind::GatewayProtocol)
            }
        }),
        heard.after == heard.session,
        heard.link_after.store == heard.link.store,
        heard.link_after.dave_roster == heard.link.dave_roster,
        heard.link_after.transport == heard.link.transport,
{
}

/// A binary message within its bounds carries its sequence number in front, the high byte
/// first, and its body behind the opcode; the owner runs exactly that body.
pub proof fn binary_messages_carry_their_body(
    link: LinkState,
    bytes: Seq<u8>,
    limits: ResourceLimits,
    after: LinkState,
    step: DaveStep,
)
    requires
        link.binary_leads(bytes, limits, after, step),
        bytes.len() <= limits.gateway_binary_bytes,
        3 <= bytes.len() <= limits.dave_binary_body_bytes + 3,
    ensures
        step !is Fatal ==> {
            &&& after.latest_sequence matches Some(SequenceNumber::Unsigned(number))
            &&& number == bytes[0] * 256 + bytes[1]
        },
        step matches DaveStep::Run(control) ==> {
            &&& link.dave
            &&& match control {
                Control::ExternalSender(body) => bytes[2] == 25 && bytes.skip(3) == body@,
                Control::Proposals(body) => bytes[2] == 27 && bytes.skip(3) == body@,
                Control::Commit(body) => bytes[2] == 29 && bytes.skip(3) == body@,
                Control::Welcome(body) => bytes[2] == 30 && bytes.skip(3) == body@,
                _ => false,
            }
        },
        !(bytes[2] == 25 || bytes[2] == 27 || bytes[2] == 29 || bytes[2] == 30) ==> {
            &&& step is Done
            &&& link.store.current.stats.unknown_opcodes < u64::MAX
                ==> after.store.current.stats.unknown_opcodes
                == link.store.current.stats.unknown_opcodes + 1
        },
        (bytes[2] == 25 || bytes[2] == 29 || bytes[2] == 30) && bytes.len() >= 7 ==> (step is Run
            <==> link.dave),
        bytes[2] == 27 && bytes.len() >= 5 && bytes[3] <= 1 ==> (step is Run <==> link.dave),
        bytes[2] == 27 && bytes.len() >= 5 && bytes[3] > 1 ==> step is Fatal,
        step !is RunQuietly,
        after.dave_roster == link.dave_roster,
        after.transport == link.transport,
{
    assert(bytes.skip(3) =~= crate::gateway::decode::envelope_body(bytes));
}

/// A message over its bound fails the session for want of room and changes nothing.
pub proof fn oversized_binaries_are_refused(
    link: LinkState,
    bytes: Seq<u8>,
    limits: ResourceLimits,
    after: LinkState,
    step: DaveStep,
)
    requires
        link.binary_leads(bytes, limits, after, step),
        bytes.len() > limits.gateway_binary_bytes || bytes.len() > limits.dave_binary_body_bytes
            + 3,
    ensures
        after == link,
        bytes.len() >= 3 ==> (step matches DaveStep::Fatal(error) && error@.kind
            == ErrorKind::ResourceLimit),
{
}

/// Heartbeats are numbered one after the other: the one that is sent carries the number
/// behind the latest and acknowledges what came last, and nothing else of the link changes.
pub proof fn heartbeats_count_up(
    session: Session,
    link: LinkState,
    now: u64,
    after: Session,
    link_after: LinkState,
    step: BeatStep,
)
    requires
        session.beat_leads(link, now, after, link_after, step),
    ensures
        step matches BeatStep::Send(beat) ==> {
            &&& session.outstanding is None
            &&& link_after.heartbeat_nonce == link.heartbeat_nonce + 1
            &&& beat.value().unsigned_member("op"@) == Some(3u64)
            &&& beat.value().contents().unsigned_member("t"@) == Some(link_after.heartbeat_nonce)
            &&& link.latest_sequence matches Some(SequenceNumber::Unsigned(number))
                ==> beat.value().contents().unsigned_member("seq_ack"@) == Some(number)
            &&& after.missed_heartbeats == session.missed_heartbeats
        },
        step is Send <==> session.outstanding is None && link.heartbeat_nonce < u64::MAX,
        session.outstanding is Some && session.missed_heartbeats == 0 ==> step is Waiting
            && after.missed_heartbeats == 1,
        session.outstanding is Some && session.missed_heartbeats > 0 ==> step is GiveUp
            && after.pending_pings == 0,
        step !is GiveUp ==> after.pending_pings == session.pending_pings,
        after.outstanding == session.outstanding,
        link_after.latest_sequence == link.latest_sequence,
        link_after.transport == link.transport,
        link_after.attempt == link.attempt,
        link_after.store.events == link.store.events,
        session.heartbeat_deadline is Some && session.heartbeat_interval is Some ==> {
            let deadline = session.heartbeat_deadline->0;
            let interval = session.heartbeat_interval->0;
            &&& after.heartbeat_deadline is Some
            &&& now < deadline + interval <= u64::MAX ==> after.heartbeat_deadline->0 - deadline
                == interval
            &&& deadline + interval <= now && now + interval <= u64::MAX
                ==> after.heartbeat_deadline->0 - now == interval
        },
        after.heartbeat_interval == session.heartbeat_interval,
{
    crate::gateway::payload::heartbeats_carry_their_number(
        link_after.heartbeat_nonce,
        match link.latest_sequence {
            Some(SequenceNumber::Unsigned(number)) => number,
            _ => 0,
        },
        0,
    );
}

/// The acknowledgement of the heartbeat in flight is worth the time since it was sent: the
/// pings are told that time, and the connection shows it.
pub proof fn acknowledgements_measure_the_round_trip(
    session: Session,
    link: LinkState,
    data: crate::json::JsonValue,
    nonce: u64,
    sent: u64,
    received: u64,
    after: Session,
    link_after: LinkState,
    step: AckStep,
)
    requires
        session.ack_leads(link, data, received, after, link_after, step),
        session.outstanding == Some((nonce, sent)),
        data.unsigned_member("t"@) == Some(nonce),
        sent <= received,
    ensures
        step matches AckStep::Pong(rtt) && rtt == received - sent,
        link_after.store.current.gateway_rtt is Some,
        link_after.store.current.gateway_rtt->0 == received - sent,
        link_after.store.current.phase == link.store.current.phase,
        link_after.store.events == link.store.events,
        after.outstanding is None,
        after.pending_pings == 0,
        after.missed_heartbeats == 0,
        after.heartbeat_deadline == session.heartbeat_deadline,
        after.heartbeat_interval == session.heartbeat_interval,
{
}

/// A ping shares the heartbeat in flight, and sends one of its own only where none is. It
/// is refused before the session is open and at the bound, and counted otherwise.
pub proof fn pings_share_heartbeats(
    session: Session,
    link: LinkState,
    capacity: usize,
    after: Session,
    link_after: LinkState,
    step: PingStep,
)
    requires
        session.ping_leads(link, capacity, after, link_after, step),
        link.heartbeat_nonce < u64::MAX,
    ensures
        step is Refuse <==> session.heartbeat_interval is None || session.pending_pings
            >= capacity,
        step is Refuse ==> after == session && link_after == link,
        step is Wait ==> session.outstanding is Some && link_after == link,
        step matches PingStep::Send(beat) ==> {
            &&& session.outstanding is None
            &&& link_after.heartbeat_nonce == link.heartbeat_nonce + 1
            &&& beat.value().unsigned_member("op"@) == Some(3u64)
            &&& beat.value().contents().unsigned_member("t"@) == Some(link_after.heartbeat_nonce)
        },
        step !is Refuse ==> after.pending_pings == session.pending_pings + 1,
        step !is Refuse ==> (step is Wait <==> session.outstanding is Some),
        step matches PingStep::Refuse(error) ==> (error@.kind == ErrorKind::Overloaded
            <==> session.heartbeat_interval is Some),
        after.outstanding == session.outstanding,
        after.heartbeat_deadline == session.heartbeat_deadline,
{
    crate::gateway::payload::heartbeats_carry_their_number(link_after.heartbeat_nonce, 0, 0);
}

/// A discovery of the current generation gives the link a transport with the discovered
/// socket, stream and mode that carries no media yet, and its public address is selected.
/// One of an earlier generation is dropped.
pub proof fn discoveries_belong_to_their_generation(
    session: Session,
    link: LinkState,
    completion: DiscoveryCompletion,
    after: Session,
    link_after: LinkState,
    step: DiscoveredStep,
)
    requires
        session.discovery_leads(link, Some(completion), after, link_after, step),
    ensures
        !after.discovery_running,
        after.outstanding == session.outstanding,
        completion.generation != link.generation() ==> step is Stale && link_after == link,
        completion.generation == link.generation() ==> match completion.result {
            None => {
                &&& link_after == link
                &&& step matches DiscoveredStep::Fatal(error) && error@.kind
                    == ErrorKind::UdpDiscovery
            },
            Some((socket, public)) => {
                &&& link_after.transport is Some
                &&& link_after.transport->0.socket == socket
                &&& link_after.transport->0.ssrc == completion.ssrc
                &&& link_after.transport->0.selected_mode == completion.mode
                &&& link_after.transport->0.encoder is None
                &&& !link_after.transport_ready()
                &&& link_after.store == link.store
                &&& link_after.dave == link.dave
                &&& step matches DiscoveredStep::Select(json)
                &&& json.value().unsigned_member("op"@) == Some(1u64)
                &&& json.value().contents().member("data"@) is Some
                &&& json.value().contents().member("data"@)->0.text_member("address"@) == Some(
                    public.address@,
                )
                &&& json.value().contents().member("data"@)->0.unsigned_member("port"@) == Some(
                    public.port as u64,
                )
                &&& json.value().contents().member("data"@)->0.text_member("mode"@) == Some(
                    completion.mode.wire_name(),
                )
            },
        },
{
    if let Some((socket, public)) = completion.result {
        crate::gateway::payload::selections_carry_the_public_address(
            public.address@,
            public.port,
            completion.mode,
        );
    }
}

/// An audio sender that is in force over a transport that carries media may announce itself,
/// and the announcement is for its stream.
pub proof fn announcements_need_a_ready_transport(
    link: LinkState,
    slot: SlotState,
    audio_id: u64,
    generation: ConnectionGeneration,
)
    requires
        link.transport == Some(slot),
        link.attachment == Some(audio_id),
        generation == link.generation(),
    ensures
        link.speaking_failure(audio_id, generation) is None <==> slot.session_ready,
        !slot.session_ready ==> link.speaking_failure(audio_id, generation)->0.kind
            == ErrorKind::EndpointOrTls,
{
}

/// An acknowledgement and a session description are passed on as what they are: the one
/// settles the heartbeat whose number it carries, with the time since it was sent; the other
/// is held against the transport that waits for it, and changes nothing yet.
pub proof fn acknowledgements_and_descriptions_are_passed_on(heard: Heard, nonce: u64, sent: u64)
    requires
        heard.taken(),
    ensures
        heard.message.opcode == 6 ==> {
            &&& heard.step is Acknowledge
            &&& heard.message.data.value().unsigned_member("t"@) is None ==> heard.fails(
                ErrorKind::GatewayProtocol,
            ) && heard.after == heard.session
            &&& heard.session.outstanding == Some((nonce, sent)) && sent <= heard.now
                && heard.message.data.value().unsigned_member("t"@) == Some(nonce) ==> {
                &&& heard.step matches TextStep::Acknowledge(AckStep::Pong(rtt))
                &&& rtt == heard.now - sent
                &&& heard.after.outstanding is None
                &&& heard.after.pending_pings == 0
            }
        },
        heard.message.opcode == 4 ==> {
            &&& heard.step is Describe
            &&& heard.after == heard.session
            &&& heard.link_after.transport == heard.link.transport
            &&& heard.link_after.store == heard.link.store
            &&& heard.message.description is None ==> heard.step matches TextStep::Describe(
                DescribeStep::Fatal(error),
            )
        },
{
}

/// A disconnect message that does not name a user fails the session, and the roster stays.
pub proof fn nameless_departures_fail_the_session(heard: Heard)
    requires
        heard.taken(),
        heard.message.opcode == 13,
        ({
            let user = heard.message.data.value().member("user_id"@);
            ||| user is None
            ||| user->0.text() is None
            ||| crate::text::parsed_u64(user->0.text()->0) is None
            ||| crate::text::parsed_u64(user->0.text()->0) == Some(0u64)
        }),
    ensures
        heard.fails(ErrorKind::GatewayProtocol),
        heard.link_after.dave_roster == heard.link.dave_roster,
        heard.after == heard.session,
{
}

/// A description whose encoder was made is accepted in the version without DAVE and in the one
/// that is spoken, with that encoder; an owner is started where DAVE is asked for and none
/// runs. Any other version is not supported, and without an encoder the session fails.
pub proof fn made_encoders_are_accepted(
    link: LinkState,
    encoder: EncoderState,
    version: u16,
    step: DescribeStep,
)
    ensures
        link.description_leads(Some(encoder), version, step) && version <= 1 ==> {
            &&& step matches DescribeStep::Accept { encoder: accepted, version: agreed, start_dave }
            &&& accepted@ == encoder
            &&& agreed == version
            &&& start_dave <==> version == 1 && !link.dave
        },
        link.description_leads(Some(encoder), version, step) && version > 1 ==> (step matches
            DescribeStep::Fatal(error) && error@.kind == ErrorKind::DaveUnsupported),
        link.description_leads(None, version, step) ==> (step matches DescribeStep::Fatal(error)
            && error@.kind == ErrorKind::TransportCrypto),
{
}

/// Once the numbers of heartbeats are used up, a deadline gives the session up and a ping
/// fails it; nothing is sent under a number that was used before.
pub proof fn used_up_numbers_end_the_session(
    session: Session,
    link: LinkState,
    now: u64,
    capacity: usize,
    after: Session,
    link_after: LinkState,
    beat: BeatStep,
    ping: PingStep,
)
    requires
        link.heartbeat_nonce == u64::MAX,
        session.outstanding is None,
    ensures
        session.beat_leads(link, now, after, link_after, beat) ==> beat is GiveUp && link_after
            == link && after.pending_pings == 0,
        session.ping_leads(link, capacity, after, link_after, ping)
            && session.heartbeat_interval is Some && session.pending_pings < capacity ==> {
            &&& ping matches PingStep::Fatal(error)
            &&& error@.kind == ErrorKind::ResourceLimit
            &&& error@.operation == Operation::Ping
            &&& after.pending_pings == 0
            &&& link_after == link
        },
{
}

/// A new session is not open: it has no heartbeat and no discovery under way, and the first
/// hello decides its interval.
pub proof fn new_sessions_are_not_open()
    ensures
        Session::fresh().heartbeat_interval is None,
        Session::fresh().heartbeat_deadline is None,
        Session::fresh().outstanding is None,
        Session::fresh().missed_heartbeats == 0,
        Session::fresh().pending_pings == 0,
        !Session::fresh().discovery_running,
{
}

} // verus!
