//! What holds of the gateway client across several steps.
use vstd::prelude::*;

use crate::config::ResourceLimits;
use crate::error::{ErrorKind, Operation, RetryDisposition};
use crate::gateway::backoff::MAX_RECONNECT_ATTEMPTS;
use crate::gateway::decode::SessionDescriptionData;
use crate::gateway::description::DescribeStep;
use crate::gateway::dispatch::{StreamEnd, Written};
use crate::gateway::failure::{Attempt, ClosePolicy};
use crate::gateway::link::{
    Continuation, IdleCommand, InitialValue, InstalledState, LinkState, OutcomeValue,
    SessionOutcome, SlotState,
};
use crate::gateway::payload::SequenceNumber;
use crate::gateway::session::{AckStep, BeatStep, PingStep, Session};
use crate::model::{CloseReason, ConnectInfo, ConnectionGeneration, ConnectionPhase};
use crate::transport::EncoderState;

verus! {

/// The attempts in a row stay within their budget as long as the connection goes on;
/// the attempt beyond it fails the connection.
pub proof fn attempts_stay_within_their_budget(
    link: LinkState,
    outcome: OutcomeValue,
    continuation: Continuation,
)
    requires
        link.reconnect_attempts <= MAX_RECONNECT_ATTEMPTS,
        link.continues(outcome, continuation),
    ensures
        continuation !is Finished ==> link.session_ended(outcome).reconnect_attempts
            <= MAX_RECONNECT_ATTEMPTS,
        (outcome is Resume || outcome is FreshIdentify) && link.reconnect_attempts
            == MAX_RECONNECT_ATTEMPTS ==> {
            &&& continuation is Finished
            &&& link.session_ended(outcome).store.current.phase == ConnectionPhase::Failed
        },
        outcome is Resume || outcome is FreshIdentify ==> link.session_ended(
            outcome,
        ).reconnect_attempts == link.reconnect_attempts + 1,
{
}

/// The caller who connects is answered once: the first answer stands.
pub proof fn the_first_answer_stands(
    link: LinkState,
    first: Result<(), crate::error::ErrorView>,
    second: Result<(), crate::error::ErrorView>,
)
    ensures
        link.answered(first).answered(second) == link.answered(first),
        link.initial is Waiting ==> link.answered(first).initial == InitialValue::Ready(first),
        link.initial !is Waiting ==> link.answered(first) == link,
{
}

/// A session is resumed only where it has a sequence number to acknowledge and a
/// transport to keep. Otherwise the next session identifies afresh and keeps nothing.
pub proof fn resuming_needs_a_session(link: LinkState, continuation: Continuation)
    requires
        link.continues(OutcomeValue::Resume, continuation),
        continuation is Backoff,
    ensures
        ({
            let after = link.session_ended(OutcomeValue::Resume);
            if link.latest_sequence is Some && link.transport is Some {
                &&& after.attempt == Attempt::Resume
                &&& after.latest_sequence == link.latest_sequence
                &&& after.transport == link.transport
                &&& after.dave == link.dave
            } else {
                &&& after.attempt == Attempt::Identify
                &&& after.latest_sequence is None
                &&& after.transport is None
                &&& !after.dave
            }
        }),
{
}

/// Fresh voice information starts a session that keeps nothing of the one before.
pub proof fn replacing_keeps_nothing(left: LinkState, right: LinkState, info: ConnectInfo)
    ensures
        left.replaced(info).attempt == Attempt::Identify,
        left.replaced(info).reconnect_attempts == 0,
        left.replaced(info).latest_sequence is None,
        left.replaced(info).transport is None,
        !left.replaced(info).dave,
        left.replaced(info).dave_roster.len() == 0,
        left.heartbeat_nonce == right.heartbeat_nonce && left.attachment == right.attachment
            && left.store == right.store && left.initial == right.initial ==> left.replaced(info)
            == right.replaced(info),
{
}

/// What the budget, a fatal failure or a close ended stays ended: shutting down leaves
/// its outcome.
pub proof fn an_ended_connection_stays_ended(link: LinkState, error: crate::error::ErrorView)
    ensures
        link.terminated(error).shut_down().store == link.terminated(error).store,
        link.shut_down().shut_down().store == link.shut_down().store,
        link.session_ended(OutcomeValue::CleanRemote).shut_down().store == link.session_ended(
            OutcomeValue::CleanRemote,
        ).store,
{
}

/// A heartbeat that is never acknowledged ends the session: the first deadline that
/// passes over it is let go, the second one is not.
pub proof fn two_missed_heartbeats_end_the_session(
    session: Session,
    link: LinkState,
    first: u64,
    middle: Session,
    middle_link: LinkState,
    first_step: BeatStep,
    second: u64,
    last: Session,
    last_link: LinkState,
    second_step: BeatStep,
)
    requires
        session.outstanding is Some,
        session.missed_heartbeats == 0,
        session.beat_leads(link, first, middle, middle_link, first_step),
        middle.beat_leads(middle_link, second, last, last_link, second_step),
    ensures
        first_step is Waiting,
        middle_link == link,
        second_step is GiveUp,
        last.pending_pings == 0,
        last_link.store.current.stats.heartbeat_timeouts == crate::model::counted(
            link.store.current.stats.heartbeat_timeouts,
        ),
{
}

/// An acknowledgement of the heartbeat in flight settles it: nothing counts as missed,
/// no ping waits, and the next deadline sends a heartbeat with a new number, unless the
/// numbers are used up.
pub proof fn an_acknowledgement_settles_the_heartbeat(
    session: Session,
    link: LinkState,
    data: crate::json::JsonValue,
    received: u64,
    middle: Session,
    middle_link: LinkState,
    ack: AckStep,
    due: u64,
    last: Session,
    last_link: LinkState,
    beat: BeatStep,
)
    requires
        session.ack_leads(link, data, received, middle, middle_link, ack),
        ack is Pong,
        middle.beat_leads(middle_link, due, last, last_link, beat),
    ensures
        middle.outstanding is None,
        middle.missed_heartbeats == 0,
        middle.pending_pings == 0,
        !link.beats_exhausted() ==> beat is Send && last_link.heartbeat_nonce
            == link.heartbeat_nonce + 1,
{
}

/// An acknowledgement of another heartbeat than the one in flight changes nothing.
pub proof fn foreign_acknowledgements_are_ignored(
    session: Session,
    link: LinkState,
    data: crate::json::JsonValue,
    nonce: u64,
    received: u64,
    after: Session,
    link_after: LinkState,
    ack: AckStep,
)
    requires
        data.unsigned_member("t"@) == Some(nonce),
        session.outstanding is None || session.beat_in_flight().0 != nonce,
        session.ack_leads(link, data, received, after, link_after, ack),
    ensures
        ack is Ignore,
        after == session,
        link_after == link,
{
}

/// The pings that wait never outnumber the bound.
pub proof fn pings_are_bounded(
    session: Session,
    link: LinkState,
    capacity: usize,
    after: Session,
    link_after: LinkState,
    step: PingStep,
)
    requires
        session.pending_pings <= capacity,
        session.ping_leads(link, capacity, after, link_after, step),
    ensures
        after.pending_pings <= capacity,
        session.pending_pings == capacity ==> step is Refuse && after == session,
{
}

/// The encoder of a transport is with one holder: once an audio sender has it, no other
/// gets it, whatever became of the sender's handle and of the DAVE owner. What the
/// sender gives back of the transport in force can be attached again.
pub proof fn the_encoder_has_one_holder(
    link: LinkState,
    sender_gone: bool,
    dave_ready: bool,
    audio_id: u64,
    returned: InstalledState,
)
    requires
        link.attach_failure(sender_gone, dave_ready) is None,
    ensures
        ({
            let attached = LinkState {
                attachment: Some(audio_id),
                ..link.unattached().with_encoder(None)
            };
            &&& forall|gone: bool, ready: bool| #[trigger]
                attached.attach_failure(gone, ready) is Some
            &&& attached.detached(audio_id, returned).attachment is None
            &&& returned.generation == link.generation() && returned.socket
                == link.transport->0.socket ==> {
                &&& attached.detached(audio_id, returned).transport->0.encoder == Some(
                    returned.encoder,
                )
                &&& attached.detached(audio_id, returned).attach_failure(true, dave_ready) is None
            }
        }),
{
}

/// An audio sender that is not in force, or that speaks for another generation, is
/// refused: it announces nothing, renews nothing and gives nothing back.
pub proof fn superseded_senders_are_refused(
    link: LinkState,
    audio_id: u64,
    generation: ConnectionGeneration,
    returned: InstalledState,
)
    requires
        link.superseded(audio_id, generation),
    ensures
        link.speaking_failure(audio_id, generation) == Some(
            crate::gateway::failure::superseded_audio_failure(link.generation()),
        ),
        link.attachment != Some(audio_id) ==> link.detached(audio_id, returned) == link,
        returned.generation != link.generation() ==> link.detached(audio_id, returned).transport
            == link.transport,
{
}

/// A transport carries no media before its session description, and none under DAVE
/// before the owner is ready.
pub proof fn media_waits_for_readiness(link: LinkState, sender_gone: bool, dave_ready: bool)
    ensures
        link.attach_failure(sender_gone, dave_ready) is None ==> {
            &&& link.transport is Some
            &&& link.transport->0.session_ready
            &&& link.transport->0.dave_protocol_version == 0 || (link.transport->0.has_dave
                && dave_ready)
        },
{
}

/// Every close code that is not listed asks for a resume.
pub proof fn unlisted_codes_ask_for_a_resume(code: u16)
    requires
        code != 1000,
        !(4001 <= code <= 4006),
        code != 4009,
        code != 4011,
        code != 4012,
        code != 4014,
        code != 4016,
        code != 4017,
        !(4020 <= code <= 4022),
    ensures
        crate::gateway::failure::close_policy(code) == ClosePolicy::Resume,
{
}

/// An attempt that did not reach the gateway, within the budget, keeps the session
/// resumable: where a sequence number is known the next attempt opens with a resumption that
/// acknowledges that number, and only without one with an identification. Nothing of the
/// session is lost.
pub proof fn unreached_gateways_keep_the_session_resumable(link: LinkState, timed_out: bool)
    requires
        link.reconnect_attempts < 4,
    ensures
        ({
            let after = link.connect_failed(link.connect_failure(timed_out));
            &&& after.latest_sequence == link.latest_sequence
            &&& after.transport == link.transport
            &&& after.dave == link.dave
            &&& after.dave_roster == link.dave_roster
            &&& after.attachment == link.attachment
            &&& after.info == link.info
            &&& after.initial == link.initial
            &&& after.store == link.store
            &&& after.reconnect_attempts == link.reconnect_attempts + 1
            &&& link.latest_sequence is Some ==> {
                &&& after.attempt == Attempt::Resume
                &&& after.opening().unsigned_member("op"@) == Some(7u64)
                &&& after.opening().contents().member("seq_ack"@) == link.beat().contents().member(
                    "seq_ack"@,
                )
                &&& after.attempt_begun().store.current.phase == ConnectionPhase::Resuming
            }
            &&& link.latest_sequence is None ==> {
                &&& after.attempt == Attempt::Identify
                &&& after.opening().unsigned_member("op"@) == Some(0u64)
                &&& after.attempt_begun().store.current.phase == ConnectionPhase::Reconnecting
            }
            &&& after.opening().contents().text_member("session_id"@) == Some(
                link.info.session_id,
            )
        }),
{
    crate::gateway::payload::identification_carries_the_voice_information(link.info);
    crate::gateway::payload::resumption_names_the_identified_session(
        link.info,
        link.latest_sequence,
        link.heartbeat_nonce,
    );
}

/// The number that a resumption acknowledges is the one that came last.
pub proof fn resumptions_acknowledge_the_latest_number(link: LinkState, number: u64)
    requires
        link.attempt == Attempt::Resume,
        link.latest_sequence == Some(SequenceNumber::Unsigned(number)),
    ensures
        link.opening().contents().unsigned_member("seq_ack"@) == Some(number),
{
    crate::gateway::payload::resumption_names_the_identified_session(
        link.info,
        link.latest_sequence,
        link.heartbeat_nonce,
    );
}

/// The attempt beyond the budget of four fails the connection for good, whichever way the
/// gateway was not reached: the failure is on record, and a caller who still waits learns
/// of it.
pub proof fn unreached_gateways_end_the_connection_beyond_the_budget(
    link: LinkState,
    timed_out: bool,
    continuation: Continuation,
)
    requires
        link.connect_continues(timed_out, continuation),
    ensures
        continuation is Finished <==> link.reconnect_attempts >= 4,
        continuation is Retry <==> timed_out && link.reconnect_attempts < 4,
        continuation is Backoff <==> !timed_out && link.reconnect_attempts < 4,
        continuation matches Continuation::Backoff(millis) ==> 25 * pow2_of(
            (link.reconnect_attempts + 1) as nat,
        ) <= millis && 2 * millis <= 75 * pow2_of((link.reconnect_attempts + 1) as nat),
        link.reconnect_attempts >= 4 ==> {
            let after = link.connect_failed(link.connect_failure(timed_out));
            &&& after.store.current.phase == ConnectionPhase::Failed
            &&& after.store.current.close_reason == Some(CloseReason::TerminalFailure)
            &&& after.store.current.failure is Some
            &&& after.store.current.failure->0.kind == ErrorKind::EndpointOrTls
            &&& link.initial is Waiting ==> (after.initial matches InitialValue::Ready(Err(error))
                && error.kind == ErrorKind::EndpointOrTls)
        },
{
    reveal_with_fuel(pow2_of, 6);
    crate::gateway::backoff::delays_double((link.reconnect_attempts + 1) as u8, link.info);
}

/// Two to the power of a number.
pub open spec fn pow2_of(exponent: nat) -> nat
    decreases exponent,
{
    if exponent == 0 {
        1
    } else {
        2 * pow2_of((exponent - 1) as nat)
    }
}

/// The pause after a session grows with the attempts in a row: it starts at fifty
/// milliseconds, doubles, and is at most half as long again.
pub proof fn pauses_grow_with_the_attempts(
    link: LinkState,
    outcome: OutcomeValue,
    continuation: Continuation,
)
    requires
        link.continues(outcome, continuation),
        outcome is Resume || outcome is FreshIdentify,
    ensures
        continuation is Finished <==> link.reconnect_attempts >= 4,
        link.reconnect_attempts < 4 ==> {
            &&& continuation matches Continuation::Backoff(millis)
            &&& 25 * pow2_of((link.reconnect_attempts + 1) as nat) <= millis
            &&& 2 * millis <= 75 * pow2_of((link.reconnect_attempts + 1) as nat)
        },
{
    reveal_with_fuel(pow2_of, 6);
    crate::gateway::backoff::delays_double((link.reconnect_attempts + 1) as u8, link.info);
}

/// Only fresh voice information is followed by an attempt at once, only a rejected session
/// waits for such information, and only a failure, a clean close or a shutdown is the end.
pub proof fn outcomes_lead_on(link: LinkState, outcome: OutcomeValue, continuation: Continuation)
    requires
        link.continues(outcome, continuation),
        link.reconnect_attempts < 4,
    ensures
        continuation is Retry <==> outcome is Replace,
        continuation is AwaitReplacement <==> outcome is NeedsFresh,
        continuation is Finished <==> outcome is Fatal || outcome is CleanRemote || outcome
            is Shutdown,
        continuation is Backoff <==> outcome is Resume || outcome is FreshIdentify,
{
}

/// A session that is not to be resumed is forgotten: the next one identifies under the same
/// voice information, with neither the sequence number nor the transport nor the roster.
pub proof fn fresh_identification_forgets_the_session(link: LinkState)
    requires
        link.reconnect_attempts < 4,
    ensures
        ({
            let after = link.session_ended(OutcomeValue::FreshIdentify);
            &&& after.attempt == Attempt::Identify
            &&& after.latest_sequence is None
            &&& after.transport is None
            &&& !after.dave
            &&& after.dave_roster.len() == 0
            &&& after.info == link.info
            &&& after.attachment == link.attachment
            &&& after.heartbeat_nonce == link.heartbeat_nonce
            &&& after.store == link.store
            &&& after.initial == link.initial
            &&& after.reconnect_attempts == link.reconnect_attempts + 1
        }),
        ({
            let resumed = link.session_ended(OutcomeValue::Resume);
            &&& resumed.info == link.info
            &&& resumed.attachment == link.attachment
            &&& resumed.heartbeat_nonce == link.heartbeat_nonce
            &&& resumed.store == link.store
            &&& link.latest_sequence is Some && link.transport is Some ==> resumed.dave_roster
                == link.dave_roster
        }),
{
}

/// How a connection ended is on record: a clean close by the gateway, a shutdown by the
/// caller, or the failure that ended it. A caller who still waits to connect is told, with
/// the kind of the end.
pub proof fn endings_are_on_record(link: LinkState, error: crate::error::ErrorView)
    ensures
        ({
            let closed = link.session_ended(OutcomeValue::CleanRemote);
            &&& closed.store.current.phase == ConnectionPhase::Closed
            &&& closed.store.current.close_reason == Some(CloseReason::CleanRemote)
            &&& link.initial is Waiting ==> (closed.initial matches InitialValue::Ready(Err(told))
                && told.kind == ErrorKind::Shutdown)
        }),
        ({
            let stopped = link.session_ended(OutcomeValue::Shutdown);
            let phase = link.store.current.phase;
            &&& phase != ConnectionPhase::Closed && phase != ConnectionPhase::Failed ==> {
                &&& stopped.store.current.phase == ConnectionPhase::Closed
                &&& stopped.store.current.close_reason == Some(CloseReason::ExplicitShutdown)
            }
            &&& phase == ConnectionPhase::Failed ==> stopped.store == link.store
            &&& link.initial is Waiting ==> (stopped.initial matches InitialValue::Ready(Err(told))
                && told.kind == ErrorKind::Shutdown)
        }),
        ({
            let failed = link.session_ended(OutcomeValue::Fatal(error));
            &&& failed.store.current.phase == ConnectionPhase::Failed
            &&& failed.store.current.close_reason == Some(CloseReason::TerminalFailure)
            &&& failed.store.current.failure is Some
            &&& failed.store.current.failure->0.kind == error.kind
            &&& link.initial is Waiting ==> failed.initial == InitialValue::Ready(Err(error))
        }),
        ({
            let needy = link.session_ended(OutcomeValue::NeedsFresh(error));
            &&& needy.store.current.phase == ConnectionPhase::NeedsFreshVoiceInfo
            &&& needy.store.current.close_reason == link.store.current.close_reason
            &&& needy.store.current.failure is Some
            &&& needy.store.current.failure->0.kind == error.kind
            &&& needy.transport == link.transport
            &&& link.initial is Waiting ==> needy.initial == InitialValue::Ready(Err(error))
        }),
        link.initial !is Waiting ==> link.session_ended(OutcomeValue::Fatal(error)).initial
            == link.initial,
{
}

/// A first attempt connects, a later one that identifies reconnects, and one that resumes is
/// counted as such.
pub proof fn attempts_show_what_they_do(link: LinkState)
    ensures
        link.attempt == Attempt::Identify && link.reconnect_attempts == 0 ==> {
            &&& link.attempt_begun().store.current.phase == ConnectionPhase::Connecting
            &&& link.attempt_begun().store.current.stats == link.store.current.stats
        },
        link.attempt == Attempt::Identify && link.reconnect_attempts > 0 ==> {
            &&& link.attempt_begun().store.current.phase == ConnectionPhase::Reconnecting
            &&& link.store.current.stats.reconnect_attempts < u64::MAX
                ==> link.attempt_begun().store.current.stats.reconnect_attempts
                == link.store.current.stats.reconnect_attempts + 1
            &&& link.attempt_begun().store.current.stats.resume_attempts
                == link.store.current.stats.resume_attempts
        },
        link.attempt == Attempt::Resume ==> {
            &&& link.attempt_begun().store.current.phase == ConnectionPhase::Resuming
            &&& link.store.current.stats.resume_attempts < u64::MAX
                ==> link.attempt_begun().store.current.stats.resume_attempts
                == link.store.current.stats.resume_attempts + 1
            &&& link.attempt_begun().store.current.stats.reconnect_attempts
                == link.store.current.stats.reconnect_attempts
        },
        link.attempt_begun().latest_sequence == link.latest_sequence,
        link.attempt_begun().transport == link.transport,
        link.attempt_begun().generation() == link.generation(),
{
}

/// The encoder goes to an audio sender as it is, under the generation, socket and DAVE
/// version of its transport; the refusals tell apart why none is to be had.
pub proof fn refused_senders_learn_why(link: LinkState, sender_gone: bool, dave_ready: bool)
    ensures
        ({
            let refused = link.attach_failure(sender_gone, dave_ready);
            let slot = link.transport->0;
            &&& link.attachment is Some && !sender_gone ==> refused is Some && refused->0.kind
                == ErrorKind::ResourceLimit
            &&& (link.attachment is None || sender_gone) && !link.transport_ready() ==> refused
                is Some && refused->0.kind == ErrorKind::EndpointOrTls
            &&& (link.attachment is None || sender_gone) && link.transport_ready()
                && slot.dave_protocol_version != 0 && !(slot.has_dave && dave_ready) ==> refused
                is Some && refused->0.kind == ErrorKind::DaveRequired
            &&& (link.attachment is None || sender_gone) && link.transport_ready() && (
            slot.dave_protocol_version == 0 || slot.has_dave && dave_ready) ==> (refused is None
                <==> slot.encoder is Some)
            &&& refused is Some ==> refused->0.generation == Some(link.generation())
        }),
{
}

/// What an audio sender gives back of another socket, of another generation or beside an
/// encoder that is there is not used; what was there stays, and the sender is gone.
pub proof fn foreign_transports_are_not_taken_back(
    link: LinkState,
    audio_id: u64,
    returned: InstalledState,
)
    requires
        link.attachment == Some(audio_id),
        link.transport is None || !link.transport->0.session_ready || link.transport->0.encoder
            is Some || returned.socket != link.transport->0.socket || returned.generation
            != link.generation(),
    ensures
        link.detached(audio_id, returned).transport == link.transport,
        link.detached(audio_id, returned).attachment is None,
        link.detached(audio_id, returned).store == link.store,
{
}

/// Fresh voice information is admitted under another generation than the one before, in the
/// connecting phase and with clean counters of its session; without one left the connection
/// fails, and the generation stays.
pub proof fn admitted_replacements_start_over(link: LinkState, next: ConnectionGeneration)
    ensures
        link.replacement_admitted(Some(next)).generation() == next,
        link.replacement_admitted(Some(next)).store.current.phase == ConnectionPhase::Connecting,
        link.replacement_admitted(Some(next)).transport == link.transport,
        link.replacement_admitted(Some(next)).attachment == link.attachment,
        link.replacement_admitted(Some(next)).initial == link.initial,
        link.replacement_admitted(None).generation() == link.generation(),
        link.replacement_admitted(None).store.current.phase == ConnectionPhase::Failed,
        link.replacement_admitted(None).store.current.failure is Some,
        link.replacement_admitted(None).store.current.failure->0.kind == ErrorKind::ResourceLimit,
{
}

/// While no session runs every command is refused: as one to be tried again while the
/// gateway is being reached, as one that needs fresh voice information while that is
/// awaited. Only a ping is refused as a ping.
pub proof fn idle_refusals_name_the_wait(command: IdleCommand, generation: ConnectionGeneration)
    ensures
        crate::gateway::link::idle_answer(command, generation).kind == ErrorKind::EndpointOrTls,
        crate::gateway::link::idle_answer(command, generation).retry
            == RetryDisposition::RetryingInternally,
        crate::gateway::link::awaiting_answer(command, generation).kind
            == ErrorKind::NeedsFreshVoiceInfo,
        crate::gateway::link::awaiting_answer(command, generation).retry
            == RetryDisposition::NeedsFreshVoiceInfo,
        crate::gateway::link::idle_answer(command, generation).operation == Operation::Ping
            <==> command == IdleCommand::Ping,
        crate::gateway::link::awaiting_answer(command, generation).operation == Operation::Ping
            <==> command == IdleCommand::Ping,
        crate::gateway::link::idle_answer(command, generation).generation == Some(generation),
        crate::gateway::link::awaiting_answer(command, generation).generation == Some(generation),
{
}

/// A close frame without a code asks for a resume, as a code without a rule does. A clean
/// close is the end. A session that the gateway does not know, or that timed out, is
/// identified afresh; a channel that is gone or a removed user needs fresh voice information;
/// rejected credentials, modes, encryption and messages are fatal, each with its kind and
/// with the code.
pub proof fn close_codes_are_told_apart(
    generation: ConnectionGeneration,
    code: Option<u16>,
    outcome: SessionOutcome,
)
    requires
        crate::gateway::dispatch::close_leads(generation, code, outcome),
    ensures
        code is None || code->0 == 1001 || code->0 == 1006 || code->0 == 4000 || code->0 == 4015
            ==> outcome is Resume,
        code == Some(1000u16) <==> outcome is CleanRemote,
        (code == Some(4001u16) || code == Some(4002u16) || code == Some(4003u16) || code == Some(
            4005u16,
        ) || code == Some(4006u16) || code == Some(4009u16)) <==> outcome is FreshIdentify,
        (code == Some(4011u16) || code == Some(4014u16) || code == Some(4021u16) || code == Some(
            4022u16,
        )) <==> outcome is NeedsFresh,
        outcome matches SessionOutcome::NeedsFresh(error) ==> {
            &&& error@.kind == ErrorKind::NeedsFreshVoiceInfo
            &&& error@.retry == RetryDisposition::NeedsFreshVoiceInfo
            &&& error@.safe_code == Some(code->0 as u32)
            &&& error@.generation == Some(generation)
        },
        outcome matches SessionOutcome::Fatal(error) ==> {
            &&& error@.retry == RetryDisposition::Fatal
            &&& error@.safe_code == Some(code->0 as u32)
            &&& error@.generation == Some(generation)
            &&& error@.kind == ErrorKind::CredentialsRejected <==> code == Some(4004u16)
            &&& error@.kind == ErrorKind::UnsupportedTransport <==> code == Some(4012u16) || code
                == Some(4016u16)
            &&& error@.kind == ErrorKind::DaveRequired <==> code == Some(4017u16)
            &&& error@.kind == ErrorKind::GatewayProtocol <==> code == Some(4020u16)
        },
        (code == Some(4004u16) || code == Some(4012u16) || code == Some(4016u16) || code == Some(
            4017u16,
        ) || code == Some(4020u16)) <==> outcome is Fatal,
{
}

/// A stream that is lost is resumed exactly where a sequence number came; a media socket
/// that failed starts over; a frame over its bound is fatal.
pub proof fn lost_streams_are_resumed(link: LinkState)
    ensures
        link.latest_sequence is Some <==> crate::gateway::dispatch::stream_leads(
            link,
            StreamEnd::Lost,
        ) is Resume,
        link.latest_sequence is None <==> crate::gateway::dispatch::stream_leads(
            link,
            StreamEnd::Lost,
        ) is FreshIdentify,
        crate::gateway::dispatch::stream_leads(link, StreamEnd::SocketFailed) is FreshIdentify,
        crate::gateway::dispatch::stream_leads(link, StreamEnd::FrameTooLong) matches
            OutcomeValue::Fatal(error) && error.kind == ErrorKind::ResourceLimit,
{
}

/// A message that cannot be written is fatal in the handshake and for a ping, and asks for a
/// resume elsewhere. The failure names the operation that wrote it.
pub proof fn failed_writes_are_told_apart(
    generation: ConnectionGeneration,
    written: Written,
    timed_out: bool,
)
    ensures
        ({
            let outcome = crate::gateway::dispatch::write_leads(generation, written, timed_out);
            &&& outcome is None <==> written == Written::Pong && !timed_out
            &&& written == Written::Heartbeat || written == Written::Speaking || written
                == Written::Pong && timed_out ==> outcome == Some(OutcomeValue::Resume)
            &&& written == Written::Opening || written == Written::Selection || written
                == Written::Dave ==> (outcome matches Some(OutcomeValue::Fatal(error))
                && error.kind == ErrorKind::SendIo && error.operation == Operation::Connect
                && error.generation == Some(generation))
            &&& written == Written::Ping ==> (outcome matches Some(OutcomeValue::Fatal(error))
                && error.kind == ErrorKind::SendIo && error.operation == Operation::Ping
                && error.generation == Some(generation))
        }),
{
}

/// A session description is taken only for a transport that waits for one, and only in the
/// mode that was selected.
pub proof fn descriptions_fit_the_selection(
    link: LinkState,
    slot: SlotState,
    data: SessionDescriptionData,
)
    requires
        link.transport == Some(slot),
    ensures
        link.description_failure(Some(data)) is None <==> !slot.session_ready && data.mode@
            == slot.selected_mode.wire_name(),
        slot.session_ready ==> link.description_failure(Some(data))->0.kind
            == ErrorKind::GatewayProtocol,
        (LinkState { transport: None, ..link }).description_failure(Some(data)) is Some,
        link.description_failure(None) is Some,
{
}

/// An accepted description goes on with the version that it names and an encoder with the
/// key that it carries, for the stream and the mode of the transport. A DAVE owner is
/// started exactly where the version asks for DAVE and none runs.
pub proof fn accepted_descriptions_carry_their_key(
    link: LinkState,
    data: SessionDescriptionData,
    limits: ResourceLimits,
    step: DescribeStep,
)
    requires
        link.described(Some(data), limits, step),
    ensures
        step matches DescribeStep::Accept { encoder, version, start_dave } ==> {
            &&& link.transport is Some
            &&& encoder@.key == data.secret_key@
            &&& encoder@.ssrc == link.transport->0.ssrc
            &&& encoder@.mode == link.transport->0.selected_mode
            &&& data.mode@ == encoder@.mode.wire_name()
            &&& encoder@.max_datagram_bytes == limits.udp_datagram_bytes
            &&& encoder@.next_nonce is Some
            &&& version == data.dave_protocol_version
            &&& version == 0 || version == 1
            &&& start_dave <==> version == 1 && !link.dave
        },
        data.dave_protocol_version > 1 ==> step is Fatal,
        link.description_failure(Some(data)) is Some ==> step is Fatal,
{
}

/// A described transport carries media from then on. Its encoder goes to the audio sender in
/// force, or stays where there is none; it is under DAVE exactly where the version asks for
/// it and an owner runs.
pub proof fn described_transports_carry_media(link: LinkState, encoder: EncoderState, version: u16)
    requires
        link.transport is Some,
    ensures
        ({
            let after = link.ready_for_media(encoder, version);
            &&& after.transport_ready()
            &&& after.transport->0.socket == link.transport->0.socket
            &&& after.transport->0.ssrc == link.transport->0.ssrc
            &&& after.transport->0.selected_mode == link.transport->0.selected_mode
            &&& after.transport->0.dave_protocol_version == version
            &&& link.attachment is None ==> after.transport->0.encoder == Some(encoder)
            &&& link.attachment is Some ==> after.transport->0.encoder is None
            &&& version == 0 ==> !after.dave && !after.transport->0.has_dave
            &&& version != 0 ==> after.dave == link.dave && after.transport->0.has_dave
                == link.dave
            &&& after.attachment == link.attachment
            &&& after.store == link.store
        }),
{
}

/// Once a description is carried out, a transport without DAVE is connected and one under
/// DAVE waits for its owner; the caller who connects is told of success, and the budget of
/// attempts is full again.
pub proof fn finished_descriptions_answer_the_caller(link: LinkState, version: u16)
    ensures
        ({
            let after = link.description_finished(version);
            &&& version == 0 <==> after.store.current.phase == ConnectionPhase::Connected
            &&& version != 0 <==> after.store.current.phase == ConnectionPhase::EstablishingDave
            &&& after.reconnect_attempts == 0
            &&& link.initial is Waiting ==> after.initial == InitialValue::Ready(Ok(()))
            &&& after.transport == link.transport
        }),
        link.dave_phase(true).store.current.phase == ConnectionPhase::Connected,
        link.dave_phase(false).store.current.phase == ConnectionPhase::EstablishingDave,
        link.dave_phase(true).transport == link.transport,
{
}

} // verus!
