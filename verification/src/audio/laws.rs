//! What holds of a paced sender across its steps.
use vstd::prelude::*;

use crate::audio::executor::{
    ActionValue, AnswerValue, EncryptValue, EventValue, ExecState, PollReport, PollStatus, Purpose,
    Request, Stage, Surroundings, SILENCE_BYTES, SILENCE_FRAMES,
};
use crate::error::{DaveContext, DaveFailure, ErrorKind, Operation, RetryDisposition};
use crate::gateway::link::InstalledState;
use crate::model::{AudioPhase, ConnectionPhase};
use crate::pacer::PacerStep;

verus! {

/// The end of a send writes nothing and starts nothing.
proof fn send_ends_idly(state: ExecState, around: Surroundings, purpose: Purpose, sent: bool)
    ensures
        state.send_ends(around, purpose, sent).1 !is Transmit,
        state.send_ends(around, purpose, sent).1 !is Look,
{
    reveal(ExecState::send_ends);
}

/// An attempt to start works only where media can be sent.
proof fn tries_start_when_ready(state: ExecState, around: Surroundings)
    ensures
        state.tries_start(around).1 !is Transmit,
        !(state.tries_start(around).1 is Wait || state.tries_start(around).1 is Finish)
            ==> state.ready(around),
{
    reveal(ExecState::tries_start);
}

/// A deadline works only where media can be sent.
proof fn ticks_when_ready(state: ExecState, around: Surroundings, deadline: u64)
    ensures
        state.ticks(around, deadline).1 !is Transmit,
        !(state.ticks(around, deadline).1 is Wait || state.ticks(around, deadline).1 is Finish)
            ==> state.ready(around),
{
    reveal(ExecState::ticks);
    reveal(ExecState::tick_polled);
}

/// What comes from outside writes nothing, and starts work only where media can be sent.
proof fn happens_when_ready(state: ExecState, around: Surroundings, event: EventValue)
    ensures
        state.happens(around, event).1 !is Transmit,
        !(state.happens(around, event).1 is Wait || state.happens(around, event).1 is Finish
            || event == EventValue::Asked(Request::Stop) || event is Transport) ==> state.ready(
            around,
        ),
        state.happens(around, event).1 is Look && event !is Transport ==> state.ready(around),
{
    reveal(ExecState::happens);
    let seen = ExecState { connection_was_ready: state.ready(around), ..state };
    tries_start_when_ready(seen, around);
    tries_start_when_ready(state, around);
    match event {
        EventValue::Asked(_) => {
            reveal(ExecState::asked);
        },
        EventValue::Transport(Some(update)) => {
            let fitted = ExecState { speaking: false, transport: Some(update), ..state.paused() };
            tries_start_when_ready(
                ExecState { connection_was_ready: fitted.ready(around), ..fitted },
                around,
            );
        },
        EventValue::Timer => {
            if let PacerStep::Due(deadline) = state.pacer.step(around.now) {
                ticks_when_ready(
                    ExecState { pacer: state.pacer.stepped(around.now), ..state },
                    around,
                    deadline,
                );
            }
        },
        _ => {},
    }
}

/// A sender polls, looks for requests or sends only where media can be sent: the
/// connection is up in the generation of its transport, and where the transport asks for
/// DAVE, its owner is ready.
pub proof fn work_begins_only_when_ready(state: ExecState, around: Surroundings, event: EventValue)
    requires
        state.stage is Waiting,
        !(state.step(around, event).1 is Wait || state.step(around, event).1 is Finish
            || event == EventValue::Asked(Request::Stop) || event is Transport),
    ensures
        state.ready(around),
{
    happens_when_ready(state, around, event);
}

/// A frame starts a timeline only where media can be sent after the sender announced
/// that it speaks, however long the announcement took.
pub proof fn starting_frames_wait_for_readiness(
    state: ExecState,
    around: Surroundings,
    event: EventValue,
)
    requires
        state.stage is StartSpeaking || state.stage is StartPolling,
        state.step(around, event).1 is Look,
    ensures
        state.ready(around),
{
    reveal(ExecState::spoken);
    reveal(ExecState::start_polled);
}

/// Under DAVE no frame is sent in the clear: a packet is written only with what media
/// encryption returned.
pub proof fn media_under_dave_is_encrypted(
    state: ExecState,
    around: Surroundings,
    event: EventValue,
)
    requires
        state.transport is Some,
        state.transport->0.has_dave,
        state.step(around, event).1 is Transmit,
    ensures
        state.stage is Encrypting,
        event is Encrypted,
        event->Encrypted_0 is Ready,
        ({
            let encoder = state.transport->0.encoder;
            state.step(around, event).0.packet == crate::rtp::rtp_packet(
                encoder.mode,
                encoder.key,
                encoder.next_fields(event->Encrypted_0->Ready_0),
            )
        }),
{
    match (state.stage, event) {
        (Stage::Waiting, event) => {
            happens_when_ready(state, around, event);
        },
        (Stage::StartPolling, _) => {
            reveal(ExecState::start_polled);
        },
        (Stage::TickPolling(_), _) => {
            reveal(ExecState::tick_polled);
        },
        (_, EventValue::Spoken(_)) => {
            reveal(ExecState::spoken);
            reveal(ExecState::asked);
        },
        (Stage::Admitting(purpose, _), _) => {
            send_ends_idly(state.bare(), around, purpose, false);
        },
        (Stage::Encrypting(purpose), _) => {
            send_ends_idly(state, around, purpose, false);
            reveal(ExecState::encodes);
        },
        (Stage::Transmitting(purpose), EventValue::Transmitted(_, unix_ms)) => {
            send_ends_idly(
                state.packet_counted(around.now, unix_ms, purpose is Silence),
                around,
                purpose,
                true,
            );
        },
        (Stage::Renewing(purpose), _) => {
            send_ends_idly(state.bare(), around, purpose, false);
        },
        _ => {},
    }
}

/// Without DAVE the packet carries the frame of the buffer; at the end of a run it
/// carries a silence frame.
pub proof fn plain_packets_carry_the_frame(
    state: ExecState,
    around: Surroundings,
    purpose: Purpose,
    len: usize,
)
    requires
        state.sound(),
        state.stage == Stage::Admitting(purpose, len),
        state.transport is Some,
        !state.transport->0.has_dave,
        state.step(around, EventValue::Admitted(true)).1 is Transmit,
    ensures
        ({
            let encoder = state.transport->0.encoder;
            let payload = state.frame.subrange(0, len as int);
            &&& state.step(around, EventValue::Admitted(true)).0.packet == crate::rtp::rtp_packet(
                encoder.mode,
                encoder.key,
                encoder.next_fields(payload),
            )
            &&& purpose is Silence ==> payload == crate::audio::executor::silence()
            &&& purpose !is Silence ==> state.staged == Some(len)
        }),
{
    reveal(ExecState::encodes);
}

/// A run of frames ends with five silence frames: each one is counted, the timeline goes
/// on before the fifth and ends with it.
pub proof fn the_fifth_silence_ends_the_run(state: ExecState, now: u64, deadline: u64)
    requires
        state.active,
        state.silence_sent < SILENCE_FRAMES,
    ensures
        ({
            let after = state.silence_ends(now, deadline).0;
            &&& after.silence_sent == state.silence_sent + 1
            &&& after.active <==> after.silence_sent < SILENCE_FRAMES
            &&& after.store.stats.silence_frames_sent == crate::model::counted(
                state.store.stats.silence_frames_sent,
            )
        }),
{
}

/// A frame that the source handed over survives a transport that was taken away, a DAVE
/// owner that is not ready and a renewal: it stays in the buffer, and the next start
/// sends it without asking the source again.
pub proof fn held_frames_are_kept(
    state: ExecState,
    around: Surroundings,
    purpose: Purpose,
    later: Surroundings,
)
    requires
        state.sound(),
        state.purposeful(purpose),
        purpose !is Silence,
    ensures
        ({
            let after = state.send_ends(around, purpose, false).0;
            let bare = state.bare().send_ends(around, purpose, false).0;
            &&& after.staged == state.staged
            &&& after.frame == state.frame
            &&& bare.staged == state.staged
            &&& bare.frame == state.frame
            &&& after.tries_start(later).1 !is Poll
        }),
{
    reveal(ExecState::send_ends);
    reveal(ExecState::tries_start);
}

/// Nothing of a replaced source is sent: its staged frame is dropped, and a wake of
/// another generation than the current one does nothing.
pub proof fn replaced_sources_are_silent(
    state: ExecState,
    around: Surroundings,
    woken: u64,
)
    requires
        state.sound(),
        state.stage is Waiting,
        !(state.stopping && !state.active),
    ensures
        state.generation.number() < u64::MAX ==> {
            let replaced = state.asked(Request::Replace).0;
            &&& replaced.staged is None
            &&& replaced.generation.number() == state.generation.number() + 1
            &&& replaced.silence_sent == 0
            &&& replaced.store.current.phase == AudioPhase::WaitingForSource
        },
        woken != state.generation.number() ==> state.step(around, EventValue::Woken(woken))
            == state.unexpected(),
{
    reveal(ExecState::asked);
    reveal(ExecState::happens);
    state.generation.following_counts();
}

/// A sender that stops sends no frame of its source any more, drains its silence, and is
/// then done in the stopped phase.
pub proof fn stopping_drains_and_ends(state: ExecState, around: Surroundings, deadline: u64)
    requires
        state.sound(),
        state.stopping,
    ensures
        state.tries_start(around) == state.settles(),
        state.active && state.ready(around) ==> {
            let ticked = state.ticks(around, deadline);
            &&& ticked.1 is Admit
            &&& ticked.0.stage == Stage::Admitting(Purpose::Silence(deadline), SILENCE_BYTES)
        },
        state.stage is DrainQuieting ==> {
            let ended = state.step(around, EventValue::Spoken(Ok(())));
            &&& ended.1 == ActionValue::Finish(Ok(()))
            &&& ended.0.store.current.phase == AudioPhase::Stopped
        },
        state.stage is Waiting && state.active ==> state.asked(Request::Stop).0.answer
            == AnswerValue::Refused(crate::audio::executor::stopping_failure()),
{
    reveal(ExecState::tries_start);
    reveal(ExecState::ticks);
    reveal(ExecState::tick_polled);
    reveal(ExecState::spoken);
    reveal(ExecState::asked);
}

/// A frame that the source hands over at a deadline is sent for that deadline, and ends what
/// silence was sent before. It is staged until it is sent.
pub proof fn frames_are_sent_at_their_deadline(
    state: ExecState,
    around: Surroundings,
    deadline: u64,
    report: PollReport,
    len: usize,
)
    requires
        state.stage == Stage::TickPolling(deadline),
        report.status == PollStatus::Frame(len),
        report.wall <= 2_000_000 || !report.callback,
        1 <= len <= state.frame.len(),
    ensures
        ({
            let (after, action) = state.step(around, EventValue::Polled(report));
            &&& action is Admit
            &&& after.stage == Stage::Admitting(Purpose::Frame(deadline), len)
            &&& after.staged == Some(len)
            &&& after.frame == state.frame
            &&& after.silence_sent == 0
            &&& !after.source_ended
            &&& after.store.current.phase == AudioPhase::Sending
            &&& after.store.stats == state.store.stats
            &&& after.active == state.active
            &&& after.transport == state.transport
        }),
{
    reveal(ExecState::tick_polled);
}

/// Where the source has no frame at a deadline, a silence frame is sent for that deadline,
/// the deadline is counted as one without a frame, and an end of the source is kept in mind.
pub proof fn missing_frames_are_bridged_by_silence(
    state: ExecState,
    around: Surroundings,
    deadline: u64,
    report: PollReport,
)
    requires
        state.sound(),
        state.stage == Stage::TickPolling(deadline),
        report.status == PollStatus::Pending || report.status == PollStatus::Ended,
        report.wall <= 2_000_000 || !report.callback,
    ensures
        ({
            let (after, action) = state.step(around, EventValue::Polled(report));
            &&& action is Admit
            &&& after.stage == Stage::Admitting(Purpose::Silence(deadline), 3)
            &&& after.frame[0] == 0xF8
            &&& after.frame[1] == 0xFF
            &&& after.frame[2] == 0xFE
            &&& after.frame.len() == state.frame.len()
            &&& after.staged is None
            &&& after.silence_sent == state.silence_sent
            &&& after.source_ended <==> state.source_ended || report.status == PollStatus::Ended
            &&& after.store.current.phase == AudioPhase::DrainingSilence
            &&& state.store.stats.frames_unavailable < u64::MAX
                ==> after.store.stats.frames_unavailable == state.store.stats.frames_unavailable
                + 1
            &&& after.store.stats.frames_sent == state.store.stats.frames_sent
            &&& after.store.stats.silence_frames_sent == state.store.stats.silence_frames_sent
        }),
{
    reveal(ExecState::tick_polled);
}

/// A callback may run for two milliseconds. A longer poll is counted with its times, and
/// fails the sender where the thread itself ran that long or the platform cannot tell. What
/// is no callback is not held to the bound.
pub proof fn polls_are_bounded(
    state: ExecState,
    around: Surroundings,
    report: PollReport,
)
    requires
        state.stage is StartPolling || state.stage is TickPolling,
        state.store.stats.source_overruns < u64::MAX,
        report.status == PollStatus::Pending,
    ensures
        ({
            let (after, action) = state.step(around, EventValue::Polled(report));
            let long = report.callback && report.wall > 2_000_000;
            let blamed = long && (report.cpu is None || report.cpu->0 > 2_000_000);
            &&& after.store.stats.source_overruns == state.store.stats.source_overruns + (if long {
                1int
            } else {
                0int
            })
            &&& long ==> after.store.stats.last_source_overrun_wall == report.wall
                && after.store.stats.last_source_overrun_cpu == report.cpu
            &&& !long ==> after.store.stats.last_source_overrun_wall
                == state.store.stats.last_source_overrun_wall
            &&& blamed ==> (action matches ActionValue::Finish(Err(error)) && error.kind
                == ErrorKind::FrameSourceContract)
            &&& !blamed && !(state.stopping && !state.active) ==> !(action matches
                ActionValue::Finish(Err(error)) && error.kind == ErrorKind::FrameSourceContract)
        }),
{
    reveal(ExecState::start_polled);
    reveal(ExecState::tick_polled);
}

/// A frame without bytes, or with more than the buffer holds, fails the sender.
pub proof fn impossible_frames_fail_the_sender(
    state: ExecState,
    around: Surroundings,
    report: PollReport,
    len: usize,
)
    requires
        state.stage is StartPolling || state.stage is TickPolling,
        report.status == PollStatus::Frame(len),
        len == 0 || len > state.frame.len(),
    ensures
        ({
            let (after, action) = state.step(around, EventValue::Polled(report));
            &&& after.stage is Finished
            &&& after.staged == state.staged
            &&& action matches ActionValue::Finish(Err(error))
            &&& error.kind == ErrorKind::FrameSourceContract
            &&& error.retry == RetryDisposition::Fatal
        }),
{
}

/// The first frame of a run is staged, and the sender announces that it speaks, in the
/// generation of its transport, before anything is sent; a sender that speaks already looks
/// for requests at once.
pub proof fn runs_begin_with_an_announcement(
    state: ExecState,
    around: Surroundings,
    report: PollReport,
    len: usize,
)
    requires
        state.stage is StartPolling,
        report.status == PollStatus::Frame(len),
        report.wall <= 2_000_000,
        1 <= len <= state.frame.len(),
        state.transport is Some,
    ensures
        ({
            let (after, action) = state.step(around, EventValue::Polled(report));
            &&& after.staged == Some(len)
            &&& after.store.current.phase == AudioPhase::Starting
            &&& !state.speaking ==> {
                &&& action == (ActionValue::Speak {
                    generation: state.transport->0.generation,
                    speaking: true,
                })
                &&& after.stage == Stage::StartSpeaking(len)
            }
            &&& state.speaking && state.ready(around) ==> {
                &&& action is Look
                &&& after.stage == Stage::StartLooking(len)
            }
        }),
{
    reveal(ExecState::start_polled);
}

/// Once the announcement is made and media can be sent, the staged frame is sent unless a
/// request came; a request takes the announcement back first.
pub proof fn announced_frames_are_sent(
    state: ExecState,
    around: Surroundings,
    request: Request,
    len: usize,
)
    requires
        state.transport is Some,
    ensures
        state.stage == Stage::StartSpeaking(len) ==> {
            let (after, action) = state.step(around, EventValue::Spoken(Ok(())));
            &&& after.speaking
            &&& after.staged == state.staged
            &&& state.ready(around) ==> action is Look && after.stage == Stage::StartLooking(len)
        },
        state.stage == Stage::StartLooking(len) ==> {
            let (after, action) = state.step(around, EventValue::NoRequest);
            &&& action is Admit
            &&& after.stage == Stage::Admitting(Purpose::Start, len)
            &&& after.staged == state.staged
        },
        state.stage == Stage::StartLooking(len) ==> {
            let (after, action) = state.step(around, EventValue::Asked(request));
            &&& action == (ActionValue::Speak {
                generation: state.transport->0.generation,
                speaking: false,
            })
            &&& after.stage == Stage::StartQuieting(request)
        },
{
    reveal(ExecState::spoken);
}

/// A written frame is counted and not staged any more, and the instant of its packet is kept.
/// The first one starts a timeline whose deadline lies one period behind it. A silence frame
/// is counted as one, never as a frame.
pub proof fn written_frames_are_counted(
    state: ExecState,
    around: Surroundings,
    purpose: Purpose,
    unix_ms: u64,
)
    requires
        state.sound(),
        state.stage == Stage::Transmitting(purpose),
        state.store.stats.frames_sent < u64::MAX,
        state.store.stats.silence_frames_sent < u64::MAX,
        around.now + 20_000_000 <= u64::MAX,
    ensures
        ({
            let (after, action) = state.step(around, EventValue::Transmitted(true, unix_ms));
            &&& after.staged is None
            &&& purpose is Silence ==> {
                &&& after.store.stats.frames_sent == state.store.stats.frames_sent
                &&& after.store.stats.silence_frames_sent == state.store.stats.silence_frames_sent
                    + 1
                &&& after.silence_sent == state.silence_sent + 1
            }
            &&& purpose !is Silence ==> {
                &&& after.store.stats.frames_sent == state.store.stats.frames_sent + 1
                &&& after.store.stats.silence_frames_sent == state.store.stats.silence_frames_sent
                &&& after.last_packet == Some(around.now)
                &&& after.silence_sent == 0
            }
            &&& purpose is Start && state.pacer.registered ==> {
                &&& after.active
                &&& after.pacer.next == Some((around.now + 20_000_000) as u64)
                &&& after.store.current.phase == AudioPhase::Sending
                &&& action == (ActionValue::Wait { timeline: true })
            }
            &&& purpose is Frame ==> {
                &&& after.active
                &&& action == (ActionValue::Wait { timeline: true })
            }
            &&& after.store.stats.send_failures == state.store.stats.send_failures
            &&& after.transport == state.transport
        }),
{
    reveal(ExecState::send_ends);
}

/// A packet that was not written whole is counted as a failure and ends the sender, which may
/// be tried again.
pub proof fn failed_writes_end_the_sender(
    state: ExecState,
    around: Surroundings,
    purpose: Purpose,
    unix_ms: u64,
)
    requires
        state.stage == Stage::Transmitting(purpose),
        state.store.stats.send_failures < u64::MAX,
    ensures
        ({
            let (after, action) = state.step(around, EventValue::Transmitted(false, unix_ms));
            &&& after.store.stats.send_failures == state.store.stats.send_failures + 1
            &&& after.store.stats.frames_sent == state.store.stats.frames_sent
            &&& after.store.stats.silence_frames_sent == state.store.stats.silence_frames_sent
            &&& after.staged == state.staged
            &&& after.stage is Finished
            &&& action matches ActionValue::Finish(Err(error))
            &&& error.kind == ErrorKind::SendIo
            &&& error.retry == RetryDisposition::RetryingInternally
        }),
{
}

/// A send that the transport does not admit takes the transport away and ends the timeline;
/// one that media encryption is not ready for keeps the transport. Either way nothing is
/// counted and the sender starts again once it can.
pub proof fn held_sends_end_the_timeline(
    state: ExecState,
    around: Surroundings,
    purpose: Purpose,
    len: usize,
)
    requires
        state.sound(),
        !state.stopping,
    ensures
        state.stage == Stage::Admitting(purpose, len) ==> {
            let (after, action) = state.step(around, EventValue::Admitted(false));
            &&& after.transport is None
            &&& !after.active
            &&& !after.connection_was_ready
            &&& after.staged == state.staged
            &&& after.store.current.phase == AudioPhase::Starting
            &&& after.store.stats == state.store.stats
            &&& action == (ActionValue::Wait { timeline: false })
        },
        state.stage == Stage::Encrypting(purpose) ==> {
            let (after, action) = state.step(
                around,
                EventValue::Encrypted(EncryptValue::NotReady),
            );
            &&& after.transport == state.transport
            &&& !after.active
            &&& !after.connection_was_ready
            &&& after.staged == state.staged
            &&& after.store.current.phase == AudioPhase::Starting
            &&& after.store.stats == state.store.stats
            &&& action == (ActionValue::Wait { timeline: false })
        },
        state.stage == Stage::Renewing(purpose) ==> {
            let (after, action) = state.step(around, EventValue::Renewed(Ok(())));
            &&& after.transport is None
            &&& !after.active
            &&& after.staged == state.staged
            &&& action == (ActionValue::Wait { timeline: false })
        },
{
    reveal(ExecState::send_ends);
}

/// Under DAVE an admitted frame is encrypted whole before anything is written; media
/// encryption that fails ends the sender with its cause.
pub proof fn media_is_encrypted_before_it_is_sent(
    state: ExecState,
    around: Surroundings,
    purpose: Purpose,
    len: usize,
    cause: DaveFailure,
)
    requires
        state.transport is Some,
    ensures
        state.stage == Stage::Admitting(purpose, len) && state.transport->0.has_dave ==> {
            let (after, action) = state.step(around, EventValue::Admitted(true));
            &&& action == (ActionValue::Encrypt { len })
            &&& after.stage == Stage::Encrypting(purpose)
            &&& after.transport == state.transport
        },
        state.stage == Stage::Encrypting(purpose) ==> {
            let (after, action) = state.step(
                around,
                EventValue::Encrypted(EncryptValue::Failed(cause)),
            );
            &&& after.stage is Finished
            &&& action matches ActionValue::Finish(Err(error))
            &&& error.kind == ErrorKind::DaveTransition
            &&& error.dave_failure() == Some(cause)
        },
        state.stage == Stage::Encrypting(purpose) ==> {
            let (after, action) = state.step(
                around,
                EventValue::Encrypted(EncryptValue::OwnerFailed(cause)),
            );
            &&& after.stage is Finished
            &&& action matches ActionValue::Finish(Err(error))
            &&& error.kind == ErrorKind::DaveTransition
            &&& error.dave_failure() == Some(cause)
        },
{
}

/// Each written packet moves its stream on by one: the sequence number and the nonce by one,
/// the clock by 960 samples, each where it wraps. A transport whose nonces are used up is
/// renewed, and its frame is kept.
pub proof fn packets_move_their_stream_on(
    state: ExecState,
    purpose: Purpose,
    payload: Seq<u8>,
)
    requires
        state.transport is Some,
        payload.len() <= state.transport->0.encoder.max_payload_bytes,
    ensures
        ({
            let (after, action) = state.encodes(purpose, payload);
            let encoder = state.transport->0.encoder;
            &&& action is Transmit ==> {
                let moved = after.transport->0.encoder;
                &&& encoder.next_nonce is Some
                &&& moved.sequence as int == (encoder.sequence + 1) % 65_536
                &&& moved.timestamp as int == (encoder.timestamp + 960) % 0x1_0000_0000
                &&& moved.next_nonce is Some ==> moved.next_nonce->0 == encoder.next_nonce->0 + 1
                &&& moved.next_nonce is None <==> encoder.next_nonce == Some(u32::MAX)
                &&& moved.key == encoder.key
                &&& moved.ssrc == encoder.ssrc
                &&& moved.mode == encoder.mode
                &&& after.transport->0.generation == state.transport->0.generation
                &&& after.transport->0.socket == state.transport->0.socket
                &&& after.stage == Stage::Transmitting(purpose)
            }
            &&& encoder.next_nonce is None ==> {
                &&& action == (ActionValue::Renew { generation: state.transport->0.generation })
                &&& after.stage == Stage::Renewing(purpose)
                &&& after.staged == state.staged
            }
        }),
{
    reveal(ExecState::encodes);
}

/// A sender whose connection is not ready any more ends its timeline and waits. It has to
/// announce itself again exactly where the gateway may have forgotten it: outside a session
/// that is up, or in another generation.
pub proof fn lost_connections_end_the_timeline(state: ExecState, around: Surroundings)
    requires
        state.stage is Waiting,
        !state.stopping,
        !state.ready(around),
    ensures
        ({
            let (after, action) = state.step(around, EventValue::Changed);
            &&& !after.active
            &&& !after.connection_was_ready
            &&& after.last_packet is None
            &&& after.staged == state.staged
            &&& after.transport == state.transport
            &&& after.store.current.phase == AudioPhase::Starting
            &&& action == (ActionValue::Wait { timeline: false })
            &&& after.speaking ==> {
                &&& state.speaking
                &&& around.phase == ConnectionPhase::Connected || around.phase
                    == ConnectionPhase::EstablishingDave
                &&& state.transport is Some
                &&& state.transport->0.generation == around.generation
            }
            &&& state.speaking && around.phase == ConnectionPhase::EstablishingDave
                && state.transport is Some && state.transport->0.generation == around.generation
                ==> after.speaking
        }),
{
    reveal(ExecState::happens);
}

/// A sender whose connection became ready starts: with the staged frame, or by asking the
/// source. One whose timeline runs on just goes on.
pub proof fn ready_connections_start_the_sender(state: ExecState, around: Surroundings)
    requires
        state.stage is Waiting,
        !state.stopping,
        state.ready(around),
    ensures
        !state.active && !state.connection_was_ready && state.staged is None ==> {
            let (after, action) = state.step(around, EventValue::Changed);
            action is Poll && after.stage is StartPolling && after.connection_was_ready
        },
        !state.active && state.staged is None ==> {
            let (after, action) = state.step(
                around,
                EventValue::Woken(state.generation.number() as u64),
            );
            action is Poll && after.stage is StartPolling
        },
        !state.active && state.staged is None ==> {
            let (after, action) = state.step(around, EventValue::Begin);
            action is Poll && after.stage is StartPolling
        },
        !state.active && !state.connection_was_ready && state.staged is Some && !state.speaking
            ==> {
            let (after, action) = state.step(around, EventValue::Changed);
            &&& action == (ActionValue::Speak {
                generation: state.transport->0.generation,
                speaking: true,
            })
            &&& after.stage == Stage::StartSpeaking(state.staged->0)
        },
        state.active ==> {
            let (after, action) = state.step(around, EventValue::Changed);
            &&& action == (ActionValue::Wait { timeline: true })
            &&& after.active
            &&& after.speaking == state.speaking
            &&& after.pacer == state.pacer
        },
{
    reveal(ExecState::happens);
    reveal(ExecState::tries_start);
    state.generation.number_is_bounded();
}

/// A new transport is used from then on. The gateway knows nothing of the sender there, so it
/// does not speak, and the timeline of the old transport ends.
pub proof fn new_transports_start_unannounced(
    state: ExecState,
    around: Surroundings,
    update: InstalledState,
)
    requires
        state.stage is Waiting,
        !state.stopping,
    ensures
        ({
            let (after, action) = state.step(around, EventValue::Transport(Some(update)));
            &&& after.transport == Some(update)
            &&& !after.speaking
            &&& !after.active
            &&& after.last_packet is None
            &&& after.staged == state.staged
            &&& update.dave_protocol_version != 0 && !(update.has_dave && around.dave_ready)
                ==> action == (ActionValue::Wait { timeline: false })
        }),
{
    reveal(ExecState::happens);
    reveal(ExecState::tries_start);
}

/// At a deadline the missed ones are shown as the timer counted them, and the lateness counts
/// towards the longest. Where media can be sent the source is asked for a frame, unless one
/// is staged.
pub proof fn deadlines_ask_the_source(state: ExecState, around: Surroundings, deadline: u64)
    requires
        state.sound(),
        state.stage is Waiting,
        state.active,
        state.pacer.registered,
        state.pacer.next == Some(deadline),
        deadline <= around.now,
    ensures
        ({
            let (after, action) = state.step(around, EventValue::Timer);
            &&& after.store.stats.skipped_deadlines == after.pacer.skipped
            &&& after.store.stats.max_lateness >= around.now - deadline
            &&& after.store.stats.max_lateness >= state.store.stats.max_lateness
            &&& after.store.stats.max_lateness == around.now - deadline
                || after.store.stats.max_lateness == state.store.stats.max_lateness
            &&& after.active
            &&& !state.ready(around) ==> action == (ActionValue::Wait { timeline: true })
            &&& state.ready(around) && !state.stopping && state.staged is None ==> {
                &&& action is Poll
                &&& after.stage == Stage::TickPolling(deadline)
            }
            &&& state.ready(around) && !state.stopping && state.staged is Some ==> {
                &&& action is Admit
                &&& after.stage == Stage::Admitting(Purpose::Frame(deadline), state.staged->0)
            }
        }),
{
    reveal(ExecState::happens);
    reveal(ExecState::ticks);
    reveal(ExecState::tick_polled);
}

/// Before its deadline, and without a timeline, the timer does nothing.
pub proof fn early_timers_do_nothing(state: ExecState, around: Surroundings)
    requires
        state.stage is Waiting,
        !state.stopping,
        !state.active || state.pacer.registered && state.pacer.next is Some && around.now
            < state.pacer.next->0,
    ensures
        state.step(around, EventValue::Timer).0 == state,
        state.step(around, EventValue::Timer).1 == (ActionValue::Wait { timeline: state.active }),
{
    reveal(ExecState::happens);
}

/// A replaced source keeps the transport, the timeline and the announcement; the answer names
/// the new generation, and the sender is to be woken exactly where it has no timeline.
pub proof fn replacements_keep_the_timeline(state: ExecState, around: Surroundings)
    requires
        state.stage is Waiting,
        !state.stopping,
        state.generation.number() < u64::MAX,
    ensures
        ({
            let (after, action) = state.step(around, EventValue::Asked(Request::Replace));
            &&& after.active == state.active
            &&& after.speaking == state.speaking
            &&& after.transport == state.transport
            &&& after.pacer == state.pacer
            &&& after.store.stats == state.store.stats
            &&& !after.source_ended
            &&& after.staged is None
            &&& after.answer matches AnswerValue::Replaced { generation, wake }
            &&& generation == after.generation
            &&& generation.number() == state.generation.number() + 1
            &&& after.store.current.generation == generation
            &&& wake <==> !state.active
            &&& action == (ActionValue::Wait { timeline: state.active })
        }),
{
    reveal(ExecState::happens);
    reveal(ExecState::asked);
    state.generation.following_counts();
}

/// A sender that is asked to stop drops its frame. With a timeline it drains, without one it
/// takes its announcement back first, and where it does not speak it is done at once.
pub proof fn stops_take_the_announcement_back(state: ExecState, around: Surroundings)
    requires
        state.stage is Waiting,
        !state.stopping,
        state.generation.number() < u64::MAX,
        state.transport is Some,
    ensures
        ({
            let (after, action) = state.step(around, EventValue::Asked(Request::Stop));
            &&& after.stopping
            &&& after.staged is None
            &&& after.answer is Stopping
            &&& after.generation.number() == state.generation.number() + 1
            &&& state.active ==> action == (ActionValue::Wait { timeline: true })
            &&& !state.active && state.speaking ==> {
                &&& action == (ActionValue::Speak {
                    generation: state.transport->0.generation,
                    speaking: false,
                })
                &&& after.stage is StopQuieting
            }
            &&& !state.active && !state.speaking ==> {
                &&& action == ActionValue::Finish(Ok(()))
                &&& after.store.current.phase == AudioPhase::Stopped
            }
        }),
{
    reveal(ExecState::happens);
    reveal(ExecState::asked);
    state.generation.following_counts();
}

/// The fifth silence frame in a row takes the announcement back, in the generation of the
/// transport. What follows is the wait for the source, or the stopped phase where the source
/// ended or the sender stops.
pub proof fn drained_runs_take_the_announcement_back(
    state: ExecState,
    around: Surroundings,
    deadline: u64,
    unix_ms: u64,
)
    requires
        state.transport is Some,
    ensures
        state.sound() && state.stage == Stage::Transmitting(Purpose::Silence(deadline))
            && state.silence_sent == 4 && state.speaking ==> {
            let (after, action) = state.step(around, EventValue::Transmitted(true, unix_ms));
            &&& action == (ActionValue::Speak {
                generation: state.transport->0.generation,
                speaking: false,
            })
            &&& after.stage is DrainQuieting
            &&& !after.active
            &&& after.last_packet is None
        },
        state.stage is DrainQuieting ==> {
            let (after, action) = state.step(around, EventValue::Spoken(Ok(())));
            &&& !after.speaking
            &&& after.store.current.phase == AudioPhase::Stopped <==> state.stopping
                || state.source_ended
            &&& after.store.current.phase == AudioPhase::WaitingForSource <==> !(state.stopping
                || state.source_ended)
        },
        state.stage is StopQuieting ==> {
            let (after, action) = state.step(around, EventValue::Spoken(Ok(())));
            &&& !after.speaking
            &&& action == ActionValue::Finish(Ok(()))
            &&& after.store.current.phase == AudioPhase::Stopped
        },
{
    reveal(ExecState::send_ends);
    reveal(ExecState::spoken);
}

/// An announcement that failed ends the sender with that failure. A cancelled or forsaken
/// sender is done; one that gets no transport any more, or whose media owner is gone, fails.
pub proof fn ends_are_told_apart(
    state: ExecState,
    around: Surroundings,
    error: crate::error::ErrorView,
)
    ensures
        state.stage is StartSpeaking || state.stage is StartQuieting || state.stage
            is DrainQuieting || state.stage is StopQuieting ==> state.step(
            around,
            EventValue::Spoken(Err(error)),
        ).1 == ActionValue::Finish(Err(error)),
        state.stage is Renewing ==> state.step(around, EventValue::Renewed(Err(error))).1
            == ActionValue::Finish(Err(error)),
        state.stage is Waiting ==> {
            &&& state.step(around, EventValue::Cancelled).1 == ActionValue::Finish(Ok(()))
            &&& state.step(around, EventValue::Forsaken).1 == ActionValue::Finish(Ok(()))
            &&& state.step(around, EventValue::Transport(None)).1 matches ActionValue::Finish(
                Err(closed),
            )
            &&& closed.kind == ErrorKind::Shutdown
            &&& state.step(around, EventValue::DaveStopped).1 matches ActionValue::Finish(
                Err(stopped),
            )
            &&& stopped.kind == ErrorKind::DaveTransition
            &&& stopped.dave_failure() == Some(DaveFailure::Closed)
        },
{
    reveal(ExecState::happens);
}

/// A source without a frame that may start a run leaves the sender waiting for it, or stopped
/// where it ended; a sender that speaks still drains the silence it owes.
pub proof fn idle_sources_are_waited_for(
    state: ExecState,
    around: Surroundings,
    report: PollReport,
)
    requires
        state.sound(),
        state.stage is StartPolling,
        report.status == PollStatus::Pending || report.status == PollStatus::Ended,
        report.wall <= 2_000_000,
        around.now + 20_000_000 <= u64::MAX,
    ensures
        ({
            let (after, action) = state.step(around, EventValue::Polled(report));
            let ended = report.status == PollStatus::Ended;
            &&& after.source_ended <==> state.source_ended || ended
            &&& !state.speaking ==> {
                &&& action == (ActionValue::Wait { timeline: false })
                &&& !after.active
                &&& ended ==> after.store.current.phase == AudioPhase::Stopped
                &&& !ended ==> after.store.current.phase == AudioPhase::WaitingForSource
            }
            &&& state.speaking && state.pacer.registered ==> {
                &&& action == (ActionValue::Wait { timeline: true })
                &&& after.active
                &&& after.pacer.next == Some((around.now + 20_000_000) as u64)
                &&& after.store.current.phase == AudioPhase::DrainingSilence
                &&& after.silence_sent == state.silence_sent
            }
        }),
{
    reveal(ExecState::start_polled);
}

/// An ended sender has no place with the pacer. A failure is on record; without one the
/// sender stopped, unless it had failed before.
pub proof fn ended_senders_leave_the_pacer(state: ExecState, error: crate::error::ErrorView)
    ensures
        !state.concluded(None).pacer.registered,
        state.concluded(None).pacer.next is None,
        !state.concluded(Some(error)).pacer.registered,
        state.concluded(Some(error)).store.current.phase == AudioPhase::Failed,
        state.concluded(Some(error)).store.current.failure == Some(error.kind),
        state.store.current.phase != AudioPhase::Failed
            ==> state.concluded(None).store.current.phase == AudioPhase::Stopped,
        state.store.current.phase == AudioPhase::Failed ==> state.concluded(None).store
            == state.store,
{
}

/// What a sender tells of a failure names the observed DAVE state exactly where the failure
/// has a DAVE cause and the transport is under DAVE; nothing else of it changes.
pub proof fn dave_failures_tell_the_dave_state(
    state: ExecState,
    error: crate::error::ErrorView,
    context: DaveContext,
)
    ensures
        ({
            let told = state.told(error, Some(context));
            let under_dave = state.transport is Some && state.transport->0.has_dave;
            &&& error.dave_failure() is Some && under_dave ==> told.dave_context == Some(context)
            &&& error.dave_failure() is None || !under_dave ==> told == error
            &&& told.kind == error.kind
            &&& told.source == error.source
            &&& told.operation == error.operation
            &&& told.message == error.message
        }),
        state.told(error, None) == error,
{
}

/// Between two packets of a timeline the time since the earlier one is the gap that is
/// recorded, with the time of day; the first packet of a timeline has none.
pub proof fn gaps_are_measured_between_packets(
    state: ExecState,
    previous: u64,
    now: u64,
    unix_ms: u64,
    silent: bool,
)
    requires
        previous <= now,
    ensures
        state.last_packet is None ==> {
            &&& state.packet_counted(now, unix_ms, silent).store.stats.last_active_send_gap
                == state.store.stats.last_active_send_gap
            &&& state.packet_counted(now, unix_ms, silent).store.stats.active_send_gap_counts
                == state.store.stats.active_send_gap_counts
        },
        state.last_packet == Some(previous) && now - previous >= 40_000_000 ==> {
            let stats = state.packet_counted(now, unix_ms, silent).store.stats;
            &&& stats.last_active_send_gap == now - previous
            &&& stats.last_active_send_gap_unix_ms == unix_ms
            &&& stats.max_active_send_gap >= now - previous
        },
        state.packet_counted(now, unix_ms, silent).last_packet == Some(now),
        state.packet_counted(now, unix_ms, silent).staged is None,
{
}

/// Media flows exactly where a transport is there, the connection is up in its generation,
/// and, where it asks for DAVE, its owner is there and ready.
pub proof fn media_flows_over_a_current_transport(
    state: ExecState,
    around: Surroundings,
    transport: InstalledState,
)
    requires
        state.transport == Some(transport),
    ensures
        !state.bare().ready(around),
        around.phase != ConnectionPhase::Connected ==> !state.ready(around),
        around.generation != transport.generation ==> !state.ready(around),
        around.phase == ConnectionPhase::Connected && around.generation == transport.generation
            ==> {
            &&& transport.dave_protocol_version == 0 ==> state.ready(around)
            &&& transport.dave_protocol_version != 0 && !transport.has_dave ==> !state.ready(around)
            &&& transport.dave_protocol_version != 0 && transport.has_dave ==> (state.ready(around)
                <==> around.dave_ready)
        },
{
}

/// Work that took less than a period leaves the next deadline where it is; longer work moves
/// it one period behind the end of the work, and its lateness counts towards the longest.
pub proof fn long_sends_move_the_deadline(
    state: ExecState,
    around: Surroundings,
    deadline: u64,
    unix_ms: u64,
)
    requires
        state.stage == Stage::Transmitting(Purpose::Frame(deadline)),
        state.active,
        deadline <= around.now,
        around.now + 20_000_000 <= u64::MAX,
    ensures
        ({
            let (after, action) = state.step(around, EventValue::Transmitted(true, unix_ms));
            &&& around.now - deadline < 20_000_000 ==> {
                &&& after.pacer.next == state.pacer.next
                &&& after.pacer.skipped == state.pacer.skipped
                &&& after.store.stats.max_lateness == state.store.stats.max_lateness
            }
            &&& around.now - deadline >= 20_000_000 ==> {
                &&& after.pacer.next is Some
                &&& after.pacer.next->0 - around.now == 20_000_000
                &&& after.store.stats.max_lateness >= around.now - deadline
                &&& after.store.stats.max_lateness >= state.store.stats.max_lateness
            }
            &&& after.pacer.registered == state.pacer.registered
        }),
{
    reveal(ExecState::send_ends);
    let late = around.now - deadline;
    if late < 20_000_000 {
        assert(late / 20_000_000 == 0) by (nonlinear_arith)
            requires
                0 <= late < 20_000_000,
        ;
    } else {
        assert(late / 20_000_000 >= 1) by (nonlinear_arith)
            requires
                late >= 20_000_000,
        ;
    }
}

/// A payload that its transport cannot encrypt ends the sender: one over the bound before a
/// nonce is used, one that the cipher refuses with the nonce used up.
pub proof fn unencryptable_payloads_end_the_sender(
    state: ExecState,
    purpose: Purpose,
    payload: Seq<u8>,
)
    requires
        state.transport is Some,
    ensures
        ({
            let (after, action) = state.encodes(purpose, payload);
            let encoder = state.transport->0.encoder;
            &&& payload.len() > encoder.max_payload_bytes ==> {
                &&& action matches ActionValue::Finish(Err(error))
                &&& error.kind == ErrorKind::TransportCrypto
                &&& error.retry == RetryDisposition::Fatal
                &&& after.transport == state.transport
                &&& after.stage is Finished
            }
            &&& payload.len() <= encoder.max_payload_bytes && encoder.next_nonce is Some
                && !crate::rtp::sealable(encoder.mode, payload.len()) ==> {
                &&& action matches ActionValue::Finish(Err(error))
                &&& error.kind == ErrorKind::TransportCrypto
                &&& after.transport->0.encoder.sequence == encoder.sequence
                &&& after.transport->0.encoder.timestamp == encoder.timestamp
                &&& after.transport->0.encoder.next_nonce != encoder.next_nonce
            }
            &&& payload.len() <= encoder.max_payload_bytes && encoder.next_nonce is Some
                && crate::rtp::sealable(encoder.mode, payload.len()) ==> action is Transmit
                && after.stage == Stage::Transmitting(purpose)
        }),
{
    reveal(ExecState::encodes);
}

/// Without a further generation a request is refused for that, and the sender ends with the
/// same failure, under the operation of the request. A second stop is refused and changes
/// nothing else.
pub proof fn requests_need_a_generation(state: ExecState, around: Surroundings, request: Request)
    requires
        state.stage is Waiting,
    ensures
        ({
            let (after, action) = state.step(around, EventValue::Asked(request));
            &&& state.generation.number() == u64::MAX && !state.stopping ==> {
                &&& after.answer matches AnswerValue::Refused(refusal)
                &&& refusal.kind == ErrorKind::ResourceLimit
                &&& request == Request::Replace ==> refusal.operation == Operation::ReplaceSource
                &&& request == Request::Stop ==> refusal.operation == Operation::StopAudio
                &&& action == ActionValue::Finish(Err(refusal))
                &&& after.generation == state.generation
            }
            &&& state.stopping && request == Request::Stop ==> {
                &&& after.answer matches AnswerValue::Refused(refusal)
                &&& refusal.kind == ErrorKind::Overloaded
                &&& refusal.operation == Operation::StopAudio
                &&& after.generation == state.generation
                &&& after.store == state.store
                &&& state.active ==> action == (ActionValue::Wait { timeline: true })
            }
        }),
{
    reveal(ExecState::happens);
    reveal(ExecState::asked);
    state.generation.following_counts();
}

/// A request that came while a run was about to begin is carried out once the announcement
/// is taken back: the sender does not speak, and its frame is dropped.
pub proof fn requests_come_before_a_run(state: ExecState, around: Surroundings)
    requires
        !state.active,
        !state.stopping,
        state.generation.number() < u64::MAX,
    ensures
        state.stage == Stage::StartQuieting(Request::Replace) ==> {
            let (after, action) = state.step(around, EventValue::Spoken(Ok(())));
            &&& !after.speaking
            &&& after.staged is None
            &&& after.answer matches AnswerValue::Replaced { generation, wake }
            &&& generation.number() == state.generation.number() + 1
            &&& wake
            &&& action == (ActionValue::Wait { timeline: false })
        },
        state.stage == Stage::StartQuieting(Request::Stop) ==> {
            let (after, action) = state.step(around, EventValue::Spoken(Ok(())));
            &&& !after.speaking
            &&& after.staged is None
            &&& after.answer is Stopping
            &&& after.store.current.phase == AudioPhase::Stopped
            &&& action == ActionValue::Finish(Ok(()))
        },
{
    reveal(ExecState::spoken);
    reveal(ExecState::asked);
    state.generation.following_counts();
}

/// A stop gives the source a new generation and keeps the counters; from then on the source
/// counts as ended, and the phase follows once the silence is sent.
pub proof fn stops_invalidate_the_source(state: ExecState, around: Surroundings)
    requires
        state.stage is Waiting,
        state.active,
        !state.stopping,
        state.generation.number() < u64::MAX,
    ensures
        ({
            let (after, action) = state.step(around, EventValue::Asked(Request::Stop));
            &&& after.source_ended
            &&& after.active
            &&& after.speaking == state.speaking
            &&& after.silence_sent == state.silence_sent
            &&& after.store.stats == state.store.stats
            &&& after.store.current.generation == after.generation
            &&& after.store.current.phase == state.store.current.phase
            &&& after.store.events == state.store.events
            &&& after.pacer == state.pacer
            &&& after.transport == state.transport
        }),
{
    reveal(ExecState::happens);
    reveal(ExecState::asked);
    state.generation.following_counts();
}

/// The fifth silence frame of a sender that does not speak ends its run without an
/// announcement.
pub proof fn silent_runs_end_quietly(
    state: ExecState,
    around: Surroundings,
    deadline: u64,
    unix_ms: u64,
)
    requires
        state.sound(),
        state.stage == Stage::Transmitting(Purpose::Silence(deadline)),
        state.silence_sent == 4,
        !state.speaking,
    ensures
        ({
            let (after, action) = state.step(around, EventValue::Transmitted(true, unix_ms));
            &&& !after.active
            &&& action !is Speak
            &&& state.stopping ==> action == ActionValue::Finish(Ok(()))
            &&& !state.stopping ==> action == (ActionValue::Wait { timeline: false })
            &&& state.stopping || state.source_ended ==> after.store.current.phase
                == AudioPhase::Stopped
            &&& !(state.stopping || state.source_ended) ==> after.store.current.phase
                == AudioPhase::WaitingForSource
        }),
{
    reveal(ExecState::send_ends);
}

/// A timeline whose place with the pacer is gone fails. A wake while a timeline runs changes
/// nothing, and an ended sender hears nothing.
pub proof fn closed_timers_end_the_sender(
    state: ExecState,
    around: Surroundings,
    event: EventValue,
    woken: u64,
)
    ensures
        state.stage is Waiting && state.active && !state.pacer.registered ==> {
            let (after, action) = state.step(around, EventValue::Timer);
            &&& action matches ActionValue::Finish(Err(error))
            &&& error.kind == ErrorKind::Shutdown
            &&& after.stage is Finished
        },
        state.stage is Waiting && state.active && !state.stopping ==> {
            let (after, action) = state.step(around, EventValue::Woken(woken));
            &&& after == state
            &&& action == (ActionValue::Wait { timeline: true })
        },
        state.stage is Finished ==> state.step(around, event).0 == state,
{
    reveal(ExecState::happens);
}

/// A transport that can carry media is put to use at once: the staged frame is announced, or
/// the source is asked.
pub proof fn ready_transports_are_used_at_once(
    state: ExecState,
    around: Surroundings,
    update: InstalledState,
)
    requires
        state.stage is Waiting,
        !state.stopping,
        around.phase == ConnectionPhase::Connected,
        around.generation == update.generation,
        update.dave_protocol_version == 0 || update.has_dave && around.dave_ready,
    ensures
        ({
            let (after, action) = state.step(around, EventValue::Transport(Some(update)));
            &&& after.connection_was_ready
            &&& state.staged is None ==> action is Poll && after.stage is StartPolling
            &&& state.staged is Some ==> action == (ActionValue::Speak {
                generation: update.generation,
                speaking: true,
            })
        }),
{
    reveal(ExecState::happens);
    reveal(ExecState::tries_start);
}

} // verus!
