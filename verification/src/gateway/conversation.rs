//! One WebSocket session as a whole: what is done, and in which order, from the first
//! message to the end.
//!
//! A conversation listens until something happens. What happens may open a turn, such as
//! a message to write or a control to run; then nothing else is heard until the turn is
//! over. Each step names the one thing to do next, and its result is the next event.
use vstd::prelude::*;

use crate::config::ResourceLimits;
use crate::dave::{Control, Outbound};
use crate::error::{DaveFailure, Error, ErrorKind, Operation};
use crate::gateway::description::{
    dave_started, delivery_refused, finish_description, install_transport, DescribeStep,
};
use crate::gateway::dispatch::{
    admit_text, announce_speaking, binary_message, close_frame, count_discarded, dave_messages,
    follow_dave, renew_transport, stream_ended, write_failed, StreamEnd, TextMessage, TextStep,
    Written,
};
use crate::gateway::failure::{ping_shutdown_error, protocol_error};
use crate::gateway::info::ValidatedInfo;
use crate::gateway::link::{
    InstalledState, InstalledTransport, Link, LinkState, OutcomeValue, SessionOutcome,
};
use crate::gateway::payload::OutboundMessage;
use crate::gateway::session::{
    number_beat, unnumbered_error, write_error, AckStep, BeatStep, DaveStep, DiscoveredStep,
    DiscoveryCompletion, HelloStep, PingStep, ReadyStep, Session,
};
use crate::json::Json;
use crate::model::{ConnectionGeneration, ConnectionPhase};
use crate::rtp::TransportMode;
use crate::transport::TransportEncoder;

verus! {

/// What holds outside a session while it takes a step. The instant is in nanoseconds.
#[derive(Clone, Copy, Debug)]
pub struct Around {
    pub limits: ResourceLimits,
    /// Whether the DAVE owner is ready.
    pub dave_ready: bool,
    pub now: u64,
}

/// A transport that was described and is not installed yet.
pub struct Described {
    pub encoder: TransportEncoder,
    pub version: u16,
}

/// What follows once a control was run and its answers were written.
pub enum Sequel {
    /// The phase follows the readiness of the DAVE owner.
    Follow,
    /// The phase stays.
    Quiet,
    /// The described transport is installed.
    Install(Described),
}

/// What a session is in the middle of.
pub enum Turn {
    /// It waits for whatever comes.
    Listening,
    /// The opening is being written.
    Opening,
    /// The first heartbeat is being written.
    FirstBeat,
    /// A heartbeat that fell due is being written.
    Beat,
    /// A heartbeat that a caller asked for is being written.
    Ping,
    /// An announcement of an audio sender is being written.
    Speaking,
    /// The selection of the transport is being written.
    Selection,
    /// The answer to a WebSocket ping is being written.
    Pong,
    /// A DAVE owner is being started.
    Starting(Described),
    /// The DAVE owner runs a control.
    Running(Sequel),
    /// An answer of the DAVE owner is being written; these are left.
    Answering { rest: Vec<OutboundMessage>, sequel: Sequel },
    /// The transport is being handed to the audio sender.
    Handing { version: u16 },
    /// The transport is being invalidated to make room for fresh voice information.
    Replacing(ValidatedInfo),
    /// The session is over.
    Over,
}

/// What happens to a session.
pub enum SessionEvent {
    /// The connection is to shut down.
    Stopped,
    /// Nobody is left who could ask for anything.
    Forsaken,
    /// A caller asks for a start from fresh voice information.
    ReplacementAsked(ValidatedInfo),
    /// A caller asks for a heartbeat.
    PingAsked,
    /// An audio sender asks to announce whether it speaks.
    SpeakingAsked { audio_id: u64, generation: ConnectionGeneration, speaking: bool },
    /// An audio sender asks for a new transport.
    RenewalAsked { audio_id: u64, generation: ConnectionGeneration },
    /// The heartbeat deadline was reached.
    BeatDue,
    /// Discovery ended.
    Discovered(Option<DiscoveryCompletion>),
    /// This many datagrams were read from the media socket and dropped.
    Drained(usize),
    /// A text of this many bytes came, which was read as this message.
    Text { length: usize, message: Option<TextMessage> },
    /// A binary message came.
    Binary(Vec<u8>),
    /// A close frame came.
    Closed(Option<u16>),
    /// A WebSocket ping came.
    Pinged,
    /// The stream or the media socket gave out.
    Ended(StreamEnd),
    /// The message was written.
    Written,
    /// The message was not written, be it for lack of time.
    WriteFailed { timed_out: bool },
    /// The DAVE owner was started, or not.
    DaveStarted(Result<(), DaveFailure>),
    /// The DAVE owner answered the control.
    DaveAnswered(Result<Vec<Outbound>, DaveFailure>),
    /// The old transport admits no more sends, and the admitted ones have ended.
    Invalidated,
    /// The audio sender has the transport.
    HandedOver,
    /// The audio sender did not take the transport; its encoder is back.
    NotTaken(TransportEncoder),
}

/// How a session is ended.
pub struct Ending {
    pub outcome: SessionOutcome,
    /// What the waiting pings are answered.
    pub pings: Option<Error>,
    /// What the command at hand is answered.
    pub asked: Option<Result<(), Error>>,
    /// Whether a close frame is sent first.
    pub closing: bool,
}

/// What is to be done next.
pub enum SessionAction {
    /// Wait for what happens.
    Listen,
    /// Write a message.
    Write(OutboundMessage),
    /// Answer the WebSocket ping.
    Pong,
    /// Discover the public address, and listen.
    Discover {
        ip: String,
        port: u16,
        ssrc: u32,
        mode: TransportMode,
        generation: ConnectionGeneration,
    },
    /// Start the DAVE owner of the user and the channel.
    StartDave,
    /// Let the DAVE owner run a control.
    Run(Control),
    /// Hand the transport to the audio sender.
    HandOver(InstalledTransport),
    /// Admit no more sends over the transport, if there is one, and let the admitted ones
    /// end.
    Invalidate,
    /// Refuse the command at hand, and listen.
    Refuse(Error),
    /// Report success to the command at hand, and listen.
    Grant,
    /// Let the ping at hand wait with the others, and listen.
    Queue,
    /// Answer the waiting pings with this many nanoseconds, and listen.
    AnswerPings(u64),
    /// End the session.
    End(Ending),
}

/// The state of one WebSocket session and of the turn it is in.
pub struct Conversation {
    pub session: Session,
    pub turn: Turn,
}

/// The value of an optional error.
pub open spec fn told(error: Option<Error>) -> Option<crate::error::ErrorView> {
    match error {
        Some(error) => Some(error@),
        None => None,
    }
}

/// The value of an optional answer.
pub open spec fn told_asked(asked: Option<Result<(), Error>>) -> Option<
    Result<(), crate::error::ErrorView>,
> {
    match asked {
        Some(Ok(())) => Some(Ok(())),
        Some(Err(error)) => Some(Err(error@)),
        None => None,
    }
}

impl SessionAction {
    /// The session is ended, with these answers.
    pub open spec fn ends(
        self,
        outcome: OutcomeValue,
        pings: Option<crate::error::ErrorView>,
        asked: Option<Result<(), crate::error::ErrorView>>,
        closing: bool,
    ) -> bool {
        &&& self matches SessionAction::End(ending)
        &&& ending.outcome.value() == outcome
        &&& told(ending.pings) == pings
        &&& told_asked(ending.asked) == asked
        &&& ending.closing == closing
    }

    /// The session fails, and nobody else is answered.
    pub open spec fn fails(self, failure: crate::error::ErrorView) -> bool {
        self.ends(OutcomeValue::Fatal(failure), None, None, false)
    }

    /// A JSON message with this value is written.
    pub open spec fn writes(self, json: crate::json::JsonValue) -> bool {
        self matches SessionAction::Write(OutboundMessage::Json(sent)) && sent.value() == json
    }
}

/// What the waiting pings are answered when the session ends.
pub open spec fn lost_ping(link: LinkState) -> crate::error::ErrorView {
    crate::gateway::failure::retrying_failure(Operation::Ping, link.generation())
}

impl Turn {
    /// What is being written, if anything is.
    pub open spec fn writing(self) -> Option<Written> {
        match self {
            Turn::Opening | Turn::FirstBeat => Some(Written::Opening),
            Turn::Beat => Some(Written::Heartbeat),
            Turn::Ping => Some(Written::Ping),
            Turn::Speaking => Some(Written::Speaking),
            Turn::Selection => Some(Written::Selection),
            Turn::Pong => Some(Written::Pong),
            Turn::Answering { .. } => Some(Written::Dave),
            _ => None,
        }
    }

    fn being_written(&self) -> (written: Option<Written>)
        ensures
            written == self.writing(),
    {
        match self {
            Turn::Opening | Turn::FirstBeat => Some(Written::Opening),
            Turn::Beat => Some(Written::Heartbeat),
            Turn::Ping => Some(Written::Ping),
            Turn::Speaking => Some(Written::Speaking),
            Turn::Selection => Some(Written::Selection),
            Turn::Pong => Some(Written::Pong),
            Turn::Answering { .. } => Some(Written::Dave),
            _ => None,
        }
    }
}

/// A step of a conversation: from a state, under an event, to a state and an action.
pub ghost struct Exchange {
    pub before: Conversation,
    pub link: LinkState,
    pub after: Conversation,
    pub link_after: LinkState,
    pub action: SessionAction,
}

impl Exchange {
    /// The session itself and the link stay as they are.
    pub open spec fn keeps(self) -> bool {
        self.after.session == self.before.session && self.link_after == self.link
    }

    /// The session listens.
    pub open spec fn listens(self) -> bool {
        self.action is Listen && self.after.turn is Listening
    }

    /// The session is over and fails; the pings are forgotten.
    pub open spec fn fails(self, failure: crate::error::ErrorView) -> bool {
        self.action.fails(failure) && self.after.turn is Over
    }

    /// The described transport is installed: an attached audio sender gets it first.
    pub open spec fn installs(self, described: Described) -> bool {
        let version = described.version;
        let ready = self.link.ready_for_media(described.encoder@, version);
        &&& self.after.session == self.before.session
        &&& if self.link.transport is None {
            &&& self.link_after == self.link
            &&& self.fails(crate::gateway::failure::protocol_failure(self.link.generation()))
        } else if self.link.attachment is Some {
            &&& self.link_after == ready
            &&& self.after.turn == (Turn::Handing { version })
            &&& self.action matches SessionAction::HandOver(transport) && transport@ == (
            InstalledState {
                generation: self.link.generation(),
                socket: self.link.transport->0.socket,
                encoder: described.encoder@,
                dave_protocol_version: version,
                has_dave: version != 0 && self.link.dave,
            })
        } else {
            self.link_after == ready.description_finished(version) && self.listens()
        }
    }

    /// What a control leaves to be done.
    pub open spec fn concludes(self, sequel: Sequel, dave_ready: bool) -> bool {
        match sequel {
            Sequel::Follow => {
                &&& self.after.session == self.before.session
                &&& self.link_after == self.link.dave_phase(dave_ready)
                &&& self.listens()
            },
            Sequel::Quiet => self.keeps() && self.listens(),
            Sequel::Install(described) => self.installs(described),
        }
    }

    /// The next answer is written, or the control is over.
    pub open spec fn answers(
        self,
        messages: Seq<OutboundMessage>,
        sequel: Sequel,
        dave_ready: bool,
    ) -> bool {
        if messages.len() == 0 {
            self.concludes(sequel, dave_ready)
        } else {
            &&& self.keeps()
            &&& self.action == SessionAction::Write(messages[0])
            &&& self.after.turn matches Turn::Answering { rest, sequel: left } && rest@
                == messages.skip(1) && left == sequel
        }
    }

    /// What a message for the DAVE owner leads to.
    pub open spec fn takes_dave(self, step: DaveStep) -> bool {
        match step {
            DaveStep::Run(control) => {
                &&& self.action == SessionAction::Run(control)
                &&& self.after.turn == Turn::Running(Sequel::Follow)
            },
            DaveStep::RunQuietly(control) => {
                &&& self.action == SessionAction::Run(control)
                &&& self.after.turn == Turn::Running(Sequel::Quiet)
            },
            DaveStep::Done => self.listens(),
            DaveStep::Fatal(error) => self.fails(error@),
        }
    }

    /// What the start of a DAVE owner leads to. A roster that came before is handed to
    /// the owner before the transport is installed.
    pub open spec fn takes_start(self, described: Described, started: Result<(), DaveFailure>) -> bool {
        match started {
            Ok(()) => {
                let owned = LinkState { dave: true, ..self.link };
                if self.link.dave_roster.len() == 0 {
                    (Exchange { link: owned, ..self }).installs(described)
                } else {
                    &&& self.link_after == owned
                    &&& self.after.session == self.before.session
                    &&& self.after.turn == Turn::Running(Sequel::Install(described))
                    &&& self.action matches SessionAction::Run(Control::Roster(users)) && users@
                        == self.link.dave_roster
                }
            },
            Err(failure) => {
                &&& self.keeps()
                &&& self.fails(
                    crate::error::ErrorView {
                        source: Some(crate::error::ErrorSource::Dave(failure)),
                        ..crate::gateway::failure::dave_setup_failure(self.link.generation())
                    },
                )
            },
        }
    }

    /// What the answer of the DAVE owner leads to.
    pub open spec fn takes_answer(
        self,
        actions: Result<Vec<Outbound>, DaveFailure>,
        sequel: Sequel,
        around: Around,
    ) -> bool {
        match actions {
            Ok(actions) => exists|sent: Result<Vec<OutboundMessage>, Error>|
                {
                    &&& #[trigger] crate::gateway::payload::carried(
                        actions@,
                        around.limits.gateway_binary_bytes,
                        self.link.generation(),
                        sent,
                    )
                    &&& match sent {
                        Ok(messages) => self.answers(messages@, sequel, around.dave_ready),
                        Err(error) => self.keeps() && self.fails(error@),
                    }
                },
            Err(failure) => {
                &&& self.keeps()
                &&& self.fails(
                    crate::error::ErrorView {
                        source: Some(crate::error::ErrorSource::Dave(failure)),
                        ..crate::gateway::failure::dave_setup_failure(self.link.generation())
                    },
                )
            },
        }
    }

    /// What the answer of the audio sender leads to.
    pub open spec fn handed(self, version: u16, returned: Option<TransportEncoder>) -> bool {
        let held = match returned {
            Some(encoder) if self.link.transport is Some => self.link.unattached().with_encoder(
                Some(encoder@),
            ),
            _ => self.link,
        };
        &&& self.after.session == self.before.session
        &&& self.link_after == held.description_finished(version)
        &&& self.listens()
    }

    /// What a written message leads to. The first heartbeat follows the opening, and the
    /// heartbeat clock starts behind it.
    pub open spec fn wrote(self, now: u64) -> bool {
        let sent = Session {
            outstanding: Some((self.link.heartbeat_nonce, now)),
            ..self.before.session
        };
        match self.before.turn {
            Turn::Opening => {
                &&& self.after.session == self.before.session
                &&& if self.link.beats_exhausted() {
                    &&& self.link_after == self.link
                    &&& self.fails(
                        crate::gateway::session::unnumbered_failure(
                            Operation::Connect,
                            self.link.generation(),
                        ),
                    )
                } else {
                    &&& self.link_after == self.link.beat_numbered()
                    &&& self.action.writes(self.link_after.beat())
                    &&& self.after.turn is FirstBeat
                }
            },
            Turn::FirstBeat => {
                &&& self.link_after == self.link
                &&& self.after.session == (match sent.heartbeat_interval {
                    Some(interval) => Session {
                        heartbeat_deadline: Some(crate::gateway::backoff::later(now, interval)),
                        ..sent
                    },
                    None => sent,
                })
                &&& self.listens()
            },
            Turn::Beat | Turn::Ping => {
                &&& self.link_after == self.link
                &&& self.after.session == sent
                &&& self.listens()
            },
            Turn::Speaking => {
                &&& self.keeps()
                &&& self.action is Grant
                &&& self.after.turn is Listening
            },
            _ => self.keeps() && self.listens(),
        }
    }

    /// What a message that was not written leads to.
    pub open spec fn not_written(self, written: Written, timed_out: bool) -> bool {
        let generation = self.link.generation();
        let shared = written == Written::Heartbeat || written == Written::Ping;
        &&& self.link_after == self.link
        &&& match crate::gateway::dispatch::write_leads(generation, written, timed_out) {
            Some(outcome) => {
                &&& self.after.turn is Over
                &&& self.after.session == (if shared {
                    Session { pending_pings: 0, ..self.before.session }
                } else {
                    self.before.session
                })
                &&& self.action.ends(
                    outcome,
                    if shared {
                        Some(lost_ping(self.link))
                    } else {
                        None
                    },
                    if written == Written::Speaking {
                        Some(
                            Err(
                                crate::gateway::session::write_failure(
                                    timed_out,
                                    Operation::StartAudio,
                                    generation,
                                ),
                            ),
                        )
                    } else {
                        None
                    },
                    false,
                )
            },
            None => self.after.session == self.before.session && self.listens(),
        }
    }

    /// What a read text message leads to.
    pub open spec fn takes_text(self, step: TextStep) -> bool {
        match step {
            TextStep::Hello(HelloStep::Open(opening)) => {
                &&& self.action == SessionAction::Write(OutboundMessage::Json(opening))
                &&& self.after.turn is Opening
            },
            TextStep::Hello(HelloStep::Fatal(error)) => self.fails(error@),
            TextStep::Ready(ReadyStep::Discover { ip, port, ssrc, mode, generation }) => {
                &&& self.action == (SessionAction::Discover { ip, port, ssrc, mode, generation })
                &&& self.after.turn is Listening
            },
            TextStep::Ready(ReadyStep::Fatal(error)) => self.fails(error@),
            TextStep::Describe(DescribeStep::Accept { encoder, version, start_dave }) => {
                let described = Described { encoder, version };
                if start_dave {
                    &&& self.keeps()
                    &&& self.action is StartDave
                    &&& self.after.turn == Turn::Starting(described)
                } else {
                    self.installs(described)
                }
            },
            TextStep::Describe(DescribeStep::Fatal(error)) => self.keeps() && self.fails(error@),
            TextStep::Acknowledge(AckStep::Pong(rtt)) => {
                &&& self.action == SessionAction::AnswerPings(rtt)
                &&& self.after.turn is Listening
            },
            TextStep::Acknowledge(AckStep::Ignore) => self.listens(),
            TextStep::Acknowledge(AckStep::Fatal(error)) => self.fails(error@),
            TextStep::Dave(step) => self.takes_dave(step),
            TextStep::Done => self.listens(),
            TextStep::Fatal(error) => self.fails(error@),
        }
    }

    /// What a text message leads to. Reading it settles the session and the link; a
    /// description that starts no DAVE owner goes on to install its transport.
    pub open spec fn hears_text(
        self,
        length: usize,
        message: Option<TextMessage>,
        around: Around,
    ) -> bool {
        if length > around.limits.gateway_text_bytes {
            &&& self.keeps()
            &&& self.fails(crate::gateway::failure::resource_failure(self.link.generation()))
        } else {
            exists|session: Session, link: LinkState, step: TextStep|
                {
                    &&& #[trigger] self.before.session.text_leads(
                        self.link,
                        message,
                        around.limits,
                        around.dave_ready,
                        around.now,
                        session,
                        link,
                        step,
                    )
                    &&& (Exchange {
                        before: Conversation { session, ..self.before },
                        link,
                        ..self
                    }).takes_text(step)
                    &&& step !is Describe ==> self.after.session == session && self.link_after
                        == link
                }
        }
    }

    /// There is no generation left for fresh voice information.
    pub open spec fn refuses_replacement(self) -> bool {
        &&& self.action matches SessionAction::Refuse(error) && error@
            == crate::gateway::failure::generation_exhausted_failure(self.link.generation())
        &&& self.after.turn is Listening
    }

    /// What follows once the old transport is out of the way: the session ends in favour
    /// of fresh voice information under the next generation.
    pub open spec fn replaces(self, info: ValidatedInfo) -> bool {
        if self.link.generation().number() == u64::MAX {
            &&& self.after.session == self.before.session
            &&& self.link_after == self.link.replacement_admitted(None)
            &&& self.refuses_replacement()
        } else {
            &&& exists|next: ConnectionGeneration|
                {
                    &&& #[trigger] next.number() == self.link.generation().number() + 1
                    &&& self.link_after == self.link.replacement_admitted(Some(next))
                }
            &&& self.after.session == (Session { pending_pings: 0, ..self.before.session })
            &&& self.after.turn is Over
            &&& self.action.ends(
                OutcomeValue::Replace(info@),
                Some(lost_ping(self.link_after)),
                Some(Ok(())),
                true,
            )
        }
    }

    /// What a ping command leads to.
    pub open spec fn hears_ping(self, capacity: usize) -> bool {
        exists|step: PingStep|
            {
                &&& #[trigger] self.before.session.ping_leads(
                    self.link,
                    capacity,
                    self.after.session,
                    self.link_after,
                    step,
                )
                &&& match step {
                    PingStep::Refuse(error) => {
                        &&& self.action == SessionAction::Refuse(error)
                        &&& self.after.turn is Listening
                    },
                    PingStep::Wait => self.action is Queue && self.after.turn is Listening,
                    PingStep::Send(beat) => {
                        &&& self.action == SessionAction::Write(OutboundMessage::Json(beat))
                        &&& self.after.turn is Ping
                    },
                    PingStep::Fatal(error) => {
                        &&& self.action.ends(
                            OutcomeValue::Fatal(error@),
                            Some(lost_ping(self.link)),
                            None,
                            false,
                        )
                        &&& self.after.turn is Over
                    },
                }
            }
    }

    /// What the heartbeat deadline leads to.
    pub open spec fn hears_deadline(self, now: u64) -> bool {
        exists|step: BeatStep|
            {
                &&& #[trigger] self.before.session.beat_leads(
                    self.link,
                    now,
                    self.after.session,
                    self.link_after,
                    step,
                )
                &&& match step {
                    BeatStep::Send(beat) => {
                        &&& self.action == SessionAction::Write(OutboundMessage::Json(beat))
                        &&& self.after.turn is Beat
                    },
                    BeatStep::Waiting => self.listens(),
                    BeatStep::GiveUp => {
                        &&& self.action.ends(
                            OutcomeValue::Resume,
                            Some(lost_ping(self.link)),
                            None,
                            false,
                        )
                        &&& self.after.turn is Over
                    },
                }
            }
    }

    /// What the end of discovery leads to.
    pub open spec fn hears_discovery(self, completion: Option<DiscoveryCompletion>) -> bool {
        exists|step: DiscoveredStep|
            {
                &&& #[trigger] self.before.session.discovery_leads(
                    self.link,
                    completion,
                    self.after.session,
                    self.link_after,
                    step,
                )
                &&& match step {
                    DiscoveredStep::Select(json) => {
                        &&& self.action == SessionAction::Write(OutboundMessage::Json(json))
                        &&& self.after.turn is Selection
                    },
                    DiscoveredStep::Stale => self.listens(),
                    DiscoveredStep::Fatal(error) => self.fails(error@),
                }
            }
    }

    /// What an announcement that is asked for leads to.
    pub open spec fn hears_speaking(
        self,
        audio_id: u64,
        generation: ConnectionGeneration,
        speaking: bool,
    ) -> bool {
        &&& self.keeps()
        &&& match self.link.speaking_failure(audio_id, generation) {
            Some(failure) => {
                &&& self.action matches SessionAction::Refuse(error) && error@ == failure
                &&& self.after.turn is Listening
            },
            None => {
                &&& self.action.writes(
                    crate::gateway::payload::speaking_value(
                        self.link.transport->0.ssrc,
                        speaking,
                    ),
                )
                &&& self.after.turn is Speaking
            },
        }
    }

    /// What a new transport that is asked for leads to.
    pub open spec fn hears_renewal(self, audio_id: u64, generation: ConnectionGeneration) -> bool {
        &&& self.keeps()
        &&& if self.link.superseded(audio_id, generation) {
            &&& self.action matches SessionAction::Refuse(error) && error@
                == crate::gateway::failure::superseded_audio_failure(self.link.generation())
            &&& self.after.turn is Listening
        } else {
            &&& self.action.ends(OutcomeValue::FreshIdentify, None, Some(Ok(())), false)
            &&& self.after.turn is Over
        }
    }

    /// What the end of the stream, or of the media socket, leads to. Only a lost stream
    /// fails the pings.
    pub open spec fn hears_end(self, end: StreamEnd) -> bool {
        let pings = if end == StreamEnd::Lost {
            Some(lost_ping(self.link))
        } else {
            None
        };
        &&& self.after.session == (if end == StreamEnd::Lost {
            Session { pending_pings: 0, ..self.before.session }
        } else {
            self.before.session
        })
        &&& self.link_after == self.link
        &&& self.after.turn is Over
        &&& self.action.ends(
            crate::gateway::dispatch::stream_leads(self.link, end),
            pings,
            None,
            false,
        )
    }

    /// What a close frame leads to.
    pub open spec fn hears_close(self, code: Option<u16>) -> bool {
        &&& self.after.session == (Session { pending_pings: 0, ..self.before.session })
        &&& self.link_after == self.link
        &&& self.after.turn is Over
        &&& self.action matches SessionAction::End(ending)
        &&& crate::gateway::dispatch::close_leads(self.link.generation(), code, ending.outcome)
        &&& told(ending.pings) == Some(lost_ping(self.link))
        &&& ending.asked is None
        &&& !ending.closing
    }

    /// What a listening session does about an event.
    pub open spec fn hears(self, around: Around, event: SessionEvent) -> bool {
        let quiet = Session { pending_pings: 0, ..self.before.session };
        match event {
            SessionEvent::Stopped => {
                &&& self.after.session == quiet
                &&& self.link_after == self.link
                &&& self.after.turn is Over
                &&& self.action.ends(
                    OutcomeValue::Shutdown,
                    Some(crate::gateway::failure::ping_shutdown_failure(self.link.generation())),
                    None,
                    true,
                )
            },
            SessionEvent::Forsaken => {
                &&& self.keeps()
                &&& self.after.turn is Over
                &&& self.action.ends(OutcomeValue::Shutdown, None, None, true)
            },
            SessionEvent::ReplacementAsked(info) => {
                &&& self.after.session == self.before.session
                &&& if self.link.generation().number() == u64::MAX {
                    &&& self.link_after == self.link.replacement_admitted(None)
                    &&& self.refuses_replacement()
                } else {
                    &&& self.link_after == self.link
                    &&& self.action is Invalidate
                    &&& self.after.turn == Turn::Replacing(info)
                }
            },
            SessionEvent::PingAsked => self.hears_ping(around.limits.gateway_command_capacity),
            SessionEvent::SpeakingAsked { audio_id, generation, speaking } => self.hears_speaking(
                audio_id,
                generation,
                speaking,
            ),
            SessionEvent::RenewalAsked { audio_id, generation } => self.hears_renewal(
                audio_id,
                generation,
            ),
            SessionEvent::BeatDue => self.hears_deadline(around.now),
            SessionEvent::Discovered(completion) => self.hears_discovery(completion),
            SessionEvent::Drained(discarded) => {
                &&& self.after.session == self.before.session
                &&& self.link_after == (if discarded == 0 {
                    self.link
                } else {
                    self.link.stored(self.link.store.discarded_udp_datagrams(discarded as u64))
                })
                &&& self.listens()
            },
            SessionEvent::Text { length, message } => self.hears_text(length, message, around),
            SessionEvent::Binary(bytes) => {
                &&& self.after.session == self.before.session
                &&& exists|step: DaveStep|
                    {
                        &&& #[trigger] self.link.binary_leads(
                            bytes@,
                            around.limits,
                            self.link_after,
                            step,
                        )
                        &&& self.takes_dave(step)
                    }
            },
            SessionEvent::Closed(code) => self.hears_close(code),
            SessionEvent::Pinged => {
                &&& self.keeps()
                &&& self.action is Pong
                &&& self.after.turn is Pong
            },
            SessionEvent::Ended(end) => self.hears_end(end),
            _ => self.keeps() && self.listens(),
        }
    }

    /// What a conversation does about an event. An event that does not belong to the turn
    /// changes nothing.
    pub open spec fn follows(self, around: Around, event: SessionEvent) -> bool {
        match (self.before.turn, event) {
            (Turn::Listening, event) => self.hears(around, event),
            (Turn::Starting(described), SessionEvent::DaveStarted(started)) => self.takes_start(
                described,
                started,
            ),
            (Turn::Running(sequel), SessionEvent::DaveAnswered(actions)) => self.takes_answer(
                actions,
                sequel,
                around,
            ),
            (Turn::Answering { rest, sequel }, SessionEvent::Written) => self.answers(
                rest@,
                sequel,
                around.dave_ready,
            ),
            (Turn::Replacing(info), SessionEvent::Invalidated) => self.replaces(info),
            (Turn::Handing { version }, SessionEvent::HandedOver) => self.handed(version, None),
            (Turn::Handing { version }, SessionEvent::NotTaken(encoder)) => self.handed(
                version,
                Some(encoder),
            ),
            (turn, SessionEvent::Written) if turn.writing() is Some => self.wrote(around.now),
            (turn, SessionEvent::WriteFailed { timed_out }) if turn.writing() is Some => {
                self.not_written(turn.writing()->0, timed_out)
            },
            _ => {
                &&& self.keeps()
                &&& self.after.turn == self.before.turn
                &&& self.action is Listen
            },
        }
    }
}

impl Conversation {
    /// A session that was just connected.
    pub fn new() -> (conversation: Self)
        ensures
            conversation.session == Session::fresh(),
            conversation.turn is Listening,
    {
        Conversation { session: Session::new(), turn: Turn::Listening }
    }

    fn end(
        &mut self,
        outcome: SessionOutcome,
        pings: Option<Error>,
        asked: Option<Result<(), Error>>,
        closing: bool,
    ) -> (action: SessionAction)
        ensures
            final(self).session == old(self).session,
            final(self).turn is Over,
            action == SessionAction::End(Ending { outcome, pings, asked, closing }),
    {
        self.turn = Turn::Over;
        SessionAction::End(Ending { outcome, pings, asked, closing })
    }

    fn fail(&mut self, error: Error) -> (action: SessionAction)
        ensures
            final(self).session == old(self).session,
            final(self).turn is Over,
            action.fails(error@),
    {
        self.end(SessionOutcome::Fatal(error), None, None, false)
    }

    fn install(&mut self, link: &mut Link, described: Described) -> (action: SessionAction)
        requires
            old(self).turn is Listening,
        ensures
            (Exchange {
                before: *old(self),
                link: old(link)@,
                after: *final(self),
                link_after: final(link)@,
                action,
            }).installs(described),
    {
        let version: u16 = described.version;
        if link.transport.is_none() {
            return self.fail(protocol_error(link.store.generation()));
        }
        match install_transport(link, described.encoder, version) {
            Some(transport) => {
                self.turn = Turn::Handing { version };
                SessionAction::HandOver(transport)
            },
            None => {
                finish_description(link, version);
                SessionAction::Listen
            },
        }
    }

    fn conclude(&mut self, link: &mut Link, sequel: Sequel, dave_ready: bool) -> (action:
        SessionAction)
        requires
            old(self).turn is Listening,
        ensures
            (Exchange {
                before: *old(self),
                link: old(link)@,
                after: *final(self),
                link_after: final(link)@,
                action,
            }).concludes(sequel, dave_ready),
    {
        match sequel {
            Sequel::Follow => {
                follow_dave(link, dave_ready);
                SessionAction::Listen
            },
            Sequel::Quiet => SessionAction::Listen,
            Sequel::Install(described) => self.install(link, described),
        }
    }

    fn answer(
        &mut self,
        link: &mut Link,
        messages: Vec<OutboundMessage>,
        sequel: Sequel,
        dave_ready: bool,
    ) -> (action: SessionAction)
        requires
            old(self).turn is Listening,
        ensures
            (Exchange {
                before: *old(self),
                link: old(link)@,
                after: *final(self),
                link_after: final(link)@,
                action,
            }).answers(messages@, sequel, dave_ready),
    {
        let mut rest = messages;
        if rest.len() == 0 {
            return self.conclude(link, sequel, dave_ready);
        }
        let first = rest.remove(0);
        assert(rest@ =~= messages@.skip(1));
        self.turn = Turn::Answering { rest, sequel };
        SessionAction::Write(first)
    }

    fn take_dave(&mut self, link: &Link, step: DaveStep) -> (action: SessionAction)
        requires
            old(self).turn is Listening,
        ensures
            final(self).session == old(self).session,
            (Exchange {
                before: *old(self),
                link: link@,
                after: *final(self),
                link_after: link@,
                action,
            }).takes_dave(step),
    {
        match step {
            DaveStep::Run(control) => {
                self.turn = Turn::Running(Sequel::Follow);
                SessionAction::Run(control)
            },
            DaveStep::RunQuietly(control) => {
                self.turn = Turn::Running(Sequel::Quiet);
                SessionAction::Run(control)
            },
            DaveStep::Done => SessionAction::Listen,
            DaveStep::Fatal(error) => self.fail(error),
        }
    }

    fn take_start(
        &mut self,
        link: &mut Link,
        described: Described,
        started: Result<(), DaveFailure>,
    ) -> (action: SessionAction)
        requires
            old(self).turn is Listening,
        ensures
            (Exchange {
                before: *old(self),
                link: old(link)@,
                after: *final(self),
                link_after: final(link)@,
                action,
            }).takes_start(described, started),
    {
        match dave_started(link, started) {
            DaveStep::Run(control) | DaveStep::RunQuietly(control) => {
                self.turn = Turn::Running(Sequel::Install(described));
                SessionAction::Run(control)
            },
            DaveStep::Done => self.install(link, described),
            DaveStep::Fatal(error) => self.fail(error),
        }
    }

    fn take_answer(
        &mut self,
        link: &mut Link,
        actions: Result<Vec<Outbound>, DaveFailure>,
        sequel: Sequel,
        around: Around,
    ) -> (action: SessionAction)
        requires
            old(self).turn is Listening,
        ensures
            (Exchange {
                before: *old(self),
                link: old(link)@,
                after: *final(self),
                link_after: final(link)@,
                action,
            }).takes_answer(actions, sequel, around),
    {
        let sent = dave_messages(link, actions, &around.limits);
        assert(actions is Ok ==> crate::gateway::payload::carried(
            actions->Ok_0@,
            around.limits.gateway_binary_bytes,
            link@.generation(),
            sent,
        ));
        match sent {
            Ok(messages) => self.answer(link, messages, sequel, around.dave_ready),
            Err(error) => self.fail(error),
        }
    }

    fn hand(&mut self, link: &mut Link, version: u16, returned: Option<TransportEncoder>) -> (action:
        SessionAction)
        requires
            old(self).turn is Listening,
        ensures
            (Exchange {
                before: *old(self),
                link: old(link)@,
                after: *final(self),
                link_after: final(link)@,
                action,
            }).handed(version, returned),
    {
        if let Some(encoder) = returned {
            if link.transport.is_some() {
                delivery_refused(link, encoder);
            }
        }
        finish_description(link, version);
        SessionAction::Listen
    }

    fn written(&mut self, link: &mut Link, turn: Turn, now: u64) -> (action: SessionAction)
        requires
            old(self).turn is Listening,
        ensures
            (Exchange {
                before: (Conversation { session: old(self).session, turn }),
                link: old(link)@,
                after: *final(self),
                link_after: final(link)@,
                action,
            }).wrote(now),
    {
        match turn {
            Turn::Opening => match number_beat(link) {
                Some(beat) => {
                    self.turn = Turn::FirstBeat;
                    SessionAction::Write(OutboundMessage::Json(beat))
                },
                None => self.fail(unnumbered_error(Operation::Connect, link.store.generation())),
            },
            Turn::FirstBeat => {
                self.session.beat_sent(link, now);
                self.session.start_beating(now);
                SessionAction::Listen
            },
            Turn::Beat | Turn::Ping => {
                self.session.beat_sent(link, now);
                SessionAction::Listen
            },
            Turn::Speaking => SessionAction::Grant,
            _ => SessionAction::Listen,
        }
    }

    fn unwritten(&mut self, link: &Link, written: Written, timed_out: bool) -> (action:
        SessionAction)
        requires
            old(self).turn is Listening,
        ensures
            (Exchange {
                before: *old(self),
                link: link@,
                after: *final(self),
                link_after: link@,
                action,
            }).not_written(written, timed_out),
    {
        let outcome = match write_failed(link, written, timed_out) {
            Some(outcome) => outcome,
            None => return SessionAction::Listen,
        };
        let pings = if written == Written::Heartbeat || written == Written::Ping {
            Some(self.session.fail_pings(link))
        } else {
            None
        };
        let asked = if written == Written::Speaking {
            Some(Err(write_error(timed_out, Operation::StartAudio, link.store.generation())))
        } else {
            None
        };
        self.end(outcome, pings, asked, false)
    }

    fn take_text(&mut self, link: &mut Link, step: TextStep) -> (action: SessionAction)
        requires
            old(self).turn is Listening,
        ensures
            (Exchange {
                before: *old(self),
                link: old(link)@,
                after: *final(self),
                link_after: final(link)@,
                action,
            }).takes_text(step),
            step !is Describe ==> {
                &&& final(self).session == old(self).session
                &&& final(link)@ == old(link)@
            },
    {
        match step {
            TextStep::Hello(HelloStep::Open(opening)) => {
                self.turn = Turn::Opening;
                SessionAction::Write(OutboundMessage::Json(opening))
            },
            TextStep::Ready(ReadyStep::Discover { ip, port, ssrc, mode, generation }) => {
                SessionAction::Discover { ip, port, ssrc, mode, generation }
            },
            TextStep::Describe(DescribeStep::Accept { encoder, version, start_dave }) => {
                let described = Described { encoder, version };
                if start_dave {
                    self.turn = Turn::Starting(described);
                    SessionAction::StartDave
                } else {
                    self.install(link, described)
                }
            },
            TextStep::Acknowledge(AckStep::Pong(rtt)) => SessionAction::AnswerPings(rtt),
            TextStep::Acknowledge(AckStep::Ignore) | TextStep::Done => SessionAction::Listen,
            TextStep::Dave(step) => self.take_dave(link, step),
            TextStep::Hello(HelloStep::Fatal(error))
            | TextStep::Ready(ReadyStep::Fatal(error))
            | TextStep::Describe(DescribeStep::Fatal(error))
            | TextStep::Acknowledge(AckStep::Fatal(error))
            | TextStep::Fatal(error) => self.fail(error),
        }
    }

    fn hear_text(
        &mut self,
        link: &mut Link,
        length: usize,
        message: Option<TextMessage>,
        around: Around,
    ) -> (action: SessionAction)
        requires
            old(self).turn is Listening,
            around.limits.consistent(),
        ensures
            (Exchange {
                before: *old(self),
                link: old(link)@,
                after: *final(self),
                link_after: final(link)@,
                action,
            }).hears_text(length, message, around),
    {
        if let Err(error) = admit_text(link, length, &around.limits) {
            return self.fail(error);
        }
        let ghost before = self.session;
        let step = self.session.text_message(
            link,
            message,
            &around.limits,
            around.dave_ready,
            around.now,
        );
        assert(before.text_leads(
            old(link)@,
            message,
            around.limits,
            around.dave_ready,
            around.now,
            self.session,
            link@,
            step,
        ));
        self.take_text(link, step)
    }

    fn replace(&mut self, link: &mut Link, info: ValidatedInfo) -> (action: SessionAction)
        requires
            old(self).turn is Listening,
        ensures
            (Exchange {
                before: *old(self),
                link: old(link)@,
                after: *final(self),
                link_after: final(link)@,
                action,
            }).replaces(info),
    {
        match link.admit_replacement() {
            Ok(next) => {
                assert(next.number() == old(link)@.generation().number() + 1);
                let pings = self.session.fail_pings(link);
                self.end(SessionOutcome::Replace(info), Some(pings), Some(Ok(())), true)
            },
            Err(error) => SessionAction::Refuse(error),
        }
    }

    fn hear_ping(&mut self, link: &mut Link, capacity: usize) -> (action: SessionAction)
        requires
            old(self).turn is Listening,
        ensures
            (Exchange {
                before: *old(self),
                link: old(link)@,
                after: *final(self),
                link_after: final(link)@,
                action,
            }).hears_ping(capacity),
    {
        let ghost before = self.session;
        let step = self.session.ping(link, capacity);
        assert(before.ping_leads(old(link)@, capacity, self.session, link@, step));
        match step {
            PingStep::Refuse(error) => SessionAction::Refuse(error),
            PingStep::Wait => SessionAction::Queue,
            PingStep::Send(beat) => {
                self.turn = Turn::Ping;
                SessionAction::Write(OutboundMessage::Json(beat))
            },
            PingStep::Fatal(error) => {
                let pings = self.session.fail_pings(link);
                self.end(SessionOutcome::Fatal(error), Some(pings), None, false)
            },
        }
    }

    fn hear_deadline(&mut self, link: &mut Link, now: u64) -> (action: SessionAction)
        requires
            old(self).turn is Listening,
        ensures
            (Exchange {
                before: *old(self),
                link: old(link)@,
                after: *final(self),
                link_after: final(link)@,
                action,
            }).hears_deadline(now),
    {
        let ghost before = self.session;
        let step = self.session.heartbeat_due(link, now);
        assert(before.beat_leads(old(link)@, now, self.session, link@, step));
        match step {
            BeatStep::Send(beat) => {
                self.turn = Turn::Beat;
                SessionAction::Write(OutboundMessage::Json(beat))
            },
            BeatStep::Waiting => SessionAction::Listen,
            BeatStep::GiveUp => {
                let pings = self.session.fail_pings(link);
                self.end(SessionOutcome::Resume, Some(pings), None, false)
            },
        }
    }

    fn hear_discovery(&mut self, link: &mut Link, completion: Option<DiscoveryCompletion>) -> (action:
        SessionAction)
        requires
            old(self).turn is Listening,
        ensures
            (Exchange {
                before: *old(self),
                link: old(link)@,
                after: *final(self),
                link_after: final(link)@,
                action,
            }).hears_discovery(completion),
    {
        let ghost before = self.session;
        let step = self.session.discovered(link, completion);
        assert(before.discovery_leads(old(link)@, completion, self.session, link@, step));
        match step {
            DiscoveredStep::Select(json) => {
                self.turn = Turn::Selection;
                SessionAction::Write(OutboundMessage::Json(json))
            },
            DiscoveredStep::Stale => SessionAction::Listen,
            DiscoveredStep::Fatal(error) => self.fail(error),
        }
    }

    fn hear(&mut self, link: &mut Link, around: Around, event: SessionEvent) -> (action:
        SessionAction)
        requires
            old(self).turn is Listening,
            around.limits.consistent(),
        ensures
            (Exchange {
                before: *old(self),
                link: old(link)@,
                after: *final(self),
                link_after: final(link)@,
                action,
            }).hears(around, event),
    {
        match event {
            SessionEvent::Stopped => {
                self.session.pending_pings = 0;
                let pings = ping_shutdown_error(link.store.generation());
                self.end(SessionOutcome::Shutdown, Some(pings), None, true)
            },
            SessionEvent::Forsaken => self.end(SessionOutcome::Shutdown, None, None, true),
            SessionEvent::ReplacementAsked(info) => {
                if link.store.generation().next().is_some() {
                    self.turn = Turn::Replacing(info);
                    return SessionAction::Invalidate;
                }
                self.replace(link, info)
            },
            SessionEvent::PingAsked => self.hear_ping(link, around.limits.gateway_command_capacity),
            SessionEvent::SpeakingAsked { audio_id, generation, speaking } => {
                match announce_speaking(link, audio_id, generation, speaking) {
                    Ok(json) => {
                        self.turn = Turn::Speaking;
                        SessionAction::Write(OutboundMessage::Json(json))
                    },
                    Err(error) => SessionAction::Refuse(error),
                }
            },
            SessionEvent::RenewalAsked { audio_id, generation } => {
                match renew_transport(link, audio_id, generation) {
                    Ok(()) => self.end(SessionOutcome::FreshIdentify, None, Some(Ok(())), false),
                    Err(error) => SessionAction::Refuse(error),
                }
            },
            SessionEvent::BeatDue => self.hear_deadline(link, around.now),
            SessionEvent::Discovered(completion) => self.hear_discovery(link, completion),
            SessionEvent::Drained(discarded) => {
                count_discarded(link, discarded);
                SessionAction::Listen
            },
            SessionEvent::Text { length, message } => self.hear_text(link, length, message, around),
            SessionEvent::Binary(bytes) => {
                let step = binary_message(link, bytes.as_slice(), &around.limits);
                assert(old(link)@.binary_leads(bytes@, around.limits, link@, step));
                self.take_dave(link, step)
            },
            SessionEvent::Closed(code) => {
                let pings = self.session.fail_pings(link);
                let outcome = close_frame(link, code);
                self.end(outcome, Some(pings), None, false)
            },
            SessionEvent::Pinged => {
                self.turn = Turn::Pong;
                SessionAction::Pong
            },
            SessionEvent::Ended(end) => {
                let pings = if end == StreamEnd::Lost {
                    Some(self.session.fail_pings(link))
                } else {
                    None
                };
                let outcome = stream_ended(link, end);
                self.end(outcome, pings, None, false)
            },
            _ => SessionAction::Listen,
        }
    }

    /// Takes an event: the session and the link move on, and the result says what is to
    /// be done next.
    pub fn step(&mut self, link: &mut Link, around: Around, event: SessionEvent) -> (action:
        SessionAction)
        requires
            around.limits.consistent(),
        ensures
            (Exchange {
                before: *old(self),
                link: old(link)@,
                after: *final(self),
                link_after: final(link)@,
                action,
            }).follows(around, event),
    {
        let mut turn = Turn::Listening;
        core::mem::swap(&mut self.turn, &mut turn);
        match (turn, event) {
            (Turn::Listening, event) => self.hear(link, around, event),
            (Turn::Starting(described), SessionEvent::DaveStarted(started)) => self.take_start(
                link,
                described,
                started,
            ),
            (Turn::Running(sequel), SessionEvent::DaveAnswered(actions)) => self.take_answer(
                link,
                actions,
                sequel,
                around,
            ),
            (Turn::Answering { rest, sequel }, SessionEvent::Written) => self.answer(
                link,
                rest,
                sequel,
                around.dave_ready,
            ),
            (Turn::Replacing(info), SessionEvent::Invalidated) => self.replace(link, info),
            (Turn::Handing { version }, SessionEvent::HandedOver) => self.hand(link, version, None),
            (Turn::Handing { version }, SessionEvent::NotTaken(encoder)) => self.hand(
                link,
                version,
                Some(encoder),
            ),
            (turn, SessionEvent::Written) => match turn.being_written() {
                Some(_) => self.written(link, turn, around.now),
                None => {
                    self.turn = turn;
                    SessionAction::Listen
                },
            },
            (turn, SessionEvent::WriteFailed { timed_out }) => match turn.being_written() {
                Some(written) => self.unwritten(link, written, timed_out),
                None => {
                    self.turn = turn;
                    SessionAction::Listen
                },
            },
            (turn, _) => {
                self.turn = turn;
                SessionAction::Listen
            },
        }
    }
}

impl Conversation {
    /// What a turn rests on: a described transport is installed under its DAVE owner,
    /// and what is handed over carries media.
    pub open spec fn grounded(self, link: LinkState) -> bool {
        match self.turn {
            Turn::Running(Sequel::Install(_)) => link.dave,
            Turn::Answering { rest, sequel } => sequel is Install ==> link.dave,
            Turn::Handing { version } => link.transport_ready(),
            _ => true,
        }
    }
}

/// The result of what a turn asked for.
pub open spec fn reports(event: SessionEvent) -> bool {
    ||| event is Written
    ||| event is WriteFailed
    ||| event is DaveStarted
    ||| event is DaveAnswered
    ||| event is HandedOver
    ||| event is NotTaken
    ||| event is Invalidated
}

/// A turn is not interrupted: until its result is in, nothing else is heard. What is over
/// stays over.
pub proof fn turns_are_not_interrupted(exchange: Exchange, around: Around, event: SessionEvent)
    requires
        exchange.follows(around, event),
        exchange.before.turn !is Listening,
        !reports(event) || exchange.before.turn is Over,
    ensures
        exchange.keeps(),
        exchange.after.turn == exchange.before.turn,
        exchange.action is Listen,
{
}

/// The first heartbeat is written behind the opening, and the heartbeat clock runs once
/// both are written.
pub proof fn heartbeats_start_behind_the_opening(
    exchange: Exchange,
    around: Around,
    event: SessionEvent,
)
    requires
        exchange.follows(around, event),
        exchange.before.turn !is FirstBeat,
    ensures
        exchange.after.turn is FirstBeat ==> exchange.before.turn is Opening && event is Written,
        exchange.before.session.heartbeat_deadline is None
            ==> exchange.after.session.heartbeat_deadline is None,
{
}

/// A message that was not written ends the session; only the answer to a WebSocket ping
/// that failed in time is forgiven.
pub proof fn unwritten_messages_end_the_session(
    exchange: Exchange,
    around: Around,
    timed_out: bool,
)
    requires
        exchange.follows(around, SessionEvent::WriteFailed { timed_out }),
        exchange.before.turn.writing() is Some,
    ensures
        if exchange.before.turn is Pong && !timed_out {
            exchange.keeps() && exchange.listens()
        } else {
            exchange.action is End && exchange.after.turn is Over
        },
{
}

/// A transport under DAVE is never ready for media without its owner, be it handed to an
/// audio sender or kept.
pub proof fn dave_transports_have_their_owner(
    exchange: Exchange,
    around: Around,
    event: SessionEvent,
)
    requires
        exchange.follows(around, event),
        exchange.before.grounded(exchange.link),
    ensures
        exchange.after.grounded(exchange.link_after),
        exchange.action matches SessionAction::HandOver(transport) ==> {
            transport.dave_protocol_version == 0 || transport.has_dave
        },
        exchange.link_after.transport_ready() && !exchange.link.transport_ready() ==> {
            let slot = exchange.link_after.transport->0;
            slot.dave_protocol_version == 0 || slot.has_dave
        },
{
}

/// The caller who connects learns of success only once a transport carries media.
pub proof fn connecting_succeeds_with_a_transport(
    exchange: Exchange,
    around: Around,
    event: SessionEvent,
)
    requires
        exchange.follows(around, event),
        exchange.before.grounded(exchange.link),
        exchange.link.initial is Waiting,
        exchange.link_after.initial !is Waiting,
    ensures
        exchange.link_after.transport_ready(),
        exchange.link_after.initial == crate::gateway::link::InitialValue::Ready(Ok(())),
{
}

/// The next generation begins only behind a transport that admits no more sends.
pub proof fn generations_begin_behind_the_old_transport(
    exchange: Exchange,
    around: Around,
    event: SessionEvent,
)
    requires
        exchange.follows(around, event),
        exchange.link_after.generation() != exchange.link.generation(),
    ensures
        exchange.before.turn is Replacing,
        event is Invalidated,
        exchange.action is End,
{
}

/// An audio sender in force over a transport that carries media has its notice written: one
/// that says 1 where it speaks and 0 where it does not, for its stream. The sender is told
/// of success once the notice is written. A sender that may not announce is refused.
pub proof fn notices_are_written_as_asked(
    exchange: Exchange,
    around: Around,
    audio_id: u64,
    generation: ConnectionGeneration,
    speaking: bool,
)
    requires
        exchange.follows(around, SessionEvent::SpeakingAsked { audio_id, generation, speaking }),
        exchange.before.turn is Listening,
    ensures
        exchange.keeps(),
        exchange.link.attachment == Some(audio_id) && generation == exchange.link.generation()
            && exchange.link.transport_ready() ==> {
            &&& exchange.action matches SessionAction::Write(OutboundMessage::Json(sent))
            &&& sent.value().unsigned_member("op"@) == Some(5u64)
            &&& speaking ==> sent.value().contents().unsigned_member("speaking"@) == Some(1u64)
            &&& !speaking ==> sent.value().contents().unsigned_member("speaking"@) == Some(0u64)
            &&& sent.value().contents().unsigned_member("ssrc"@) == Some(
                exchange.link.transport->0.ssrc as u64,
            )
            &&& exchange.after.turn is Speaking
        },
        !(exchange.link.attachment == Some(audio_id) && generation == exchange.link.generation()
            && exchange.link.transport_ready()) ==> exchange.action is Refuse
            && exchange.after.turn is Listening,
{
    if exchange.link.transport is Some {
        let ssrc = exchange.link.transport->0.ssrc;
        crate::gateway::payload::speaking_notices_say_what_is_spoken(ssrc, ssrc);
        assert(crate::gateway::payload::speaking_value(ssrc, speaking).contents().unsigned_member(
            "ssrc"@,
        ) == Some(ssrc as u64));
    }
}

/// A written notice is granted to the sender that asked for it; a heartbeat that was written
/// is the one in flight, since the instant of the write, under the number it was given.
pub proof fn written_messages_take_effect(exchange: Exchange, around: Around)
    requires
        exchange.follows(around, SessionEvent::Written),
    ensures
        exchange.before.turn is Speaking ==> exchange.action is Grant && exchange.keeps()
            && exchange.after.turn is Listening,
        exchange.before.turn is Beat || exchange.before.turn is Ping || exchange.before.turn
            is FirstBeat ==> {
            &&& exchange.after.session.outstanding == Some(
                (exchange.link.heartbeat_nonce, around.now),
            )
            &&& exchange.after.turn is Listening
            &&& exchange.link_after == exchange.link
            &&& exchange.after.session.pending_pings == exchange.before.session.pending_pings
            &&& exchange.after.session.missed_heartbeats
                == exchange.before.session.missed_heartbeats
        },
        exchange.before.turn is FirstBeat && exchange.before.session.heartbeat_interval is Some
            && around.now + exchange.before.session.heartbeat_interval->0 <= u64::MAX ==> {
            &&& exchange.after.session.heartbeat_deadline is Some
            &&& exchange.after.session.heartbeat_deadline->0 - around.now
                == exchange.before.session.heartbeat_interval->0
        },
        exchange.before.turn is Opening && exchange.link.heartbeat_nonce < u64::MAX ==> {
            &&& exchange.action matches SessionAction::Write(OutboundMessage::Json(beat))
            &&& beat.value().unsigned_member("op"@) == Some(3u64)
            &&& beat.value().contents().unsigned_member("t"@) == Some(
                (exchange.link.heartbeat_nonce + 1) as u64,
            )
            &&& exchange.link_after.heartbeat_nonce == exchange.link.heartbeat_nonce + 1
        },
        exchange.before.turn is Selection || exchange.before.turn is Pong ==> exchange.keeps()
            && exchange.listens(),
{
    crate::gateway::payload::heartbeats_carry_their_number(
        exchange.link_after.heartbeat_nonce,
        0,
        0,
    );
}

/// The answers of the DAVE owner are written one after the other, in their order. Once the
/// last one is written, the phase follows the readiness of the owner, or stays.
pub proof fn dave_answers_are_written_in_order(
    exchange: Exchange,
    around: Around,
    rest: Vec<OutboundMessage>,
    sequel: Sequel,
)
    requires
        exchange.follows(around, SessionEvent::Written),
        exchange.before.turn == (Turn::Answering { rest, sequel }),
    ensures
        rest@.len() > 0 ==> {
            &&& exchange.action == SessionAction::Write(rest@[0])
            &&& exchange.after.turn matches Turn::Answering { rest: left, sequel: still }
            &&& left@ == rest@.skip(1)
            &&& still == sequel
            &&& exchange.keeps()
        },
        rest@.len() == 0 && sequel is Quiet ==> exchange.keeps() && exchange.listens(),
        rest@.len() == 0 && sequel is Follow ==> {
            &&& exchange.listens()
            &&& around.dave_ready ==> exchange.link_after.store.current.phase
                == ConnectionPhase::Connected
            &&& !around.dave_ready ==> exchange.link_after.store.current.phase
                == ConnectionPhase::EstablishingDave
        },
{
}

/// A described transport is handed to the audio sender in force, with its encoder, under the
/// current generation. Without a sender the encoder is kept, and the caller who connects is
/// told of success.
pub proof fn described_transports_are_handed_over(exchange: Exchange, described: Described)
    requires
        exchange.installs(described),
        exchange.link.transport is Some,
    ensures
        exchange.link_after.transport_ready(),
        exchange.link_after.transport->0.dave_protocol_version == described.version,
        exchange.link.attachment is Some ==> {
            &&& exchange.action matches SessionAction::HandOver(transport)
            &&& transport@.encoder == described.encoder@
            &&& transport@.generation == exchange.link.generation()
            &&& transport@.socket == exchange.link.transport->0.socket
            &&& transport@.dave_protocol_version == described.version
            &&& transport@.has_dave == exchange.link_after.transport->0.has_dave
            &&& exchange.link_after.transport->0.encoder is None
            &&& exchange.after.turn == (Turn::Handing { version: described.version })
        },
        exchange.link.attachment is None ==> {
            &&& exchange.link_after.transport->0.encoder == Some(described.encoder@)
            &&& exchange.listens()
            &&& exchange.link_after.reconnect_attempts == 0
            &&& exchange.link.initial is Waiting ==> exchange.link_after.initial
                == crate::gateway::link::InitialValue::Ready(Ok(()))
            &&& described.version == 0 <==> exchange.link_after.store.current.phase
                == ConnectionPhase::Connected
        },
{
}

/// An encoder that the audio sender did not take is back with the link, and the sender is not
/// in force any more; one that it took stays with it. Either way the description is carried
/// out.
pub proof fn refused_transports_come_back(
    exchange: Exchange,
    around: Around,
    version: u16,
    encoder: TransportEncoder,
)
    requires
        exchange.before.turn == (Turn::Handing { version }),
        exchange.link.transport is Some,
    ensures
        exchange.follows(around, SessionEvent::NotTaken(encoder)) ==> {
            &&& exchange.link_after.transport->0.encoder == Some(encoder@)
            &&& exchange.link_after.attachment is None
            &&& exchange.link_after.transport->0.socket == exchange.link.transport->0.socket
            &&& exchange.listens()
            &&& exchange.link.initial is Waiting ==> exchange.link_after.initial
                == crate::gateway::link::InitialValue::Ready(Ok(()))
        },
        exchange.follows(around, SessionEvent::HandedOver) ==> {
            &&& exchange.link_after.transport == exchange.link.transport
            &&& exchange.link_after.attachment == exchange.link.attachment
            &&& exchange.listens()
            &&& exchange.link.initial is Waiting ==> exchange.link_after.initial
                == crate::gateway::link::InitialValue::Ready(Ok(()))
        },
{
}

/// A DAVE owner that started is handed the roster that came before it, where one did, and
/// only then the transport is installed. One that did not start fails the session with its
/// cause.
pub proof fn started_owners_get_the_roster(
    exchange: Exchange,
    around: Around,
    described: Described,
    failure: DaveFailure,
)
    requires
        exchange.before.turn == Turn::Starting(described),
    ensures
        exchange.follows(around, SessionEvent::DaveStarted(Ok(())))
            && exchange.link.dave_roster.len() > 0 ==> {
            &&& exchange.action matches SessionAction::Run(Control::Roster(users))
            &&& users@ == exchange.link_after.dave_roster
            &&& users@ == exchange.link.dave_roster
            &&& exchange.link_after.dave
            &&& exchange.after.turn == Turn::Running(Sequel::Install(described))
        },
        exchange.follows(around, SessionEvent::DaveStarted(Err(failure))) ==> {
            &&& exchange.action matches SessionAction::End(ending)
            &&& ending.outcome matches SessionOutcome::Fatal(error)
            &&& error@.kind == ErrorKind::DaveTransition
            &&& error@.dave_failure() == Some(failure)
            &&& exchange.link_after == exchange.link
        },
{
}

/// A shutdown closes the session and tells the waiting pings of it. Once the old transport
/// is out of the way, fresh voice information ends the session under the next generation:
/// the caller is told of success, the waiting pings are told that the gateway is being reached
/// again, and the connection is closed.
pub proof fn closing_sessions_answer_everybody(
    exchange: Exchange,
    around: Around,
    info: ValidatedInfo,
)
    ensures
        exchange.before.turn is Listening && exchange.follows(around, SessionEvent::Stopped) ==> {
            &&& exchange.action matches SessionAction::End(ending)
            &&& ending.outcome is Shutdown
            &&& ending.closing
            &&& ending.pings is Some
            &&& ending.pings->0@.kind == ErrorKind::Shutdown
            &&& ending.asked is None
            &&& exchange.after.session.pending_pings == 0
        },
        exchange.before.turn is Listening && exchange.follows(around, SessionEvent::Forsaken)
            ==> {
            &&& exchange.action matches SessionAction::End(ending)
            &&& ending.outcome is Shutdown
            &&& ending.closing
        },
        exchange.before.turn == Turn::Replacing(info) && exchange.follows(
            around,
            SessionEvent::Invalidated,
        ) && exchange.link.generation().number() < u64::MAX ==> {
            &&& exchange.link_after.generation().number() == exchange.link.generation().number()
                + 1
            &&& exchange.action matches SessionAction::End(ending)
            &&& ending.outcome matches SessionOutcome::Replace(replacement)
            &&& replacement@ == info@
            &&& ending.asked matches Some(Ok(()))
            &&& ending.closing
            &&& ending.pings is Some
            &&& ending.pings->0@.kind == ErrorKind::EndpointOrTls
            &&& exchange.after.session.pending_pings == 0
        },
{
}

/// A close frame, a lost stream and a session that gives up leave no ping waiting: each is
/// told that the gateway is being reached again.
pub proof fn ended_sessions_answer_their_pings(
    exchange: Exchange,
    around: Around,
    code: Option<u16>,
)
    requires
        exchange.before.turn is Listening,
        exchange.follows(around, SessionEvent::Closed(code)) || exchange.follows(
            around,
            SessionEvent::Ended(StreamEnd::Lost),
        ),
    ensures
        exchange.action matches SessionAction::End(ending) && ending.pings is Some
            && ending.pings->0@.kind == ErrorKind::EndpointOrTls && ending.pings->0@.operation
            == Operation::Ping && !ending.closing,
        exchange.after.session.pending_pings == 0,
        exchange.after.turn is Over,
        exchange.link_after == exchange.link,
{
}

/// A text over its bound fails the session for want of room. A WebSocket ping is answered.
/// Datagrams that were dropped are counted by their number. A sender in force that asks for a
/// new transport is granted it, and the next session identifies afresh.
pub proof fn small_events_are_handled(
    exchange: Exchange,
    around: Around,
    length: usize,
    message: Option<TextMessage>,
    discarded: usize,
    audio_id: u64,
    generation: ConnectionGeneration,
)
    requires
        exchange.before.turn is Listening,
    ensures
        exchange.follows(around, SessionEvent::Text { length, message }) && length
            > around.limits.gateway_text_bytes ==> {
            &&& exchange.keeps()
            &&& exchange.action matches SessionAction::End(ending)
            &&& ending.outcome matches SessionOutcome::Fatal(error)
            &&& error@.kind == ErrorKind::ResourceLimit
        },
        exchange.follows(around, SessionEvent::Pinged) ==> exchange.action is Pong
            && exchange.keeps(),
        exchange.follows(around, SessionEvent::Drained(discarded))
            && exchange.link.store.current.stats.discarded_udp_datagrams + discarded <= u64::MAX
            ==> {
            &&& exchange.link_after.store.current.stats.discarded_udp_datagrams
                == exchange.link.store.current.stats.discarded_udp_datagrams + discarded
            &&& exchange.link_after.store.current.phase == exchange.link.store.current.phase
            &&& exchange.listens()
        },
        exchange.follows(around, SessionEvent::RenewalAsked { audio_id, generation }) ==> {
            let in_force = exchange.link.attachment == Some(audio_id) && generation
                == exchange.link.generation();
            &&& in_force ==> {
                &&& exchange.action matches SessionAction::End(ending)
                &&& ending.outcome is FreshIdentify
                &&& ending.asked matches Some(Ok(()))
            }
            &&& !in_force ==> exchange.action is Refuse && exchange.keeps()
        },
{
}

/// A refused control of the DAVE owner fails the session with its cause, and an answer that
/// is empty leaves only what the control asked for.
pub proof fn refused_controls_fail_the_session(
    exchange: Exchange,
    around: Around,
    sequel: Sequel,
    failure: DaveFailure,
)
    requires
        exchange.before.turn == Turn::Running(sequel),
        exchange.follows(around, SessionEvent::DaveAnswered(Err(failure))),
    ensures
        exchange.action matches SessionAction::End(ending) && (ending.outcome matches
            SessionOutcome::Fatal(error) && error@.kind == ErrorKind::DaveTransition
            && error@.dave_failure() == Some(failure)),
        exchange.keeps(),
        exchange.after.turn is Over,
{
}

/// An exchange that keeps everything leaves the session and the link as they were; one that
/// listens asks for nothing and is in no turn; one that fails ends the session with just
/// that failure.
pub proof fn exchanges_do_what_they_say(exchange: Exchange, failure: crate::error::ErrorView)
    ensures
        exchange.keeps() <==> exchange.after.session == exchange.before.session
            && exchange.link_after == exchange.link,
        exchange.listens() <==> exchange.action is Listen && exchange.after.turn is Listening,
        exchange.fails(failure) ==> {
            &&& exchange.after.turn is Over
            &&& exchange.action matches SessionAction::End(ending)
            &&& ending.outcome matches SessionOutcome::Fatal(error)
            &&& error@ == failure
            &&& ending.pings is None
            &&& ending.asked is None
            &&& !ending.closing
        },
{
}

/// A ping that is asked for is refused before the session is open and at the bound; it waits
/// for the heartbeat in flight; and where none is in flight, the next heartbeat is written
/// for it.
pub proof fn pings_are_carried_out(exchange: Exchange, around: Around)
    requires
        exchange.before.turn is Listening,
        exchange.follows(around, SessionEvent::PingAsked),
        exchange.link.heartbeat_nonce < u64::MAX,
    ensures
        ({
            let session = exchange.before.session;
            let refused = session.heartbeat_interval is None || session.pending_pings
                >= around.limits.gateway_command_capacity;
            &&& exchange.action is Refuse <==> refused
            &&& refused ==> exchange.keeps() && exchange.after.turn is Listening
            &&& !refused ==> exchange.after.session.pending_pings == session.pending_pings + 1
            &&& !refused && session.outstanding is Some ==> {
                &&& exchange.action is Queue
                &&& exchange.after.turn is Listening
                &&& exchange.link_after == exchange.link
            }
            &&& !refused && session.outstanding is None ==> {
                &&& exchange.action matches SessionAction::Write(OutboundMessage::Json(beat))
                &&& beat.value().unsigned_member("op"@) == Some(3u64)
                &&& beat.value().contents().unsigned_member("t"@) == Some(
                    (exchange.link.heartbeat_nonce + 1) as u64,
                )
                &&& exchange.after.turn is Ping
            }
        }),
{
    crate::gateway::payload::heartbeats_carry_their_number(
        exchange.link_after.heartbeat_nonce,
        0,
        0,
    );
}

/// At the heartbeat deadline the next heartbeat is written, unless one is in flight. The
/// first one that was missed is waited for; the second one in a row ends the session for a
/// resume, and the waiting pings are told.
pub proof fn deadlines_are_carried_out(exchange: Exchange, around: Around)
    requires
        exchange.before.turn is Listening,
        exchange.follows(around, SessionEvent::BeatDue),
        exchange.link.heartbeat_nonce < u64::MAX,
    ensures
        ({
            let session = exchange.before.session;
            &&& session.outstanding is None ==> {
                &&& exchange.action matches SessionAction::Write(OutboundMessage::Json(beat))
                &&& beat.value().unsigned_member("op"@) == Some(3u64)
                &&& beat.value().contents().unsigned_member("t"@) == Some(
                    (exchange.link.heartbeat_nonce + 1) as u64,
                )
                &&& exchange.after.turn is Beat
                &&& exchange.after.session.missed_heartbeats == session.missed_heartbeats
            }
            &&& session.outstanding is Some && session.missed_heartbeats == 0 ==> {
                &&& exchange.action is Listen
                &&& exchange.after.turn is Listening
                &&& exchange.after.session.missed_heartbeats == 1
                &&& exchange.link_after == exchange.link
            }
            &&& session.outstanding is Some && session.missed_heartbeats >= 1 ==> {
                &&& exchange.action matches SessionAction::End(ending)
                &&& ending.outcome is Resume
                &&& ending.pings is Some
                &&& ending.pings->0@.kind == ErrorKind::EndpointOrTls
                &&& ending.pings->0@.operation == Operation::Ping
                &&& exchange.after.turn is Over
                &&& exchange.after.session.pending_pings == 0
            }
        }),
{
    crate::gateway::payload::heartbeats_carry_their_number(
        exchange.link_after.heartbeat_nonce,
        0,
        0,
    );
}

/// A discovery of the current generation has its address selected; one of an earlier
/// generation does nothing; one that failed fails the session.
pub proof fn discoveries_are_carried_out(
    exchange: Exchange,
    around: Around,
    completion: DiscoveryCompletion,
)
    requires
        exchange.before.turn is Listening,
    ensures
        exchange.follows(around, SessionEvent::Discovered(Some(completion))) ==> {
            &&& completion.generation != exchange.link.generation() ==> {
                &&& exchange.listens()
                &&& exchange.link_after == exchange.link
            }
            &&& completion.generation == exchange.link.generation() && completion.result is Some
                ==> {
                &&& exchange.action matches SessionAction::Write(OutboundMessage::Json(sent))
                &&& sent.value().unsigned_member("op"@) == Some(1u64)
                &&& exchange.after.turn is Selection
                &&& exchange.link_after.transport is Some
            }
            &&& completion.generation == exchange.link.generation() && completion.result is None
                ==> {
                &&& exchange.action matches SessionAction::End(ending)
                &&& ending.outcome matches SessionOutcome::Fatal(error)
                &&& error@.kind == ErrorKind::UdpDiscovery
                &&& exchange.link_after == exchange.link
            }
        },
        exchange.follows(around, SessionEvent::Discovered(None)) ==> {
            &&& exchange.keeps()
            &&& exchange.action matches SessionAction::End(ending)
            &&& ending.outcome matches SessionOutcome::Fatal(error)
            &&& error@.kind == ErrorKind::UdpDiscovery
        },
{
    if let Some((socket, public)) = completion.result {
        crate::gateway::payload::selections_carry_the_public_address(
            public.address@,
            public.port,
            completion.mode,
        );
    }
}

/// Fresh voice information first takes the old transport away, and waits for that; without a
/// generation left it is refused, and the session goes on.
pub proof fn replacements_wait_for_the_old_transport(
    exchange: Exchange,
    around: Around,
    info: ValidatedInfo,
)
    requires
        exchange.before.turn is Listening,
        exchange.follows(around, SessionEvent::ReplacementAsked(info)),
    ensures
        exchange.after.session == exchange.before.session,
        exchange.link_after.generation() == exchange.link.generation(),
        exchange.link.generation().number() < u64::MAX ==> {
            &&& exchange.action is Invalidate
            &&& exchange.after.turn == Turn::Replacing(info)
            &&& exchange.link_after == exchange.link
        },
        exchange.link.generation().number() == u64::MAX ==> {
            &&& exchange.action matches SessionAction::Refuse(error)
            &&& error@.kind == ErrorKind::ResourceLimit
            &&& error@.operation == Operation::ReplaceVoiceInfo
            &&& exchange.after.turn is Listening
        },
{
}

/// A write that fails is answered by what was being written: in the handshake and for a ping
/// the session fails, elsewhere it is resumed. The pings that share a heartbeat are told, and
/// so is the sender that announced itself.
pub proof fn unwritten_messages_are_answered(exchange: Exchange, around: Around, timed_out: bool)
    requires
        exchange.follows(around, SessionEvent::WriteFailed { timed_out }),
    ensures
        exchange.before.turn is Opening || exchange.before.turn is FirstBeat
            || exchange.before.turn is Selection || exchange.before.turn is Answering ==> {
            &&& exchange.action matches SessionAction::End(ending)
            &&& ending.outcome matches SessionOutcome::Fatal(error)
            &&& error@.kind == ErrorKind::SendIo
            &&& error@.operation == Operation::Connect
            &&& ending.pings is None
            &&& ending.asked is None
            &&& exchange.keeps()
        },
        exchange.before.turn is Ping ==> {
            &&& exchange.action matches SessionAction::End(ending)
            &&& ending.outcome matches SessionOutcome::Fatal(error)
            &&& error@.kind == ErrorKind::SendIo
            &&& error@.operation == Operation::Ping
            &&& ending.pings is Some
            &&& ending.pings->0@.kind == ErrorKind::EndpointOrTls
            &&& exchange.after.session.pending_pings == 0
        },
        exchange.before.turn is Beat ==> {
            &&& exchange.action matches SessionAction::End(ending)
            &&& ending.outcome is Resume
            &&& ending.pings is Some
            &&& ending.pings->0@.kind == ErrorKind::EndpointOrTls
            &&& ending.asked is None
            &&& exchange.after.session.pending_pings == 0
        },
        exchange.before.turn is Speaking ==> {
            &&& exchange.action matches SessionAction::End(ending)
            &&& ending.outcome is Resume
            &&& ending.pings is None
            &&& ending.asked matches Some(Err(error))
            &&& error@.kind == ErrorKind::SendIo
            &&& error@.operation == Operation::StartAudio
            &&& exchange.keeps()
        },
{
}

/// A media socket that failed has the next session identify afresh, and a frame over its
/// bound fails the session; neither answers the waiting pings.
pub proof fn other_ends_leave_the_pings(exchange: Exchange, around: Around)
    requires
        exchange.before.turn is Listening,
    ensures
        exchange.follows(around, SessionEvent::Ended(StreamEnd::SocketFailed)) ==> {
            &&& exchange.action matches SessionAction::End(ending)
            &&& ending.outcome is FreshIdentify
            &&& ending.pings is None
            &&& ending.asked is None
            &&& !ending.closing
            &&& exchange.keeps()
        },
        exchange.follows(around, SessionEvent::Ended(StreamEnd::FrameTooLong)) ==> {
            &&& exchange.action matches SessionAction::End(ending)
            &&& ending.outcome matches SessionOutcome::Fatal(error)
            &&& error@.kind == ErrorKind::ResourceLimit
            &&& ending.pings is None
            &&& exchange.keeps()
        },
        exchange.follows(around, SessionEvent::Ended(StreamEnd::Lost)) ==> {
            &&& exchange.action matches SessionAction::End(ending)
            &&& ending.outcome is Resume <==> exchange.link.latest_sequence is Some
            &&& ending.outcome is FreshIdentify <==> exchange.link.latest_sequence is None
        },
{
}

/// A text within its bound is read, and what the reading asks for is done: the opening is
/// written, the address is discovered, the pings are answered with the measured time, the
/// owner runs its control. What fails the reading fails the session.
pub proof fn texts_are_read_and_carried_out(
    exchange: Exchange,
    around: Around,
    length: usize,
    message: Option<TextMessage>,
)
    requires
        exchange.before.turn is Listening,
        exchange.follows(around, SessionEvent::Text { length, message }),
        length <= around.limits.gateway_text_bytes,
    ensures
        exists|session: Session, link: LinkState, step: TextStep|
            {
                &&& #[trigger] exchange.before.session.text_leads(
                    exchange.link,
                    message,
                    around.limits,
                    around.dave_ready,
                    around.now,
                    session,
                    link,
                    step,
                )
                &&& step !is Describe ==> exchange.after.session == session && exchange.link_after
                    == link
                &&& step matches TextStep::Hello(HelloStep::Open(opening)) ==> exchange.action
                    == SessionAction::Write(OutboundMessage::Json(opening))
                    && exchange.after.turn is Opening
                &&& step matches TextStep::Ready(
                    ReadyStep::Discover { ip, port, ssrc, mode, generation },
                ) ==> exchange.action == (SessionAction::Discover {
                    ip,
                    port,
                    ssrc,
                    mode,
                    generation,
                }) && exchange.after.turn is Listening
                &&& step matches TextStep::Acknowledge(AckStep::Pong(rtt)) ==> exchange.action
                    == SessionAction::AnswerPings(rtt) && exchange.after.turn is Listening
                &&& step matches TextStep::Dave(DaveStep::Run(control)) ==> exchange.action
                    == SessionAction::Run(control) && exchange.after.turn == Turn::Running(
                    Sequel::Follow,
                )
                &&& step matches TextStep::Dave(DaveStep::RunQuietly(control)) ==> exchange.action
                    == SessionAction::Run(control) && exchange.after.turn == Turn::Running(
                    Sequel::Quiet,
                )
                &&& step is Done || step == TextStep::Acknowledge(AckStep::Ignore) || step
                    == TextStep::Dave(DaveStep::Done) ==> exchange.action is Listen
                    && exchange.after.turn is Listening
                &&& step matches TextStep::Fatal(error) ==> exchange.fails(error@)
                &&& step matches TextStep::Hello(HelloStep::Fatal(error)) ==> exchange.fails(error@)
                &&& step matches TextStep::Ready(ReadyStep::Fatal(error)) ==> exchange.fails(error@)
                &&& step matches TextStep::Acknowledge(AckStep::Fatal(error)) ==> exchange.fails(
                    error@,
                )
                &&& step matches TextStep::Dave(DaveStep::Fatal(error)) ==> exchange.fails(error@)
                &&& step matches TextStep::Describe(DescribeStep::Fatal(error))
                    ==> exchange.fails(error@)
                &&& step matches TextStep::Describe(
                    DescribeStep::Accept { encoder, version, start_dave },
                ) ==> {
                    &&& start_dave ==> exchange.action is StartDave && exchange.after.turn
                        == Turn::Starting(Described { encoder, version })
                    &&& !start_dave && link.transport is Some && link.attachment is Some ==> (
                    exchange.action matches SessionAction::HandOver(transport) && transport@.encoder
                        == encoder@)
                    &&& !start_dave && link.transport is Some && link.attachment is None
                        ==> exchange.listens()
                }
            },
{
}

/// A binary message is read without touching the session, and the control that it carries is
/// run; one that cannot be read fails the session.
pub proof fn binaries_are_read_and_carried_out(exchange: Exchange, around: Around, bytes: Vec<u8>)
    requires
        exchange.before.turn is Listening,
        exchange.follows(around, SessionEvent::Binary(bytes)),
    ensures
        exchange.after.session == exchange.before.session,
        exists|step: DaveStep|
            {
                &&& #[trigger] exchange.link.binary_leads(
                    bytes@,
                    around.limits,
                    exchange.link_after,
                    step,
                )
                &&& step matches DaveStep::Run(control) ==> exchange.action == SessionAction::Run(
                    control,
                ) && exchange.after.turn == Turn::Running(Sequel::Follow)
                &&& step matches DaveStep::RunQuietly(control) ==> exchange.action
                    == SessionAction::Run(control) && exchange.after.turn == Turn::Running(
                    Sequel::Quiet,
                )
                &&& step is Done ==> exchange.action is Listen && exchange.after.turn is Listening
                &&& step matches DaveStep::Fatal(error) ==> exchange.fails(error@)
            },
{
}

} // verus!
