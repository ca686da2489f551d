//! Whole connections in memory: a course and its conversations against the scripted
//! gateway, with the DAVE owner and the media server at hand.
use std::collections::VecDeque;

use oto::dave::Core;
use oto::discovery::build_discovery_request;
use oto::gateway::conversation::{
    Around, Conversation, Ending, SessionAction, SessionEvent, Turn,
};
use oto::gateway::course::{Course, CourseAnswer, CourseEvent, CourseStep, Errand};
use oto::gateway::decode::{ReadyData, SessionDescriptionData};
use oto::gateway::dispatch::{StreamEnd, TextMessage};
use oto::gateway::failure::Attempt;
use oto::gateway::info::ValidatedInfo;
use oto::gateway::link::{IdleCommand, InstalledTransport, Link, SessionOutcome};
use oto::gateway::payload::{OutboundMessage, SequenceNumber};
use oto::gateway::session::{DiscoveryCompletion, SequenceField};
use oto::json::Json;
use oto::testkit::gateway::{
    FakeVoiceGatewayConfig, GatewayCommand, GatewayPeer, GatewayRecord, VoiceClose,
};
use oto::testkit::udp::{FakeUdpServerConfig, UdpPeer};
use oto::transport::{discovery_received, DiscoveryStep};
use oto::{
    CloseReason, ConnectionGeneration, ConnectionPhase, DaveFailure, ErrorKind, Operation,
    ResourceLimits, VoiceConnectInfo, VoiceToken,
};

const MILLISECOND: u64 = 1_000_000;

fn voice_info(session: &str) -> ValidatedInfo {
    let info = VoiceConnectInfo::new(
        11,
        22,
        33,
        session.to_owned(),
        "voice.example.test".to_owned(),
        VoiceToken::new("token".to_owned()),
    );
    ValidatedInfo::new(info, Operation::Connect, None).ok().unwrap()
}

fn object(members: Vec<(&str, Json)>) -> Json {
    Json::Object(
        members
            .into_iter()
            .map(|(name, value)| (name.to_owned(), value))
            .collect(),
    )
}

fn ready_of(data: &Json) -> Option<ReadyData> {
    let modes = data.get("modes")?.as_array()?;
    Some(ReadyData {
        ssrc: u32::try_from(data.u64_member("ssrc")?).ok()?,
        ip: data.get("ip")?.as_str()?.to_owned(),
        port: u16::try_from(data.u64_member("port")?).ok()?,
        modes: modes
            .iter()
            .map(|mode| mode.as_str().map(str::to_owned))
            .collect::<Option<Vec<String>>>()?,
    })
}

fn description_of(data: &Json) -> Option<SessionDescriptionData> {
    let key = data.get("secret_key")?.as_array()?;
    let key: Vec<u8> = key
        .iter()
        .map(|byte| byte.as_u64().and_then(|byte| u8::try_from(byte).ok()))
        .collect::<Option<Vec<u8>>>()?;
    Some(SessionDescriptionData {
        mode: data.get("mode")?.as_str()?.to_owned(),
        secret_key: key.try_into().ok()?,
        dave_protocol_version: u16::try_from(data.u64_member("dave_protocol_version")?).ok()?,
    })
}

fn text_event(json: &Json) -> SessionEvent {
    let data = json.get("d").map_or(Json::Null, Json::duplicate);
    SessionEvent::Text {
        length: 100,
        message: Some(TextMessage {
            opcode: json.u64_member("op").unwrap(),
            sequence: match json.get("seq").and_then(Json::as_u64) {
                Some(number) => SequenceField::Integer(SequenceNumber::Unsigned(number)),
                None => SequenceField::Absent,
            },
            ready: ready_of(&data),
            description: description_of(&data),
            data,
        }),
    }
}

/// What the client did besides writing.
#[derive(Debug, PartialEq, Eq)]
enum Deed {
    Refused(ErrorKind),
    Granted,
    Queued,
    Answered(u64),
    Started,
    Ran(u8),
    HandedOver,
    Invalidated,
    Ponged,
}

struct Client {
    config: FakeVoiceGatewayConfig,
    peer: GatewayPeer,
    udp: UdpPeer,
    link: Link,
    course: Course,
    conversation: Conversation,
    core: Option<Core>,
    limits: ResourceLimits,
    now: u64,
    sockets: u64,
    inbox: VecDeque<OutboundMessage>,
    deeds: Vec<Deed>,
    /// Whether the next write fails, and whether for lack of time.
    broken: Option<bool>,
    refuse_dave: bool,
    sender_takes: bool,
    delivered: Option<InstalledTransport>,
    ending: Option<Ending>,
    closed: Option<u16>,
}

impl Client {
    fn new(config: FakeVoiceGatewayConfig) -> Self {
        Client {
            peer: GatewayPeer::new(&config),
            config,
            udp: UdpPeer::new(FakeUdpServerConfig::localhost()).unwrap(),
            link: Link::new(voice_info("session")),
            course: Course::new(),
            conversation: Conversation::new(),
            core: None,
            limits: ResourceLimits::default(),
            now: 1_000 * MILLISECOND,
            sockets: 0,
            inbox: VecDeque::new(),
            deeds: Vec::new(),
            broken: None,
            refuse_dave: false,
            sender_takes: true,
            delivered: None,
            ending: None,
            closed: None,
        }
    }

    fn travel(&mut self, event: CourseEvent) -> CourseStep {
        self.course.step(&mut self.link, event, false)
    }

    /// Begins the first attempt, reaches the gateway and lets it say hello.
    fn open(&mut self) {
        assert_eq!(self.travel(CourseEvent::Begin).errand, Errand::Connect);
        self.reached();
    }

    fn reached(&mut self) {
        assert_eq!(self.travel(CourseEvent::Connected).errand, Errand::Converse);
        self.conversation = Conversation::new();
        self.ending = None;
        self.closed = None;
        let hello = self.config.hello();
        self.inbox.push_back(OutboundMessage::Json(hello));
        self.listen();
    }

    fn write(&mut self, message: OutboundMessage) -> SessionEvent {
        if let Some(timed_out) = self.broken.take() {
            return SessionEvent::WriteFailed { timed_out };
        }
        let reply = match message {
            OutboundMessage::Json(json) => {
                self.peer.handle_text(&self.config, json).unwrap()
            }
            OutboundMessage::Binary(bytes) => {
                self.peer.handle_binary(&self.config, bytes).unwrap()
            }
        };
        self.inbox.extend(reply.messages);
        self.closed = reply.close.map(|close| close.code);
        SessionEvent::Written
    }

    /// Hands an event over and does what is asked for until the session listens.
    fn feed(&mut self, event: SessionEvent) {
        let mut event = event;
        loop {
            let around = Around {
                limits: self.limits,
                dave_ready: self.core.as_ref().is_some_and(|core| core.snapshot().ready),
                now: self.now,
            };
            event = match self.conversation.step(&mut self.link, around, event) {
                SessionAction::Listen => return,
                SessionAction::Write(message) => self.write(message),
                SessionAction::Pong => {
                    self.deeds.push(Deed::Ponged);
                    match self.broken.take() {
                        Some(timed_out) => SessionEvent::WriteFailed { timed_out },
                        None => SessionEvent::Written,
                    }
                }
                SessionAction::Discover { ssrc, mode, generation, .. } => {
                    let request = build_discovery_request(ssrc);
                    self.udp.receive(0, "127.0.0.1:4000", &request).unwrap();
                    let response = self.udp.next_due(0).unwrap().bytes;
                    let DiscoveryStep::Found(public) =
                        discovery_received(&response, response.len(), 2_048, ssrc)
                    else {
                        panic!("discovery succeeds");
                    };
                    self.sockets += 1;
                    SessionEvent::Discovered(Some(DiscoveryCompletion {
                        generation,
                        ssrc,
                        mode,
                        result: Some((self.sockets, public)),
                    }))
                }
                SessionAction::StartDave => {
                    self.deeds.push(Deed::Started);
                    if self.refuse_dave {
                        SessionEvent::DaveStarted(Err(DaveFailure::Backend))
                    } else {
                        let info = self.link.info.info();
                        self.core = Core::new(info.user_id(), info.channel_id()).ok();
                        SessionEvent::DaveStarted(Ok(()))
                    }
                }
                SessionAction::Run(control) => {
                    self.deeds.push(Deed::Ran(control.opcode()));
                    SessionEvent::DaveAnswered(match &mut self.core {
                        Some(core) => core.control(control),
                        None => Err(DaveFailure::Closed),
                    })
                }
                SessionAction::HandOver(transport) => {
                    self.deeds.push(Deed::HandedOver);
                    if self.sender_takes {
                        self.delivered = Some(transport);
                        SessionEvent::HandedOver
                    } else {
                        SessionEvent::NotTaken(transport.encoder)
                    }
                }
                SessionAction::Invalidate => {
                    self.deeds.push(Deed::Invalidated);
                    SessionEvent::Invalidated
                }
                SessionAction::Refuse(error) => {
                    self.deeds.push(Deed::Refused(error.kind()));
                    return;
                }
                SessionAction::Grant => {
                    self.deeds.push(Deed::Granted);
                    return;
                }
                SessionAction::Queue => {
                    self.deeds.push(Deed::Queued);
                    return;
                }
                SessionAction::AnswerPings(rtt) => {
                    self.deeds.push(Deed::Answered(rtt));
                    return;
                }
                SessionAction::End(ending) => {
                    self.ending = Some(ending);
                    return;
                }
            };
        }
    }

    /// Hands over what the gateway sent, until it is silent or the session over.
    fn listen(&mut self) {
        while self.ending.is_none() {
            let event = match self.inbox.pop_front() {
                Some(OutboundMessage::Json(json)) => text_event(&json),
                Some(OutboundMessage::Binary(bytes)) => SessionEvent::Binary(bytes),
                None => match self.closed.take() {
                    Some(code) => SessionEvent::Closed(Some(code)),
                    None => return,
                },
            };
            self.feed(event);
        }
    }

    fn happen(&mut self, event: SessionEvent) {
        self.feed(event);
        self.listen();
    }

    fn dispatch(&mut self, opcode: u8, data: Json) {
        let command = GatewayCommand::Json { opcode, data, numbered: true };
        let reply = self.peer.run_command(&self.config, command);
        self.inbox.extend(reply.messages);
        self.listen();
    }

    /// Ends the session the way it decided, and says how the connection goes on.
    fn ended(&mut self) -> Errand {
        let ending = self.ending.take().unwrap();
        self.travel(CourseEvent::SessionEnded(ending.outcome)).errand
    }

    fn phase(&self) -> ConnectionPhase {
        self.link.store.phase()
    }

    fn fatal(&self) -> ErrorKind {
        match &self.ending.as_ref().unwrap().outcome {
            SessionOutcome::Fatal(error) => error.kind(),
            _ => panic!("the session fails"),
        }
    }
}

fn connected() -> Client {
    let mut client = Client::new(FakeVoiceGatewayConfig::local());
    client.open();
    assert!(client.ending.is_none());
    assert_eq!(client.phase(), ConnectionPhase::Connected);
    client
}

#[test]
fn a_session_opens_before_its_first_heartbeat() {
    let client = connected();
    let records = client.peer.records();
    assert!(matches!(records[0], GatewayRecord::Identify(_)));
    assert!(matches!(
        records[1],
        GatewayRecord::Heartbeat { nonce: Json::Unsigned(1), seq_ack: Some(-1) }
    ));
    assert!(matches!(records[2], GatewayRecord::SelectProtocol(_)));
    assert_eq!(
        client.conversation.session.heartbeat_deadline,
        Some(client.now + 10_000 * MILLISECOND)
    );
    assert_eq!(client.deeds, [Deed::Answered(0)]);
    assert!(matches!(client.conversation.turn, Turn::Listening));
}

#[test]
fn an_opening_that_is_not_written_fails_the_connection() {
    for timed_out in [false, true] {
        let mut client = Client::new(FakeVoiceGatewayConfig::local());
        client.broken = Some(timed_out);
        client.open();
        assert_eq!(client.fatal(), ErrorKind::SendIo);
        assert!(client.peer.records().is_empty());
        assert_eq!(client.conversation.session.heartbeat_deadline, None);
        assert_eq!(client.ended(), Errand::Finish);
        assert_eq!(client.phase(), ConnectionPhase::Failed);
        assert!(matches!(client.link.take_initial(), Some(Err(_))));
    }
}

#[test]
fn exhausted_heartbeat_numbers_end_the_opening() {
    let mut client = Client::new(FakeVoiceGatewayConfig::local());
    client.link.heartbeat_nonce = u64::MAX;
    client.open();
    assert!(matches!(
        &client.ending.as_ref().unwrap().outcome,
        SessionOutcome::Fatal(error) if error.operation() == Operation::Connect
    ));
    assert_eq!(client.peer.records().len(), 1);
}

#[test]
fn a_ping_waits_for_its_own_heartbeat() {
    let mut client = connected();
    client.deeds.clear();
    client.happen(SessionEvent::PingAsked);
    assert_eq!(client.deeds, [Deed::Answered(0)]);

    client.config.drop_heartbeat_acks = 0;
    client.broken = Some(true);
    client.happen(SessionEvent::PingAsked);
    let ending = client.ending.as_ref().unwrap();
    assert!(matches!(
        &ending.outcome,
        SessionOutcome::Fatal(error) if error.operation() == Operation::Ping
    ));
    assert!(ending.pings.is_some() && ending.asked.is_none() && !ending.closing);
    assert_eq!(client.conversation.session.pending_pings, 0);
}

#[test]
fn pings_before_hello_are_refused() {
    let mut client = Client::new(FakeVoiceGatewayConfig::local());
    assert_eq!(client.travel(CourseEvent::Begin).errand, Errand::Connect);
    client.travel(CourseEvent::Connected);
    client.happen(SessionEvent::PingAsked);
    assert_eq!(client.deeds, [Deed::Refused(ErrorKind::EndpointOrTls)]);
}

#[test]
fn an_unacknowledged_heartbeat_ends_in_a_resume() {
    let mut config = FakeVoiceGatewayConfig::local();
    config.drop_heartbeat_acks = 2;
    let mut client = Client::new(config);
    client.open();
    assert_eq!(client.phase(), ConnectionPhase::Connected);
    assert!(client.conversation.session.outstanding.is_some());

    client.now = client.conversation.session.heartbeat_deadline.unwrap();
    client.happen(SessionEvent::PingAsked);
    assert_eq!(client.deeds.last(), Some(&Deed::Queued));
    client.happen(SessionEvent::BeatDue);
    assert!(client.ending.is_none());
    client.now = client.conversation.session.heartbeat_deadline.unwrap();
    client.happen(SessionEvent::BeatDue);
    let ending = client.ending.as_ref().unwrap();
    assert!(matches!(ending.outcome, SessionOutcome::Resume));
    assert!(ending.pings.is_some());
    assert_eq!(client.link.store.current.stats().heartbeat_timeouts(), 1);

    let Errand::Pause(millis) = client.ended() else {
        panic!("the connection pauses");
    };
    assert!(millis >= 50);
    assert_eq!(client.travel(CourseEvent::Elapsed).errand, Errand::Connect);
    assert_eq!(client.link.attempt, Attempt::Resume);
    assert_eq!(client.phase(), ConnectionPhase::Resuming);
    client.reached();
    assert_eq!(client.phase(), ConnectionPhase::Connected);
    let stats = client.link.store.current.stats();
    assert_eq!((stats.resume_attempts(), stats.resume_successes()), (1, 1));
    assert_eq!(client.link.store.generation().get(), 1);
}

#[test]
fn only_a_late_answer_to_a_ping_frame_ends_the_session() {
    let mut client = connected();
    client.happen(SessionEvent::Pinged);
    client.broken = Some(false);
    client.happen(SessionEvent::Pinged);
    assert!(client.ending.is_none());
    client.broken = Some(true);
    client.happen(SessionEvent::Pinged);
    assert!(matches!(client.ending.as_ref().unwrap().outcome, SessionOutcome::Resume));
}

#[test]
fn announcements_are_granted_once_written() {
    let mut client = connected();
    client.deeds.clear();
    let generation = client.link.store.generation();
    let asked = |speaking| SessionEvent::SpeakingAsked { audio_id: 4, generation, speaking };
    client.happen(asked(true));
    assert_eq!(client.deeds, [Deed::Refused(ErrorKind::Superseded)]);

    assert!(client.link.attach_audio(true, false).is_ok());
    client.link.attached(4);
    client.happen(asked(true));
    assert_eq!(client.deeds.last(), Some(&Deed::Granted));
    assert_eq!(client.peer.speaking()[0].u64_member("speaking"), Some(1));

    client.broken = Some(false);
    client.happen(asked(false));
    let ending = client.ending.as_ref().unwrap();
    assert!(matches!(ending.outcome, SessionOutcome::Resume));
    assert!(matches!(&ending.asked, Some(Err(error)) if error.operation() == Operation::StartAudio));
}

#[test]
fn a_renewal_identifies_afresh() {
    let mut client = connected();
    let generation = client.link.store.generation();
    client.happen(SessionEvent::RenewalAsked { audio_id: 4, generation });
    assert_eq!(client.deeds.last(), Some(&Deed::Refused(ErrorKind::Superseded)));
    assert!(client.link.attach_audio(true, false).is_ok());
    client.link.attached(4);
    client.happen(SessionEvent::RenewalAsked { audio_id: 4, generation });
    let ending = client.ending.as_ref().unwrap();
    assert!(matches!(ending.outcome, SessionOutcome::FreshIdentify));
    assert!(matches!(ending.asked, Some(Ok(()))));

    assert!(matches!(client.ended(), Errand::Pause(_)));
    assert_eq!(client.travel(CourseEvent::Elapsed).errand, Errand::Connect);
    client.reached();
    assert_eq!(client.phase(), ConnectionPhase::Connected);
    assert_eq!(client.deeds.last(), Some(&Deed::HandedOver));
    let delivered = client.delivered.as_ref().unwrap();
    assert_eq!(delivered.socket, 2);
    assert!(!delivered.has_dave);
    assert!(client.link.transport.as_ref().unwrap().encoder.is_none());
}

#[test]
fn a_sender_that_takes_nothing_is_detached() {
    let mut client = connected();
    assert!(client.link.attach_audio(true, false).is_ok());
    client.link.attached(4);
    let generation = client.link.store.generation();
    client.happen(SessionEvent::RenewalAsked { audio_id: 4, generation });
    client.ended();
    client.travel(CourseEvent::Elapsed);
    client.sender_takes = false;
    client.reached();
    assert_eq!(client.phase(), ConnectionPhase::Connected);
    assert_eq!(client.link.attachment, None);
    assert!(client.link.transport.as_ref().unwrap().encoder.is_some());
}

#[test]
fn an_early_roster_reaches_the_owner_before_media_is_ready() {
    let mut config = FakeVoiceGatewayConfig::local();
    config.dave_protocol_version = 1;
    let mut client = Client::new(config);
    client.link.dave_roster = vec![77];
    client.open();
    assert_eq!(client.phase(), ConnectionPhase::EstablishingDave);
    let dave: Vec<&Deed> =
        client.deeds.iter().filter(|deed| !matches!(deed, Deed::Answered(_))).collect();
    assert_eq!(dave, [&Deed::Started, &Deed::Ran(11)]);
    let slot = client.link.transport.as_ref().unwrap();
    assert!(slot.has_dave && slot.session_ready);
    assert_eq!(client.core.as_ref().unwrap().recognized(), &vec![22, 77]);
    assert!(matches!(client.link.take_initial(), Some(Ok(()))));
    assert!(matches!(
        client.link.attach_audio(true, false),
        Err(error) if error.kind() == ErrorKind::DaveRequired
    ));
}

#[test]
fn an_owner_that_does_not_start_fails_the_connection() {
    let mut config = FakeVoiceGatewayConfig::local();
    config.dave_protocol_version = 1;
    let mut client = Client::new(config);
    client.refuse_dave = true;
    client.open();
    assert!(matches!(
        &client.ending.as_ref().unwrap().outcome,
        SessionOutcome::Fatal(error) if error.dave_failure() == Some(DaveFailure::Backend)
    ));
    assert!(!client.link.dave);
    assert!(!client.link.transport.as_ref().unwrap().session_ready);
    client.ended();
    assert!(matches!(client.link.take_initial(), Some(Err(_))));
}

#[test]
fn dave_controls_are_answered_in_order() {
    let mut config = FakeVoiceGatewayConfig::local();
    config.dave_protocol_version = 1;
    let mut client = Client::new(config);
    client.open();
    client.deeds.clear();
    client.dispatch(
        24,
        object(vec![("protocol_version", Json::Unsigned(1)), ("epoch", Json::Unsigned(2))]),
    );
    assert_eq!(client.deeds, [Deed::Ran(24)]);
    assert_eq!(client.phase(), ConnectionPhase::EstablishingDave);
    client.dispatch(
        21,
        object(vec![("protocol_version", Json::Unsigned(2)), ("transition_id", Json::Unsigned(5))]),
    );
    assert!(matches!(
        &client.ending.as_ref().unwrap().outcome,
        SessionOutcome::Fatal(error)
            if error.dave_failure() == Some(DaveFailure::UnsupportedVersion)
    ));
}

#[test]
fn too_long_texts_are_refused_unread() {
    let mut client = connected();
    client.happen(SessionEvent::Text {
        length: client.limits.gateway_text_bytes() + 1,
        message: None,
    });
    assert_eq!(client.fatal(), ErrorKind::ResourceLimit);
}

#[test]
fn turns_hear_nothing_else() {
    let mut client = Client::new(FakeVoiceGatewayConfig::local());
    client.travel(CourseEvent::Begin);
    client.travel(CourseEvent::Connected);
    let around =
        Around { limits: client.limits, dave_ready: false, now: client.now };
    let hello = text_event(&client.config.hello());
    assert!(matches!(
        client.conversation.step(&mut client.link, around, hello),
        SessionAction::Write(_)
    ));
    for event in [SessionEvent::Stopped, SessionEvent::PingAsked, SessionEvent::BeatDue] {
        assert!(matches!(
            client.conversation.step(&mut client.link, around, event),
            SessionAction::Listen
        ));
        assert!(matches!(client.conversation.turn, Turn::Opening));
    }
    assert!(matches!(
        client.conversation.step(&mut client.link, around, SessionEvent::Written),
        SessionAction::Write(_)
    ));
    assert!(matches!(client.conversation.turn, Turn::FirstBeat));
}

#[test]
fn sessions_end_as_they_are_told() {
    let ended = |event| {
        let mut client = connected();
        client.happen(event);
        client.ending.take().unwrap()
    };
    let ending = ended(SessionEvent::Stopped);
    assert!(matches!(ending.outcome, SessionOutcome::Shutdown) && ending.closing);
    assert!(matches!(&ending.pings, Some(error) if error.kind() == ErrorKind::Shutdown));
    let ending = ended(SessionEvent::Forsaken);
    assert!(matches!(ending.outcome, SessionOutcome::Shutdown) && ending.closing);
    assert!(ending.pings.is_none());
    let ending = ended(SessionEvent::Ended(StreamEnd::Lost));
    assert!(matches!(ending.outcome, SessionOutcome::Resume) && !ending.closing);
    assert!(ending.pings.is_some());
    let ending = ended(SessionEvent::Ended(StreamEnd::SocketFailed));
    assert!(matches!(ending.outcome, SessionOutcome::FreshIdentify));
    assert!(ending.pings.is_none());
    let ending = ended(SessionEvent::Closed(Some(1000)));
    assert!(matches!(ending.outcome, SessionOutcome::CleanRemote));
    assert!(ending.pings.is_some());
    let ending = ended(SessionEvent::Closed(None));
    assert!(matches!(ending.outcome, SessionOutcome::Resume));
}

#[test]
fn discarded_datagrams_are_counted() {
    let mut client = connected();
    client.happen(SessionEvent::Drained(32));
    client.happen(SessionEvent::Drained(0));
    client.happen(SessionEvent::Drained(3));
    assert_eq!(client.link.store.current.stats().discarded_udp_datagrams(), 35);
}

#[test]
fn fresh_information_waits_for_the_old_transport() {
    let mut client = connected();
    client.happen(SessionEvent::ReplacementAsked(voice_info("fresh")));
    assert_eq!(client.deeds.last(), Some(&Deed::Invalidated));
    let ending = client.ending.as_ref().unwrap();
    assert!(matches!(&ending.outcome, SessionOutcome::Replace(info)
        if info.info().session_id() == "fresh"));
    assert!(matches!(ending.asked, Some(Ok(()))) && ending.closing && ending.pings.is_some());
    assert_eq!(client.link.store.generation().get(), 2);
    assert_eq!(client.ended(), Errand::Connect);
    client.reached();
    assert_eq!(client.phase(), ConnectionPhase::Connected);
    let identifies = client
        .peer
        .records()
        .iter()
        .filter(|record| matches!(record, GatewayRecord::Identify(_)))
        .count();
    assert_eq!(identifies, 2);
}

#[test]
fn a_connection_is_answered_while_it_connects() {
    let mut client = Client::new(FakeVoiceGatewayConfig::local());
    assert_eq!(client.travel(CourseEvent::Begin).errand, Errand::Connect);
    for (command, operation) in [
        (IdleCommand::Ping, Operation::Ping),
        (IdleCommand::AttachAudio, Operation::StartAudio),
        (IdleCommand::Speaking, Operation::StartAudio),
        (IdleCommand::RenewTransport, Operation::StartAudio),
    ] {
        let step = client.travel(CourseEvent::Asked(command));
        assert_eq!(step.errand, Errand::Wait);
        assert!(matches!(&step.answer, Some(CourseAnswer::Refused(error))
            if error.operation() == operation));
    }
    let step = client.travel(CourseEvent::ReplacementAsked(voice_info("fresh")));
    assert_eq!(step.errand, Errand::Invalidate);
    assert!(step.answer.is_none());
    let step = client.travel(CourseEvent::Invalidated);
    assert_eq!(step.errand, Errand::Connect);
    assert!(matches!(step.answer, Some(CourseAnswer::Replaced(generation))
        if generation.get() == 2));
    assert_eq!(client.link.info.info().session_id(), "fresh");
}

#[test]
fn a_pause_is_cut_short_by_a_command() {
    let mut client = Client::new(FakeVoiceGatewayConfig::local());
    client.travel(CourseEvent::Begin);
    let step = client.travel(CourseEvent::NotConnected { timed_out: false });
    assert!(matches!(step.errand, Errand::Pause(_)));
    let step = client.travel(CourseEvent::Asked(IdleCommand::Ping));
    assert_eq!(step.errand, Errand::Connect);
    assert!(step.answer.is_some());
    let step = client.travel(CourseEvent::NotConnected { timed_out: true });
    assert_eq!(step.errand, Errand::Connect);
    assert_eq!(client.phase(), ConnectionPhase::Reconnecting);
}

#[test]
fn attempts_end_with_their_budget() {
    let mut client = Client::new(FakeVoiceGatewayConfig::local());
    client.travel(CourseEvent::Begin);
    for _ in 0..4 {
        let step = client.travel(CourseEvent::NotConnected { timed_out: true });
        assert_eq!(step.errand, Errand::Connect);
    }
    let step = client.travel(CourseEvent::NotConnected { timed_out: true });
    assert_eq!(step.errand, Errand::Finish);
    assert_eq!(client.phase(), ConnectionPhase::Failed);
    assert!(matches!(client.course, Course::Over));
    let step = client.travel(CourseEvent::Begin);
    assert_eq!(step.errand, Errand::Wait);
}

#[test]
fn fresh_information_is_awaited_without_attempts() {
    let mut client = connected();
    let reply = client.peer.run_command(
        &client.config,
        GatewayCommand::Close(VoiceClose { code: 4014, reason: String::new() }),
    );
    client.closed = reply.close.map(|close| close.code);
    client.listen();
    assert_eq!(client.ended(), Errand::Await);
    assert_eq!(client.phase(), ConnectionPhase::NeedsFreshVoiceInfo);
    for command in [IdleCommand::Ping, IdleCommand::AttachAudio, IdleCommand::RenewTransport] {
        let step = client.travel(CourseEvent::Asked(command));
        assert_eq!(step.errand, Errand::Wait);
        assert!(matches!(&step.answer, Some(CourseAnswer::Refused(error))
            if error.kind() == ErrorKind::NeedsFreshVoiceInfo));
    }
    assert_eq!(client.travel(CourseEvent::Elapsed).errand, Errand::Wait);
    let step = client.travel(CourseEvent::ReplacementAsked(voice_info("fresh")));
    assert_eq!(step.errand, Errand::Invalidate);
    assert_eq!(client.travel(CourseEvent::Invalidated).errand, Errand::Connect);
    client.reached();
    assert_eq!(client.phase(), ConnectionPhase::Connected);
}

#[test]
fn a_returned_transport_is_kept_for_the_session() {
    let mut client = connected();
    let transport = client.link.attach_audio(true, false).ok().unwrap();
    client.link.attached(4);
    client.happen(SessionEvent::Ended(StreamEnd::Lost));
    assert!(matches!(client.ended(), Errand::Pause(_)));
    let step = client.travel(CourseEvent::Returned { audio_id: 4, transport });
    assert!(matches!(step.answer, Some(CourseAnswer::Released)));
    assert_eq!(step.errand, Errand::Connect);
    assert!(client.link.transport.as_ref().unwrap().encoder.is_some());
    assert_eq!(client.link.attachment, None);
}

#[test]
fn a_stopped_connection_attempts_nothing_more() {
    let mut client = Client::new(FakeVoiceGatewayConfig::local());
    let step = client.course.step(&mut client.link, CourseEvent::Begin, true);
    assert_eq!(step.errand, Errand::Finish);
    assert_eq!(client.link.store.current.close_reason(), Some(CloseReason::ExplicitShutdown));

    let mut client = connected();
    client.happen(SessionEvent::Ended(StreamEnd::Lost));
    assert!(matches!(client.ended(), Errand::Pause(_)));
    assert_eq!(client.travel(CourseEvent::Stopped).errand, Errand::Finish);
    assert_eq!(client.phase(), ConnectionPhase::Closed);
    let generation: ConnectionGeneration = client.link.store.generation();
    assert_eq!(generation.get(), 1);
}
