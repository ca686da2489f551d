//! The client side of a voice session against the scripted gateway, both in memory.
use oto::discovery::build_discovery_request;
use oto::gateway::backoff::{backoff_delay, next_deadline, MAX_RECONNECT_ATTEMPTS};
use oto::gateway::decode::{ReadyData, SessionDescriptionData};
use oto::gateway::description::{
    dave_started, delivery_refused, finish_description, install_transport, DescribeStep,
};
use oto::gateway::dispatch::{
    admit_text, announce_speaking, binary_message, close_frame, count_discarded, dave_messages,
    drain_udp, follow_dave, renew_transport, resumable_outcome, stream_ended, write_failed,
    DrainEvent, DrainStep, StreamEnd, TextMessage, TextStep, Written, UDP_DRAIN_BATCH,
};
use oto::gateway::failure::Attempt;
use oto::gateway::info::ValidatedInfo;
use oto::gateway::link::{Continuation, IdleCommand, Link, SessionOutcome};
use oto::gateway::payload::{OutboundMessage, SequenceNumber};
use oto::gateway::session::{
    write_error, AckStep, BeatStep, DaveStep, DiscoveredStep, DiscoveryCompletion, HelloStep,
    PingStep, ReadyStep, SequenceField, Session,
};
use oto::json::Json;
use oto::rtp::TransportMode;
use oto::testkit::gateway::{
    check_binary, ClientMessage, FakeVoiceGatewayConfig, GatewayCloseStage, GatewayCommand,
    GatewayCommandError, GatewayError, GatewayPeer, GatewayRecord, GatewayReply, GatewayStep,
    ScriptedClose, VoiceClose,
};
use oto::testkit::udp::{FakeUdpServerConfig, UdpPeer};
use oto::transport::{discovery_received, DiscoveryStep};
use oto::{
    CloseReason, ConnectionPhase, DaveFailure, ErrorKind, Operation, ResourceLimits,
    RetryDisposition, VoiceConnectInfo, VoiceToken,
};

const MILLISECOND: u64 = 1_000_000;

fn voice_info(session: &str, token: &str) -> ValidatedInfo {
    let info = VoiceConnectInfo::new(
        11,
        22,
        33,
        session.to_owned(),
        "voice.example.test".to_owned(),
        VoiceToken::new(token.to_owned()),
    );
    ValidatedInfo::new(info, Operation::Connect, None).ok().unwrap()
}

fn text(value: &str) -> Json {
    Json::Text(value.to_owned())
}

fn object(members: Vec<(&str, Json)>) -> Json {
    Json::Object(
        members
            .into_iter()
            .map(|(name, value)| (name.to_owned(), value))
            .collect(),
    )
}

fn ready_of(data: &Json) -> Option<ReadyData> {
    let modes = data.get("modes")?.as_array()?;
    Some(ReadyData {
        ssrc: u32::try_from(data.u64_member("ssrc")?).ok()?,
        ip: data.get("ip")?.as_str()?.to_owned(),
        port: u16::try_from(data.u64_member("port")?).ok()?,
        modes: modes
            .iter()
            .map(|mode| mode.as_str().map(str::to_owned))
            .collect::<Option<Vec<String>>>()?,
    })
}

fn description_of(data: &Json) -> Option<SessionDescriptionData> {
    let key = data.get("secret_key")?.as_array()?;
    let key: Vec<u8> = key
        .iter()
        .map(|byte| byte.as_u64().and_then(|byte| u8::try_from(byte).ok()))
        .collect::<Option<Vec<u8>>>()?;
    Some(SessionDescriptionData {
        mode: data.get("mode")?.as_str()?.to_owned(),
        secret_key: key.try_into().ok()?,
        dave_protocol_version: u16::try_from(data.u64_member("dave_protocol_version")?).ok()?,
    })
}

fn inbound(json: &Json) -> TextMessage {
    let data = json.get("d").map_or(Json::Null, Json::duplicate);
    TextMessage {
        opcode: json.u64_member("op").unwrap(),
        sequence: match json.get("seq").and_then(Json::as_u64) {
            Some(number) => SequenceField::Integer(SequenceNumber::Unsigned(number)),
            None => SequenceField::Absent,
        },
        ready: ready_of(&data),
        description: description_of(&data),
        data,
    }
}

/// A client and a gateway that hand each other messages.
struct World {
    config: FakeVoiceGatewayConfig,
    peer: GatewayPeer,
    udp: UdpPeer,
    link: Link,
    session: Session,
    limits: ResourceLimits,
    now: u64,
    sockets: u64,
    pongs: Vec<u64>,
    dave_ready: bool,
    outcome: Option<SessionOutcome>,
}

impl World {
    fn new(config: FakeVoiceGatewayConfig) -> Self {
        World {
            peer: GatewayPeer::new(&config),
            config,
            udp: UdpPeer::new(FakeUdpServerConfig::localhost()).unwrap(),
            link: Link::new(voice_info("session", "token")),
            session: Session::new(),
            limits: ResourceLimits::default(),
            now: 1_000 * MILLISECOND,
            sockets: 0,
            pongs: Vec::new(),
            dave_ready: false,
            outcome: None,
        }
    }

    /// Opens a session: the gateway says hello.
    fn open(&mut self) {
        self.link.begin_attempt();
        self.session = Session::new();
        self.outcome = None;
        if self.link.attempt == Attempt::Identify {
            self.link.store.phase_to(ConnectionPhase::Handshaking);
        }
        for stage in [GatewayCloseStage::BeforeHello, GatewayCloseStage::AfterHello] {
            if let Some(close) = self.config.close_at_stage(stage) {
                self.outcome = Some(close_frame(&self.link, Some(close.code)));
                return;
            }
        }
        let hello = self.config.hello();
        self.receive(OutboundMessage::Json(hello));
    }

    fn send(&mut self, json: Json) {
        let reply = self.peer.handle_text(&self.config, json).unwrap();
        self.take(reply);
    }

    fn command(&mut self, command: GatewayCommand) {
        let reply = self.peer.run_command(&self.config, command);
        self.take(reply);
    }

    fn take(&mut self, reply: GatewayReply) {
        for message in reply.messages {
            self.receive(message);
        }
        if let Some(close) = reply.close {
            self.outcome = Some(close_frame(&self.link, Some(close.code)));
        }
    }

    fn dave(&mut self, step: DaveStep) {
        match step {
            DaveStep::Fatal(error) => self.outcome = Some(SessionOutcome::Fatal(error)),
            DaveStep::Run(_) => follow_dave(&mut self.link, self.dave_ready),
            DaveStep::RunQuietly(_) | DaveStep::Done => {}
        }
    }

    fn receive(&mut self, message: OutboundMessage) {
        let json = match message {
            OutboundMessage::Json(json) => json,
            OutboundMessage::Binary(bytes) => {
                let step = binary_message(&mut self.link, &bytes, &self.limits);
                self.dave(step);
                return;
            }
        };
        let step = self.session.text_message(
            &mut self.link,
            Some(inbound(&json)),
            &self.limits,
            self.dave_ready,
            self.now,
        );
        match step {
            TextStep::Hello(HelloStep::Open(opening)) => {
                self.send(opening);
                self.session.start_beating(self.now);
            }
            TextStep::Hello(HelloStep::Fatal(error))
            | TextStep::Ready(ReadyStep::Fatal(error))
            | TextStep::Describe(DescribeStep::Fatal(error))
            | TextStep::Acknowledge(AckStep::Fatal(error))
            | TextStep::Fatal(error) => self.outcome = Some(SessionOutcome::Fatal(error)),
            TextStep::Ready(ReadyStep::Discover { port, ssrc, mode, generation, .. }) => {
                assert_eq!(port, self.config.voice_port);
                self.discover(ssrc, mode, generation);
            }
            TextStep::Describe(DescribeStep::Accept { encoder, version, start_dave }) => {
                if start_dave {
                    let step = dave_started(&mut self.link, Ok(()));
                    self.dave(step);
                }
                assert!(self.link.transport.is_some());
                if let Some(installed) = install_transport(&mut self.link, encoder, version) {
                    delivery_refused(&mut self.link, installed.encoder);
                }
                finish_description(&mut self.link, version);
            }
            TextStep::Acknowledge(AckStep::Pong(rtt)) => self.pongs.push(rtt),
            TextStep::Acknowledge(AckStep::Ignore) | TextStep::Done => {}
            TextStep::Dave(step) => self.dave(step),
        }
    }

    fn discover(
        &mut self,
        ssrc: u32,
        mode: TransportMode,
        generation: oto::ConnectionGeneration,
    ) {
        let request = build_discovery_request(ssrc).to_vec();
        self.udp.receive(0, "127.0.0.1:4000", &request).unwrap();
        let response = self.udp.next_due(0).unwrap().bytes;
        let DiscoveryStep::Found(public) =
            discovery_received(&response, response.len(), 2_048, ssrc)
        else {
            panic!("discovery succeeds");
        };
        self.sockets += 1;
        let completion = DiscoveryCompletion {
            generation,
            ssrc,
            mode,
            result: Some((self.sockets, public)),
        };
        match self.session.discovered(&mut self.link, Some(completion)) {
            DiscoveredStep::Select(select) => self.send(select),
            DiscoveredStep::Stale => {}
            DiscoveredStep::Fatal(error) => self.outcome = Some(SessionOutcome::Fatal(error)),
        }
    }

    fn beat(&mut self) -> BeatStep {
        self.now = self.session.heartbeat_deadline.unwrap();
        self.session.heartbeat_due(&mut self.link, self.now)
    }

    fn phase(&self) -> ConnectionPhase {
        self.link.store.phase()
    }
}

fn connected() -> World {
    let mut world = World::new(FakeVoiceGatewayConfig::local());
    world.open();
    assert_eq!(world.phase(), ConnectionPhase::Connected);
    assert!(matches!(world.link.take_initial(), Some(Ok(()))));
    world
}

#[test]
fn the_handshake_reaches_a_ready_transport() {
    let mut world = connected();
    assert!(world.link.take_initial().is_none());
    assert!(world.outcome.is_none());
    let slot = world.link.transport.as_ref().unwrap();
    assert_eq!(slot.ssrc, 0x1122_3344);
    assert_eq!(slot.selected_mode, TransportMode::Aes256GcmRtpSize);
    assert!(slot.session_ready && slot.encoder.is_some());
    let records = world.peer.records();
    assert!(matches!(records[0], GatewayRecord::Identify(_)));
    assert!(matches!(records[1], GatewayRecord::SelectProtocol(_)));
    assert_eq!(world.link.latest_sequence, Some(SequenceNumber::Unsigned(1)));
}

#[test]
fn transport_mode_preference_fallback_and_rejection_are_end_to_end() {
    let mut config = FakeVoiceGatewayConfig::local();
    config.modes = vec![
        "aead_xchacha20_poly1305_rtpsize".to_owned(),
        "future_mode".to_owned(),
    ];
    let mut world = World::new(config);
    world.open();
    assert_eq!(
        world.link.transport.as_ref().unwrap().selected_mode,
        TransportMode::XChaCha20Poly1305RtpSize
    );
    let mut config = FakeVoiceGatewayConfig::local();
    config.modes = vec!["xsalsa20_poly1305".to_owned()];
    let mut world = World::new(config);
    world.open();
    match world.outcome.take() {
        Some(SessionOutcome::Fatal(error)) => {
            assert_eq!(error.kind(), ErrorKind::UnsupportedTransport);
            assert!(matches!(
                world.link.session_ended(SessionOutcome::Fatal(error)),
                Continuation::Finished
            ));
        }
        _ => panic!("no supported mode"),
    }
    assert_eq!(world.phase(), ConnectionPhase::Failed);
}

#[test]
fn heartbeats_are_numbered_and_measured() {
    let mut world = connected();
    let BeatStep::Send(beat) = world.beat() else {
        panic!("a heartbeat is sent");
    };
    world.session.beat_sent(&world.link, world.now);
    world.now += 7 * MILLISECOND;
    world.send(beat);
    assert_eq!(world.pongs, [7 * MILLISECOND]);
    assert_eq!(world.link.store.current.gateway_rtt(), Some(7 * MILLISECOND));
    assert!(matches!(
        world.peer.records().last(),
        Some(GatewayRecord::Heartbeat { nonce: Json::Unsigned(1), seq_ack: Some(1) })
    ));
}

#[test]
fn two_missed_heartbeats_end_a_session() {
    let mut config = FakeVoiceGatewayConfig::local();
    config.drop_heartbeat_acks = 1;
    let mut world = World::new(config);
    world.open();
    let BeatStep::Send(beat) = world.beat() else {
        panic!("a heartbeat is sent");
    };
    world.session.beat_sent(&world.link, world.now);
    world.send(beat);
    assert!(world.pongs.is_empty());
    assert!(matches!(world.beat(), BeatStep::Waiting));
    assert!(matches!(world.beat(), BeatStep::GiveUp));
    assert_eq!(world.link.store.current.stats().heartbeat_timeouts(), 1);
    assert!(matches!(resumable_outcome(&world.link), SessionOutcome::Resume));
}

#[test]
fn pings_share_a_heartbeat_and_are_bounded() {
    let mut world = connected();
    let PingStep::Send(beat) = world.session.ping(&mut world.link, 2) else {
        panic!("the first ping sends a heartbeat");
    };
    world.session.beat_sent(&world.link, world.now);
    assert!(matches!(world.session.ping(&mut world.link, 2), PingStep::Wait));
    match world.session.ping(&mut world.link, 2) {
        PingStep::Refuse(error) => assert_eq!(error.kind(), ErrorKind::Overloaded),
        _ => panic!("pings are bounded"),
    }
    world.send(beat);
    assert_eq!(world.pongs.len(), 1);
    assert_eq!(world.session.pending_pings, 0);
    let error = world.session.fail_pings(&world.link);
    assert_eq!(error.operation(), Operation::Ping);
    let mut early = Session::new();
    assert!(matches!(early.ping(&mut world.link, 2), PingStep::Refuse(_)));
}

#[test]
fn foreign_acknowledgements_change_nothing() {
    let mut world = connected();
    let before = world.session;
    let data = object(vec![("t", Json::Unsigned(99))]);
    assert!(matches!(
        world.session.acknowledge(&mut world.link, &data, world.now),
        AckStep::Ignore
    ));
    assert_eq!(world.session, before);
    assert!(matches!(
        world.session.acknowledge(&mut world.link, &Json::Null, world.now),
        AckStep::Fatal(_)
    ));
}

#[test]
fn buffered_resume_replays_messages_after_last_ack_without_new_generation() {
    let mut world = connected();
    let generation = world.link.store.generation();
    world.command(GatewayCommand::BufferJson { opcode: 200, data: Json::Null });
    world.command(GatewayCommand::BufferJson { opcode: 201, data: Json::Null });
    world.command(GatewayCommand::Close(VoiceClose {
        code: 4015,
        reason: "server crashed".to_owned(),
    }));
    let outcome = world.outcome.take().unwrap();
    assert!(matches!(outcome, SessionOutcome::Resume));
    match world.link.session_ended(outcome) {
        Continuation::Backoff(millis) => assert!((50..=75).contains(&millis)),
        _ => panic!("a resume follows a delay"),
    }
    assert_eq!(world.link.attempt, Attempt::Resume);
    world.open();
    assert_eq!(world.phase(), ConnectionPhase::Connected);
    assert!(world.link.store.generation().same(generation));
    let stats = world.link.store.current.stats();
    assert_eq!(stats.resume_successes(), 1);
    assert_eq!(stats.unknown_opcodes(), 2);
    assert_eq!(world.link.latest_sequence, Some(SequenceNumber::Unsigned(3)));
    assert!(matches!(
        world.peer.records().last(),
        Some(GatewayRecord::Resume { seq_ack: 1 })
    ));
}

#[test]
fn failed_resume_falls_back_to_identify() {
    let mut config = FakeVoiceGatewayConfig::local();
    config.replay_capacity = 1;
    let mut world = World::new(config);
    world.open();
    for opcode in 200..203 {
        world.command(GatewayCommand::BufferJson { opcode, data: Json::Null });
    }
    world.link.session_ended(SessionOutcome::Resume);
    world.open();
    let outcome = world.outcome.take().unwrap();
    assert!(matches!(outcome, SessionOutcome::FreshIdentify));
    world.link.session_ended(outcome);
    assert_eq!(world.link.attempt, Attempt::Identify);
    assert!(world.link.transport.is_none());
    assert_eq!(world.link.latest_sequence, None);
    world.open();
    assert_eq!(world.phase(), ConnectionPhase::Connected);
}

#[test]
fn attempts_run_out() {
    let mut world = World::new(FakeVoiceGatewayConfig::local());
    for attempt in 1..=MAX_RECONNECT_ATTEMPTS {
        assert!(matches!(
            world.link.connect_failed(attempt % 2 == 0),
            Continuation::Retry | Continuation::Backoff(_)
        ));
    }
    assert!(matches!(world.link.connect_failed(false), Continuation::Finished));
    assert_eq!(world.phase(), ConnectionPhase::Failed);
    match world.link.take_initial() {
        Some(Err(error)) => assert_eq!(error.kind(), ErrorKind::EndpointOrTls),
        _ => panic!("the caller is told"),
    }
}

#[test]
fn terminal_close_is_typed_at_every_gateway_handshake_stage() {
    for stage in [
        GatewayCloseStage::BeforeHello,
        GatewayCloseStage::AfterHello,
        GatewayCloseStage::AfterIdentify,
        GatewayCloseStage::AfterReady,
    ] {
        let mut config = FakeVoiceGatewayConfig::local();
        config.scripted_close = Some(ScriptedClose {
            stage,
            close: VoiceClose { code: 4004, reason: "bad token".to_owned() },
        });
        let mut world = World::new(config);
        world.open();
        match world.outcome.take() {
            Some(SessionOutcome::Fatal(error)) => {
                assert_eq!(error.kind(), ErrorKind::CredentialsRejected);
                assert_eq!(error.safe_code(), Some(4004));
            }
            _ => panic!("{stage:?} must be terminal"),
        }
    }
}

#[test]
fn fresh_voice_information_starts_over() {
    let mut world = connected();
    match world.link.session_ended(close_frame(&world.link, Some(4014))) {
        Continuation::AwaitReplacement => {}
        _ => panic!("fresh voice information is awaited"),
    }
    assert_eq!(world.phase(), ConnectionPhase::NeedsFreshVoiceInfo);
    assert_eq!(
        world.link.answer_awaiting(IdleCommand::Ping).retry_disposition(),
        RetryDisposition::NeedsFreshVoiceInfo
    );
    let generation = world.link.admit_replacement().unwrap();
    assert_eq!(generation.get(), 2);
    world.link.session_ended(SessionOutcome::Replace(voice_info("fresh", "fresh")));
    assert!(world.link.transport.is_none());
    assert_eq!(world.link.reconnect_attempts, 0);
    assert_eq!(world.link.info.info().session_id(), "fresh");
    world.open();
    assert_eq!(world.phase(), ConnectionPhase::Connected);
}

#[test]
fn stale_discovery_cannot_cross_generations() {
    let mut world = connected();
    let stale = world.link.store.generation();
    world.link.admit_replacement().unwrap();
    world.link.replace_info(voice_info("fresh", "fresh"));
    let completion = DiscoveryCompletion {
        generation: stale,
        ssrc: 1,
        mode: TransportMode::Aes256GcmRtpSize,
        result: None,
    };
    assert!(matches!(
        world.session.discovered(&mut world.link, Some(completion)),
        DiscoveredStep::Stale
    ));
    assert!(world.link.transport.is_none());
    let completion = DiscoveryCompletion {
        generation: world.link.store.generation(),
        ssrc: 1,
        mode: TransportMode::Aes256GcmRtpSize,
        result: None,
    };
    match world.session.discovered(&mut world.link, Some(completion)) {
        DiscoveredStep::Fatal(error) => assert_eq!(error.kind(), ErrorKind::UdpDiscovery),
        _ => panic!("failed discovery is terminal"),
    }
}

#[test]
fn the_encoder_goes_out_and_comes_back() {
    let mut world = connected();
    let installed = world.link.attach_audio(true, false).unwrap();
    world.link.attached(5);
    assert_eq!(
        world.link.attach_audio(false, false).err().unwrap().kind(),
        ErrorKind::ResourceLimit
    );
    let generation = world.link.store.generation();
    assert!(announce_speaking(&world.link, 5, generation, true).is_ok());
    assert_eq!(
        announce_speaking(&world.link, 6, generation, true).err().unwrap().kind(),
        ErrorKind::Superseded
    );
    assert!(renew_transport(&world.link, 5, generation).is_ok());
    world.link.detach_audio(6, installed);
    assert!(world.link.transport.as_ref().unwrap().encoder.is_none());
    let mut world = connected();
    let installed = world.link.attach_audio(true, false).unwrap();
    world.link.attached(5);
    world.link.detach_audio(5, installed);
    assert!(world.link.transport.as_ref().unwrap().encoder.is_some());
    assert_eq!(world.link.attachment, None);
}

#[test]
fn media_waits_for_the_owner() {
    let mut config = FakeVoiceGatewayConfig::local();
    config.dave_protocol_version = 1;
    let mut world = World::new(config);
    world.open();
    assert_eq!(world.phase(), ConnectionPhase::EstablishingDave);
    assert!(world.link.dave);
    assert_eq!(
        world.link.attach_audio(true, false).err().unwrap().kind(),
        ErrorKind::DaveRequired
    );
    assert!(world.link.attach_audio(true, true).is_ok());
    world.dave_ready = true;
    world.command(GatewayCommand::Json {
        opcode: 22,
        data: object(vec![("transition_id", Json::Unsigned(7))]),
        numbered: true,
    });
    assert_eq!(world.phase(), ConnectionPhase::Connected);
}

#[test]
fn unsupported_initial_dave_version_is_typed_before_transport_installation() {
    let mut config = FakeVoiceGatewayConfig::local();
    config.dave_protocol_version = 2;
    let mut world = World::new(config);
    world.open();
    match world.outcome.take() {
        Some(SessionOutcome::Fatal(error)) => {
            assert_eq!(error.kind(), ErrorKind::DaveUnsupported);
        }
        _ => panic!("an unknown version is refused"),
    }
    assert!(!world.link.transport.as_ref().unwrap().session_ready);
}

#[test]
fn unnegotiated_dave_controls_cannot_activate_dave_lazily() {
    for command in [
        GatewayCommand::Json {
            opcode: 21,
            data: object(vec![
                ("protocol_version", Json::Unsigned(1)),
                ("transition_id", Json::Unsigned(7)),
            ]),
            numbered: true,
        },
        GatewayCommand::Binary { opcode: 25, payload: vec![1, 2, 3, 4] },
    ] {
        let mut world = connected();
        world.command(command);
        match world.outcome.take() {
            Some(SessionOutcome::Fatal(error)) => {
                assert_eq!(error.kind(), ErrorKind::GatewayProtocol);
            }
            _ => panic!("a control needs an owner"),
        }
        assert!(!world.link.dave);
    }
}

#[test]
fn message_limits_accept_edge_and_reject_one_byte_over() {
    let mut world = connected();
    world.limits = ResourceLimits::default().with_gateway_text_bytes(100);
    assert!(admit_text(&world.link, 100, &world.limits).is_ok());
    assert_eq!(
        admit_text(&world.link, 101, &world.limits).unwrap_err().kind(),
        ErrorKind::ResourceLimit
    );
    let maximum = world.limits.gateway_binary_bytes;
    let mut bytes = vec![0; maximum];
    bytes[2] = 255;
    world.limits = world.limits.with_dave_binary_body_bytes(maximum - 3);
    assert!(matches!(
        binary_message(&mut world.link, &bytes, &world.limits),
        DaveStep::Done
    ));
    bytes.push(0);
    match binary_message(&mut world.link, &bytes, &world.limits) {
        DaveStep::Fatal(error) => assert_eq!(error.kind(), ErrorKind::ResourceLimit),
        _ => panic!("one byte over is refused"),
    }
}

#[test]
fn dave_roster_limit_accepts_edge_and_rejects_one_member_over() {
    let mut world = connected();
    world.limits = ResourceLimits::default().with_dave_roster_members(2);
    let users = |ids: Vec<&str>| {
        object(vec![("user_ids", Json::Array(ids.into_iter().map(text).collect()))])
    };
    world.command(GatewayCommand::Json { opcode: 11, data: users(vec!["1", "2"]), numbered: true });
    assert_eq!(world.link.dave_roster, [1, 2]);
    world.command(GatewayCommand::Json {
        opcode: 13,
        data: object(vec![("user_id", text("1"))]),
        numbered: true,
    });
    assert_eq!(world.link.dave_roster, [2]);
    assert!(world.outcome.is_none());
    world.command(GatewayCommand::Json {
        opcode: 11,
        data: users(vec!["1", "2", "3"]),
        numbered: true,
    });
    match world.outcome.take() {
        Some(SessionOutcome::Fatal(error)) => assert_eq!(error.kind(), ErrorKind::ResourceLimit),
        _ => panic!("one member over is refused"),
    }
}

#[test]
fn an_early_roster_is_handed_to_the_owner() {
    let mut world = connected();
    world.link.dave_roster = vec![4, 5];
    match dave_started(&mut world.link, Ok(())) {
        DaveStep::RunQuietly(oto::dave::Control::Roster(users)) => assert_eq!(users, [4, 5]),
        _ => panic!("the roster is handed over"),
    }
    match dave_started(&mut world.link, Err(DaveFailure::Backend)) {
        DaveStep::Fatal(error) => assert_eq!(error.dave_failure(), Some(DaveFailure::Backend)),
        _ => panic!("a failed start is terminal"),
    }
    let failed = dave_messages(&world.link, Err(DaveFailure::Malformed), &world.limits);
    assert_eq!(failed.err().unwrap().dave_failure(), Some(DaveFailure::Malformed));
}

#[test]
fn malformed_text_is_a_protocol_error() {
    let mut world = connected();
    let step = world.session.text_message(&mut world.link, None, &world.limits, false, world.now);
    assert!(matches!(step, TextStep::Fatal(error) if error.kind() == ErrorKind::GatewayProtocol));
    let message = TextMessage {
        opcode: 6,
        sequence: SequenceField::Fractional,
        data: Json::Null,
        ready: None,
        description: None,
    };
    let step =
        world.session.text_message(&mut world.link, Some(message), &world.limits, false, world.now);
    assert!(matches!(step, TextStep::Fatal(error) if error.kind() == ErrorKind::GatewayProtocol));
}

#[test]
fn inbound_datagrams_are_drained_in_batches() {
    let mut world = connected();
    let mut discarded = 0;
    for _ in 1..UDP_DRAIN_BATCH {
        assert_eq!(drain_udp(&mut discarded, DrainEvent::Datagram), DrainStep::More);
    }
    assert_eq!(drain_udp(&mut discarded, DrainEvent::Datagram), DrainStep::Done);
    assert_eq!(discarded, UDP_DRAIN_BATCH);
    let mut few = 3;
    assert_eq!(drain_udp(&mut few, DrainEvent::Empty), DrainStep::Done);
    assert_eq!(drain_udp(&mut few, DrainEvent::Failed), DrainStep::Failed);
    count_discarded(&mut world.link, discarded);
    assert_eq!(world.link.store.current.stats().discarded_udp_datagrams(), 32);
}

#[test]
fn shutdown_ends_a_connection_once() {
    let mut world = connected();
    assert!(matches!(
        world.link.session_ended(SessionOutcome::Shutdown),
        Continuation::Finished
    ));
    assert_eq!(world.phase(), ConnectionPhase::Closed);
    assert_eq!(
        world.link.store.current.close_reason(),
        Some(CloseReason::ExplicitShutdown)
    );
    let before = world.link.store.current;
    world.link.finish_shutdown();
    assert_eq!(world.link.store.current, before);
    let mut remote = World::new(FakeVoiceGatewayConfig::local());
    remote.link.session_ended(SessionOutcome::CleanRemote);
    assert_eq!(
        remote.link.store.current.close_reason(),
        Some(CloseReason::CleanRemote)
    );
}

#[test]
fn delays_grow_and_carry_jitter() {
    let info = voice_info("session", "token");
    let mut base = 25;
    for attempt in 0..=6 {
        let millis = backoff_delay(attempt, info.info());
        assert!(millis >= base && millis <= base + base / 2);
        assert_eq!(millis, backoff_delay(attempt, info.info()));
        base *= 2;
    }
    assert_eq!(next_deadline(100, 50, 120), 150);
    assert_eq!(next_deadline(100, 50, 150), 200);
    assert_eq!(next_deadline(100, 50, 500), 550);
}

#[test]
fn failed_writes_carry_their_operation() {
    let world = connected();
    let generation = world.link.store.generation();
    let timed_out = write_error(true, Operation::Ping, generation);
    assert_eq!((timed_out.kind(), timed_out.operation()), (ErrorKind::SendIo, Operation::Ping));
    assert!(!timed_out.has_source());
    assert!(write_error(false, Operation::Ping, generation).has_source());
    assert_eq!(world.link.answer_idle(IdleCommand::Ping).operation(), Operation::Ping);
}

#[test]
fn failed_writes_and_streams_decide_the_session() {
    let world = connected();
    for (written, operation) in [
        (Written::Opening, Operation::Connect),
        (Written::Selection, Operation::Connect),
        (Written::Dave, Operation::Connect),
        (Written::Ping, Operation::Ping),
    ] {
        match write_failed(&world.link, written, true) {
            Some(SessionOutcome::Fatal(error)) => {
                assert_eq!((error.kind(), error.operation()), (ErrorKind::SendIo, operation));
            }
            _ => panic!("{written:?} is terminal"),
        }
    }
    for written in [Written::Heartbeat, Written::Speaking] {
        assert!(matches!(
            write_failed(&world.link, written, false),
            Some(SessionOutcome::Resume)
        ));
    }
    assert!(write_failed(&world.link, Written::Pong, false).is_none());
    assert!(matches!(
        write_failed(&world.link, Written::Pong, true),
        Some(SessionOutcome::Resume)
    ));
    assert!(matches!(stream_ended(&world.link, StreamEnd::Lost), SessionOutcome::Resume));
    assert!(matches!(
        stream_ended(&world.link, StreamEnd::SocketFailed),
        SessionOutcome::FreshIdentify
    ));
    assert!(matches!(
        stream_ended(&world.link, StreamEnd::FrameTooLong),
        SessionOutcome::Fatal(error) if error.kind() == ErrorKind::ResourceLimit
    ));
    let fresh = World::new(FakeVoiceGatewayConfig::local());
    assert!(matches!(
        stream_ended(&fresh.link, StreamEnd::Lost),
        SessionOutcome::FreshIdentify
    ));
}

#[test]
fn the_scripted_gateway_bounds_what_it_keeps() {
    let mut config = FakeVoiceGatewayConfig::local();
    config.capture_capacity = 1;
    let mut peer = GatewayPeer::new(&config);
    let other = || object(vec![("op", Json::Unsigned(99)), ("d", Json::Null)]);
    assert!(peer.handle_text(&config, other()).is_ok());
    assert!(matches!(
        peer.handle_text(&config, other()),
        Err(GatewayError::CaptureFull { capacity: 1 })
    ));
    assert_eq!(check_binary(5, 8), Ok(()));
    assert_eq!(
        check_binary(6, 8),
        Err(GatewayCommandError::MessageTooLarge { actual: 9, maximum: 8 })
    );
    config.sequence_modulus = 0;
    assert_eq!(config.validate(), Err(GatewayError::InvalidConfig));
}

#[test]
fn messages_are_checked_in_their_order() {
    let mut config = FakeVoiceGatewayConfig::local();
    config.max_message_bytes = 8;
    let mut peer = GatewayPeer::new(&config);
    let text = |length: usize| ClientMessage::Text {
        length,
        json: Some(object(vec![("op", Json::Unsigned(99)), ("d", Json::Null)])),
    };
    let undecoded = |step: GatewayStep| match step {
        GatewayStep::Reply(reply) => {
            assert!(reply.messages.is_empty());
            assert!(reply.lenient);
            assert_eq!(
                reply.close,
                Some(VoiceClose { code: 4002, reason: "failed to decode payload".to_owned() })
            );
        }
        _ => panic!("expected a close"),
    };
    for refused in [
        text(9),
        ClientMessage::Text { length: 1, json: None },
        ClientMessage::Text { length: 2, json: Some(object(vec![])) },
        ClientMessage::Binary(vec![]),
        ClientMessage::Binary(vec![0; 9]),
    ] {
        undecoded(peer.handle_message(&config, refused).unwrap());
        assert!(peer.records().is_empty());
    }
    for (kept, taken) in [text(8), ClientMessage::Binary(vec![7; 8])].into_iter().enumerate() {
        let step = peer.handle_message(&config, taken).unwrap();
        assert!(matches!(step, GatewayStep::Reply(reply) if reply.close.is_none()));
        assert_eq!(peer.records().len(), kept + 1);
    }
    assert!(matches!(
        peer.handle_message(&config, ClientMessage::Ping(vec![4, 2])),
        Ok(GatewayStep::Pong(bytes)) if bytes == [4, 2]
    ));
    assert!(matches!(
        peer.handle_message(&config, ClientMessage::Pong),
        Ok(GatewayStep::Reply(reply)) if reply.messages.is_empty() && reply.close.is_none()
    ));
    assert!(matches!(
        peer.handle_message(&config, ClientMessage::Close),
        Ok(GatewayStep::End)
    ));
    config.capture_capacity = 2;
    assert!(matches!(
        peer.handle_message(&config, text(8)),
        Err(GatewayError::CaptureFull { capacity: 2 })
    ));

    let close = || VoiceClose { code: 4999, reason: "scripted".to_owned() };
    config.scripted_close =
        Some(ScriptedClose { stage: GatewayCloseStage::AfterHello, close: close() });
    for message in [text(9), text(1), ClientMessage::Close, ClientMessage::Ping(vec![])] {
        match peer.handle_message(&config, message).unwrap() {
            GatewayStep::Reply(reply) => {
                assert_eq!(reply.close, Some(close()));
                assert!(!reply.lenient);
            }
            _ => panic!("expected the scripted close"),
        }
    }
    assert_eq!(peer.records().len(), 2);
}

#[test]
fn numbers_wrap_at_the_modulus() {
    let mut config = FakeVoiceGatewayConfig::local();
    config.sequence_start = 9;
    config.sequence_modulus = 10;
    config.replay_capacity = 4;
    let mut peer = GatewayPeer::new(&config);
    for expected in [9, 0, 1] {
        let reply = peer.run_command(
            &config,
            GatewayCommand::Json { opcode: 200, data: Json::Null, numbered: true },
        );
        match &reply.messages[0] {
            OutboundMessage::Json(json) => assert_eq!(json.u64_member("seq"), Some(expected)),
            OutboundMessage::Binary(_) => panic!("a text command"),
        }
    }
    let reply = peer.run_command(
        &config,
        GatewayCommand::Binary { opcode: 25, payload: vec![8] },
    );
    assert!(matches!(
        &reply.messages[0],
        OutboundMessage::Binary(bytes) if bytes == &vec![0, 2, 25, 8]
    ));
}
