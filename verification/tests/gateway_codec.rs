//! Decoding of gateway messages, close codes and payloads.
use oto::dave::{Control, Outbound};
use oto::gateway::decode::{
    dave_binary_min_body_bytes, decode_dave_binary_envelope, decode_dave_json_control,
    decode_dave_roster, decode_disconnected_user, decode_hello, parse_dave_user_id, parse_ready,
    DaveBinaryEnvelopeError, DaveRosterError, ReadyData,
};
use oto::gateway::failure::{close_outcome, Attempt, CloseOutcome};
use oto::gateway::info::ValidatedInfo;
use oto::gateway::payload::{
    dave_outbound_message, dave_outbound_messages, heartbeat_payload, identify_payload,
    resume_payload, select_protocol_payload, speaking_payload, OutboundMessage, SequenceNumber,
};
use oto::json::Json;
use oto::rtp::TransportMode;
use oto::{
    ConnectionGeneration, ErrorKind, Operation, Oto, ResourceLimits, RetryDisposition,
    VoiceConnectInfo, VoiceToken,
};

fn text(value: &str) -> Json {
    Json::Text(value.to_owned())
}

fn object(members: Vec<(&str, Json)>) -> Json {
    Json::Object(
        members
            .into_iter()
            .map(|(name, value)| (name.to_owned(), value))
            .collect(),
    )
}

fn rendered(json: &Json) -> String {
    match json {
        Json::Null => "null".to_owned(),
        Json::Bool(value) => format!("{value}"),
        Json::Unsigned(value) => format!("{value}"),
        Json::Negative(value) => format!("{value}"),
        Json::Float => "float".to_owned(),
        Json::Text(value) => format!("{value:?}"),
        Json::Array(items) => {
            let items: Vec<String> = items.iter().map(rendered).collect();
            format!("[{}]", items.join(","))
        }
        Json::Object(members) => {
            let members: Vec<String> = members
                .iter()
                .map(|(name, value)| format!("{name:?}:{}", rendered(value)))
                .collect();
            format!("{{{}}}", members.join(","))
        }
    }
}

#[test]
fn dave_binary_envelope_decoder_enforces_structure_opcode_and_body_bound() {
    for malformed in [&[][..], &[0][..], &[0, 1][..]] {
        assert!(matches!(
            decode_dave_binary_envelope(malformed, 4),
            Err(DaveBinaryEnvelopeError::Malformed)
        ));
    }

    let external_sender = decode_dave_binary_envelope(&[0x12, 0x34, 25, 1, 2, 3, 4], 4)
        .expect("exact body bound is accepted");
    assert_eq!(external_sender.0, 0x1234);
    assert!(matches!(
        external_sender.1,
        Some(Control::ExternalSender(body)) if body == [1, 2, 3, 4]
    ));
    assert!(matches!(
        decode_dave_binary_envelope(&[0, 1, 30, 1, 2, 3, 4, 5], 4),
        Err(DaveBinaryEnvelopeError::BodyTooLarge)
    ));
    assert!(matches!(
        decode_dave_binary_envelope(&[0, 2, 255, 9], 1),
        Ok((2, None))
    ));
    for operation in u8::MIN..=u8::MAX {
        let result = decode_dave_binary_envelope(&[0, 3, 27, operation, 9], 2);
        assert_eq!(result.is_ok(), matches!(operation, 0 | 1));
    }
}

#[test]
fn dave_binary_envelope_decoder_exhausts_short_lengths_opcodes_and_bounds() {
    for body_len in 0..=64 {
        let mut bytes = vec![0xA5, 0x5A, 0];
        bytes.extend((0..body_len).map(|index| index as u8));
        for opcode in u8::MIN..=u8::MAX {
            bytes[2] = opcode;
            if dave_binary_min_body_bytes(opcode).is_some_and(|minimum| body_len < minimum) {
                assert!(matches!(
                    decode_dave_binary_envelope(&bytes, body_len),
                    Err(DaveBinaryEnvelopeError::Malformed)
                ));
            } else {
                let decoded = decode_dave_binary_envelope(&bytes, body_len)
                    .expect("exact body bound accepts complete opcode payloads");
                assert_eq!(decoded.0, 0xA55A);
                assert_eq!(decoded.1.is_some(), matches!(opcode, 25 | 27 | 29 | 30));
            }

            if body_len > 0 {
                assert!(matches!(
                    decode_dave_binary_envelope(&bytes, body_len - 1),
                    Err(DaveBinaryEnvelopeError::BodyTooLarge)
                ));
            }
        }
    }
}

fn invalid_integers() -> Vec<Json> {
    vec![
        Json::Null,
        Json::Negative(-1),
        Json::Float,
        Json::Unsigned(u64::from(u16::MAX) + 1),
        text("1"),
    ]
}

#[test]
fn dave_json_control_decoder_enforces_integer_types_and_widths() {
    let maximum = Json::Unsigned(u64::from(u16::MAX));
    assert!(matches!(
        decode_dave_json_control(
            21,
            &object(vec![
                ("protocol_version", maximum.duplicate()),
                ("transition_id", maximum),
            ])
        ),
        Some(Control::PrepareTransition {
            protocol_version: u16::MAX,
            id: u16::MAX,
        })
    ));
    assert!(matches!(
        decode_dave_json_control(22, &object(vec![("transition_id", Json::Unsigned(0))])),
        Some(Control::ExecuteTransition { id: 0 })
    ));
    assert!(matches!(
        decode_dave_json_control(
            24,
            &object(vec![
                ("protocol_version", Json::Unsigned(1)),
                ("epoch", Json::Unsigned(u64::MAX)),
            ])
        ),
        Some(Control::PrepareEpoch {
            protocol_version: 1,
            epoch: u64::MAX,
        })
    ));
    assert!(decode_dave_json_control(20, &object(vec![])).is_none());

    for invalid in invalid_integers() {
        assert!(decode_dave_json_control(
            21,
            &object(vec![
                ("protocol_version", invalid.duplicate()),
                ("transition_id", Json::Unsigned(1)),
            ])
        )
        .is_none());
        assert!(decode_dave_json_control(
            21,
            &object(vec![
                ("protocol_version", Json::Unsigned(1)),
                ("transition_id", invalid.duplicate()),
            ])
        )
        .is_none());
        assert!(decode_dave_json_control(
            22,
            &object(vec![("transition_id", invalid.duplicate())])
        )
        .is_none());
        assert!(decode_dave_json_control(
            24,
            &object(vec![
                ("protocol_version", invalid),
                ("epoch", Json::Unsigned(1)),
            ])
        )
        .is_none());
    }

    for invalid_epoch in [Json::Null, Json::Negative(-1), Json::Float, text("1")] {
        assert!(decode_dave_json_control(
            24,
            &object(vec![
                ("protocol_version", Json::Unsigned(1)),
                ("epoch", invalid_epoch),
            ])
        )
        .is_none());
    }
}

#[test]
fn dave_roster_decoder_bounds_cardinality_before_parsing() {
    let users = |ids: Vec<Json>| object(vec![("user_ids", Json::Array(ids))]);
    assert_eq!(
        decode_dave_roster(&users(vec![text("1"), text("2")]), 2),
        Ok(vec![1, 2])
    );
    assert_eq!(
        decode_dave_roster(&users(vec![text("1"), text("2"), text("invalid")]), 2),
        Err(DaveRosterError::TooManyMembers)
    );
    for malformed in [
        object(vec![]),
        object(vec![("user_ids", Json::Null)]),
        object(vec![("user_ids", text("1"))]),
        users(vec![Json::Unsigned(1)]),
        users(vec![text("0")]),
        users(vec![text("18446744073709551616")]),
    ] {
        assert_eq!(
            decode_dave_roster(&malformed, 2),
            Err(DaveRosterError::Malformed)
        );
    }
}

#[test]
fn user_identifiers_are_decimal_and_positive() {
    assert_eq!(parse_dave_user_id("18446744073709551615"), Some(u64::MAX));
    assert_eq!(parse_dave_user_id("+7"), Some(7));
    assert_eq!(parse_dave_user_id("007"), Some(7));
    for refused in ["", "+", "-1", "0", "1 ", " 1", "1_0", "0x1", "18446744073709551616"] {
        assert_eq!(parse_dave_user_id(refused), None, "{refused:?}");
    }
    assert_eq!(
        decode_disconnected_user(&object(vec![("user_id", text("9"))])),
        Some(9)
    );
    assert_eq!(
        decode_disconnected_user(&object(vec![("user_id", Json::Unsigned(9))])),
        None
    );
}

#[test]
fn dave_outbound_binary_limit_accepts_edge_and_rejects_one_byte_over() {
    let generation = ConnectionGeneration::first();
    let exact = dave_outbound_message(Outbound::Binary(vec![26, 1, 2, 3]), 4, generation)
        .expect("exact outbound binary limit is accepted");
    assert!(matches!(exact, OutboundMessage::Binary(bytes) if bytes == [26, 1, 2, 3]));

    let error = dave_outbound_message(Outbound::Binary(vec![26, 1, 2, 3, 4]), 4, generation)
        .expect_err("one-over outbound binary message is rejected");
    assert_eq!(error.kind(), ErrorKind::ResourceLimit);
    assert_eq!(error.operation(), Operation::Connect);
    assert_eq!(error.generation(), Some(generation));

    let error = dave_outbound_message(Outbound::Binary(Vec::new()), 4, generation)
        .expect_err("an outbound DAVE binary message requires an opcode");
    assert_eq!(error.kind(), ErrorKind::DaveTransition);

    let json = dave_outbound_message(Outbound::Json { opcode: 23, transition_id: 7 }, 1, generation)
        .expect("the limit is for binary messages");
    match json {
        OutboundMessage::Json(json) => {
            assert_eq!(rendered(&json), r#"{"op":23,"d":{"transition_id":7}}"#);
        }
        OutboundMessage::Binary(_) => panic!("a JSON action becomes text"),
    }

    let error = dave_outbound_messages(
        vec![
            Outbound::Json { opcode: 31, transition_id: 7 },
            Outbound::Binary(vec![26, 1, 2, 3, 4]),
        ],
        4,
        generation,
    )
    .expect_err("the complete outbound action batch is validated before writes");
    assert_eq!(error.kind(), ErrorKind::ResourceLimit);
}

#[test]
fn heartbeat_intervals_are_bounded() {
    let hello = |value: Json| decode_hello(&object(vec![("heartbeat_interval", value)]));
    assert_eq!(hello(Json::Unsigned(10)), Some(10));
    assert_eq!(hello(Json::Unsigned(300_000)), Some(300_000));
    assert_eq!(hello(Json::Unsigned(9)), None);
    assert_eq!(hello(Json::Unsigned(300_001)), None);
    assert_eq!(hello(Json::Negative(-10)), None);
    assert_eq!(decode_hello(&Json::Null), None);
}

#[test]
fn ready_data_is_checked() {
    let generation = ConnectionGeneration::first();
    let ready = |port: u16, modes: usize| {
        parse_ready(
            Some(ReadyData {
                ssrc: 7,
                ip: "203.0.113.1".to_owned(),
                port,
                modes: (0..modes).map(|index| format!("mode{index}")).collect(),
            }),
            generation,
        )
    };
    assert_eq!(ready(50_000, 32).unwrap().modes.len(), 32);
    for refused in [ready(0, 1), ready(50_000, 0), ready(50_000, 33), parse_ready(None, generation)] {
        assert_eq!(refused.unwrap_err().kind(), ErrorKind::GatewayProtocol);
    }
}

#[test]
fn current_voice_close_policy_is_data_driven_and_typed() {
    let generation = ConnectionGeneration::first();
    for code in [4001, 4002, 4003, 4005, 4006, 4009] {
        assert!(matches!(
            close_outcome(code, generation, Attempt::Identify),
            CloseOutcome::FreshIdentify
        ));
    }
    assert!(matches!(
        close_outcome(4015, generation, Attempt::Identify),
        CloseOutcome::Resume
    ));
    for code in [4011, 4014, 4021, 4022] {
        match close_outcome(code, generation, Attempt::Identify) {
            CloseOutcome::NeedsFresh(error) => {
                assert_eq!(error.kind(), ErrorKind::NeedsFreshVoiceInfo);
                assert_eq!(error.safe_code(), Some(u32::from(code)));
            }
            _ => panic!("code {code} must await fresh voice information"),
        }
    }
    for (code, kind) in [
        (4004, ErrorKind::CredentialsRejected),
        (4012, ErrorKind::UnsupportedTransport),
        (4016, ErrorKind::UnsupportedTransport),
        (4017, ErrorKind::DaveRequired),
        (4020, ErrorKind::GatewayProtocol),
    ] {
        match close_outcome(code, generation, Attempt::Identify) {
            CloseOutcome::Fatal(error) => {
                assert_eq!(error.kind(), kind);
                assert_eq!(error.safe_code(), Some(u32::from(code)));
            }
            _ => panic!("code {code} must be terminal"),
        }
    }
}

#[test]
fn unlisted_close_codes_resume() {
    let generation = ConnectionGeneration::first();
    for code in [1001, 1006, 1011, 4000, 4999, u16::MAX] {
        assert!(matches!(
            close_outcome(code, generation, Attempt::Resume),
            CloseOutcome::Resume
        ));
    }
    assert!(matches!(
        close_outcome(1000, generation, Attempt::Identify),
        CloseOutcome::CleanRemote
    ));
}

#[test]
fn resource_and_voice_info_bounds_fail_before_any_task_starts() {
    let error = Oto::builder()
        .resource_limits(ResourceLimits::default().with_gateway_command_capacity(0))
        .build()
        .expect_err("zero capacity is rejected");
    assert_eq!(error.kind(), ErrorKind::InvalidConfiguration);

    let error = Oto::builder()
        .resource_limits(ResourceLimits::default().with_dave_roster_members(0))
        .build()
        .expect_err("zero DAVE roster capacity is rejected");
    assert_eq!(error.kind(), ErrorKind::InvalidConfiguration);

    let error = Oto::builder()
        .resource_limits(
            ResourceLimits::default()
                .with_gateway_binary_bytes(8)
                .with_dave_binary_body_bytes(6),
        )
        .build()
        .expect_err("DAVE body and envelope must fit the gateway binary bound");
    assert_eq!(error.kind(), ErrorKind::InvalidConfiguration);

    let error = Oto::builder()
        .resource_limits(
            ResourceLimits::default().with_udp_datagram_bytes(usize::from(u16::MAX) + 1),
        )
        .build()
        .expect_err("impossible UDP datagram bound is rejected");
    assert_eq!(error.kind(), ErrorKind::InvalidConfiguration);

    let error = Oto::builder()
        .resource_limits(
            ResourceLimits::default()
                .with_encoded_opus_frame_bytes(1_275)
                .with_udp_datagram_bytes(1_275 + 32),
        )
        .build()
        .expect_err("datagram bound must include DAVE expansion before transport AEAD");
    assert_eq!(error.kind(), ErrorKind::InvalidConfiguration);

    let token = VoiceToken::new("never-print-this".to_owned());
    assert!(!token.redacted().contains("never-print-this"));

    let info = VoiceConnectInfo::new(
        1,
        2,
        3,
        "never-print-this-session".to_owned(),
        "voice.example.test".to_owned(),
        VoiceToken::new("never-print-this-token".to_owned()),
    );
    let shown = info.redacted();
    assert!(!shown.contains("never-print-this-session"));
    assert!(!shown.contains("never-print-this-token"));
    assert_eq!(shown.matches("[REDACTED]").count(), 2);
    assert_eq!(
        shown,
        "VoiceConnectInfo { server_id: 1, user_id: 2, channel_id: 3, \
         session_id: \"[REDACTED]\", endpoint: \"voice.example.test\", token: \"[REDACTED]\" }"
    );
    assert!(info.redacted_around("here").contains("endpoint: here, token"));
    let escaped = voice_info(1, "session", "a\"\n", "token").redacted();
    assert!(escaped.contains("endpoint: \"a\\\"\\n\", token"));

    for endpoint in [
        "ws://voice.example.test",
        "user@voice.example.test",
        "voice.example.test/path",
        "voice.example.test?token=secret",
        "voice.example.test#fragment",
    ] {
        let info = voice_info(1, "session", endpoint, "token");
        assert_eq!(
            ValidatedInfo::new(info, Operation::Connect, None)
                .err()
                .expect("unsafe endpoint shape is rejected")
                .kind(),
            ErrorKind::InvalidVoiceInfo
        );
    }
}

fn voice_info(server_id: u64, session: &str, endpoint: &str, token: &str) -> VoiceConnectInfo {
    VoiceConnectInfo::new(
        server_id,
        2,
        3,
        session.to_owned(),
        endpoint.to_owned(),
        VoiceToken::new(token.to_owned()),
    )
}

fn validated(endpoint: &str) -> ValidatedInfo {
    ValidatedInfo::new(voice_info(1, "session", endpoint, "token"), Operation::Connect, None)
        .ok()
        .expect("fit voice information")
}

#[test]
fn gateway_urls_carry_the_version() {
    assert_eq!(validated("voice.example.test").url(), "wss://voice.example.test/?v=8");
    assert_eq!(validated("wss://voice.example.test:443").url(), "wss://voice.example.test:443/?v=8");
    for (server_id, session, endpoint, token) in [
        (0, "session", "voice.example.test", "token"),
        (1, "", "voice.example.test", "token"),
        (1, "session", "", "token"),
        (1, "session", "voice.example.test", ""),
        (1, "session", "voice example", "token"),
        (1, "session", "voice.\u{2003}test", "token"),
    ] {
        let refused = ValidatedInfo::new(
            voice_info(server_id, session, endpoint, token),
            Operation::ReplaceVoiceInfo,
            Some(ConnectionGeneration::first()),
        );
        let error = refused.err().expect("unfit voice information");
        assert_eq!(error.operation(), Operation::ReplaceVoiceInfo);
        assert_eq!(error.retry_disposition(), RetryDisposition::Fatal);
    }
    let long = "x".repeat(513);
    assert!(ValidatedInfo::new(voice_info(1, "session", &long, "token"), Operation::Connect, None)
        .is_err());
}

#[test]
fn payloads_are_exact() {
    let info = validated("voice.example.test");
    assert_eq!(
        rendered(&identify_payload(&info)),
        r#"{"op":0,"d":{"server_id":"1","user_id":"2","session_id":"session","token":"token","max_dave_protocol_version":1}}"#
    );
    assert_eq!(
        rendered(&resume_payload(&info, Some(SequenceNumber::Unsigned(5)))),
        r#"{"op":7,"d":{"server_id":"1","session_id":"session","token":"token","seq_ack":5}}"#
    );
    assert_eq!(
        rendered(&select_protocol_payload("203.0.113.1", 50_000, TransportMode::Aes256GcmRtpSize)),
        r#"{"op":1,"d":{"protocol":"udp","data":{"address":"203.0.113.1","port":50000,"mode":"aead_aes256_gcm_rtpsize"}}}"#
    );
    assert_eq!(
        rendered(&speaking_payload(7, true)),
        r#"{"op":5,"d":{"speaking":1,"delay":0,"ssrc":7}}"#
    );
    assert_eq!(
        rendered(&heartbeat_payload(9, None)),
        r#"{"op":3,"d":{"t":9,"seq_ack":-1}}"#
    );
    assert_eq!(
        rendered(&heartbeat_payload(9, Some(SequenceNumber::Negative(-4)))),
        r#"{"op":3,"d":{"t":9,"seq_ack":-4}}"#
    );
}
