//! Discovery, mode selection and the encoder of media packets.
use oto::address::is_ip_text;
use oto::discovery::{build_discovery_request, DISCOVERY_BYTES};
use oto::rtp::TransportMode;
use oto::testkit::crypto::decrypt_transport_packet;
use oto::testkit::fault::FaultAction;
use oto::testkit::udp::{DiscoveryResponseMutation, FakeUdpServerConfig, UdpPeer};
use oto::transport::{
    audio_type_of_service, discovery_received, discovery_timed_out, parse_discovery_response,
    select_mode, starts_from_random, DiscoveredAddress, DiscoveryStep, TransportCryptoFailure,
    TransportEncoder, DISCOVERY_ATTEMPTS,
};

const KEY: [u8; 32] = [0x42; 32];

fn to_hex(bytes: &[u8]) -> String {
    bytes.iter().map(|byte| format!("{byte:02x}")).collect()
}

#[test]
fn mode_selection_is_preference_ordered_and_exact() {
    let reversed = vec![
        "aead_xchacha20_poly1305_rtpsize".to_owned(),
        "future_mode".to_owned(),
        "aead_aes256_gcm_rtpsize".to_owned(),
    ];
    assert_eq!(
        select_mode(&reversed),
        Some(TransportMode::Aes256GcmRtpSize)
    );
    assert_eq!(
        select_mode(&["aead_xchacha20_poly1305_rtpsize".to_owned()]),
        Some(TransportMode::XChaCha20Poly1305RtpSize)
    );
    assert_eq!(select_mode(&["xsalsa20_poly1305".to_owned()]), None);
}

#[test]
fn mode_names_read_back() {
    for mode in [
        TransportMode::Aes256GcmRtpSize,
        TransportMode::XChaCha20Poly1305RtpSize,
    ] {
        assert_eq!(TransportMode::parse(mode.name()), Some(mode));
    }
    assert_eq!(TransportMode::Aes256GcmRtpSize.name(), "aead_aes256_gcm_rtpsize");
    assert_eq!(TransportMode::parse("AEAD_AES256_GCM_RTPSIZE"), None);
}

fn valid_response() -> [u8; DISCOVERY_BYTES] {
    let mut valid = [0_u8; DISCOVERY_BYTES];
    valid[..2].copy_from_slice(&2_u16.to_be_bytes());
    valid[2..4].copy_from_slice(&70_u16.to_be_bytes());
    valid[4..8].copy_from_slice(&0x0102_0304_u32.to_be_bytes());
    valid[8..20].copy_from_slice(b"203.0.113.1\0");
    valid[72..].copy_from_slice(&50_000_u16.to_be_bytes());
    valid
}

#[test]
fn discovery_wire_is_exact_and_parser_rejects_every_structural_error() {
    let request = build_discovery_request(0x0102_0304);
    assert_eq!(&request[..8], &[0, 1, 0, 70, 1, 2, 3, 4]);
    assert!(request[8..].iter().all(|byte| *byte == 0));

    let valid = valid_response();
    assert_eq!(
        parse_discovery_response(&valid, 0x0102_0304),
        Some(DiscoveredAddress {
            address: "203.0.113.1".to_owned(),
            port: 50_000,
        })
    );
    for broken in 0..8 {
        let mut packet = valid.to_vec();
        match broken {
            0 => packet.truncate(73),
            1 => packet[..2].copy_from_slice(&1_u16.to_be_bytes()),
            2 => packet[2..4].copy_from_slice(&69_u16.to_be_bytes()),
            3 => packet[4..8].copy_from_slice(&5_u32.to_be_bytes()),
            4 => packet[8..72].fill(b'x'),
            5 => packet[72..].fill(0),
            6 => {
                packet[8..72].fill(0);
                packet[8] = 0xff;
            }
            7 => {
                packet[8..72].fill(0);
                packet[8..18].copy_from_slice(b"not-an-ip\0");
            }
            _ => unreachable!(),
        }
        assert_eq!(parse_discovery_response(&packet, 0x0102_0304), None);
    }
}

#[test]
fn address_texts_are_recognized() {
    for text in [
        "0.0.0.0",
        "203.0.113.1",
        "255.255.255.255",
        "::",
        "::1",
        "1::",
        "2001:db8::8a2e:370:7334",
        "2001:DB8:0:0:0:0:0:1",
        "1:2:3:4:5:6:7::",
        "::2:3:4:5:6:7:8",
        "::ffff:192.0.2.128",
        "1:2:3:4:5:6:192.0.2.128",
    ] {
        assert!(is_ip_text(text.as_bytes()), "{text}");
    }
    for text in [
        "",
        "1.2.3",
        "1.2.3.4.5",
        "256.0.0.1",
        "01.2.3.4",
        "1.2.3.0004",
        "1.2.3.4 ",
        "1..2.3",
        ":",
        ":::",
        "1::2::3",
        "1:2:3:4:5:6:7",
        "1:2:3:4:5:6:7:8:9",
        "1:2:3:4:5:6:7:8::",
        "12345::",
        "g::",
        "1.2.3.4::",
        "1:2:3:4:5:6:7:192.0.2.128",
        "::1%eth0",
        "[::1]",
    ] {
        assert!(!is_ip_text(text.as_bytes()), "{text}");
    }
}

/// Runs discovery against a server in memory and returns what came of it and how many
/// requests were sent.
fn discover(peer: &mut UdpPeer, ssrc: u32, max_datagram_bytes: usize) -> (DiscoveryStep, usize) {
    let mut attempts = 0;
    loop {
        attempts += 1;
        let request = build_discovery_request(ssrc).to_vec();
        peer.receive(0, "127.0.0.1:4000", &request).unwrap();
        while let Some(delivery) = peer.next_due(0) {
            let length = delivery.bytes.len();
            match discovery_received(&delivery.bytes, length, max_datagram_bytes, ssrc) {
                DiscoveryStep::KeepReceiving => {}
                step => return (step, attempts),
            }
        }
        match discovery_timed_out(attempts) {
            DiscoveryStep::SendAgain => {}
            step => return (step, attempts),
        }
    }
}

#[test]
fn discovery_ignores_malformed_and_oversized_datagrams_with_bounded_retries() {
    let mut server = UdpPeer::new(FakeUdpServerConfig::localhost()).unwrap();
    server
        .push_discovery_mutation(DiscoveryResponseMutation::WrongType)
        .unwrap();
    server
        .push_discovery_mutation(DiscoveryResponseMutation::WrongSsrc)
        .unwrap();
    match discover(&mut server, 0x0102_0304, 2_048) {
        (DiscoveryStep::Found(public), 3) => assert_eq!(
            public,
            DiscoveredAddress {
                address: "203.0.113.10".to_owned(),
                port: 50_000,
            }
        ),
        other => panic!("third bounded attempt accepts a valid response: {other:?}"),
    }
    assert_eq!(server.capture().len(), 3);

    let mut config = FakeUdpServerConfig::localhost();
    config.max_datagram_bytes = 4_096;
    let mut server = UdpPeer::new(config).unwrap();
    server
        .push_fault(FaultAction::Replace(vec![0; DISCOVERY_BYTES + 1]))
        .unwrap();
    match discover(&mut server, 9, DISCOVERY_BYTES) {
        (DiscoveryStep::Found(public), 2) => assert_eq!(public.port, 50_000),
        other => panic!("oversized response is ignored and retried: {other:?}"),
    }
    assert_eq!(server.capture().len(), 2);
}

#[test]
fn discovery_exhausts_exactly_three_attempts_without_accepting_malformed_input() {
    let mut server = UdpPeer::new(FakeUdpServerConfig::localhost()).unwrap();
    for _ in 0..DISCOVERY_ATTEMPTS {
        server
            .push_discovery_mutation(DiscoveryResponseMutation::ZeroPort)
            .unwrap();
    }
    let (step, attempts) = discover(&mut server, 7, 2_048);
    assert!(matches!(step, DiscoveryStep::TimedOut));
    assert_eq!(attempts, DISCOVERY_ATTEMPTS);
    assert_eq!(server.capture().len(), DISCOVERY_ATTEMPTS);
}

#[test]
fn datagrams_are_cut_to_what_was_received() {
    let mut buffer = valid_response().to_vec();
    buffer.extend_from_slice(&[9; 10]);
    assert!(matches!(
        discovery_received(&buffer, DISCOVERY_BYTES, 2_048, 0x0102_0304),
        DiscoveryStep::Found(_)
    ));
    assert!(matches!(
        discovery_received(&buffer, DISCOVERY_BYTES + 1, 2_048, 0x0102_0304),
        DiscoveryStep::KeepReceiving
    ));
    assert!(matches!(
        discovery_received(&buffer, DISCOVERY_BYTES, DISCOVERY_BYTES - 1, 0x0102_0304),
        DiscoveryStep::KeepReceiving
    ));
}

#[test]
fn both_modes_match_the_independent_oracle_and_reuse_buffers() {
    for mode in [
        TransportMode::Aes256GcmRtpSize,
        TransportMode::XChaCha20Poly1305RtpSize,
    ] {
        let mut server = UdpPeer::new(FakeUdpServerConfig::localhost()).unwrap();
        let mut encoder = TransportEncoder::new_with_starts(
            mode,
            &KEY,
            0x0102_0304,
            1_275,
            2_048,
            u16::MAX,
            u32::MAX - 959,
            0x0a0b_0c0d,
        )
        .unwrap();
        let mut packet = Vec::with_capacity(2_048);
        encoder.encrypt_next(&[1, 2, 3], &mut packet).unwrap();
        let capacity = packet.capacity();
        server.receive(0, "127.0.0.1:4000", &packet).unwrap();
        encoder.encrypt_next(&[4, 5], &mut packet).unwrap();
        assert_eq!(packet.capacity(), capacity);
        server.receive(0, "127.0.0.1:4000", &packet).unwrap();

        let first = server.decrypt_captured_transport(0, mode, &KEY, 1_275).unwrap();
        let second = server.decrypt_captured_transport(1, mode, &KEY, 1_275).unwrap();
        assert_eq!(
            (first.sequence, first.timestamp, first.nonce),
            (u16::MAX, u32::MAX - 959, 0x0a0b_0c0d)
        );
        assert_eq!(
            (second.sequence, second.timestamp, second.nonce),
            (0, 0, 0x0a0b_0c0e)
        );
        assert_eq!(first.payload, vec![1, 2, 3]);
        assert_eq!(second.payload, vec![4, 5]);
    }
}

#[test]
fn production_encoder_matches_frozen_raw_golden_packets() {
    const GOLDEN_KEY: [u8; 32] = [0x11; 32];
    for (mode, expected) in [
        (
            TransportMode::Aes256GcmRtpSize,
            "8078112233445566778899aa3d32aa62bea8755ac10fbec5839ed2d6dd3eaf2004030201",
        ),
        (
            TransportMode::XChaCha20Poly1305RtpSize,
            "8078112233445566778899aa406f7c7259ab6e4e49338bc36e55dd7c9aa0b89b04030201",
        ),
    ] {
        let mut encoder = TransportEncoder::new_with_starts(
            mode,
            &GOLDEN_KEY,
            0x7788_99aa,
            32,
            64,
            0x1122,
            0x3344_5566,
            0x0102_0304,
        )
        .unwrap();
        let mut packet = Vec::new();
        encoder.encrypt_next(b"opus", &mut packet).unwrap();
        assert_eq!(to_hex(&packet), expected);
    }
}

#[test]
fn nonce_maximum_is_used_once_then_refused_for_both_modes() {
    for mode in [
        TransportMode::Aes256GcmRtpSize,
        TransportMode::XChaCha20Poly1305RtpSize,
    ] {
        let mut encoder =
            TransportEncoder::new_with_starts(mode, &KEY, 7, 1_275, 2_048, 1, 2, u32::MAX - 1)
                .unwrap();
        let mut packet = Vec::new();
        encoder.encrypt_next(&[1], &mut packet).unwrap();
        assert_eq!(&packet[packet.len() - 4..], &(u32::MAX - 1).to_le_bytes());
        encoder.encrypt_next(&[1], &mut packet).unwrap();
        assert_eq!(&packet[packet.len() - 4..], &u32::MAX.to_le_bytes());
        assert_eq!(
            encoder.encrypt_next(&[1], &mut packet),
            Err(TransportCryptoFailure::NonceExhausted)
        );
    }
}

#[test]
fn encoder_bounds_are_checked() {
    let mode = TransportMode::Aes256GcmRtpSize;
    assert!(matches!(
        TransportEncoder::new_with_starts(mode, &KEY, 7, 0, 2_048, 1, 2, 3),
        Err(TransportCryptoFailure::InvalidBounds)
    ));
    assert!(matches!(
        TransportEncoder::new_with_starts(mode, &KEY, 7, 100, 131, 1, 2, 3),
        Err(TransportCryptoFailure::InvalidBounds)
    ));
    let mut encoder = TransportEncoder::new_with_starts(mode, &KEY, 7, 100, 132, 1, 2, 3).unwrap();
    let mut packet = Vec::new();
    assert_eq!(
        encoder.encrypt_next(&[0; 101], &mut packet),
        Err(TransportCryptoFailure::InvalidBounds)
    );
    encoder.encrypt_next(&[0; 100], &mut packet).unwrap();
    assert_eq!(packet.len(), 132);
}

#[test]
fn random_starts_are_read_in_order() {
    let random = [0x11, 0x22, 0x33, 0x44, 0x55, 0x66, 0x77, 0x88, 0x99, 0xAA];
    let (sequence, timestamp, nonce) = starts_from_random(&random);
    assert_eq!(sequence, u16::from_le_bytes([0x11, 0x22]));
    assert_eq!(timestamp, u32::from_le_bytes([0x33, 0x44, 0x55, 0x66]));
    assert_eq!(nonce, u32::from_le_bytes([0x77, 0x88, 0x99, 0xAA]));
}

#[test]
fn encoders_start_at_random() {
    let mode = TransportMode::XChaCha20Poly1305RtpSize;
    let mut starts = Vec::new();
    for _ in 0..4 {
        let mut encoder = TransportEncoder::new(mode, &KEY, 7, 100, 200).unwrap();
        assert_eq!(encoder.mode(), mode);
        let mut packet = Vec::new();
        encoder.encrypt_next(b"frame", &mut packet).unwrap();
        let read = decrypt_transport_packet(mode, &KEY, &packet, 100).unwrap();
        assert_eq!(read.payload, b"frame");
        starts.push((read.sequence, read.timestamp, read.nonce));
    }
    assert!(starts.iter().any(|start| *start != starts[0]));
}

#[test]
fn dscp_values_shift_into_the_service_byte() {
    assert_eq!(audio_type_of_service(46), Some(184));
    assert_eq!(audio_type_of_service(63), Some(252));
    assert_eq!(audio_type_of_service(64), None);
}
