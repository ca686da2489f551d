//! The deterministic test doubles.
use oto::discovery::{build_discovery_request, DISCOVERY_BYTES};
use oto::rtp::TransportMode;
use oto::testkit::capture::{CaptureError, PacketCapture, PacketRecord};
use oto::testkit::clock::{ManualClock, ManualClockError, MAX_SPAN};
use oto::testkit::crypto::{
    decrypt_transport_packet, TransportCryptoError, TransportPacketEncoder,
};
use oto::testkit::fault::{FaultAction, FaultError, FaultInjector};
use oto::testkit::rng::{DeterministicRng, DeterministicRngError};
use oto::testkit::udp::{
    apply_mutation, build_discovery_response, parse_discovery_request, parse_discovery_response,
    DiscoveryError, DiscoveryResponse, DiscoveryResponseMutation, FakeUdpServerConfig, UdpPeer,
    UdpTestkitError,
};

const KEY: [u8; 32] = [0x11; 32];
const SECOND: u128 = 1_000_000_000;

fn record(bytes: Vec<u8>) -> PacketRecord {
    PacketRecord { at: 0, peer: "127.0.0.1:1".to_owned(), bytes }
}

fn to_hex(bytes: &[u8]) -> String {
    bytes.iter().map(|byte| format!("{byte:02x}")).collect()
}

#[test]
fn full_policy_rejects_new_records() {
    let mut capture = PacketCapture::new(1, 8).unwrap();
    let first = record(vec![1]);
    capture.record(first.duplicate()).unwrap();
    assert_eq!(capture.record(first), Err(CaptureError::Full { capacity: 1 }));
}

#[test]
fn oversized_record_is_rejected_without_consuming_capacity() {
    let mut capture = PacketCapture::new(1, 1).unwrap();
    assert_eq!(
        capture.record(record(vec![1, 2])),
        Err(CaptureError::PacketTooLarge { actual: 2, maximum: 1 })
    );
    assert!(capture.is_empty());
}

#[test]
fn captures_keep_order_and_drain_empties_them() {
    assert!(matches!(PacketCapture::new(0, 8), Err(CaptureError::InvalidCapacity)));
    assert!(matches!(PacketCapture::new(8, 0), Err(CaptureError::InvalidCapacity)));
    let mut capture = PacketCapture::new(2, 8).unwrap();
    assert_eq!(capture.max_packet_bytes(), 8);
    capture.record(record(vec![1])).unwrap();
    capture.record(record(vec![2, 3])).unwrap();
    assert_eq!(capture.len(), 2);
    assert_eq!(capture.packet(1).unwrap(), &vec![2, 3]);
    assert!(capture.packet(2).is_none());
    let snapshot = capture.snapshot();
    assert_eq!(snapshot[0].bytes, vec![1]);
    assert_eq!(snapshot[1].bytes, vec![2, 3]);
    let drained = capture.drain();
    assert_eq!(drained.len(), 2);
    assert_eq!(drained[0].peer, "127.0.0.1:1");
    assert!(capture.is_empty());
}

#[test]
fn wakes_only_after_deadline_without_wall_clock_sleep() {
    let mut clock = ManualClock::new(10 * SECOND);
    assert!(!clock.reached(15 * SECOND));
    clock.advance(4 * SECOND).unwrap();
    assert!(!clock.reached(15 * SECOND));
    clock.advance(SECOND).unwrap();
    assert!(clock.reached(15 * SECOND));
}

#[test]
fn rejects_backward_time() {
    let mut clock = ManualClock::new(2 * SECOND);
    assert!(matches!(
        clock.set(SECOND),
        Err(ManualClockError::WentBackwards { .. })
    ));
    assert_eq!(clock.now(), 2 * SECOND);
    clock.set(3 * SECOND).unwrap();
    assert_eq!(clock.now(), 3 * SECOND);
    assert!(matches!(clock.advance(MAX_SPAN), Err(ManualClockError::Overflow)));
    assert!(matches!(clock.advance(u128::MAX), Err(ManualClockError::Overflow)));
    assert_eq!(clock.advance(MAX_SPAN - 3 * SECOND), Ok(MAX_SPAN));
}

#[test]
fn both_modes_round_trip_exact_header_and_little_endian_suffix() {
    for mode in [
        TransportMode::Aes256GcmRtpSize,
        TransportMode::XChaCha20Poly1305RtpSize,
    ] {
        let mut encoder = TransportPacketEncoder::new(mode, KEY, 0x0102_0304, 32).unwrap();
        let packet = encoder
            .encrypt(0x1122, 0x3344_5566, 0x7788_99aa, b"opus")
            .unwrap();
        let expected = match mode {
            TransportMode::Aes256GcmRtpSize => {
                "8078112233445566778899aa3d32aa62bea8755ac10fbec5839ed2d6dd3eaf2004030201"
            }
            TransportMode::XChaCha20Poly1305RtpSize => {
                "8078112233445566778899aa406f7c7259ab6e4e49338bc36e55dd7c9aa0b89b04030201"
            }
        };
        assert_eq!(to_hex(&packet), expected);
        assert_eq!(&packet[..12], &hex_header());
        assert_eq!(&packet[packet.len() - 4..], &[4, 3, 2, 1]);

        let decoded = decrypt_transport_packet(mode, &KEY, &packet, 32).unwrap();
        assert_eq!(decoded.sequence, 0x1122);
        assert_eq!(decoded.timestamp, 0x3344_5566);
        assert_eq!(decoded.ssrc, 0x7788_99aa);
        assert_eq!(decoded.nonce, 0x0102_0304);
        assert_eq!(decoded.payload, b"opus");
    }
}

fn hex_header() -> [u8; 12] {
    [
        0x80, 0x78, 0x11, 0x22, 0x33, 0x44, 0x55, 0x66, 0x77, 0x88, 0x99, 0xaa,
    ]
}

#[test]
fn nonce_maximum_is_used_once_then_rejected() {
    let mut encoder =
        TransportPacketEncoder::new(TransportMode::Aes256GcmRtpSize, KEY, u32::MAX, 8).unwrap();
    let packet = encoder.encrypt(1, 2, 3, b"x").unwrap();
    assert_eq!(&packet[packet.len() - 4..], &u32::MAX.to_le_bytes());
    assert_eq!(
        encoder.encrypt(2, 3, 4, b"y").unwrap_err(),
        TransportCryptoError::NonceExhausted
    );
}

#[test]
fn authentication_and_bounds_fail_closed() {
    let mut encoder =
        TransportPacketEncoder::new(TransportMode::Aes256GcmRtpSize, KEY, 7, 4).unwrap();
    assert!(matches!(
        encoder.encrypt(1, 2, 3, b"large"),
        Err(TransportCryptoError::PayloadTooLarge { .. })
    ));
    let mut packet = encoder.encrypt(1, 2, 3, b"ok").unwrap();
    packet[12] ^= 1;
    assert_eq!(
        decrypt_transport_packet(TransportMode::Aes256GcmRtpSize, &KEY, &packet, 4).unwrap_err(),
        TransportCryptoError::Aead
    );
}

#[test]
fn malformed_packets_are_named() {
    let mode = TransportMode::XChaCha20Poly1305RtpSize;
    assert_eq!(mode.discord_name(), "aead_xchacha20_poly1305_rtpsize");
    assert!(matches!(
        TransportPacketEncoder::new(mode, KEY, 0, 0),
        Err(TransportCryptoError::InvalidMaximum)
    ));
    assert_eq!(
        decrypt_transport_packet(mode, &KEY, &[0x80; 31], 8).unwrap_err(),
        TransportCryptoError::PacketTooShort { actual: 31 }
    );
    let mut encoder = TransportPacketEncoder::new(mode, KEY, 1, 8).unwrap();
    let mut packet = encoder.encrypt(1, 2, 3, b"audio").unwrap();
    packet[0] = 0x90;
    assert_eq!(
        decrypt_transport_packet(mode, &KEY, &packet, 8).unwrap_err(),
        TransportCryptoError::InvalidRtpFlags { actual: 0x90 }
    );
    packet[0] = 0x80;
    packet[1] = 0x79;
    assert_eq!(
        decrypt_transport_packet(mode, &KEY, &packet, 8).unwrap_err(),
        TransportCryptoError::InvalidPayloadType { actual: 0x79 }
    );
    packet[1] = 0x78;
    assert_eq!(
        decrypt_transport_packet(mode, &KEY, &packet, 4).unwrap_err(),
        TransportCryptoError::PayloadTooLarge { actual: 5, maximum: 4 }
    );
    assert_eq!(
        decrypt_transport_packet(mode, &KEY, &packet, 8).unwrap().payload,
        b"audio"
    );
}

#[test]
fn drop_delay_replace_and_reorder_are_deterministic() {
    let mut faults = FaultInjector::new(8, 32).unwrap();
    faults.push(FaultAction::Drop).unwrap();
    faults.push(FaultAction::Delay(3 * SECOND)).unwrap();
    faults.push(FaultAction::Replace(vec![9])).unwrap();
    faults.push(FaultAction::Reorder).unwrap();
    faults.push(FaultAction::Pass).unwrap();

    assert!(faults.apply(0, vec![1]).unwrap().is_empty());
    let delayed = faults.apply(0, vec![2]).unwrap();
    assert_eq!(delayed.len(), 1);
    assert_eq!(delayed[0].due, 3 * SECOND);
    assert_eq!(delayed[0].bytes, vec![2]);
    assert_eq!(faults.apply(0, vec![3]).unwrap()[0].bytes, [9]);
    assert!(faults.apply(0, vec![4]).unwrap().is_empty());
    let reordered = faults.apply(0, vec![5]).unwrap();
    assert_eq!(reordered[0].bytes, [5]);
    assert_eq!(reordered[1].bytes, [4]);
}

#[test]
fn action_queue_is_bounded() {
    let mut faults = FaultInjector::new(1, 8).unwrap();
    faults.push(FaultAction::Pass).unwrap();
    assert_eq!(
        faults.push(FaultAction::Drop),
        Err(FaultError::ScheduleFull { capacity: 1 })
    );
}

#[test]
fn packet_and_reorder_slot_bounds_fail_explicitly() {
    let mut faults = FaultInjector::new(2, 1).unwrap();
    assert_eq!(
        faults.apply(0, vec![1, 2]).unwrap_err(),
        FaultError::PacketTooLarge { actual: 2, maximum: 1 }
    );
    faults.push(FaultAction::Reorder).unwrap();
    faults.push(FaultAction::Reorder).unwrap();
    assert!(faults.apply(0, vec![1]).unwrap().is_empty());
    assert_eq!(
        faults.apply(0, vec![2]).unwrap_err(),
        FaultError::ReorderSlotFull
    );
    assert_eq!(faults.flush_reordered(7).unwrap().bytes, vec![1]);
    assert!(faults.flush_reordered(7).is_none());
}

#[test]
fn fault_limits_and_times_are_checked() {
    assert!(matches!(FaultInjector::new(0, 8), Err(FaultError::InvalidCapacity)));
    assert!(matches!(FaultInjector::new(8, 0), Err(FaultError::InvalidCapacity)));
    let mut faults = FaultInjector::new(2, 2).unwrap();
    assert_eq!(
        faults.push(FaultAction::Replace(vec![1, 2, 3])),
        Err(FaultError::PacketTooLarge { actual: 3, maximum: 2 })
    );
    faults.push(FaultAction::Delay(1)).unwrap();
    assert_eq!(
        faults.apply(MAX_SPAN, vec![1]).unwrap_err(),
        FaultError::TimeOverflow
    );
    faults.push(FaultAction::Delay(1)).unwrap();
    assert_eq!(faults.apply(MAX_SPAN - 1, vec![1]).unwrap()[0].due, MAX_SPAN);
}

#[test]
fn values_and_exhaustion_are_reproducible() {
    let mut rng = DeterministicRng::new(vec![0x0807_0605_0403_0201], 1).unwrap();
    let mut bytes = [0_u8; 6];
    rng.fill_bytes(&mut bytes).unwrap();
    assert_eq!(bytes, [1, 2, 3, 4, 5, 6]);
    assert_eq!(rng.next_u64(), Err(DeterministicRngError::Exhausted));
}

#[test]
fn input_is_bounded() {
    assert!(matches!(
        DeterministicRng::new(vec![1, 2], 1),
        Err(DeterministicRngError::TooManyValues { .. })
    ));
}

#[test]
fn random_values_are_handed_out_in_order() {
    assert!(matches!(
        DeterministicRng::new(vec![], 0),
        Err(DeterministicRngError::ZeroCapacity)
    ));
    let mut rng = DeterministicRng::new(vec![0x1_0000_0002, 3], 4).unwrap();
    assert_eq!((rng.remaining(), rng.capacity()), (2, 4));
    assert_eq!(rng.next_u32(), Ok(2));
    assert_eq!(rng.next_u64(), Ok(3));
    assert_eq!(rng.remaining(), 0);
    let mut none: [u8; 0] = [];
    assert_eq!(rng.fill_bytes(&mut none), Ok(()));
    let mut some = [7_u8; 1];
    assert_eq!(rng.fill_bytes(&mut some), Err(DeterministicRngError::Exhausted));
}

#[test]
fn request_and_response_wire_format_is_exact() {
    let request = build_discovery_request(0x0102_0304);
    assert_eq!(request.len(), 74);
    assert_eq!(&request[..8], &[0, 1, 0, 70, 1, 2, 3, 4]);
    assert!(request[8..].iter().all(|byte| *byte == 0));

    let response = build_discovery_response(0x0102_0304, "203.0.113.10", 50_000).unwrap();
    assert_eq!(
        parse_discovery_response(&response, 0x0102_0304).unwrap(),
        DiscoveryResponse {
            ssrc: 0x0102_0304,
            address: "203.0.113.10".to_owned(),
            port: 50_000,
        }
    );
}

#[test]
fn every_structural_response_error_is_rejected() {
    let ssrc = 7;
    for (mutation, expected) in [
        (
            DiscoveryResponseMutation::WrongType,
            DiscoveryError::InvalidType { actual: 3 },
        ),
        (
            DiscoveryResponseMutation::WrongLength,
            DiscoveryError::InvalidLength { actual: 69 },
        ),
        (
            DiscoveryResponseMutation::WrongSsrc,
            DiscoveryError::InvalidSsrc { actual: 8, expected: 7 },
        ),
        (
            DiscoveryResponseMutation::MissingAddressTerminator,
            DiscoveryError::MissingAddressTerminator,
        ),
        (
            DiscoveryResponseMutation::ZeroPort,
            DiscoveryError::ZeroPort,
        ),
        (
            DiscoveryResponseMutation::Truncate(20),
            DiscoveryError::InvalidSize { actual: 20 },
        ),
    ] {
        let mut response = build_discovery_response(ssrc, "203.0.113.10", 9).unwrap();
        apply_mutation(&mut response, mutation);
        assert_eq!(parse_discovery_response(&response, ssrc), Err(expected));
    }
}

#[test]
fn mutations_need_only_the_bytes_they_reach() {
    let mut short = vec![9, 9, 9];
    apply_mutation(&mut short, DiscoveryResponseMutation::WrongType);
    assert_eq!(short, [0, 3, 9]);
    apply_mutation(&mut short, DiscoveryResponseMutation::Truncate(1));
    assert_eq!(short, [0]);
    let mut header = vec![0, 2, 0, 70, 0, 0, 0, 255];
    apply_mutation(&mut header, DiscoveryResponseMutation::WrongLength);
    apply_mutation(&mut header, DiscoveryResponseMutation::WrongSsrc);
    assert_eq!(header, [0, 2, 0, 69, 0, 0, 1, 0]);
}

#[test]
fn addresses_and_requests_are_checked() {
    let mut response = build_discovery_response(7, "203.0.113.10", 9).unwrap();
    response[8] = 0xff;
    assert_eq!(
        parse_discovery_response(&response, 7),
        Err(DiscoveryError::InvalidAddressUtf8)
    );
    let named = build_discovery_response(7, "voice.example.test", 9).unwrap();
    assert_eq!(
        parse_discovery_response(&named, 7),
        Err(DiscoveryError::InvalidAddress)
    );
    let long = "1".repeat(64);
    assert_eq!(
        build_discovery_response(7, &long, 9),
        Err(DiscoveryError::InvalidAddress)
    );
    let mut request = build_discovery_request(9).to_vec();
    assert_eq!(parse_discovery_request(&request), Ok(9));
    request[40] = 1;
    assert_eq!(
        parse_discovery_request(&request),
        Err(DiscoveryError::NonzeroRequestReservedFields)
    );
}

#[test]
fn discovery_requests_are_answered_until_room_runs_out() {
    let mut config = FakeUdpServerConfig::localhost();
    config.pending_delivery_capacity = 1;
    let mut peer = UdpPeer::new(config).unwrap();
    assert!(peer.last_peer().is_none());
    assert_eq!(
        peer.check_send(1),
        Err(UdpTestkitError::ClientPeerMissing)
    );
    let request = build_discovery_request(5).to_vec();
    peer.receive(0, "127.0.0.1:9", &request).unwrap();
    assert_eq!(
        peer.receive(0, "127.0.0.1:9", &request),
        Err(UdpTestkitError::PendingDeliveryFull { capacity: 1 })
    );
    assert_eq!(peer.last_peer(), Some("127.0.0.1:9"));
    let delivery = peer.next_due(0).unwrap();
    assert_eq!(delivery.peer, "127.0.0.1:9");
    assert_eq!(delivery.bytes.len(), DISCOVERY_BYTES);
    assert_eq!(
        parse_discovery_response(&delivery.bytes, 5).unwrap().address,
        "203.0.113.10"
    );
    peer.delivered();
    assert_eq!(peer.stats().responses_sent(), 1);
    assert!(peer.next_due(0).is_none());
    assert_eq!(peer.capture().len(), 2);
}

#[test]
fn oversized_and_malformed_datagrams_are_counted() {
    let mut config = FakeUdpServerConfig::localhost();
    config.max_datagram_bytes = 100;
    let mut peer = UdpPeer::new(config).unwrap();
    peer.receive(0, "127.0.0.1:9", &[0; 101]).unwrap();
    peer.receive(0, "127.0.0.1:9", &[0; 74]).unwrap();
    let stats = peer.stats();
    assert_eq!(stats.oversized_dropped(), 1);
    assert_eq!(stats.malformed_discovery_dropped(), 1);
    assert_eq!(peer.capture().len(), 1);

    let mut unusable = FakeUdpServerConfig::localhost();
    unusable.public_port = 0;
    assert_eq!(unusable.validate(), Err(UdpTestkitError::InvalidConfig));
    assert!(matches!(UdpPeer::new(unusable), Err(UdpTestkitError::InvalidConfig)));
}

#[test]
fn captured_media_can_be_read() {
    let mut peer = UdpPeer::new(FakeUdpServerConfig::localhost()).unwrap();
    let mode = TransportMode::Aes256GcmRtpSize;
    let mut encoder = TransportPacketEncoder::new(mode, KEY, 1, 32).unwrap();
    let packet = encoder.encrypt(10, 960, 5, b"frame").unwrap();
    peer.receive(0, "127.0.0.1:9", &packet).unwrap();
    let read = peer.decrypt_captured_transport(0, mode, &KEY, 32).unwrap();
    assert_eq!((read.sequence, read.timestamp, read.ssrc), (10, 960, 5));
    assert_eq!(read.payload, b"frame");
    assert_eq!(
        peer.decrypt_captured_transport(1, mode, &KEY, 32).unwrap_err(),
        UdpTestkitError::CapturedPacketMissing { index: 1 }
    );
    assert_eq!(
        peer.decrypt_captured_transport(0, mode, &[0x12; 32], 32).unwrap_err(),
        UdpTestkitError::TransportCrypto(TransportCryptoError::Aead)
    );
}
