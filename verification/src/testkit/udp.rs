//! The discovery datagrams as a server sees them, and a server that answers them.
use std::collections::VecDeque;
use vstd::prelude::*;
use vstd::string::*;

use crate::address::is_ip_text;
use crate::discovery::{address_bytes, append_zeros, utf8_text, DISCOVERY_BYTES, DISCOVERY_LENGTH};
use crate::discovery::{REQUEST_TYPE, RESPONSE_TYPE};
use crate::rtp::TransportMode;
use crate::testkit::capture::{CaptureError, CaptureState, PacketCapture, PacketRecord, RecordForm};
use crate::testkit::crypto::{decrypt_transport_packet, DecodedTransportPacket, TransportCryptoError};
use crate::testkit::fault::{FaultAction, FaultError, FaultInjector, InjectorState, ScheduledPacket};
use crate::wire::{append_bytes, copy_bytes, read_be16, read_be32, to_be16, to_be32};

verus! {

/// What a discovery response says. The address is the text of an IP address.
#[derive(Debug, PartialEq, Eq)]
pub struct DiscoveryResponse {
    pub ssrc: u32,
    pub address: String,
    pub port: u16,
}

/// A way to spoil a discovery response.
#[derive(Clone, Copy, Debug, PartialEq, Eq, Structural)]
pub enum DiscoveryResponseMutation {
    WrongType,
    WrongLength,
    WrongSsrc,
    MissingAddressTerminator,
    ZeroPort,
    Truncate(usize),
}

/// What is wrong with a discovery datagram.
#[derive(Clone, Copy, Debug, PartialEq, Eq, Structural)]
#[allow(inconsistent_fields)]
pub enum DiscoveryError {
    InvalidSize { actual: usize },
    InvalidType { actual: u16 },
    InvalidLength { actual: u16 },
    InvalidSsrc { actual: u32, expected: u32 },
    MissingAddressTerminator,
    InvalidAddressUtf8,
    InvalidAddress,
    ZeroPort,
    NonzeroRequestReservedFields,
}

/// What is wrong with the fields that requests and responses share.
pub open spec fn common_failure(packet: Seq<u8>, kind: u16, ssrc: u32) -> Option<DiscoveryError> {
    if packet.len() != DISCOVERY_BYTES {
        Some(DiscoveryError::InvalidSize { actual: packet.len() as usize })
    } else if crate::discovery::type_field(packet) != kind {
        Some(DiscoveryError::InvalidType { actual: crate::discovery::type_field(packet) })
    } else if crate::discovery::length_field(packet) != DISCOVERY_LENGTH {
        Some(DiscoveryError::InvalidLength { actual: crate::discovery::length_field(packet) })
    } else if crate::discovery::ssrc_field(packet) != ssrc {
        Some(
            DiscoveryError::InvalidSsrc {
                actual: crate::discovery::ssrc_field(packet),
                expected: ssrc,
            },
        )
    } else {
        None
    }
}

/// Checks the fields that requests and responses share.
pub fn validate_common(packet: &[u8], expected_type: u16, expected_ssrc: u32) -> (checked: Result<
    (),
    DiscoveryError,
>)
    ensures
        match checked {
            Ok(()) => common_failure(packet@, expected_type, expected_ssrc) is None,
            Err(failure) => common_failure(packet@, expected_type, expected_ssrc) == Some(failure),
        },
{
    if packet.len() != DISCOVERY_BYTES {
        return Err(DiscoveryError::InvalidSize { actual: packet.len() });
    }
    let packet_type: u16 = read_be16(packet[0], packet[1]);
    if packet_type != expected_type {
        return Err(DiscoveryError::InvalidType { actual: packet_type });
    }
    let length: u16 = read_be16(packet[2], packet[3]);
    if length != DISCOVERY_LENGTH {
        return Err(DiscoveryError::InvalidLength { actual: length });
    }
    let ssrc: u32 = read_be32(packet[4], packet[5], packet[6], packet[7]);
    if ssrc != expected_ssrc {
        return Err(DiscoveryError::InvalidSsrc { actual: ssrc, expected: expected_ssrc });
    }
    Ok(())
}

/// What is wrong with a response up to its address.
pub open spec fn address_failure(packet: Seq<u8>, ssrc: u32) -> Option<DiscoveryError> {
    match common_failure(packet, RESPONSE_TYPE, ssrc) {
        Some(failure) => Some(failure),
        None => match crate::discovery::address_field(packet) {
            None => Some(DiscoveryError::MissingAddressTerminator),
            Some(bytes) => if !vstd::utf8::valid_utf8(bytes) {
                Some(DiscoveryError::InvalidAddressUtf8)
            } else if !crate::address::ip_text(bytes) {
                Some(DiscoveryError::InvalidAddress)
            } else {
                None
            },
        },
    }
}

/// Reads the address of a response.
fn discovery_address(packet: &[u8], expected_ssrc: u32) -> (address: Result<
    String,
    DiscoveryError,
>)
    ensures
        match address {
            Ok(text) => {
                &&& address_failure(packet@, expected_ssrc) is None
                &&& crate::discovery::address_field(packet@) == Some(
                    vstd::utf8::encode_utf8(text@),
                )
            },
            Err(failure) => address_failure(packet@, expected_ssrc) == Some(failure),
        },
{
    if let Err(failure) = validate_common(packet, RESPONSE_TYPE, expected_ssrc) {
        return Err(failure);
    }
    match address_bytes(packet) {
        Some(bytes) => match utf8_text(bytes.as_slice()) {
            Some(text) => if is_ip_text(bytes.as_slice()) {
                Ok(text)
            } else {
                Err(DiscoveryError::InvalidAddress)
            },
            None => Err(DiscoveryError::InvalidAddressUtf8),
        },
        None => Err(DiscoveryError::MissingAddressTerminator),
    }
}

/// Reads the port of a response, which must not be zero.
fn discovery_port(packet: &[u8]) -> (port: Result<u16, DiscoveryError>)
    requires
        packet@.len() == DISCOVERY_BYTES,
    ensures
        port == (if crate::discovery::port_field(packet@) == 0 {
            Err::<u16, DiscoveryError>(DiscoveryError::ZeroPort)
        } else {
            Ok(crate::discovery::port_field(packet@))
        }),
{
    let port: u16 = read_be16(packet[72], packet[73]);
    if port == 0 {
        Err(DiscoveryError::ZeroPort)
    } else {
        Ok(port)
    }
}

/// Reads a response.
pub fn parse_discovery_response(packet: &[u8], expected_ssrc: u32) -> (response: Result<
    DiscoveryResponse,
    DiscoveryError,
>)
    ensures
        match response {
            Ok(response) => {
                &&& address_failure(packet@, expected_ssrc) is None
                &&& crate::discovery::port_field(packet@) != 0
                &&& response.ssrc == expected_ssrc
                &&& crate::discovery::address_field(packet@) == Some(
                    vstd::utf8::encode_utf8(response.address@),
                )
                &&& response.port == crate::discovery::port_field(packet@)
            },
            Err(failure) => match address_failure(packet@, expected_ssrc) {
                Some(expected) => failure == expected,
                None => {
                    &&& crate::discovery::port_field(packet@) == 0
                    &&& failure == DiscoveryError::ZeroPort
                },
            },
        },
{
    let address = match discovery_address(packet, expected_ssrc) {
        Ok(address) => address,
        Err(failure) => return Err(failure),
    };
    match discovery_port(packet) {
        Ok(port) => Ok(DiscoveryResponse { ssrc: expected_ssrc, address, port }),
        Err(failure) => Err(failure),
    }
}

/// What is wrong with a request.
pub open spec fn request_failure(packet: Seq<u8>) -> Option<DiscoveryError> {
    match common_failure(packet, REQUEST_TYPE, crate::discovery::ssrc_field(packet)) {
        Some(failure) => Some(failure),
        None => if forall|i: int| 8 <= i < packet.len() ==> packet[i] == 0 {
            None
        } else {
            Some(DiscoveryError::NonzeroRequestReservedFields)
        },
    }
}

/// Reads the SSRC of a request, whose remaining fields are zero.
pub fn parse_discovery_request(packet: &[u8]) -> (ssrc: Result<u32, DiscoveryError>)
    ensures
        match ssrc {
            Ok(ssrc) => {
                &&& request_failure(packet@) is None
                &&& ssrc == crate::discovery::ssrc_field(packet@)
            },
            Err(failure) => request_failure(packet@) == Some(failure),
        },
{
    if packet.len() != DISCOVERY_BYTES {
        return Err(DiscoveryError::InvalidSize { actual: packet.len() });
    }
    let ssrc: u32 = read_be32(packet[4], packet[5], packet[6], packet[7]);
    if let Err(failure) = validate_common(packet, REQUEST_TYPE, ssrc) {
        return Err(failure);
    }
    let mut index: usize = 8;
    while index < packet.len()
        invariant
            8 <= index <= packet@.len(),
            forall|i: int| 8 <= i < index ==> packet@[i] == 0,
            common_failure(packet@, REQUEST_TYPE, crate::discovery::ssrc_field(packet@)) is None,
        decreases packet@.len() - index,
    {
        if packet[index] != 0 {
            return Err(DiscoveryError::NonzeroRequestReservedFields);
        }
        index = index + 1;
    }
    Ok(ssrc)
}

/// The response for an SSRC, an address text and a port.
pub open spec fn response_bytes(ssrc: u32, address: Seq<u8>, port: u16) -> Seq<u8> {
    crate::wire::be16(RESPONSE_TYPE) + crate::wire::be16(DISCOVERY_LENGTH) + crate::wire::be32(ssrc)
        + address + crate::discovery::zeros((64 - address.len()) as nat) + crate::wire::be16(port)
}

/// Builds the response for an SSRC, an address text and a port. The text has to leave
/// room for its terminator.
pub fn build_discovery_response(ssrc: u32, address: &str, port: u16) -> (response: Result<
    Vec<u8>,
    DiscoveryError,
>)
    ensures
        match response {
            Ok(response) => {
                &&& vstd::utf8::encode_utf8(address@).len() < 64
                &&& response@ == response_bytes(ssrc, vstd::utf8::encode_utf8(address@), port)
                &&& response@.len() == DISCOVERY_BYTES
            },
            Err(failure) => {
                &&& vstd::utf8::encode_utf8(address@).len() >= 64
                &&& failure == DiscoveryError::InvalidAddress
            },
        },
{
    let text = address.as_bytes();
    if text.len() >= 64 {
        return Err(DiscoveryError::InvalidAddress);
    }
    let mut response: Vec<u8> = Vec::new();
    append_bytes(&mut response, to_be16(RESPONSE_TYPE).as_slice());
    append_bytes(&mut response, to_be16(DISCOVERY_LENGTH).as_slice());
    append_bytes(&mut response, to_be32(ssrc).as_slice());
    append_bytes(&mut response, text);
    append_zeros(&mut response, 64 - text.len());
    append_bytes(&mut response, to_be16(port).as_slice());
    assert(response@ =~= response_bytes(ssrc, text@, port));
    Ok(response)
}

/// A response reads back as what it was built from, here and at the client, and it is
/// refused for its port alone, where that is zero.
pub proof fn responses_read_back(ssrc: u32, address: Seq<u8>, port: u16)
    requires
        crate::address::ip_text(address),
    ensures
        ({
            let packet = response_bytes(ssrc, address, port);
            &&& address_failure(packet, ssrc) is None
            &&& crate::discovery::address_field(packet) == Some(address)
            &&& crate::discovery::port_field(packet) == port
            &&& crate::transport::discovery_answer(packet, ssrc) == (if port == 0 {
                None
            } else {
                Some((address, port))
            })
        }),
{
    let packet = response_bytes(ssrc, address, port);
    crate::address::addresses_are_plain(address);
    let t = crate::wire::be16(RESPONSE_TYPE);
    let l = crate::wire::be16(DISCOVERY_LENGTH);
    let s = crate::wire::be32(ssrc);
    let p = crate::wire::be16(port);
    crate::wire::be16_round_trip(RESPONSE_TYPE);
    crate::wire::be16_round_trip(DISCOVERY_LENGTH);
    crate::wire::be32_round_trip(ssrc);
    crate::wire::be16_round_trip(port);
    let n = address.len() as int;
    assert(packet.len() == DISCOVERY_BYTES);
    assert(packet[0] == t[0] && packet[1] == t[1]);
    assert(packet[2] == l[0] && packet[3] == l[1]);
    assert(packet[4] == s[0] && packet[5] == s[1] && packet[6] == s[2] && packet[7] == s[3]);
    assert(packet[72] == p[0] && packet[73] == p[1]);
    assert(packet[8 + n] == 0);
    assert forall|i: int| 8 <= i < 8 + n implies packet[i] != 0 by {
        assert(packet[i] == address[i - 8]);
    }
    assert(crate::discovery::is_terminator(packet, 8 + n));
    crate::discovery::terminator_is_unique(packet, 8 + n);
    assert(packet.subrange(8, 8 + n) =~= address);
}

/// A response after it was spoiled.
pub open spec fn mutated(response: Seq<u8>, mutation: DiscoveryResponseMutation) -> Seq<u8> {
    match mutation {
        DiscoveryResponseMutation::WrongType => crate::wire::be16(3) + response.skip(2),
        DiscoveryResponseMutation::WrongLength => response.subrange(0, 2) + crate::wire::be16(69)
            + response.skip(4),
        DiscoveryResponseMutation::WrongSsrc => response.subrange(0, 4) + crate::wire::be32(
            crate::discovery::ssrc_field(response).wrapping_add(1),
        ) + response.skip(8),
        DiscoveryResponseMutation::MissingAddressTerminator => response.subrange(0, 8)
            + Seq::new(64, |i: int| 0x78u8) + response.skip(72),
        DiscoveryResponseMutation::ZeroPort => response.subrange(0, 72)
            + crate::discovery::zeros(2) + response.skip(74),
        DiscoveryResponseMutation::Truncate(length) => if length < response.len() {
            response.take(length as int)
        } else {
            response
        },
    }
}

/// How many bytes of a response a mutation reaches into.
pub open spec fn mutation_reach(mutation: DiscoveryResponseMutation) -> nat {
    match mutation {
        DiscoveryResponseMutation::WrongType => 2,
        DiscoveryResponseMutation::WrongLength => 4,
        DiscoveryResponseMutation::WrongSsrc => 8,
        DiscoveryResponseMutation::MissingAddressTerminator => 72,
        DiscoveryResponseMutation::ZeroPort => 74,
        DiscoveryResponseMutation::Truncate(_) => 0,
    }
}

/// Spoils a response.
pub fn apply_mutation(response: &mut Vec<u8>, mutation: DiscoveryResponseMutation)
    requires
        old(response)@.len() >= mutation_reach(mutation),
    ensures
        final(response)@ == mutated(old(response)@, mutation),
{
    match mutation {
        DiscoveryResponseMutation::WrongType => {
            let bytes = to_be16(3);
            response.set(0, bytes[0]);
            response.set(1, bytes[1]);
        },
        DiscoveryResponseMutation::WrongLength => {
            let bytes = to_be16(69);
            response.set(2, bytes[0]);
            response.set(3, bytes[1]);
        },
        DiscoveryResponseMutation::WrongSsrc => {
            let ssrc: u32 = read_be32(response[4], response[5], response[6], response[7]);
            let bytes = to_be32(ssrc.wrapping_add(1));
            response.set(4, bytes[0]);
            response.set(5, bytes[1]);
            response.set(6, bytes[2]);
            response.set(7, bytes[3]);
        },
        DiscoveryResponseMutation::MissingAddressTerminator => {
            let mut index: usize = 8;
            while index < 72
                invariant
                    8 <= index <= 72,
                    old(response)@.len() >= 72,
                    response@ =~= old(response)@.subrange(0, 8) + Seq::new(
                        (index - 8) as nat,
                        |i: int| 0x78u8,
                    ) + old(response)@.skip(index as int),
                decreases 72 - index,
            {
                response.set(index, 0x78);
                index = index + 1;
            }
        },
        DiscoveryResponseMutation::ZeroPort => {
            response.set(72, 0);
            response.set(73, 0);
        },
        DiscoveryResponseMutation::Truncate(length) => {
            if length < response.len() {
                response.truncate(length);
            }
        },
    }
    assert(response@ =~= mutated(old(response)@, mutation));
}

/// The configuration of a server that answers discovery.
#[derive(Debug)]
pub struct FakeUdpServerConfig {
    pub public_address: String,
    pub public_port: u16,
    pub capture_capacity: usize,
    pub max_datagram_bytes: usize,
    pub fault_capacity: usize,
    pub mutation_capacity: usize,
    pub pending_delivery_capacity: usize,
    pub outbound_capacity: usize,
}

/// Why the server refused or failed.
#[derive(Clone, Copy, Debug, PartialEq, Eq, Structural)]
#[allow(inconsistent_fields)]
pub enum UdpTestkitError {
    InvalidConfig,
    Capture(CaptureError),
    Fault(FaultError),
    Discovery(DiscoveryError),
    MutationQueueFull { capacity: usize },
    PendingDeliveryFull { capacity: usize },
    CapturedPacketMissing { index: usize },
    ClientPeerMissing,
    OutboundQueueFull { capacity: usize },
    TransportCrypto(TransportCryptoError),
}

impl FakeUdpServerConfig {
    /// Returns the configuration of a server on the local host.
    pub fn localhost() -> (config: Self)
        ensures
            config.public_address@ == "203.0.113.10"@,
            config.public_port == 50_000,
            config.capture_capacity == 64,
            config.max_datagram_bytes == 2_048,
            config.fault_capacity == 32,
            config.mutation_capacity == 16,
            config.pending_delivery_capacity == 32,
            config.outbound_capacity == 16,
            config.usable(),
    {
        FakeUdpServerConfig {
            public_address: "203.0.113.10".to_owned(),
            public_port: 50_000,
            capture_capacity: 64,
            max_datagram_bytes: 2_048,
            fault_capacity: 32,
            mutation_capacity: 16,
            pending_delivery_capacity: 32,
            outbound_capacity: 16,
        }
    }

    /// Whether a server can run with the configuration.
    pub open spec fn usable(self) -> bool {
        &&& self.public_port != 0
        &&& self.capture_capacity != 0
        &&& 0 < self.max_datagram_bytes <= u16::MAX
        &&& self.fault_capacity != 0
        &&& self.mutation_capacity != 0
        &&& self.pending_delivery_capacity != 0
        &&& self.outbound_capacity != 0
    }

    /// Checks the configuration.
    pub fn validate(&self) -> (checked: Result<(), UdpTestkitError>)
        ensures
            match checked {
                Ok(()) => self.usable(),
                Err(failure) => !self.usable() && failure == UdpTestkitError::InvalidConfig,
            },
    {
        if self.public_port == 0 || self.capture_capacity == 0 || self.max_datagram_bytes == 0
            || self.max_datagram_bytes > u16::MAX as usize || self.fault_capacity == 0
            || self.mutation_capacity == 0 || self.pending_delivery_capacity == 0
            || self.outbound_capacity == 0 {
            Err(UdpTestkitError::InvalidConfig)
        } else {
            Ok(())
        }
    }
}

/// What a server counts.
#[derive(Clone, Copy, Debug, PartialEq, Eq, Structural)]
pub struct FakeUdpStats {
    pub oversized_dropped: usize,
    pub malformed_discovery_dropped: usize,
    pub responses_sent: usize,
}

impl FakeUdpStats {
    /// Returns how many datagrams were too long.
    pub fn oversized_dropped(&self) -> (count: usize)
        ensures
            count == self.oversized_dropped,
    {
        self.oversized_dropped
    }

    /// Returns how many datagrams were no requests.
    pub fn malformed_discovery_dropped(&self) -> (count: usize)
        ensures
            count == self.malformed_discovery_dropped,
    {
        self.malformed_discovery_dropped
    }

    /// Returns how many responses were sent.
    pub fn responses_sent(&self) -> (count: usize)
        ensures
            count == self.responses_sent,
    {
        self.responses_sent
    }
}

/// A datagram that waits for its time.
#[derive(Debug)]
pub struct PendingDelivery {
    pub due: u128,
    pub peer: String,
    pub bytes: Vec<u8>,
}

impl View for PendingDelivery {
    type V = (u128, Seq<char>, Seq<u8>);

    open spec fn view(&self) -> (u128, Seq<char>, Seq<u8>) {
        (self.due, self.peer@, self.bytes@)
    }
}

/// The deliveries of a row.
pub open spec fn deliveries(pending: Seq<PendingDelivery>) -> Seq<(u128, Seq<char>, Seq<u8>)> {
    Seq::new(pending.len(), |i: int| pending[i]@)
}

/// The state of a server that answers discovery.
#[derive(Debug)]
pub struct UdpPeer {
    capture: PacketCapture,
    faults: FaultInjector,
    mutations: VecDeque<DiscoveryResponseMutation>,
    mutation_capacity: usize,
    stats: FakeUdpStats,
    last_peer: Option<String>,
    pending: Vec<PendingDelivery>,
    pending_capacity: usize,
    public_address: String,
    public_port: u16,
    max_datagram_bytes: usize,
}

/// The mathematical form of a [`UdpPeer`].
#[verifier::ext_equal]
pub ghost struct UdpState {
    pub capture: CaptureState,
    pub faults: InjectorState,
    pub mutations: Seq<DiscoveryResponseMutation>,
    pub mutation_capacity: usize,
    pub stats: FakeUdpStats,
    pub last_peer: Option<Seq<char>>,
    pub pending: Seq<(u128, Seq<char>, Seq<u8>)>,
    pub pending_capacity: usize,
    pub public_address: Seq<char>,
    pub public_port: u16,
    pub max_datagram_bytes: usize,
}

/// The text of an optional name.
pub open spec fn peer_text(peer: Option<String>) -> Option<Seq<char>> {
    match peer {
        Some(peer) => Some(peer@),
        None => None,
    }
}

impl View for UdpPeer {
    type V = UdpState;

    closed spec fn view(&self) -> UdpState {
        UdpState {
            capture: self.capture@,
            faults: self.faults@,
            mutations: self.mutations@,
            mutation_capacity: self.mutation_capacity,
            stats: self.stats,
            last_peer: peer_text(self.last_peer),
            pending: deliveries(self.pending@),
            pending_capacity: self.pending_capacity,
            public_address: self.public_address@,
            public_port: self.public_port,
            max_datagram_bytes: self.max_datagram_bytes,
        }
    }
}

/// Deliveries to one peer.
pub open spec fn addressed(packets: Seq<(u128, Seq<u8>)>, peer: Seq<char>) -> Seq<
    (u128, Seq<char>, Seq<u8>),
> {
    Seq::new(packets.len(), |i: int| (packets[i].0, peer, packets[i].1))
}

impl UdpState {
    /// No more deliveries wait than there is room for.
    pub open spec fn bounded(self) -> bool {
        self.pending.len() <= self.pending_capacity
    }

    /// The response to a request, spoiled by the next mutation if there is one.
    pub open spec fn response(self, ssrc: u32) -> Seq<u8> {
        let plain = response_bytes(
            ssrc,
            vstd::utf8::encode_utf8(self.public_address),
            self.public_port,
        );
        if self.mutations.len() == 0 {
            plain
        } else {
            mutated(plain, self.mutations[0])
        }
    }

    /// The server once the next mutation is used up.
    pub open spec fn mutation_used(self) -> UdpState {
        UdpState {
            mutations: if self.mutations.len() == 0 {
                self.mutations
            } else {
                self.mutations.skip(1)
            },
            ..self
        }
    }

    /// The server with more deliveries, as far as there is room.
    pub open spec fn queued(self, more: Seq<(u128, Seq<char>, Seq<u8>)>) -> UdpState {
        let room = self.pending_capacity - self.pending.len();
        UdpState {
            pending: self.pending + (if more.len() <= room {
                more
            } else {
                more.take(room)
            }),
            ..self
        }
    }

    /// What a datagram leads to: it is recorded, and a request is answered.
    pub open spec fn received(self, now: u128, peer: Seq<char>, packet: Seq<u8>) -> (
        UdpState,
        Result<(), UdpTestkitError>,
    ) {
        let known = UdpState { last_peer: Some(peer), ..self };
        if packet.len() > self.max_datagram_bytes {
            (
                UdpState {
                    stats: FakeUdpStats {
                        oversized_dropped: self.stats.oversized_dropped.wrapping_add(1),
                        ..self.stats
                    },
                    ..known
                },
                Ok(()),
            )
        } else if let Some(failure) = self.capture.failure(packet.len()) {
            (known, Err(UdpTestkitError::Capture(failure)))
        } else {
            known.recorded(now, peer, packet).answered(now, peer, packet)
        }
    }

    /// The server with a datagram recorded.
    pub open spec fn recorded(self, now: u128, peer: Seq<char>, packet: Seq<u8>) -> UdpState {
        UdpState {
            capture: CaptureState {
                records: self.capture.records.push(RecordForm { at: now, peer, bytes: packet }),
                ..self.capture
            },
            ..self
        }
    }

    /// What a recorded datagram leads to.
    pub open spec fn answered(self, now: u128, peer: Seq<char>, packet: Seq<u8>) -> (
        UdpState,
        Result<(), UdpTestkitError>,
    ) {
        if request_failure(packet) is Some {
            (
                UdpState {
                    stats: FakeUdpStats {
                        malformed_discovery_dropped:
                            self.stats.malformed_discovery_dropped.wrapping_add(1),
                        ..self.stats
                    },
                    ..self
                },
                Ok(()),
            )
        } else if vstd::utf8::encode_utf8(self.public_address).len() >= 64 {
            (self, Err(UdpTestkitError::Discovery(DiscoveryError::InvalidAddress)))
        } else {
            let response = self.response(crate::discovery::ssrc_field(packet));
            let (faults, scheduled) = self.faults.apply(now, response);
            let faulty = UdpState { faults, ..self.mutation_used() };
            match scheduled {
                Err(failure) => (faulty, Err(UdpTestkitError::Fault(failure))),
                Ok(packets) => {
                    let more = addressed(packets, peer);
                    (
                        faulty.queued(more),
                        if more.len() <= self.pending_capacity - self.pending.len() {
                            Ok(())
                        } else {
                            Err(
                                UdpTestkitError::PendingDeliveryFull {
                                    capacity: self.pending_capacity,
                                },
                            )
                        },
                    )
                },
            }
        }
    }

    /// Whether a delivery is the first one that is due.
    pub open spec fn first_due(self, now: u128, index: int) -> bool {
        &&& 0 <= index < self.pending.len()
        &&& self.pending[index].0 <= now
        &&& forall|i: int| 0 <= i < index ==> (#[trigger] self.pending[i]).0 > now
    }
}

impl UdpPeer {
    /// Creates the server of a configuration.
    pub fn new(config: FakeUdpServerConfig) -> (peer: Result<Self, UdpTestkitError>)
        ensures
            match peer {
                Ok(peer) => {
                    &&& config.usable()
                    &&& peer.well_formed()
                    &&& peer@.capture == (CaptureState {
                        records: Seq::empty(),
                        capacity: config.capture_capacity,
                        max_packet_bytes: config.max_datagram_bytes,
                    })
                    &&& peer@.faults == (InjectorState {
                        actions: Seq::empty(),
                        action_capacity: config.fault_capacity,
                        max_packet_bytes: config.max_datagram_bytes,
                        held: None,
                    })
                    &&& peer@.mutations.len() == 0
                    &&& peer@.mutation_capacity == config.mutation_capacity
                    &&& peer@.stats == (FakeUdpStats {
                        oversized_dropped: 0,
                        malformed_discovery_dropped: 0,
                        responses_sent: 0,
                    })
                    &&& peer@.last_peer is None
                    &&& peer@.pending.len() == 0
                    &&& peer@.pending_capacity == config.pending_delivery_capacity
                    &&& peer@.public_address == config.public_address@
                    &&& peer@.public_port == config.public_port
                    &&& peer@.max_datagram_bytes == config.max_datagram_bytes
                },
                Err(failure) => !config.usable() && failure == UdpTestkitError::InvalidConfig,
            },
    {
        if let Err(failure) = config.validate() {
            return Err(failure);
        }
        let capture = match PacketCapture::new(config.capture_capacity, config.max_datagram_bytes) {
            Ok(capture) => capture,
            Err(failure) => return Err(UdpTestkitError::Capture(failure)),
        };
        let faults = match FaultInjector::new(config.fault_capacity, config.max_datagram_bytes) {
            Ok(faults) => faults,
            Err(failure) => return Err(UdpTestkitError::Fault(failure)),
        };
        Ok(
            UdpPeer {
                capture,
                faults,
                mutations: VecDeque::new(),
                mutation_capacity: config.mutation_capacity,
                stats: FakeUdpStats {
                    oversized_dropped: 0,
                    malformed_discovery_dropped: 0,
                    responses_sent: 0,
                },
                last_peer: None,
                pending: Vec::new(),
                pending_capacity: config.pending_delivery_capacity,
                public_address: config.public_address,
                public_port: config.public_port,
                max_datagram_bytes: config.max_datagram_bytes,
            },
        )
    }

    /// No more deliveries wait than there is room for.
    pub open spec fn well_formed(self) -> bool {
        self@.bounded()
    }

    /// Returns the recorded datagrams.
    pub fn capture(&self) -> (capture: &PacketCapture)
        ensures
            capture@ == self@.capture,
    {
        &self.capture
    }

    /// Returns what the server counted.
    pub fn stats(&self) -> (stats: FakeUdpStats)
        ensures
            stats == self@.stats,
    {
        self.stats
    }

    /// Queues a fault for a response.
    pub fn push_fault(&mut self, action: FaultAction) -> (pushed: Result<(), FaultError>)
        requires
            old(self).well_formed(),
        ensures
            final(self).well_formed(),
            match pushed {
                Ok(()) => {
                    &&& old(self)@.faults.push_failure(action.form()) is None
                    &&& final(self)@ == (UdpState {
                        faults: InjectorState {
                            actions: old(self)@.faults.actions.push(action.form()),
                            ..old(self)@.faults
                        },
                        ..old(self)@
                    })
                },
                Err(failure) => {
                    &&& old(self)@.faults.push_failure(action.form()) == Some(failure)
                    &&& final(self)@ == old(self)@
                },
            },
    {
        self.faults.push(action)
    }

    /// Queues a mutation of a response.
    pub fn push_discovery_mutation(&mut self, mutation: DiscoveryResponseMutation) -> (pushed: Result<
        (),
        UdpTestkitError,
    >)
        requires
            old(self).well_formed(),
        ensures
            final(self).well_formed(),
            if old(self)@.mutations.len() == old(self)@.mutation_capacity {
                &&& pushed == Err::<(), UdpTestkitError>(
                    UdpTestkitError::MutationQueueFull { capacity: old(self)@.mutation_capacity },
                )
                &&& final(self)@ == old(self)@
            } else {
                &&& pushed is Ok
                &&& final(self)@ == (UdpState {
                    mutations: old(self)@.mutations.push(mutation),
                    ..old(self)@
                })
            },
    {
        if self.mutations.len() == self.mutation_capacity {
            return Err(UdpTestkitError::MutationQueueFull { capacity: self.mutation_capacity });
        }
        self.mutations.push_back(mutation);
        Ok(())
    }

    /// Reads a recorded datagram as a media packet.
    pub fn decrypt_captured_transport(
        &self,
        index: usize,
        mode: TransportMode,
        key: &[u8; 32],
        max_payload_bytes: usize,
    ) -> (packet: Result<DecodedTransportPacket, UdpTestkitError>)
        ensures
            if index >= self@.capture.records.len() {
                packet == Err::<DecodedTransportPacket, UdpTestkitError>(
                    UdpTestkitError::CapturedPacketMissing { index },
                )
            } else {
                let bytes = self@.capture.records[index as int].bytes;
                match packet {
                    Ok(contents) => crate::testkit::crypto::decoded(
                        mode,
                        key@,
                        bytes,
                        max_payload_bytes,
                        Ok(contents),
                    ),
                    Err(UdpTestkitError::TransportCrypto(failure)) => {
                        crate::testkit::crypto::decoded(
                            mode,
                            key@,
                            bytes,
                            max_payload_bytes,
                            Err(failure),
                        )
                    },
                    Err(_) => false,
                }
            },
    {
        match self.capture.packet(index) {
            Some(bytes) => match decrypt_transport_packet(
                mode,
                key,
                bytes.as_slice(),
                max_payload_bytes,
            ) {
                Ok(packet) => Ok(packet),
                Err(failure) => Err(UdpTestkitError::TransportCrypto(failure)),
            },
            None => Err(UdpTestkitError::CapturedPacketMissing { index }),
        }
    }

    /// Checks whether a datagram of some length can be sent to the client, which has to
    /// be known.
    pub fn check_send(&self, length: usize) -> (checked: Result<(), UdpTestkitError>)
        ensures
            checked == (if length > self@.capture.max_packet_bytes {
                Err::<(), UdpTestkitError>(
                    UdpTestkitError::Capture(
                        CaptureError::PacketTooLarge {
                            actual: length,
                            maximum: self@.capture.max_packet_bytes,
                        },
                    ),
                )
            } else if self@.last_peer is None {
                Err(UdpTestkitError::ClientPeerMissing)
            } else {
                Ok(())
            }),
    {
        if length > self.capture.max_packet_bytes() {
            return Err(
                UdpTestkitError::Capture(
                    CaptureError::PacketTooLarge {
                        actual: length,
                        maximum: self.capture.max_packet_bytes(),
                    },
                ),
            );
        }
        if self.last_peer.is_none() {
            return Err(UdpTestkitError::ClientPeerMissing);
        }
        Ok(())
    }

    /// Returns the client, if it is known.
    pub fn last_peer(&self) -> (peer: Option<&str>)
        ensures
            match peer {
                Some(peer) => self@.last_peer == Some(peer@),
                None => self@.last_peer is None,
            },
    {
        match &self.last_peer {
            Some(peer) => Some(peer.as_str()),
            None => None,
        }
    }

    /// Takes a datagram: it is recorded, and a request is answered.
    pub fn receive(&mut self, now: u128, peer: &str, packet: &[u8]) -> (result: Result<
        (),
        UdpTestkitError,
    >)
        requires
            old(self).well_formed(),
        ensures
            final(self).well_formed(),
            (final(self)@, result) == old(self)@.received(now, peer@, packet@),
    {
        self.last_peer = Some(peer.to_owned());
        if packet.len() > self.max_datagram_bytes {
            self.stats.oversized_dropped = self.stats.oversized_dropped.wrapping_add(1);
            return Ok(());
        }
        let record = PacketRecord { at: now, peer: peer.to_owned(), bytes: copy_bytes(packet) };
        if let Err(failure) = self.capture.record(record) {
            return Err(UdpTestkitError::Capture(failure));
        }
        self.answer(now, peer, packet)
    }

    fn answer(&mut self, now: u128, peer: &str, packet: &[u8]) -> (result: Result<
        (),
        UdpTestkitError,
    >)
        requires
            old(self).well_formed(),
        ensures
            final(self).well_formed(),
            (final(self)@, result) == old(self)@.answered(now, peer@, packet@),
    {
        let ssrc: u32 = match parse_discovery_request(packet) {
            Ok(ssrc) => ssrc,
            Err(_) => {
                self.stats.malformed_discovery_dropped =
                self.stats.malformed_discovery_dropped.wrapping_add(1);
                return Ok(());
            },
        };
        let mut response = match build_discovery_response(
            ssrc,
            self.public_address.as_str(),
            self.public_port,
        ) {
            Ok(response) => response,
            Err(failure) => return Err(UdpTestkitError::Discovery(failure)),
        };
        if let Some(mutation) = self.mutations.pop_front() {
            apply_mutation(&mut response, mutation);
        }
        assert(self@ =~= old(self)@.mutation_used());
        assert(response@ == old(self)@.response(ssrc));
        match self.faults.apply(now, response) {
            Ok(packets) => self.schedule(peer, packets),
            Err(failure) => Err(UdpTestkitError::Fault(failure)),
        }
    }

    fn schedule(&mut self, peer: &str, packets: Vec<ScheduledPacket>) -> (result: Result<
        (),
        UdpTestkitError,
    >)
        requires
            old(self).well_formed(),
        ensures
            final(self).well_formed(),
            ({
                let more = addressed(crate::testkit::fault::schedule(packets@), peer@);
                &&& final(self)@ == old(self)@.queued(more)
                &&& result == (if more.len() <= old(self)@.pending_capacity
                    - old(self)@.pending.len() {
                    Ok::<(), UdpTestkitError>(())
                } else {
                    Err(
                        UdpTestkitError::PendingDeliveryFull {
                            capacity: old(self)@.pending_capacity,
                        },
                    )
                })
            }),
    {
        let ghost more = addressed(crate::testkit::fault::schedule(packets@), peer@);
        let ghost all = packets@;
        for packet in it: packets
            invariant
                it.seq() == all,
                more == addressed(crate::testkit::fault::schedule(all), peer@),
                more.len() == all.len(),
                it.index() <= old(self)@.pending_capacity - old(self)@.pending.len(),
                self@ =~= (UdpState {
                    pending: old(self)@.pending + more.take(it.index() as int),
                    ..old(self)@
                }),
        {
            if self.pending.len() == self.pending_capacity {
                assert(self@ =~= old(self)@.queued(more));
                return Err(UdpTestkitError::PendingDeliveryFull { capacity: self.pending_capacity });
            }
            let ghost count = it.index() as int;
            assert(packet == all[count]);
            assert(more[count] == (packet.due, peer@, packet.bytes@));
            let ghost before = self@.pending;
            self.pending.push(
                PendingDelivery { due: packet.due, peer: peer.to_owned(), bytes: packet.bytes },
            );
            assert(self@.pending =~= before.push(more[count]));
            assert(more.take(count + 1) =~= more.take(count).push(more[count]));
        }
        assert(more.take(more.len() as int) =~= more);
        assert(self@ =~= old(self)@.queued(more));
        Ok(())
    }

    /// Takes the first delivery that is due.
    pub fn next_due(&mut self, now: u128) -> (delivery: Option<PendingDelivery>)
        requires
            old(self).well_formed(),
        ensures
            final(self).well_formed(),
            match delivery {
                Some(delivery) => exists|index: int|
                    {
                        &&& #[trigger] old(self)@.first_due(now, index)
                        &&& delivery@ == old(self)@.pending[index]
                        &&& final(self)@ == (UdpState {
                            pending: old(self)@.pending.remove(index),
                            ..old(self)@
                        })
                    },
                None => {
                    &&& final(self)@ == old(self)@
                    &&& forall|i: int|
                        0 <= i < old(self)@.pending.len() ==> (#[trigger] old(self)@.pending[i]).0
                            > now
                },
            },
    {
        let mut index: usize = 0;
        while index < self.pending.len()
            invariant
                index <= self.pending@.len(),
                *self == *old(self),
                old(self).well_formed(),
                forall|i: int| 0 <= i < index ==> (#[trigger] self@.pending[i]).0 > now,
            decreases self.pending@.len() - index,
        {
            if self.pending[index].due <= now {
                assert(old(self)@.first_due(now, index as int));
                let delivery = self.pending.remove(index);
                assert(self@.pending =~= old(self)@.pending.remove(index as int));
                return Some(delivery);
            }
            index = index + 1;
        }
        None
    }

    /// Counts a delivery that was sent.
    pub fn delivered(&mut self)
        requires
            old(self).well_formed(),
        ensures
            final(self).well_formed(),
            final(self)@ == (UdpState {
                stats: FakeUdpStats {
                    responses_sent: old(self)@.stats.responses_sent.wrapping_add(1),
                    ..old(self)@.stats
                },
                ..old(self)@
            }),
    {
        self.stats.responses_sent = self.stats.responses_sent.wrapping_add(1);
    }
}

/// A request that a client builds is read as one, for the stream that it asks for.
pub proof fn requests_of_clients_are_read(ssrc: u32)
    ensures
        request_failure(crate::discovery::request_bytes(ssrc)) is None,
        crate::discovery::ssrc_field(crate::discovery::request_bytes(ssrc)) == ssrc,
{
    crate::discovery::request_is_discovery(ssrc);
    assert(crate::discovery::request_bytes(ssrc).len() == DISCOVERY_BYTES);
}

/// A datagram is a request where it has 74 bytes, the type 1, the length 70 and zeros
/// behind its stream. What is told is the first thing wrong.
pub proof fn requests_are_told_by_their_fields(packet: Seq<u8>)
    requires
        packet.len() <= usize::MAX,
    ensures
        request_failure(packet) is None <==> {
            &&& packet.len() == 74
            &&& packet[0] == 0 && packet[1] == 1
            &&& packet[2] == 0 && packet[3] == 70
            &&& forall|i: int| 8 <= i < 74 ==> packet[i] == 0
        },
        packet.len() != 74 ==> (request_failure(packet) matches Some(
            DiscoveryError::InvalidSize { actual },
        ) && actual == packet.len()),
        packet.len() == 74 && !(packet[0] == 0 && packet[1] == 1) ==> (request_failure(
            packet,
        ) matches Some(DiscoveryError::InvalidType { actual }) && actual == packet[0] * 0x100
            + packet[1]),
        packet.len() == 74 && packet[0] == 0 && packet[1] == 1 && !(packet[2] == 0 && packet[3]
            == 70) ==> (request_failure(packet) matches Some(
            DiscoveryError::InvalidLength { actual },
        ) && actual == packet[2] * 0x100 + packet[3]),
{
}

/// A response with a spoiled type is refused for its type.
pub proof fn spoiled_types_are_refused(ssrc: u32, address: Seq<u8>, port: u16)
    requires
        crate::address::ip_text(address),
    ensures
        address_failure(
            mutated(response_bytes(ssrc, address, port), DiscoveryResponseMutation::WrongType),
            ssrc,
        ) == Some(DiscoveryError::InvalidType { actual: 3 }),
{
    let packet = response_bytes(ssrc, address, port);
    crate::address::addresses_are_plain(address);
    assert(packet.len() == 74);
    let bytes = crate::wire::be16(3);
    crate::wire::be16_round_trip(3);
    let spoiled = mutated(packet, DiscoveryResponseMutation::WrongType);
    assert(spoiled[0] == bytes[0] && spoiled[1] == bytes[1]);
}

/// A response with a spoiled length is refused for its length.
pub proof fn spoiled_lengths_are_refused(ssrc: u32, address: Seq<u8>, port: u16)
    requires
        crate::address::ip_text(address),
    ensures
        address_failure(
            mutated(response_bytes(ssrc, address, port), DiscoveryResponseMutation::WrongLength),
            ssrc,
        ) == Some(DiscoveryError::InvalidLength { actual: 69 }),
{
    let packet = response_bytes(ssrc, address, port);
    responses_read_back(ssrc, address, port);
    crate::address::addresses_are_plain(address);
    assert(packet.len() == 74);
    let bytes = crate::wire::be16(69);
    crate::wire::be16_round_trip(69);
    let spoiled = mutated(packet, DiscoveryResponseMutation::WrongLength);
    assert(spoiled[0] == packet[0] && spoiled[1] == packet[1]);
    assert(spoiled[2] == bytes[0] && spoiled[3] == bytes[1]);
}

/// A response with a spoiled stream is refused for its stream, which is the next one.
pub proof fn spoiled_streams_are_refused(ssrc: u32, address: Seq<u8>, port: u16)
    requires
        crate::address::ip_text(address),
    ensures
        address_failure(
            mutated(response_bytes(ssrc, address, port), DiscoveryResponseMutation::WrongSsrc),
            ssrc,
        ) matches Some(DiscoveryError::InvalidSsrc { actual, expected }) && expected == ssrc
            && actual == if ssrc == u32::MAX {
            0
        } else {
            ssrc + 1
        },
{
    let packet = response_bytes(ssrc, address, port);
    responses_read_back(ssrc, address, port);
    crate::address::addresses_are_plain(address);
    assert(packet.len() == 74);
    let bytes = crate::wire::be32(ssrc.wrapping_add(1));
    crate::wire::be32_round_trip(ssrc.wrapping_add(1));
    let spoiled = mutated(packet, DiscoveryResponseMutation::WrongSsrc);
    assert(spoiled[0] == packet[0] && spoiled[1] == packet[1]);
    assert(spoiled[2] == packet[2] && spoiled[3] == packet[3]);
    assert(spoiled[4] == bytes[0] && spoiled[5] == bytes[1]);
    assert(spoiled[6] == bytes[2] && spoiled[7] == bytes[3]);
}

/// A response whose address does not end keeps what is in front of the address.
proof fn unterminated(packet: Seq<u8>)
    requires
        packet.len() == 74,
    ensures
        ({
            let spoiled = mutated(packet, DiscoveryResponseMutation::MissingAddressTerminator);
            &&& spoiled.len() == 74
            &&& forall|i: int| 0 <= i < 8 ==> spoiled[i] == packet[i]
            &&& crate::discovery::address_field(spoiled) is None
        }),
{
    let spoiled = mutated(packet, DiscoveryResponseMutation::MissingAddressTerminator);
    assert forall|end: int| !crate::discovery::is_terminator(spoiled, end) by {
        if 8 <= end < 72 {
            assert(spoiled[end] == 0x78);
        }
    }
}

/// A response whose address does not end is refused for that.
pub proof fn endless_addresses_are_refused(ssrc: u32, address: Seq<u8>, port: u16)
    requires
        crate::address::ip_text(address),
    ensures
        address_failure(
            mutated(
                response_bytes(ssrc, address, port),
                DiscoveryResponseMutation::MissingAddressTerminator,
            ),
            ssrc,
        ) == Some(DiscoveryError::MissingAddressTerminator),
{
    let packet = response_bytes(ssrc, address, port);
    responses_read_back(ssrc, address, port);
    assert(common_failure(packet, RESPONSE_TYPE, ssrc) is None);
    assert(packet.len() == 74);
    unterminated(packet);
    let spoiled = mutated(packet, DiscoveryResponseMutation::MissingAddressTerminator);
    assert(spoiled[0] == packet[0] && spoiled[1] == packet[1]);
    assert(spoiled[2] == packet[2] && spoiled[3] == packet[3]);
    assert(spoiled[4] == packet[4] && spoiled[5] == packet[5]);
    assert(spoiled[6] == packet[6] && spoiled[7] == packet[7]);
}

/// A datagram that is cut short is refused for its size.
pub proof fn short_responses_are_refused(packet: Seq<u8>, length: usize, ssrc: u32)
    requires
        packet.len() == 74,
        length < 74,
    ensures
        address_failure(mutated(packet, DiscoveryResponseMutation::Truncate(length)), ssrc) == Some(
            DiscoveryError::InvalidSize { actual: length },
        ),
{
}

/// A response with a spoiled port keeps its other fields, and its port is zero.
pub proof fn spoiled_ports_are_zero(ssrc: u32, address: Seq<u8>, port: u16)
    requires
        crate::address::ip_text(address),
    ensures
        mutated(response_bytes(ssrc, address, port), DiscoveryResponseMutation::ZeroPort)
            == response_bytes(ssrc, address, 0),
{
    let packet = response_bytes(ssrc, address, port);
    crate::address::addresses_are_plain(address);
    let plain = response_bytes(ssrc, address, 0);
    let zero = crate::wire::be16(0);
    assert(packet.len() == 74 && plain.len() == 74);
    assert(plain[72] == zero[0] && plain[73] == zero[1]);
    assert(packet.subrange(0, 72) =~= plain.subrange(0, 72));
    let spoiled = mutated(packet, DiscoveryResponseMutation::ZeroPort);
    assert forall|i: int| 0 <= i < 74 implies spoiled[i] == plain[i] by {
        if i < 72 {
            assert(spoiled[i] == packet.subrange(0, 72)[i]);
            assert(plain[i] == plain.subrange(0, 72)[i]);
        }
    }
    assert(spoiled =~= plain);
}

/// A client that asks a server without faults is answered at once: the datagram is
/// recorded, and the one delivery more is, for the client, a response for its stream with
/// the public address and port of the server.
pub proof fn clients_are_answered(
    state: UdpState,
    now: u128,
    peer: Seq<char>,
    ssrc: u32,
)
    requires
        crate::address::ip_text(vstd::utf8::encode_utf8(state.public_address)),
        state.public_port != 0,
        74 <= state.max_datagram_bytes,
        74 <= state.capture.max_packet_bytes,
        74 <= state.faults.max_packet_bytes,
        state.capture.records.len() < state.capture.capacity,
        state.pending.len() < state.pending_capacity,
        state.mutations.len() == 0,
        state.faults.actions.len() == 0,
        state.faults.held is None,
    ensures
        ({
            let request = crate::discovery::request_bytes(ssrc);
            let (after, result) = state.received(now, peer, request);
            &&& result is Ok
            &&& after.last_peer == Some(peer)
            &&& after.capture.records == state.capture.records.push(
                RecordForm { at: now, peer, bytes: request },
            )
            &&& after.pending.len() == state.pending.len() + 1
            &&& forall|i: int| 0 <= i < state.pending.len() ==> after.pending[i] == state.pending[i]
            &&& after.pending.last().0 == now
            &&& after.pending.last().1 == peer
            &&& crate::transport::discovery_answer(after.pending.last().2, ssrc) == Some(
                (vstd::utf8::encode_utf8(state.public_address), state.public_port),
            )
            &&& after.stats == state.stats
        }),
{
    let address = vstd::utf8::encode_utf8(state.public_address);
    let request = crate::discovery::request_bytes(ssrc);
    requests_of_clients_are_read(ssrc);
    responses_read_back(ssrc, address, state.public_port);
    crate::address::addresses_are_plain(address);
    crate::discovery::request_is_discovery(ssrc);
    let response = response_bytes(ssrc, address, state.public_port);
    assert(response.len() == 74);
    let (faults, scheduled) = state.faults.apply(now, response);
    crate::testkit::fault::unplanned_packets_pass(state.faults, now, response);
    let more = addressed(seq![(now, response)], peer);
    assert(more =~= seq![(now, peer, response)]);
    let (after, result) = state.received(now, peer, request);
    assert(after.pending =~= state.pending.push((now, peer, response)));
}

/// A datagram that is no request is recorded and counted, and answered with nothing; one
/// beyond the bound is counted apart and not even recorded. Either way the sender is known
/// from then on.
pub proof fn strangers_are_counted(state: UdpState, now: u128, peer: Seq<char>, packet: Seq<u8>)
    requires
        state.stats.oversized_dropped < usize::MAX,
        state.stats.malformed_discovery_dropped < usize::MAX,
    ensures
        ({
            let (after, result) = state.received(now, peer, packet);
            &&& after.last_peer == Some(peer)
            &&& packet.len() > state.max_datagram_bytes ==> {
                &&& result is Ok
                &&& after.stats.oversized_dropped == state.stats.oversized_dropped + 1
                &&& after.stats.malformed_discovery_dropped
                    == state.stats.malformed_discovery_dropped
                &&& after.stats.responses_sent == state.stats.responses_sent
                &&& after.capture == state.capture
                &&& after.pending == state.pending
            }
            &&& packet.len() <= state.max_datagram_bytes && packet.len()
                <= state.capture.max_packet_bytes && state.capture.records.len()
                < state.capture.capacity && request_failure(packet) is Some ==> {
                &&& result is Ok
                &&& after.stats.malformed_discovery_dropped
                    == state.stats.malformed_discovery_dropped + 1
                &&& after.stats.oversized_dropped == state.stats.oversized_dropped
                &&& after.stats.responses_sent == state.stats.responses_sent
                &&& after.capture.records == state.capture.records.push(
                    RecordForm { at: now, peer, bytes: packet },
                )
                &&& after.pending == state.pending
                &&& after.mutations == state.mutations
                &&& after.faults == state.faults
            }
            &&& packet.len() <= state.max_datagram_bytes && packet.len()
                <= state.capture.max_packet_bytes && state.capture.records.len()
                == state.capture.capacity ==> {
                &&& result == Err::<(), UdpTestkitError>(
                    UdpTestkitError::Capture(
                        CaptureError::Full { capacity: state.capture.capacity },
                    ),
                )
                &&& after.pending == state.pending
                &&& after.capture == state.capture
            }
        }),
{
}

/// Each answer uses the first mutation that waits, and no other.
pub proof fn mutations_are_used_in_order(
    state: UdpState,
    first: DiscoveryResponseMutation,
    others: Seq<DiscoveryResponseMutation>,
    ssrc: u32,
)
    requires
        state.mutations == seq![first] + others,
    ensures
        state.response(ssrc) == mutated(
            response_bytes(ssrc, vstd::utf8::encode_utf8(state.public_address), state.public_port),
            first,
        ),
        state.mutation_used().mutations == others,
{
    assert(state.mutations[0] == first);
    assert(state.mutations.skip(1) =~= others);
}

} // verus!
