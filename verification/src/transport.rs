//! Media transport: mode selection, address discovery and packet encryption.
use vstd::prelude::*;

use crate::address::is_ip_text;
use crate::discovery::{
    address_bytes, discovery_header_matches, read_port, utf8_text, RESPONSE_TYPE,
};
use crate::rtp::{assemble, build_header, seal_payload, TransportMode, RTP_OVERHEAD_BYTES};
use crate::text::same_text;
use crate::wire::{read_be16, read_be32};

verus! {

/// Audio frames advance the RTP clock by this many samples.
pub const RTP_TIMESTAMP_STEP: u32 = 960;

impl TransportMode {
    /// The name of the mode on the wire.
    pub open spec fn wire_name(self) -> Seq<char> {
        match self {
            TransportMode::Aes256GcmRtpSize => "aead_aes256_gcm_rtpsize"@,
            TransportMode::XChaCha20Poly1305RtpSize => "aead_xchacha20_poly1305_rtpsize"@,
        }
    }

    /// Returns the name of the mode on the wire.
    pub fn name(self) -> (name: &'static str)
        ensures
            name@ == self.wire_name(),
    {
        match self {
            TransportMode::Aes256GcmRtpSize => "aead_aes256_gcm_rtpsize",
            TransportMode::XChaCha20Poly1305RtpSize => "aead_xchacha20_poly1305_rtpsize",
        }
    }

    /// Returns the mode with this name, if it is supported.
    pub fn parse(value: &str) -> (mode: Option<Self>)
        ensures
            match mode {
                Some(found) => value@ == found.wire_name(),
                None => forall|other: TransportMode| value@ != #[trigger] other.wire_name(),
            },
    {
        if same_text(value, "aead_aes256_gcm_rtpsize") {
            Some(TransportMode::Aes256GcmRtpSize)
        } else if same_text(value, "aead_xchacha20_poly1305_rtpsize") {
            Some(TransportMode::XChaCha20Poly1305RtpSize)
        } else {
            None
        }
    }
}

/// The names of the modes differ, so a name stands for one mode.
pub proof fn mode_names_are_distinct(left: TransportMode, right: TransportMode)
    ensures
        left.wire_name() == right.wire_name() ==> left == right,
{
    reveal_strlit("aead_aes256_gcm_rtpsize");
    reveal_strlit("aead_xchacha20_poly1305_rtpsize");
    assert("aead_aes256_gcm_rtpsize"@.len() == 23);
    assert("aead_xchacha20_poly1305_rtpsize"@.len() == 31);
}

/// Whether a mode is among the offered names.
pub open spec fn offers(modes: Seq<String>, mode: TransportMode) -> bool {
    exists|i: int| 0 <= i < modes.len() && (#[trigger] modes[i])@ == mode.wire_name()
}

fn is_offered(modes: &[String], mode: TransportMode) -> (offered: bool)
    ensures
        offered == offers(modes@, mode),
{
    let name = mode.name();
    let mut index: usize = 0;
    while index < modes.len()
        invariant
            index <= modes@.len(),
            name@ == mode.wire_name(),
            forall|i: int| 0 <= i < index ==> (#[trigger] modes@[i])@ != mode.wire_name(),
        decreases modes@.len() - index,
    {
        if same_text(modes[index].as_str(), name) {
            return true;
        }
        index = index + 1;
    }
    false
}

/// Picks the transport mode. The preference is local policy, not the order in which
/// the gateway advertises its modes: AES comes first.
pub fn select_mode(modes: &[String]) -> (selected: Option<TransportMode>)
    ensures
        selected == (if offers(modes@, TransportMode::Aes256GcmRtpSize) {
            Some(TransportMode::Aes256GcmRtpSize)
        } else if offers(modes@, TransportMode::XChaCha20Poly1305RtpSize) {
            Some(TransportMode::XChaCha20Poly1305RtpSize)
        } else {
            None
        }),
{
    if is_offered(modes, TransportMode::Aes256GcmRtpSize) {
        Some(TransportMode::Aes256GcmRtpSize)
    } else if is_offered(modes, TransportMode::XChaCha20Poly1305RtpSize) {
        Some(TransportMode::XChaCha20Poly1305RtpSize)
    } else {
        None
    }
}

/// A public address as the discovery server reported it.
///
/// The address is the text of an IP address; whoever opens a socket reads it.
#[derive(Debug, PartialEq, Eq)]
pub struct DiscoveredAddress {
    pub address: String,
    pub port: u16,
}

/// The address text and the port of a datagram, if it is a discovery response for an
/// SSRC, its text names an IP address and its port is not zero.
pub open spec fn discovery_answer(packet: Seq<u8>, ssrc: u32) -> Option<(Seq<u8>, u16)> {
    if crate::discovery::is_discovery(packet, RESPONSE_TYPE, ssrc) {
        match crate::discovery::address_field(packet) {
            Some(address) => if crate::address::ip_text(address) && crate::discovery::port_field(
                packet,
            ) != 0 {
                Some((address, crate::discovery::port_field(packet)))
            } else {
                None
            },
            None => None,
        }
    } else {
        None
    }
}

/// Reads a discovery response that answers `expected_ssrc`.
pub fn parse_discovery_response(packet: &[u8], expected_ssrc: u32) -> (found: Option<
    DiscoveredAddress,
>)
    ensures
        match found {
            Some(public) => discovery_answer(packet@, expected_ssrc) == Some(
                (vstd::utf8::encode_utf8(public.address@), public.port),
            ),
            None => discovery_answer(packet@, expected_ssrc) is None,
        },
{
    if !discovery_header_matches(packet, RESPONSE_TYPE, expected_ssrc) {
        return None;
    }
    let bytes = match address_bytes(packet) {
        Some(bytes) => bytes,
        None => return None,
    };
    let address = match utf8_text(bytes.as_slice()) {
        Some(address) => address,
        None => {
            proof {
                if crate::address::ip_text(bytes@) {
                    crate::address::addresses_are_plain(bytes@);
                }
            }
            return None;
        },
    };
    if !is_ip_text(bytes.as_slice()) {
        return None;
    }
    let port: u16 = read_port(packet);
    if port == 0 {
        None
    } else {
        Some(DiscoveredAddress { address, port })
    }
}

/// What happens to discovery after one more datagram, timeout or I/O failure.
#[derive(Debug)]
pub enum DiscoveryStep {
    /// Receive again before the deadline of the current attempt.
    KeepReceiving,
    /// Send the request again; the count of attempts made goes up by one.
    SendAgain,
    /// The public address was found.
    Found(DiscoveredAddress),
    /// Every attempt timed out.
    TimedOut,
}

/// How many requests discovery sends.
pub const DISCOVERY_ATTEMPTS: usize = 3;

/// Decides on a received datagram: one longer than the limit, or one that does not
/// answer the request, is ignored.
pub fn discovery_received(
    buffer: &[u8],
    length: usize,
    max_datagram_bytes: usize,
    ssrc: u32,
) -> (step: DiscoveryStep)
    requires
        length <= buffer@.len(),
    ensures
        match step {
            DiscoveryStep::Found(public) => {
                &&& length <= max_datagram_bytes
                &&& discovery_answer(buffer@.subrange(0, length as int), ssrc) == Some(
                    (vstd::utf8::encode_utf8(public.address@), public.port),
                )
            },
            DiscoveryStep::KeepReceiving => {
                ||| length > max_datagram_bytes
                ||| discovery_answer(buffer@.subrange(0, length as int), ssrc) is None
            },
            _ => false,
        },
{
    if length > max_datagram_bytes {
        return DiscoveryStep::KeepReceiving;
    }
    match parse_discovery_response(&buffer[0..length], ssrc) {
        Some(public) => DiscoveryStep::Found(public),
        None => DiscoveryStep::KeepReceiving,
    }
}

/// Decides on an attempt whose deadline passed, `attempts` requests having been sent.
pub fn discovery_timed_out(attempts: usize) -> (step: DiscoveryStep)
    ensures
        attempts < DISCOVERY_ATTEMPTS ==> step is SendAgain,
        attempts >= DISCOVERY_ATTEMPTS ==> step is TimedOut,
{
    if attempts < DISCOVERY_ATTEMPTS {
        DiscoveryStep::SendAgain
    } else {
        DiscoveryStep::TimedOut
    }
}

/// The IP type-of-service byte for an audio DSCP value, if the value is one.
pub fn audio_type_of_service(dscp: u8) -> (tos: Option<u8>)
    ensures
        tos == (if dscp <= 63 {
            Some((dscp * 4) as u8)
        } else {
            None::<u8>
        }),
{
    if dscp > 63 {
        None
    } else {
        Some(dscp * 4)
    }
}

/// Why a packet was not encrypted.
#[derive(Clone, Copy, Debug, PartialEq, Eq, Structural)]
pub enum TransportCryptoFailure {
    InvalidBounds,
    Randomness,
    NonceExhausted,
    Encryption,
}

/// Encrypts the media packets of one transport key.
pub struct TransportEncoder {
    mode: TransportMode,
    key: [u8; 32],
    ssrc: u32,
    sequence: u16,
    timestamp: u32,
    next_nonce: Option<u32>,
    max_payload_bytes: usize,
    max_datagram_bytes: usize,
}

/// The state of a [`TransportEncoder`].
pub ghost struct EncoderState {
    pub mode: TransportMode,
    pub key: Seq<u8>,
    pub ssrc: u32,
    pub sequence: u16,
    pub timestamp: u32,
    pub next_nonce: Option<u32>,
    pub max_payload_bytes: usize,
    pub max_datagram_bytes: usize,
}

/// The nonce that follows: none after the largest, so no nonce comes twice.
pub open spec fn following_nonce(nonce: u32) -> Option<u32> {
    if nonce == u32::MAX {
        None
    } else {
        Some((nonce + 1) as u32)
    }
}

/// Addition that wraps at 65536, as RTP sequence numbers do.
pub open spec fn following_sequence(sequence: u16) -> u16 {
    if sequence == u16::MAX {
        0
    } else {
        (sequence + 1) as u16
    }
}

/// One frame later on the RTP clock, which wraps at 2^32.
pub open spec fn following_timestamp(timestamp: u32) -> u32 {
    if timestamp + RTP_TIMESTAMP_STEP > u32::MAX {
        (timestamp + RTP_TIMESTAMP_STEP - 0x1_0000_0000) as u32
    } else {
        (timestamp + RTP_TIMESTAMP_STEP) as u32
    }
}

/// Whether an encoder can be made with these limits.
pub open spec fn encoder_bounds(max_payload_bytes: usize, max_datagram_bytes: usize) -> bool {
    &&& max_payload_bytes > 0
    &&& max_payload_bytes + RTP_OVERHEAD_BYTES <= max_datagram_bytes
}

impl EncoderState {
    /// The state after an attempt used up the current nonce.
    pub open spec fn nonce_used(self) -> EncoderState {
        match self.next_nonce {
            Some(nonce) => EncoderState { next_nonce: following_nonce(nonce), ..self },
            None => self,
        }
    }

    /// The state after a packet was made.
    pub open spec fn packet_made(self) -> EncoderState {
        EncoderState {
            sequence: following_sequence(self.sequence),
            timestamp: following_timestamp(self.timestamp),
            ..self.nonce_used()
        }
    }

    /// The fields of the packet that the state would make of a payload.
    pub open spec fn next_fields(self, payload: Seq<u8>) -> crate::rtp::PacketFields {
        crate::rtp::PacketFields {
            sequence: self.sequence,
            timestamp: self.timestamp,
            ssrc: self.ssrc,
            nonce: self.next_nonce->0,
            payload,
        }
    }
}

impl View for TransportEncoder {
    type V = EncoderState;

    closed spec fn view(&self) -> EncoderState {
        EncoderState {
            mode: self.mode,
            key: self.key@,
            ssrc: self.ssrc,
            sequence: self.sequence,
            timestamp: self.timestamp,
            next_nonce: self.next_nonce,
            max_payload_bytes: self.max_payload_bytes,
            max_datagram_bytes: self.max_datagram_bytes,
        }
    }
}

/// Fills a buffer from the operating system with `getrandom::fill`.
///
/// Nothing is claimed of the bytes; `None` stands for the error of the crate.
#[verifier::external_body]
fn random_starts() -> (random: Option<[u8; 10]>) {
    let mut random = [0u8; 10];
    getrandom::fill(&mut random).ok()?;
    Some(random)
}

/// The sequence number, timestamp and nonce that ten random bytes stand for, each
/// read least significant byte first.
pub fn starts_from_random(random: &[u8; 10]) -> (starts: (u16, u32, u32))
    ensures
        starts.0 == crate::wire::be16_value(random@[1], random@[0]),
        starts.1 == crate::wire::be32_value(random@[5], random@[4], random@[3], random@[2]),
        starts.2 == crate::wire::be32_value(random@[9], random@[8], random@[7], random@[6]),
{
    (
        read_be16(random[1], random[0]),
        read_be32(random[5], random[4], random[3], random[2]),
        read_be32(random[9], random[8], random[7], random[6]),
    )
}

impl TransportEncoder {
    /// Whether the limits admit at least a one-byte payload in every packet.
    #[verifier::type_invariant]
    spec fn well_formed(self) -> bool {
        encoder_bounds(self.max_payload_bytes, self.max_datagram_bytes)
    }

    /// Creates an encoder that starts at random points.
    pub fn new(
        mode: TransportMode,
        key: &[u8; 32],
        ssrc: u32,
        max_payload_bytes: usize,
        max_datagram_bytes: usize,
    ) -> (encoder: Result<Self, TransportCryptoFailure>)
        ensures
            match encoder {
                Ok(encoder) => {
                    &&& encoder_bounds(max_payload_bytes, max_datagram_bytes)
                    &&& encoder@.next_nonce is Some
                    &&& encoder@ == (EncoderState {
                        mode,
                        key: key@,
                        ssrc,
                        max_payload_bytes,
                        max_datagram_bytes,
                        ..encoder@
                    })
                },
                Err(TransportCryptoFailure::InvalidBounds) => !encoder_bounds(
                    max_payload_bytes,
                    max_datagram_bytes,
                ),
                Err(TransportCryptoFailure::Randomness) => true,
                Err(_) => false,
            },
    {
        match random_starts() {
            Some(random) => {
                let (sequence, timestamp, nonce) = starts_from_random(&random);
                TransportEncoder::new_with_starts(
                    mode,
                    key,
                    ssrc,
                    max_payload_bytes,
                    max_datagram_bytes,
                    sequence,
                    timestamp,
                    nonce,
                )
            },
            None => Err(TransportCryptoFailure::Randomness),
        }
    }

    /// Creates an encoder that starts at the given points.
    pub fn new_with_starts(
        mode: TransportMode,
        key: &[u8; 32],
        ssrc: u32,
        max_payload_bytes: usize,
        max_datagram_bytes: usize,
        sequence: u16,
        timestamp: u32,
        nonce: u32,
    ) -> (encoder: Result<Self, TransportCryptoFailure>)
        ensures
            match encoder {
                Ok(encoder) => {
                    &&& encoder_bounds(max_payload_bytes, max_datagram_bytes)
                    &&& encoder@ == (EncoderState {
                        mode,
                        key: key@,
                        ssrc,
                        sequence,
                        timestamp,
                        next_nonce: Some(nonce),
                        max_payload_bytes,
                        max_datagram_bytes,
                    })
                },
                Err(failure) => {
                    &&& failure == TransportCryptoFailure::InvalidBounds
                    &&& !encoder_bounds(max_payload_bytes, max_datagram_bytes)
                },
            },
    {
        let fits = match max_payload_bytes.checked_add(RTP_OVERHEAD_BYTES) {
            Some(packet_bytes) => packet_bytes <= max_datagram_bytes,
            None => false,
        };
        if max_payload_bytes == 0 || !fits {
            return Err(TransportCryptoFailure::InvalidBounds);
        }
        Ok(
            TransportEncoder {
                mode,
                key: *key,
                ssrc,
                sequence,
                timestamp,
                next_nonce: Some(nonce),
                max_payload_bytes,
                max_datagram_bytes,
            },
        )
    }

    /// Returns the encryption mode.
    pub fn mode(&self) -> (mode: TransportMode)
        ensures
            mode == self@.mode,
    {
        self.mode
    }

    /// Encrypts one frame into `packet`.
    ///
    /// The nonce is used up before the cipher runs, so a failed attempt never
    /// retries with the same nonce under this key. `packet` is replaced only on
    /// success, and only then do the sequence number and the timestamp advance.
    pub fn encrypt_next(&mut self, opus: &[u8], packet: &mut Vec<u8>) -> (result: Result<
        (),
        TransportCryptoFailure,
    >)
        ensures
            match result {
                Ok(()) => {
                    let fields = old(self)@.next_fields(opus@);
                    &&& opus@.len() <= old(self)@.max_payload_bytes
                    &&& old(self)@.next_nonce is Some
                    &&& final(self)@ == old(self)@.packet_made()
                    &&& final(packet)@ == crate::rtp::rtp_packet(
                        old(self)@.mode,
                        old(self)@.key,
                        fields,
                    )
                    &&& final(packet)@.len() == opus@.len() + RTP_OVERHEAD_BYTES
                    &&& final(packet)@.len() <= old(self)@.max_datagram_bytes
                    &&& crate::rtp::packet_payload(
                        old(self)@.mode,
                        old(self)@.key,
                        final(packet)@,
                    ) == Some(opus@)
                    &&& crate::rtp::packet_fields(final(packet)@, opus@) == fields
                },
                Err(failure) => {
                    &&& final(packet)@ == old(packet)@
                    &&& match failure {
                        TransportCryptoFailure::InvalidBounds => {
                            &&& opus@.len() > old(self)@.max_payload_bytes
                            &&& final(self)@ == old(self)@
                        },
                        TransportCryptoFailure::NonceExhausted => {
                            &&& opus@.len() <= old(self)@.max_payload_bytes
                            &&& old(self)@.next_nonce is None
                            &&& final(self)@ == old(self)@
                        },
                        TransportCryptoFailure::Encryption => {
                            &&& opus@.len() <= old(self)@.max_payload_bytes
                            &&& old(self)@.next_nonce is Some
                            &&& !crate::rtp::sealable(old(self)@.mode, opus@.len())
                            &&& final(self)@ == old(self)@.nonce_used()
                        },
                        TransportCryptoFailure::Randomness => false,
                    }
                },
            },
            result is Ok <==> {
                &&& opus@.len() <= old(self)@.max_payload_bytes
                &&& old(self)@.next_nonce is Some
                &&& crate::rtp::sealable(old(self)@.mode, opus@.len())
            },
    {
        proof {
            use_type_invariant(&*self);
        }
        if opus.len() > self.max_payload_bytes {
            return Err(TransportCryptoFailure::InvalidBounds);
        }
        let nonce: u32 = match self.next_nonce {
            Some(nonce) => nonce,
            None => return Err(TransportCryptoFailure::NonceExhausted),
        };
        self.next_nonce = nonce.checked_add(1);
        let header = build_header(self.sequence, self.timestamp, self.ssrc);
        let sealed = match seal_payload(self.mode, &self.key, nonce, &header, opus) {
            Some(sealed) => sealed,
            None => return Err(TransportCryptoFailure::Encryption),
        };
        assemble(&header, sealed.as_slice(), nonce, packet);
        proof {
            crate::rtp::packet_layout_round_trip(header@, sealed@, nonce);
            crate::rtp::packet_fields_round_trip(
                self.sequence,
                self.timestamp,
                self.ssrc,
                nonce,
                sealed@,
                opus@,
            );
        }
        self.sequence = self.sequence.wrapping_add(1);
        self.timestamp = self.timestamp.wrapping_add(RTP_TIMESTAMP_STEP);
        Ok(())
    }
}

/// The nonce of an encoder's attempt number `count`, counted from the first one,
/// which uses `start`.
pub open spec fn nonce_of_attempt(start: u32, count: nat) -> Option<u32>
    decreases count,
{
    if count == 0 {
        Some(start)
    } else {
        match nonce_of_attempt(start, (count - 1) as nat) {
            Some(nonce) => following_nonce(nonce),
            None => None,
        }
    }
}

proof fn nonce_of_attempt_is_start_plus_count(start: u32, count: nat)
    ensures
        nonce_of_attempt(start, count) == (if start + count <= u32::MAX {
            Some((start + count) as u32)
        } else {
            None::<u32>
        }),
    decreases count,
{
    if count > 0 {
        nonce_of_attempt_is_start_plus_count(start, (count - 1) as nat);
    }
}

/// Under one key no nonce is used twice, however many packets are attempted: two
/// different attempts have different nonces, and once the largest nonce is used no
/// attempt has one.
pub proof fn nonces_never_repeat(start: u32, first: nat, second: nat)
    requires
        first < second,
    ensures
        nonce_of_attempt(start, second) is Some ==> {
            &&& nonce_of_attempt(start, first) is Some
            &&& nonce_of_attempt(start, first) != nonce_of_attempt(start, second)
        },
        nonce_of_attempt(start, first) == Some(u32::MAX) ==> nonce_of_attempt(start, second)
            is None,
{
    nonce_of_attempt_is_start_plus_count(start, first);
    nonce_of_attempt_is_start_plus_count(start, second);
}

/// Whatever an attempt to encrypt does, the nonce that it met is gone afterwards:
/// both ways out of [`TransportEncoder::encrypt_next`] that reach the cipher move on
/// to the following nonce.
pub proof fn every_attempt_moves_the_nonce_on(state: EncoderState, start: u32, count: nat)
    requires
        state.next_nonce == nonce_of_attempt(start, count),
        state.next_nonce is Some,
    ensures
        state.nonce_used().next_nonce == nonce_of_attempt(start, count + 1),
        state.packet_made().next_nonce == nonce_of_attempt(start, count + 1),
        state.nonce_used().next_nonce != state.next_nonce,
{
    assert(nonce_of_attempt(start, count + 1) == following_nonce(state.next_nonce->0)) by {
        reveal_with_fuel(nonce_of_attempt, 2);
    }
}

/// A datagram of 74 bytes that says it is a response for a stream, with the text of an IP
/// address that ends before its port and a port other than zero, answers a discovery with
/// exactly that text and port. Any other length, type, length field or stream, an address
/// without an end and port zero answer nothing.
pub proof fn responses_are_read_as_laid_out(packet: Seq<u8>, ssrc: u32, end: int)
    requires
        packet.len() == 74,
        8 <= end < 72,
        packet[end] == 0,
        forall|i: int| 8 <= i < end ==> packet[i] != 0,
        crate::address::ip_text(packet.subrange(8, end)),
    ensures
        ({
            let port = packet[72] * 256 + packet[73];
            let stream = packet[4] * 0x100_0000 + packet[5] * 0x1_0000 + packet[6] * 0x100
                + packet[7];
            &&& packet[0] == 0 && packet[1] == 2 && packet[2] == 0 && packet[3] == 70 && stream
                == ssrc && port != 0 ==> discovery_answer(packet, ssrc) == Some(
                (packet.subrange(8, end), port as u16),
            )
            &&& packet[0] != 0 || packet[1] != 2 || packet[2] != 0 || packet[3] != 70 || stream
                != ssrc || port == 0 ==> discovery_answer(packet, ssrc) is None
            &&& discovery_answer(packet.push(0), ssrc) is None
            &&& discovery_answer(packet.drop_last(), ssrc) is None
        }),
{
    crate::discovery::terminator_is_unique(packet, end);
}

/// An answer to a discovery names an IP address and a port other than zero.
pub proof fn answers_name_an_address(packet: Seq<u8>, ssrc: u32)
    ensures
        discovery_answer(packet, ssrc) matches Some((address, port)) ==> {
            &&& crate::address::ip_text(address)
            &&& port != 0
            &&& packet.len() == 74
        },
{
}

impl EncoderState {
    /// The state after a number of packets was made.
    pub open spec fn packets_made(self, count: nat) -> EncoderState
        decreases count,
    {
        if count == 0 {
            self
        } else {
            self.packets_made((count - 1) as nat).packet_made()
        }
    }
}

/// Each packet of a stream is one further in its sequence and one frame of 960 samples
/// further on its clock, both of which wrap, and uses the following nonce. The stream, the
/// key and the bounds stay.
pub proof fn streams_advance_packet_by_packet(state: EncoderState, count: nat)
    ensures
        ({
            let after = state.packets_made(count);
            &&& after.sequence as int == (state.sequence + count) % 65_536
            &&& after.timestamp as int == (state.timestamp + 960 * count) % 0x1_0000_0000
            &&& state.next_nonce is Some && state.next_nonce->0 + count <= u32::MAX
                ==> after.next_nonce == Some((state.next_nonce->0 + count) as u32)
            &&& state.next_nonce is Some && state.next_nonce->0 + count > u32::MAX
                ==> after.next_nonce is None
            &&& after.mode == state.mode
            &&& after.key == state.key
            &&& after.ssrc == state.ssrc
            &&& after.max_payload_bytes == state.max_payload_bytes
            &&& after.max_datagram_bytes == state.max_datagram_bytes
        }),
    decreases count,
{
    if count > 0 {
        streams_advance_packet_by_packet(state, (count - 1) as nat);
        let before = state.packets_made((count - 1) as nat);
        let sequence = state.sequence + count - 1;
        let timestamp = state.timestamp + 960 * (count - 1);
        assert((sequence % 65_536 + 1) % 65_536 == (sequence + 1) % 65_536) by (nonlinear_arith);
        assert((timestamp % 0x1_0000_0000 + 960) % 0x1_0000_0000 == (timestamp + 960)
            % 0x1_0000_0000) by (nonlinear_arith);
        assert(960 * count == 960 * (count - 1) + 960) by (nonlinear_arith);
    }
}

/// An attempt that made no packet uses its nonce up and leaves the sequence number and the
/// clock where they are, so the next packet shows no gap.
pub proof fn failed_attempts_leave_no_gap(state: EncoderState)
    ensures
        state.nonce_used().sequence == state.sequence,
        state.nonce_used().timestamp == state.timestamp,
        state.nonce_used().ssrc == state.ssrc,
        state.nonce_used().key == state.key,
        state.next_nonce is Some && state.next_nonce->0 < u32::MAX ==> state.nonce_used().next_nonce
            == Some((state.next_nonce->0 + 1) as u32),
        state.next_nonce == Some(u32::MAX) ==> state.nonce_used().next_nonce is None,
        state.next_nonce is None ==> state.nonce_used() == state,
{
}

/// A packet is made of the current sequence number, clock, stream and nonce, and of the
/// payload as it is.
pub proof fn packets_are_made_of_the_state(state: EncoderState, payload: Seq<u8>, nonce: u32)
    requires
        state.next_nonce == Some(nonce),
    ensures
        state.next_fields(payload).payload == payload,
        state.next_fields(payload).sequence == state.sequence,
        state.next_fields(payload).timestamp == state.timestamp,
        state.next_fields(payload).ssrc == state.ssrc,
        state.next_fields(payload).nonce == nonce,
{
}

/// An encoder is made exactly where a payload of its bound, of one byte at least, fits into
/// its datagram with the 32 bytes that a packet adds.
pub proof fn encoders_have_room_for_their_payload(payload: usize, datagram: usize)
    ensures
        encoder_bounds(payload, datagram) ==> 1 <= payload && payload + 32 <= datagram,
        1 <= payload && payload + 32 <= datagram ==> encoder_bounds(payload, datagram),
{
}

/// A mode is named by its cipher: a name that says AES stands for the AES mode and one that
/// says XChaCha20 for the other, and each mode is offered exactly where its name is.
pub proof fn modes_are_named_by_their_cipher(modes: Seq<String>, name: String)
    ensures
        TransportMode::Aes256GcmRtpSize.wire_name() == "aead_aes256_gcm_rtpsize"@,
        TransportMode::XChaCha20Poly1305RtpSize.wire_name() == "aead_xchacha20_poly1305_rtpsize"@,
        name@ == "aead_aes256_gcm_rtpsize"@ ==> offers(
            modes.push(name),
            TransportMode::Aes256GcmRtpSize,
        ),
        name@ == "aead_xchacha20_poly1305_rtpsize"@ ==> offers(
            modes.push(name),
            TransportMode::XChaCha20Poly1305RtpSize,
        ),
        forall|mode: TransportMode|
            name@ != #[trigger] mode.wire_name() ==> offers(modes.push(name), mode) == offers(
                modes,
                mode,
            ),
        forall|mode: TransportMode| !#[trigger] offers(Seq::empty(), mode),
{
    let more = modes.push(name);
    assert(more[modes.len() as int] == name);
    assert forall|mode: TransportMode| name@ != #[trigger] mode.wire_name() implies offers(
        more,
        mode,
    ) == offers(modes, mode) by {
        if offers(modes, mode) {
            let i = choose|i: int|
                0 <= i < modes.len() && (#[trigger] modes[i])@ == mode.wire_name();
            assert(more[i] == modes[i]);
        }
        if offers(more, mode) {
            let i = choose|i: int| 0 <= i < more.len() && (#[trigger] more[i])@ == mode.wire_name();
            assert(modes[i] == more[i]);
        }
    }
}

/// Discovery gives up behind its third request.
pub proof fn discovery_asks_three_times(attempts: usize)
    ensures
        attempts < DISCOVERY_ATTEMPTS <==> attempts < 3,
{
}

} // verus!
