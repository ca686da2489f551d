//! An encoder and a decoder of media packets, for tests of a client.
use vstd::prelude::*;

use crate::rtp::{assemble, build_header, open_payload, read_nonce, seal_payload, TransportMode};
use crate::rtp::{NONCE_SUFFIX_BYTES, RTP_HEADER_BYTES, RTP_OVERHEAD_BYTES};
use crate::wire::{read_be16, read_be32};

verus! {

/// The contents of a media packet.
#[derive(Debug, PartialEq, Eq)]
pub struct DecodedTransportPacket {
    pub sequence: u16,
    pub timestamp: u32,
    pub ssrc: u32,
    pub nonce: u32,
    pub payload: Vec<u8>,
}

impl View for DecodedTransportPacket {
    type V = crate::rtp::PacketFields;

    open spec fn view(&self) -> crate::rtp::PacketFields {
        crate::rtp::PacketFields {
            sequence: self.sequence,
            timestamp: self.timestamp,
            ssrc: self.ssrc,
            nonce: self.nonce,
            payload: self.payload@,
        }
    }
}

/// Encrypts payloads into packets, each under a nonce of its own.
pub struct TransportPacketEncoder {
    mode: TransportMode,
    key: [u8; 32],
    next_nonce: Option<u32>,
    max_payload_bytes: usize,
}

/// The mathematical form of a [`TransportPacketEncoder`].
pub ghost struct PacketEncoderState {
    pub mode: TransportMode,
    pub key: Seq<u8>,
    /// The nonce of the next packet; `None` once all are used up.
    pub next_nonce: Option<u32>,
    pub max_payload_bytes: usize,
}

impl View for TransportPacketEncoder {
    type V = PacketEncoderState;

    closed spec fn view(&self) -> PacketEncoderState {
        PacketEncoderState {
            mode: self.mode,
            key: self.key@,
            next_nonce: self.next_nonce,
            max_payload_bytes: self.max_payload_bytes,
        }
    }
}

/// Why a packet could not be made or read.
#[derive(Clone, Copy, Debug, PartialEq, Eq, Structural)]
#[allow(inconsistent_fields)]
pub enum TransportCryptoError {
    /// The bound on payloads is zero.
    InvalidMaximum,
    /// The payload is longer than the bound.
    PayloadTooLarge { actual: usize, maximum: usize },
    /// The packet is shorter than an empty one.
    PacketTooShort { actual: usize },
    /// The first byte is not the fixed one.
    InvalidRtpFlags { actual: u8 },
    /// The second byte is not the fixed one.
    InvalidPayloadType { actual: u8 },
    /// No nonce is left under this key.
    NonceExhausted,
    /// The cipher refused.
    Aead,
}

impl TransportMode {
    /// Returns the name of the mode in the protocol.
    pub fn discord_name(self) -> (name: &'static str)
        ensures
            name@ == self.wire_name(),
    {
        self.name()
    }
}

impl PacketEncoderState {
    /// Why a payload of this length is refused.
    pub open spec fn failure(self, length: nat) -> Option<TransportCryptoError> {
        if length > self.max_payload_bytes {
            Some(
                TransportCryptoError::PayloadTooLarge {
                    actual: length as usize,
                    maximum: self.max_payload_bytes,
                },
            )
        } else if self.next_nonce is None {
            Some(TransportCryptoError::NonceExhausted)
        } else if !crate::rtp::sealable(self.mode, length) {
            Some(TransportCryptoError::Aead)
        } else {
            None
        }
    }
}

impl TransportPacketEncoder {
    /// Creates an encoder that starts at a nonce.
    pub fn new(
        mode: TransportMode,
        key: [u8; 32],
        starting_nonce: u32,
        max_payload_bytes: usize,
    ) -> (encoder: Result<Self, TransportCryptoError>)
        ensures
            match encoder {
                Ok(encoder) => {
                    &&& max_payload_bytes > 0
                    &&& encoder@ == (PacketEncoderState {
                        mode,
                        key: key@,
                        next_nonce: Some(starting_nonce),
                        max_payload_bytes,
                    })
                },
                Err(failure) => {
                    &&& max_payload_bytes == 0
                    &&& failure == TransportCryptoError::InvalidMaximum
                },
            },
    {
        if max_payload_bytes == 0 {
            return Err(TransportCryptoError::InvalidMaximum);
        }
        Ok(
            TransportPacketEncoder {
                mode,
                key,
                next_nonce: Some(starting_nonce),
                max_payload_bytes,
            },
        )
    }

    /// Encrypts a payload into a packet. A nonce is used up by a packet only.
    pub fn encrypt(&mut self, sequence: u16, timestamp: u32, ssrc: u32, payload: &[u8]) -> (packet:
        Result<Vec<u8>, TransportCryptoError>)
        ensures
            match packet {
                Ok(packet) => {
                    let fields = crate::rtp::PacketFields {
                        sequence,
                        timestamp,
                        ssrc,
                        nonce: old(self)@.next_nonce->0,
                        payload: payload@,
                    };
                    &&& old(self)@.failure(payload@.len()) is None
                    &&& packet@ == crate::rtp::rtp_packet(old(self)@.mode, old(self)@.key, fields)
                    &&& packet@.len() == payload@.len() + RTP_OVERHEAD_BYTES
                    &&& packet@[0] == 0x80
                    &&& packet@[1] == 0x78
                    &&& crate::rtp::packet_payload(old(self)@.mode, old(self)@.key, packet@)
                        == Some(payload@)
                    &&& crate::rtp::packet_fields(packet@, payload@) == fields
                    &&& final(self)@ == (PacketEncoderState {
                        next_nonce: crate::transport::following_nonce(old(self)@.next_nonce->0),
                        ..old(self)@
                    })
                },
                Err(failure) => {
                    &&& old(self)@.failure(payload@.len()) == Some(failure)
                    &&& final(self)@ == old(self)@
                },
            },
    {
        if payload.len() > self.max_payload_bytes {
            return Err(
                TransportCryptoError::PayloadTooLarge {
                    actual: payload.len(),
                    maximum: self.max_payload_bytes,
                },
            );
        }
        let nonce: u32 = match self.next_nonce {
            Some(nonce) => nonce,
            None => return Err(TransportCryptoError::NonceExhausted),
        };
        let header = build_header(sequence, timestamp, ssrc);
        let sealed = match seal_payload(self.mode, &self.key, nonce, &header, payload) {
            Some(sealed) => sealed,
            None => return Err(TransportCryptoError::Aead),
        };
        let mut packet: Vec<u8> = Vec::new();
        assemble(&header, sealed.as_slice(), nonce, &mut packet);
        proof {
            crate::rtp::packet_layout_round_trip(header@, sealed@, nonce);
            crate::rtp::packet_fields_round_trip(
                sequence,
                timestamp,
                ssrc,
                nonce,
                sealed@,
                payload@,
            );
        }
        self.next_nonce = nonce.checked_add(1);
        Ok(packet)
    }
}

/// What is wrong with a packet before its payload is opened.
pub open spec fn packet_failure(packet: Seq<u8>, max_payload_bytes: usize) -> Option<
    TransportCryptoError,
> {
    if max_payload_bytes == 0 {
        Some(TransportCryptoError::InvalidMaximum)
    } else if packet.len() < RTP_OVERHEAD_BYTES {
        Some(TransportCryptoError::PacketTooShort { actual: packet.len() as usize })
    } else if packet[0] != 0x80 {
        Some(TransportCryptoError::InvalidRtpFlags { actual: packet[0] })
    } else if packet[1] != 0x78 {
        Some(TransportCryptoError::InvalidPayloadType { actual: packet[1] })
    } else {
        None
    }
}

/// Whether a result is what a packet reads as.
pub open spec fn decoded(
    mode: TransportMode,
    key: Seq<u8>,
    packet: Seq<u8>,
    max_payload_bytes: usize,
    result: Result<DecodedTransportPacket, TransportCryptoError>,
) -> bool {
    match packet_failure(packet, max_payload_bytes) {
        Some(failure) => result == Err::<DecodedTransportPacket, TransportCryptoError>(failure),
        None => match crate::rtp::packet_payload(mode, key, packet) {
            None => result == Err::<DecodedTransportPacket, TransportCryptoError>(
                TransportCryptoError::Aead,
            ),
            Some(payload) => {
                &&& payload.len() + RTP_OVERHEAD_BYTES == packet.len()
                &&& if payload.len() > max_payload_bytes {
                    result == Err::<DecodedTransportPacket, TransportCryptoError>(
                        TransportCryptoError::PayloadTooLarge {
                            actual: payload.len() as usize,
                            maximum: max_payload_bytes,
                        },
                    )
                } else {
                    result matches Ok(contents) && contents@ == crate::rtp::packet_fields(
                        packet,
                        payload,
                    )
                }
            },
        },
    }
}

/// Reads a packet: its header, its nonce, and its payload, which has to be authentic.
pub fn decrypt_transport_packet(
    mode: TransportMode,
    key: &[u8; 32],
    packet: &[u8],
    max_payload_bytes: usize,
) -> (result: Result<DecodedTransportPacket, TransportCryptoError>)
    ensures
        decoded(mode, key@, packet@, max_payload_bytes, result),
{
    if max_payload_bytes == 0 {
        return Err(TransportCryptoError::InvalidMaximum);
    }
    if packet.len() < RTP_OVERHEAD_BYTES {
        return Err(TransportCryptoError::PacketTooShort { actual: packet.len() });
    }
    if packet[0] != 0x80 {
        return Err(TransportCryptoError::InvalidRtpFlags { actual: packet[0] });
    }
    if packet[1] != 0x78 {
        return Err(TransportCryptoError::InvalidPayloadType { actual: packet[1] });
    }
    let suffix_start: usize = packet.len() - NONCE_SUFFIX_BYTES;
    let nonce: u32 = read_nonce(packet);
    let payload = match open_payload(
        mode,
        key,
        nonce,
        &packet[0..RTP_HEADER_BYTES],
        &packet[RTP_HEADER_BYTES..suffix_start],
    ) {
        Some(payload) => payload,
        None => return Err(TransportCryptoError::Aead),
    };
    if payload.len() > max_payload_bytes {
        return Err(
            TransportCryptoError::PayloadTooLarge {
                actual: payload.len(),
                maximum: max_payload_bytes,
            },
        );
    }
    Ok(
        DecodedTransportPacket {
            sequence: read_be16(packet[2], packet[3]),
            timestamp: read_be32(packet[4], packet[5], packet[6], packet[7]),
            ssrc: read_be32(packet[8], packet[9], packet[10], packet[11]),
            nonce,
            payload,
        },
    )
}

/// What the encoder makes the decoder reads back, under the same key and mode.
pub proof fn packets_read_back(
    state: PacketEncoderState,
    fields: crate::rtp::PacketFields,
    packet: Seq<u8>,
    result: Result<DecodedTransportPacket, TransportCryptoError>,
)
    requires
        state.max_payload_bytes > 0,
        fields.payload.len() <= state.max_payload_bytes,
        packet.len() == fields.payload.len() + RTP_OVERHEAD_BYTES,
        packet[0] == 0x80,
        packet[1] == 0x78,
        crate::rtp::packet_payload(state.mode, state.key, packet) == Some(fields.payload),
        crate::rtp::packet_fields(packet, fields.payload) == fields,
        decoded(state.mode, state.key, packet, state.max_payload_bytes, result),
    ensures
        result is Ok,
        result->Ok_0@ == fields,
{
}

/// A payload is encrypted where it is within the bound, a nonce is left and the cipher
/// takes it. The bound is told first, and the nonce before the cipher.
pub proof fn payloads_are_encrypted_within_their_bounds(state: PacketEncoderState, length: nat)
    requires
        length <= usize::MAX,
    ensures
        state.failure(length) is None <==> {
            &&& length <= state.max_payload_bytes
            &&& state.next_nonce is Some
            &&& crate::rtp::sealable(state.mode, length)
        },
        length > state.max_payload_bytes ==> (state.failure(length) matches Some(
            TransportCryptoError::PayloadTooLarge { actual, maximum },
        ) && actual == length && maximum == state.max_payload_bytes),
        length <= state.max_payload_bytes && state.next_nonce is None ==> state.failure(length)
            == Some(TransportCryptoError::NonceExhausted),
        length <= state.max_payload_bytes && state.next_nonce is Some && !crate::rtp::sealable(
            state.mode,
            length,
        ) ==> state.failure(length) == Some(TransportCryptoError::Aead),
{
}

/// A packet is opened only where it has room for a header, a tag and a nonce, 32 bytes in
/// all, and begins with the two fixed bytes. What is told is the first thing wrong.
pub proof fn packets_are_opened_behind_their_header(packet: Seq<u8>, maximum: usize)
    requires
        packet.len() <= usize::MAX,
    ensures
        packet_failure(packet, 0) == Some(TransportCryptoError::InvalidMaximum),
        maximum > 0 ==> {
            &&& packet_failure(packet, maximum) is None <==> packet.len() >= 32 && packet[0] == 0x80
                && packet[1] == 0x78
            &&& packet.len() < 32 ==> (packet_failure(packet, maximum) matches Some(
                TransportCryptoError::PacketTooShort { actual },
            ) && actual == packet.len())
            &&& packet.len() >= 32 && packet[0] != 0x80 ==> packet_failure(packet, maximum) == Some(
                TransportCryptoError::InvalidRtpFlags { actual: packet[0] },
            )
            &&& packet.len() >= 32 && packet[0] == 0x80 && packet[1] != 0x78 ==> packet_failure(
                packet,
                maximum,
            ) == Some(TransportCryptoError::InvalidPayloadType { actual: packet[1] })
        },
{
}

/// A packet that is not authentic reads as nothing; one that is reads as what its bytes
/// carry, the high bytes first, unless its payload is beyond the bound.
pub proof fn authentic_packets_are_read(
    mode: TransportMode,
    key: Seq<u8>,
    packet: Seq<u8>,
    maximum: usize,
    result: Result<DecodedTransportPacket, TransportCryptoError>,
)
    requires
        decoded(mode, key, packet, maximum, result),
        maximum > 0,
        32 <= packet.len() <= usize::MAX,
        packet[0] == 0x80,
        packet[1] == 0x78,
    ensures
        match crate::rtp::packet_payload(mode, key, packet) {
            None => result == Err::<DecodedTransportPacket, TransportCryptoError>(
                TransportCryptoError::Aead,
            ),
            Some(payload) => if payload.len() <= maximum {
                &&& result is Ok
                &&& result->Ok_0.payload@ == payload
                &&& result->Ok_0.sequence == packet[2] * 0x100 + packet[3]
                &&& result->Ok_0.timestamp == packet[4] * 0x100_0000 + packet[5] * 0x1_0000
                    + packet[6] * 0x100 + packet[7]
                &&& result->Ok_0.ssrc == packet[8] * 0x100_0000 + packet[9] * 0x1_0000
                    + packet[10] * 0x100 + packet[11]
            } else {
                result matches Err(TransportCryptoError::PayloadTooLarge { actual, maximum: bound })
                    && actual == payload.len() && bound == maximum
            },
        },
{
    crate::wire::bytes_weigh_by_place(packet[4], packet[5], packet[6], packet[7]);
    crate::wire::bytes_weigh_by_place(packet[8], packet[9], packet[10], packet[11]);
    crate::wire::bytes_weigh_by_place(packet[2], packet[3], packet[2], packet[3]);
}

} // verus!
