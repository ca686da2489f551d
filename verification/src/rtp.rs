//! The encrypted media packet: an RTP header, the sealed payload, the nonce.
use vstd::prelude::*;

use crate::aead::{
    aes256_gcm_open, aes256_gcm_seal, xchacha20_poly1305_open, xchacha20_poly1305_seal,
};
use crate::wire::{append_bytes, read_be32, to_be16, to_be32, to_le32};

verus! {

/// Length of the RTP header.
pub const RTP_HEADER_BYTES: usize = 12;

/// Length of the authentication tag behind the sealed payload.
pub const AEAD_TAG_BYTES: usize = 16;

/// Length of the nonce at the end of a packet.
pub const NONCE_SUFFIX_BYTES: usize = 4;

/// What a packet adds to its payload.
pub const RTP_OVERHEAD_BYTES: usize = 32;

/// Encryption modes of the media transport.
#[derive(Clone, Copy, Debug, PartialEq, Eq, Structural)]
pub enum TransportMode {
    Aes256GcmRtpSize,
    XChaCha20Poly1305RtpSize,
}

/// What a packet's plain fields and payload are.
pub ghost struct PacketFields {
    pub sequence: u16,
    pub timestamp: u32,
    pub ssrc: u32,
    pub nonce: u32,
    pub payload: Seq<u8>,
}

/// The RTP header of a media packet.
pub open spec fn rtp_header(sequence: u16, timestamp: u32, ssrc: u32) -> Seq<u8> {
    seq![0x80u8, 0x78u8] + crate::wire::be16(sequence) + crate::wire::be32(timestamp)
        + crate::wire::be32(ssrc)
}

/// A packet nonce brought to the width of a cipher: its four little-endian bytes,
/// then zeros.
pub open spec fn expanded_nonce(nonce: u32, width: nat) -> Seq<u8> {
    Seq::new(width, |i: int| if i < 4 { crate::wire::le32(nonce)[i] } else { 0u8 })
}

/// The sealed payload of a packet.
pub open spec fn sealed_payload(
    mode: TransportMode,
    key: Seq<u8>,
    nonce: u32,
    header: Seq<u8>,
    payload: Seq<u8>,
) -> Seq<u8> {
    match mode {
        TransportMode::Aes256GcmRtpSize => crate::aead::aes256_gcm_sealed(
            key,
            expanded_nonce(nonce, 12),
            header,
            payload,
        ),
        TransportMode::XChaCha20Poly1305RtpSize => crate::aead::xchacha20_poly1305_sealed(
            key,
            expanded_nonce(nonce, 24),
            header,
            payload,
        ),
    }
}

/// What a sealed payload opens to, if it is authentic.
pub open spec fn opened_payload(
    mode: TransportMode,
    key: Seq<u8>,
    nonce: u32,
    header: Seq<u8>,
    sealed: Seq<u8>,
) -> Option<Seq<u8>> {
    match mode {
        TransportMode::Aes256GcmRtpSize => crate::aead::aes256_gcm_opened(
            key,
            expanded_nonce(nonce, 12),
            header,
            sealed,
        ),
        TransportMode::XChaCha20Poly1305RtpSize => crate::aead::xchacha20_poly1305_opened(
            key,
            expanded_nonce(nonce, 24),
            header,
            sealed,
        ),
    }
}

/// Whether the cipher of a mode takes a payload of this length.
pub open spec fn sealable(mode: TransportMode, length: nat) -> bool {
    match mode {
        TransportMode::Aes256GcmRtpSize => crate::aead::aes256_gcm_accepts(
            length,
            RTP_HEADER_BYTES as nat,
        ),
        TransportMode::XChaCha20Poly1305RtpSize => crate::aead::xchacha20_poly1305_accepts(length),
    }
}

/// The packet that carries a payload.
pub open spec fn rtp_packet(mode: TransportMode, key: Seq<u8>, fields: PacketFields) -> Seq<u8> {
    let header = rtp_header(fields.sequence, fields.timestamp, fields.ssrc);
    header + sealed_payload(mode, key, fields.nonce, header, fields.payload) + crate::wire::le32(
        fields.nonce,
    )
}

/// The nonce at the end of a packet.
pub open spec fn packet_nonce(packet: Seq<u8>) -> u32 {
    let n = packet.len() as int;
    crate::wire::be32_value(packet[n - 1], packet[n - 2], packet[n - 3], packet[n - 4])
}

/// The header of a packet.
pub open spec fn packet_header(packet: Seq<u8>) -> Seq<u8> {
    packet.subrange(0, 12)
}

/// The sealed payload inside a packet.
pub open spec fn packet_sealed(packet: Seq<u8>) -> Seq<u8> {
    packet.subrange(12, packet.len() - 4)
}

/// What the sealed payload inside a packet opens to.
pub open spec fn packet_payload(mode: TransportMode, key: Seq<u8>, packet: Seq<u8>) -> Option<
    Seq<u8>,
> {
    opened_payload(mode, key, packet_nonce(packet), packet_header(packet), packet_sealed(packet))
}

/// The fields of a packet whose payload is known.
pub open spec fn packet_fields(packet: Seq<u8>, payload: Seq<u8>) -> PacketFields {
    PacketFields {
        sequence: crate::wire::be16_value(packet[2], packet[3]),
        timestamp: crate::wire::be32_value(packet[4], packet[5], packet[6], packet[7]),
        ssrc: crate::wire::be32_value(packet[8], packet[9], packet[10], packet[11]),
        nonce: packet_nonce(packet),
        payload,
    }
}

proof fn header_reads_back(sequence: u16, timestamp: u32, ssrc: u32)
    ensures
        ({
            let h = rtp_header(sequence, timestamp, ssrc);
            &&& h.len() == 12
            &&& h[0] == 0x80
            &&& h[1] == 0x78
            &&& crate::wire::be16_value(h[2], h[3]) == sequence
            &&& crate::wire::be32_value(h[4], h[5], h[6], h[7]) == timestamp
            &&& crate::wire::be32_value(h[8], h[9], h[10], h[11]) == ssrc
        }),
{
    let h = rtp_header(sequence, timestamp, ssrc);
    let s = crate::wire::be16(sequence);
    let t = crate::wire::be32(timestamp);
    let r = crate::wire::be32(ssrc);
    assert(h[2] == s[0] && h[3] == s[1]);
    assert(h[4] == t[0] && h[5] == t[1] && h[6] == t[2] && h[7] == t[3]);
    assert(h[8] == r[0] && h[9] == r[1] && h[10] == r[2] && h[11] == r[3]);
    crate::wire::be16_round_trip(sequence);
    crate::wire::be32_round_trip(timestamp);
    crate::wire::be32_round_trip(ssrc);
}

/// A packet laid out as header, sealed payload and nonce is taken apart into the
/// same header, sealed payload and nonce.
pub proof fn packet_layout_round_trip(header: Seq<u8>, sealed: Seq<u8>, nonce: u32)
    requires
        header.len() == 12,
    ensures
        ({
            let packet = header + sealed + crate::wire::le32(nonce);
            &&& packet.len() == sealed.len() + 16
            &&& packet_nonce(packet) == nonce
            &&& packet_header(packet) == header
            &&& packet_sealed(packet) == sealed
        }),
{
    let suffix = crate::wire::le32(nonce);
    let packet = header + sealed + suffix;
    let n = packet.len() as int;
    crate::wire::le32_round_trip(nonce);
    assert(n == sealed.len() + 16);
    assert(packet[n - 1] == suffix[3] && packet[n - 2] == suffix[2]);
    assert(packet[n - 3] == suffix[1] && packet[n - 4] == suffix[0]);
    assert(packet_header(packet) =~= header);
    assert(packet_sealed(packet) =~= sealed);
}

/// The fields of a packet are those that it was laid out with, and its first two
/// bytes are the fixed ones.
pub proof fn packet_fields_round_trip(
    sequence: u16,
    timestamp: u32,
    ssrc: u32,
    nonce: u32,
    sealed: Seq<u8>,
    payload: Seq<u8>,
)
    ensures
        ({
            let packet = rtp_header(sequence, timestamp, ssrc) + sealed + crate::wire::le32(nonce);
            &&& packet[0] == 0x80
            &&& packet[1] == 0x78
            &&& packet_fields(packet, payload) == (PacketFields {
                sequence,
                timestamp,
                ssrc,
                nonce,
                payload,
            })
        }),
{
    let header = rtp_header(sequence, timestamp, ssrc);
    let packet = header + sealed + crate::wire::le32(nonce);
    header_reads_back(sequence, timestamp, ssrc);
    packet_layout_round_trip(header, sealed, nonce);
    assert forall|i: int| 0 <= i < 12 implies packet[i] == header[i] by {
        assert(packet_header(packet)[i] == packet[i]);
    }
}

/// Returns the RTP header of a media packet.
pub fn build_header(sequence: u16, timestamp: u32, ssrc: u32) -> (header: [u8; 12])
    ensures
        header@ == rtp_header(sequence, timestamp, ssrc),
{
    let s = to_be16(sequence);
    let t = to_be32(timestamp);
    let r = to_be32(ssrc);
    let header = [0x80, 0x78, s[0], s[1], t[0], t[1], t[2], t[3], r[0], r[1], r[2], r[3]];
    assert(header@ =~= rtp_header(sequence, timestamp, ssrc));
    header
}

fn expand12(nonce: u32) -> (expanded: [u8; 12])
    ensures
        expanded@ == expanded_nonce(nonce, 12),
{
    let s = to_le32(nonce);
    let expanded = [s[0], s[1], s[2], s[3], 0, 0, 0, 0, 0, 0, 0, 0];
    assert(expanded@ =~= expanded_nonce(nonce, 12));
    expanded
}

fn expand24(nonce: u32) -> (expanded: [u8; 24])
    ensures
        expanded@ == expanded_nonce(nonce, 24),
{
    let s = to_le32(nonce);
    let expanded = [
        s[0],
        s[1],
        s[2],
        s[3],
        0,
        0,
        0,
        0,
        0,
        0,
        0,
        0,
        0,
        0,
        0,
        0,
        0,
        0,
        0,
        0,
        0,
        0,
        0,
        0,
    ];
    assert(expanded@ =~= expanded_nonce(nonce, 24));
    expanded
}

/// Seals a payload for a packet; `None` when it is too long for the cipher.
pub fn seal_payload(
    mode: TransportMode,
    key: &[u8; 32],
    nonce: u32,
    header: &[u8; 12],
    payload: &[u8],
) -> (sealed: Option<Vec<u8>>)
    ensures
        sealed is Some <==> sealable(mode, payload@.len()),
        sealed matches Some(bytes) ==> {
            &&& bytes@ == sealed_payload(mode, key@, nonce, header@, payload@)
            &&& bytes@.len() == payload@.len() + AEAD_TAG_BYTES
            &&& opened_payload(mode, key@, nonce, header@, bytes@) == Some(payload@)
        },
{
    match mode {
        TransportMode::Aes256GcmRtpSize => aes256_gcm_seal(
            key,
            &expand12(nonce),
            header.as_slice(),
            payload,
        ),
        TransportMode::XChaCha20Poly1305RtpSize => xchacha20_poly1305_seal(
            key,
            &expand24(nonce),
            header.as_slice(),
            payload,
        ),
    }
}

/// Opens the sealed payload of a packet; `None` when it is not authentic.
pub fn open_payload(
    mode: TransportMode,
    key: &[u8; 32],
    nonce: u32,
    header: &[u8],
    sealed: &[u8],
) -> (opened: Option<Vec<u8>>)
    ensures
        match opened {
            Some(bytes) => opened_payload(mode, key@, nonce, header@, sealed@) == Some(bytes@),
            None => opened_payload(mode, key@, nonce, header@, sealed@) is None,
        },
        opened matches Some(bytes) ==> {
            &&& sealed@ == sealed_payload(mode, key@, nonce, header@, bytes@)
            &&& sealed@.len() == bytes@.len() + AEAD_TAG_BYTES
        },
{
    match mode {
        TransportMode::Aes256GcmRtpSize => aes256_gcm_open(key, &expand12(nonce), header, sealed),
        TransportMode::XChaCha20Poly1305RtpSize => xchacha20_poly1305_open(
            key,
            &expand24(nonce),
            header,
            sealed,
        ),
    }
}

/// Lays out a packet from its header, its sealed payload and its nonce in a buffer,
/// whose room is used again.
pub fn assemble(header: &[u8; 12], sealed: &[u8], nonce: u32, packet: &mut Vec<u8>)
    ensures
        final(packet)@ == header@ + sealed@ + crate::wire::le32(nonce),
{
    packet.clear();
    append_bytes(packet, header.as_slice());
    append_bytes(packet, sealed);
    append_bytes(packet, to_le32(nonce).as_slice());
    assert(packet@ =~= header@ + sealed@ + crate::wire::le32(nonce));
}

/// Reads the nonce at the end of a packet.
pub fn read_nonce(packet: &[u8]) -> (nonce: u32)
    requires
        packet@.len() >= NONCE_SUFFIX_BYTES,
    ensures
        nonce == packet_nonce(packet@),
{
    let n: usize = packet.len();
    read_be32(packet[n - 1], packet[n - 2], packet[n - 3], packet[n - 4])
}

/// A packet begins with version two and the payload type of Opus, and carries its sequence
/// number, clock and stream with the high bytes first; its nonce stands at the end with the
/// low byte first.
pub proof fn packets_are_laid_out_for_rtp(mode: TransportMode, key: Seq<u8>, fields: PacketFields)
    ensures
        ({
            let packet = rtp_packet(mode, key, fields);
            let n = packet.len() as int;
            &&& n >= 16
            &&& packet[0] == 0x80
            &&& packet[1] == 0x78
            &&& packet[2] * 256 + packet[3] == fields.sequence
            &&& packet[4] * 0x100_0000 + packet[5] * 0x1_0000 + packet[6] * 0x100 + packet[7]
                == fields.timestamp
            &&& packet[8] * 0x100_0000 + packet[9] * 0x1_0000 + packet[10] * 0x100 + packet[11]
                == fields.ssrc
            &&& packet[n - 1] * 0x100_0000 + packet[n - 2] * 0x1_0000 + packet[n - 3] * 0x100
                + packet[n - 4] == fields.nonce
        }),
{
    let header = rtp_header(fields.sequence, fields.timestamp, fields.ssrc);
    let sealed = sealed_payload(mode, key, fields.nonce, header, fields.payload);
    let packet = rtp_packet(mode, key, fields);
    header_reads_back(fields.sequence, fields.timestamp, fields.ssrc);
    packet_layout_round_trip(header, sealed, fields.nonce);
    packet_fields_round_trip(
        fields.sequence,
        fields.timestamp,
        fields.ssrc,
        fields.nonce,
        sealed,
        fields.payload,
    );
}

/// The nonce of a cipher is the one at the end of the packet, filled up with zeros, so two
/// packets with different nonces never share one of a cipher.
pub proof fn cipher_nonces_differ(left: u32, right: u32, width: nat)
    requires
        width >= 4,
    ensures
        expanded_nonce(left, width).len() == width,
        expanded_nonce(left, width).take(4) == crate::wire::le32(left),
        forall|i: int| 4 <= i < width ==> #[trigger] expanded_nonce(left, width)[i] == 0,
        left != right ==> expanded_nonce(left, width) != expanded_nonce(right, width),
{
    assert(expanded_nonce(left, width).take(4) =~= crate::wire::le32(left));
    assert(expanded_nonce(right, width).take(4) =~= crate::wire::le32(right));
    crate::wire::le32_round_trip(left);
    crate::wire::le32_round_trip(right);
}

/// What is authentic in a packet is opened with the nonce, the header and the sealed bytes
/// that the packet itself carries.
pub proof fn packets_are_opened_with_what_they_carry(
    mode: TransportMode,
    key: Seq<u8>,
    fields: PacketFields,
)
    ensures
        ({
            let header = rtp_header(fields.sequence, fields.timestamp, fields.ssrc);
            let sealed = sealed_payload(mode, key, fields.nonce, header, fields.payload);
            packet_payload(mode, key, rtp_packet(mode, key, fields)) == opened_payload(
                mode,
                key,
                fields.nonce,
                header,
                sealed,
            )
        }),
{
    let header = rtp_header(fields.sequence, fields.timestamp, fields.ssrc);
    header_reads_back(fields.sequence, fields.timestamp, fields.ssrc);
    packet_layout_round_trip(
        header,
        sealed_payload(mode, key, fields.nonce, header, fields.payload),
        fields.nonce,
    );
}

} // verus!
