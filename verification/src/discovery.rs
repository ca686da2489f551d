//! The fixed-size datagrams of UDP address discovery.
use vstd::prelude::*;

use crate::wire::{append_bytes, copy_range, read_be16, read_be32, to_be16, to_be32};

verus! {

/// Size of a discovery datagram.
pub const DISCOVERY_BYTES: usize = 74;

/// What the length field of a discovery datagram holds.
pub const DISCOVERY_LENGTH: u16 = 70;

/// The type field of a request.
pub const REQUEST_TYPE: u16 = 1;

/// The type field of a response.
pub const RESPONSE_TYPE: u16 = 2;

/// The type field of a datagram.
pub open spec fn type_field(packet: Seq<u8>) -> u16 {
    crate::wire::be16_value(packet[0], packet[1])
}

/// The length field of a datagram.
pub open spec fn length_field(packet: Seq<u8>) -> u16 {
    crate::wire::be16_value(packet[2], packet[3])
}

/// The SSRC field of a datagram.
pub open spec fn ssrc_field(packet: Seq<u8>) -> u32 {
    crate::wire::be32_value(packet[4], packet[5], packet[6], packet[7])
}

/// The port field of a datagram.
pub open spec fn port_field(packet: Seq<u8>) -> u16 {
    crate::wire::be16_value(packet[72], packet[73])
}

/// Whether a datagram has the right size, type, length field and SSRC.
pub open spec fn is_discovery(packet: Seq<u8>, kind: u16, ssrc: u32) -> bool {
    &&& packet.len() == DISCOVERY_BYTES
    &&& type_field(packet) == kind
    &&& length_field(packet) == DISCOVERY_LENGTH
    &&& ssrc_field(packet) == ssrc
}

/// Where a zero-terminated text ends: the first zero in the 64 bytes of the address
/// field.
pub open spec fn is_terminator(packet: Seq<u8>, end: int) -> bool {
    &&& 8 <= end < 72
    &&& packet[end] == 0
    &&& forall|i: int| 8 <= i < end ==> packet[i] != 0
}

/// The address text of a datagram, if it is terminated.
pub open spec fn address_field(packet: Seq<u8>) -> Option<Seq<u8>> {
    if exists|end: int| is_terminator(packet, end) {
        Some(packet.subrange(8, choose|end: int| is_terminator(packet, end)))
    } else {
        None
    }
}

/// The first zero of the address field is the only place where its text can end.
pub proof fn terminator_is_unique(packet: Seq<u8>, end: int)
    requires
        is_terminator(packet, end),
    ensures
        address_field(packet) == Some(packet.subrange(8, end)),
{
    let chosen = choose|other: int| is_terminator(packet, other);
    assert(is_terminator(packet, chosen));
    if chosen < end {
        assert(packet[chosen] != 0);
    } else if end < chosen {
        assert(packet[end] != 0);
    }
}

/// Converts bytes to text with `std::str::from_utf8`.
///
/// Claimed of the standard library: the conversion succeeds exactly on valid UTF-8,
/// and the text has these bytes.
#[verifier::external_body]
pub(crate) fn utf8_text(bytes: &[u8]) -> (text: Option<String>)
    ensures
        (text is Some) == vstd::utf8::valid_utf8(bytes@),
        text matches Some(found) ==> vstd::utf8::encode_utf8(found@) == bytes@,
{
    std::str::from_utf8(bytes).ok().map(String::from)
}

/// Checks the fields that requests and responses share.
pub fn discovery_header_matches(packet: &[u8], kind: u16, ssrc: u32) -> (matching: bool)
    ensures
        matching == is_discovery(packet@, kind, ssrc),
{
    packet.len() == DISCOVERY_BYTES && read_be16(packet[0], packet[1]) == kind && read_be16(
        packet[2],
        packet[3],
    ) == DISCOVERY_LENGTH && read_be32(packet[4], packet[5], packet[6], packet[7]) == ssrc
}

/// Copies the address text of a datagram.
pub fn address_bytes(packet: &[u8]) -> (address: Option<Vec<u8>>)
    requires
        packet@.len() == DISCOVERY_BYTES,
    ensures
        match address {
            Some(bytes) => address_field(packet@) == Some(bytes@),
            None => address_field(packet@) is None,
        },
{
    let mut end: usize = 8;
    while end < 72
        invariant
            8 <= end <= 72,
            packet@.len() == DISCOVERY_BYTES,
            forall|i: int| 8 <= i < end ==> packet@[i] != 0,
        decreases 72 - end,
    {
        if packet[end] == 0 {
            proof {
                terminator_is_unique(packet@, end as int);
            }
            return Some(copy_range(packet, 8, end));
        }
        end = end + 1;
    }
    None
}

/// Reads the port field of a datagram.
pub fn read_port(packet: &[u8]) -> (port: u16)
    requires
        packet@.len() == DISCOVERY_BYTES,
    ensures
        port == port_field(packet@),
{
    read_be16(packet[72], packet[73])
}

/// A run of zero bytes.
pub open spec fn zeros(count: nat) -> Seq<u8> {
    Seq::new(count, |i: int| 0u8)
}

/// The request for an SSRC: type, length and SSRC, then zeros.
pub open spec fn request_bytes(ssrc: u32) -> Seq<u8> {
    crate::wire::be16(REQUEST_TYPE) + crate::wire::be16(DISCOVERY_LENGTH) + crate::wire::be32(ssrc)
        + zeros(66)
}

/// Appends zero bytes.
pub fn append_zeros(buffer: &mut Vec<u8>, count: usize)
    ensures
        final(buffer)@ == old(buffer)@ + zeros(count as nat),
{
    let mut done: usize = 0;
    while done < count
        invariant
            done <= count,
            buffer@ == old(buffer)@ + zeros(done as nat),
        decreases count - done,
    {
        buffer.push(0);
        done = done + 1;
        assert(buffer@ =~= old(buffer)@ + zeros(done as nat));
    }
    assert(buffer@ =~= old(buffer)@ + zeros(count as nat));
}

/// Builds the request for an SSRC.
pub fn build_discovery_request(ssrc: u32) -> (request: Vec<u8>)
    ensures
        request@ == request_bytes(ssrc),
        request@.len() == DISCOVERY_BYTES,
        is_discovery(request@, REQUEST_TYPE, ssrc),
{
    let mut request: Vec<u8> = Vec::new();
    append_bytes(&mut request, to_be16(REQUEST_TYPE).as_slice());
    append_bytes(&mut request, to_be16(DISCOVERY_LENGTH).as_slice());
    append_bytes(&mut request, to_be32(ssrc).as_slice());
    append_zeros(&mut request, 66);
    assert(request@ =~= request_bytes(ssrc));
    proof {
        request_is_discovery(ssrc);
    }
    request
}

/// A request has the fields that it was built from, and zeros behind them.
pub proof fn request_is_discovery(ssrc: u32)
    ensures
        is_discovery(request_bytes(ssrc), REQUEST_TYPE, ssrc),
        forall|i: int| 8 <= i < DISCOVERY_BYTES ==> request_bytes(ssrc)[i] == 0,
{
    let packet = request_bytes(ssrc);
    let t = crate::wire::be16(REQUEST_TYPE);
    let l = crate::wire::be16(DISCOVERY_LENGTH);
    let s = crate::wire::be32(ssrc);
    crate::wire::be16_round_trip(REQUEST_TYPE);
    crate::wire::be16_round_trip(DISCOVERY_LENGTH);
    crate::wire::be32_round_trip(ssrc);
    assert(packet.len() == DISCOVERY_BYTES);
    assert(packet[0] == t[0] && packet[1] == t[1]);
    assert(packet[2] == l[0] && packet[3] == l[1]);
    assert(packet[4] == s[0] && packet[5] == s[1] && packet[6] == s[2] && packet[7] == s[3]);
}

/// A request of 74 bytes says in front that it is one, how long the rest is, and for which
/// stream it asks, the high bytes first.
pub proof fn requests_begin_with_their_header(ssrc: u32)
    ensures
        request_bytes(ssrc).len() == 74,
        request_bytes(ssrc)[0] == 0,
        request_bytes(ssrc)[1] == 1,
        request_bytes(ssrc)[2] == 0,
        request_bytes(ssrc)[3] == 70,
        request_bytes(ssrc)[4] * 0x100_0000 + request_bytes(ssrc)[5] * 0x1_0000 + request_bytes(
            ssrc,
        )[6] * 0x100 + request_bytes(ssrc)[7] == ssrc,
{
    let packet = request_bytes(ssrc);
    let s = crate::wire::be32(ssrc);
    crate::wire::bytes_have_their_place(70, ssrc);
    assert(packet[4] == s[0] && packet[5] == s[1] && packet[6] == s[2] && packet[7] == s[3]);
}

} // verus!
