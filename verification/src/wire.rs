//! Fixed-width integers on the wire and byte-copying helpers.
use vstd::prelude::*;

verus! {

/// Two big-endian bytes.
pub open spec fn be16(value: u16) -> Seq<u8> {
    seq![(value / 256) as u8, (value % 256) as u8]
}

/// Four big-endian bytes.
pub open spec fn be32(value: u32) -> Seq<u8> {
    seq![
        (value / 0x100_0000) as u8,
        (value / 0x1_0000 % 256) as u8,
        (value / 0x100 % 256) as u8,
        (value % 256) as u8,
    ]
}

/// Four little-endian bytes.
pub open spec fn le32(value: u32) -> Seq<u8> {
    seq![
        (value % 256) as u8,
        (value / 0x100 % 256) as u8,
        (value / 0x1_0000 % 256) as u8,
        (value / 0x100_0000) as u8,
    ]
}

/// The number that two big-endian bytes stand for.
pub open spec fn be16_value(high: u8, low: u8) -> u16 {
    (high * 256 + low) as u16
}

/// The number that four bytes stand for, the most significant first.
pub open spec fn be32_value(a: u8, b: u8, c: u8, d: u8) -> u32 {
    (a * 0x100_0000 + b * 0x1_0000 + c * 0x100 + d) as u32
}

/// Writing a number and reading its bytes gives the number back.
pub proof fn be16_round_trip(value: u16)
    ensures
        be16(value).len() == 2,
        be16_value(be16(value)[0], be16(value)[1]) == value,
{
}

/// Writing a number and reading its bytes gives the number back.
pub proof fn be32_round_trip(value: u32)
    ensures
        be32(value).len() == 4,
        be32_value(be32(value)[0], be32(value)[1], be32(value)[2], be32(value)[3]) == value,
{
}

/// A little-endian number read back most significant byte first gives the number.
pub proof fn le32_round_trip(value: u32)
    ensures
        le32(value).len() == 4,
        be32_value(le32(value)[3], le32(value)[2], le32(value)[1], le32(value)[0]) == value,
{
}

/// Reading two bytes and writing the number gives the bytes back.
pub proof fn be16_bytes_round_trip(high: u8, low: u8)
    ensures
        be16(be16_value(high, low)) == seq![high, low],
{
}

/// Reads a big-endian 16-bit number.
pub fn read_be16(high: u8, low: u8) -> (value: u16)
    ensures
        value == be16_value(high, low),
{
    (high as u16) * 256 + low as u16
}

/// Reads a 32-bit number from its bytes, the most significant first.
pub fn read_be32(a: u8, b: u8, c: u8, d: u8) -> (value: u32)
    ensures
        value == be32_value(a, b, c, d),
{
    (a as u32) * 0x100_0000 + (b as u32) * 0x1_0000 + (c as u32) * 0x100 + d as u32
}

/// Returns the two big-endian bytes of a number.
pub fn to_be16(value: u16) -> (bytes: [u8; 2])
    ensures
        bytes@ == be16(value),
{
    let bytes = [(value / 256) as u8, (value % 256) as u8];
    assert(bytes@ =~= be16(value));
    bytes
}

/// Returns the four big-endian bytes of a number.
pub fn to_be32(value: u32) -> (bytes: [u8; 4])
    ensures
        bytes@ == be32(value),
{
    let bytes = [
        (value / 0x100_0000) as u8,
        (value / 0x1_0000 % 256) as u8,
        (value / 0x100 % 256) as u8,
        (value % 256) as u8,
    ];
    assert(bytes@ =~= be32(value));
    bytes
}

/// Returns the four little-endian bytes of a number.
pub fn to_le32(value: u32) -> (bytes: [u8; 4])
    ensures
        bytes@ == le32(value),
{
    let bytes = [
        (value % 256) as u8,
        (value / 0x100 % 256) as u8,
        (value / 0x1_0000 % 256) as u8,
        (value / 0x100_0000) as u8,
    ];
    assert(bytes@ =~= le32(value));
    bytes
}

/// Appends bytes to a buffer.
pub fn append_bytes(buffer: &mut Vec<u8>, bytes: &[u8])
    ensures
        final(buffer)@ == old(buffer)@ + bytes@,
{
    buffer.extend_from_slice(bytes);
    assert(buffer@ =~= old(buffer)@ + bytes@);
}

/// Copies the bytes from `from` up to `to`.
pub fn copy_range(bytes: &[u8], from: usize, to: usize) -> (copy: Vec<u8>)
    requires
        from <= to <= bytes@.len(),
    ensures
        copy@ == bytes@.subrange(from as int, to as int),
{
    let mut copy: Vec<u8> = Vec::new();
    append_bytes(&mut copy, &bytes[from..to]);
    assert(copy@ =~= bytes@.subrange(from as int, to as int));
    copy
}

/// Copies all of the bytes.
pub fn copy_bytes(bytes: &[u8]) -> (copy: Vec<u8>)
    ensures
        copy@ == bytes@,
{
    let mut copy: Vec<u8> = Vec::new();
    append_bytes(&mut copy, bytes);
    assert(copy@ =~= bytes@);
    copy
}

/// Numbers stand on the wire by the place of their bytes: big-endian with the most
/// significant byte first, little-endian with the least significant one first.
pub proof fn bytes_have_their_place(short: u16, long: u32)
    ensures
        be16(short)[0] * 256 + be16(short)[1] == short,
        be32(long)[0] * 0x100_0000 + be32(long)[1] * 0x1_0000 + be32(long)[2] * 0x100
            + be32(long)[3] == long,
        le32(long)[3] * 0x100_0000 + le32(long)[2] * 0x1_0000 + le32(long)[1] * 0x100
            + le32(long)[0] == long,
        forall|i: int| 0 <= i < 4 ==> #[trigger] le32(long)[i] == be32(long)[3 - i],
{
}

/// What two or four bytes stand for is their sum by place, the first byte weighing most.
pub proof fn bytes_weigh_by_place(a: u8, b: u8, c: u8, d: u8)
    ensures
        be16_value(a, b) == a * 256 + b,
        be32_value(a, b, c, d) == be16_value(a, b) * 0x1_0000 + be16_value(c, d),
{
}

} // verus!
