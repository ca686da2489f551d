//! The texts that name IP addresses.
use vstd::prelude::*;

use crate::wire::copy_range;

verus! {

/// What separates the numbers of an IPv4 address.
pub const DOT: u8 = 0x2E;

/// What separates the groups of an IPv6 address.
pub const COLON: u8 = 0x3A;

/// Whether a byte is a decimal digit.
pub open spec fn decimal_digit(byte: u8) -> bool {
    0x30 <= byte <= 0x39
}

/// Whether a byte is a hexadecimal digit of either case.
pub open spec fn hex_digit(byte: u8) -> bool {
    decimal_digit(byte) || 0x41 <= byte <= 0x46 || 0x61 <= byte <= 0x66
}

/// What stands between the separators of a text, one piece more than there are
/// separators.
pub open spec fn pieces(text: Seq<u8>, separator: u8) -> Seq<Seq<u8>>
    decreases text.len(),
{
    if text.len() == 0 {
        seq![Seq::empty()]
    } else {
        let before = pieces(text.drop_last(), separator);
        if text.last() == separator {
            before.push(Seq::empty())
        } else {
            before.update(before.len() - 1, before.last().push(text.last()))
        }
    }
}

/// The number that up to three decimal digits write.
pub open spec fn octet_value(piece: Seq<u8>) -> int {
    if piece.len() == 1 {
        piece[0] - 0x30
    } else if piece.len() == 2 {
        (piece[0] - 0x30) * 10 + (piece[1] - 0x30)
    } else {
        (piece[0] - 0x30) * 100 + (piece[1] - 0x30) * 10 + (piece[2] - 0x30)
    }
}

/// Whether a piece is a decimal number up to 255 without a leading zero.
pub open spec fn octet(piece: Seq<u8>) -> bool {
    &&& 1 <= piece.len() <= 3
    &&& forall|i: int| 0 <= i < piece.len() ==> decimal_digit(#[trigger] piece[i])
    &&& piece.len() > 1 ==> piece[0] != 0x30
    &&& octet_value(piece) <= 255
}

/// Whether a piece is a hexadecimal number of one to four digits.
pub open spec fn group(piece: Seq<u8>) -> bool {
    &&& 1 <= piece.len() <= 4
    &&& forall|i: int| 0 <= i < piece.len() ==> hex_digit(#[trigger] piece[i])
}

/// Whether a text is an IPv4 address: four numbers with dots between them.
pub open spec fn dotted(text: Seq<u8>) -> bool {
    &&& pieces(text, DOT).len() == 4
    &&& forall|i: int| 0 <= i < 4 ==> octet(#[trigger] pieces(text, DOT)[i])
}

/// Whether a text is empty or groups with colons between them.
pub open spec fn grouped(text: Seq<u8>) -> bool {
    text.len() == 0 || forall|i: int|
        0 <= i < pieces(text, COLON).len() ==> group(#[trigger] pieces(text, COLON)[i])
}

/// Whether a text is empty or groups with colons between them, of which the last may be
/// an IPv4 address.
pub open spec fn grouped_tail(text: Seq<u8>) -> bool {
    let found = pieces(text, COLON);
    text.len() == 0 || {
        &&& forall|i: int| 0 <= i < found.len() - 1 ==> group(#[trigger] found[i])
        &&& group(found.last()) || dotted(found.last())
    }
}

/// How many groups of sixteen bits a text stands for. An IPv4 address at its end is two.
pub open spec fn width(text: Seq<u8>) -> nat {
    let found = pieces(text, COLON);
    if text.len() == 0 {
        0
    } else if dotted(found.last()) {
        found.len() + 1
    } else {
        found.len()
    }
}

/// Whether two colons at `at` stand for one or more groups that the text leaves out.
pub open spec fn shortened_at(text: Seq<u8>, at: int) -> bool {
    &&& 0 <= at <= text.len() - 2
    &&& text[at] == COLON
    &&& text[at + 1] == COLON
    &&& grouped(text.take(at))
    &&& grouped_tail(text.skip(at + 2))
    &&& width(text.take(at)) + width(text.skip(at + 2)) <= 7
}

/// Whether a text is an IPv6 address: eight groups, or fewer with two colons in place of
/// those left out.
pub open spec fn colon_separated(text: Seq<u8>) -> bool {
    ||| text.len() > 0 && grouped_tail(text) && width(text) == 8
    ||| exists|at: int| shortened_at(text, at)
}

/// Whether a text is an IP address.
pub open spec fn ip_text(text: Seq<u8>) -> bool {
    dotted(text) || colon_separated(text)
}

/// Splits a text at its separators.
fn split(text: &[u8], separator: u8) -> (found: Vec<Vec<u8>>)
    ensures
        found@.len() == pieces(text@, separator).len(),
        found@.len() >= 1,
        forall|i: int|
            0 <= i < found@.len() ==> (#[trigger] found@[i])@ == pieces(text@, separator)[i],
{
    let mut found: Vec<Vec<u8>> = Vec::new();
    let mut piece: Vec<u8> = Vec::new();
    let mut index: usize = 0;
    assert(text@.take(0).len() == 0);
    while index < text.len()
        invariant
            index <= text@.len(),
            pieces(text@.take(index as int), separator).len() == found@.len() + 1,
            pieces(text@.take(index as int), separator).last() == piece@,
            forall|i: int|
                0 <= i < found@.len() ==> (#[trigger] found@[i])@ == pieces(
                    text@.take(index as int),
                    separator,
                )[i],
        decreases text@.len() - index,
    {
        assert(text@.take(index + 1).drop_last() =~= text@.take(index as int));
        let byte: u8 = text[index];
        if byte == separator {
            found.push(piece);
            piece = Vec::new();
        } else {
            piece.push(byte);
        }
        index = index + 1;
    }
    assert(text@.take(text@.len() as int) =~= text@);
    found.push(piece);
    found
}

/// Decides whether a byte is a decimal digit.
fn is_decimal_digit(byte: u8) -> (decided: bool)
    ensures
        decided == decimal_digit(byte),
{
    0x30 <= byte && byte <= 0x39
}

/// Decides whether a byte is a hexadecimal digit.
fn is_hex_digit(byte: u8) -> (decided: bool)
    ensures
        decided == hex_digit(byte),
{
    is_decimal_digit(byte) || (0x41 <= byte && byte <= 0x46) || (0x61 <= byte && byte <= 0x66)
}

/// Decides whether a piece is a number of an IPv4 address.
fn is_octet(piece: &[u8]) -> (decided: bool)
    ensures
        decided == octet(piece@),
{
    let length: usize = piece.len();
    if length == 0 || length > 3 {
        return false;
    }
    let mut value: u32 = 0;
    let mut index: usize = 0;
    while index < length
        invariant
            index <= length,
            length == piece@.len(),
            length <= 3,
            forall|i: int| 0 <= i < index ==> decimal_digit(#[trigger] piece@[i]),
            index == 0 ==> value == 0,
            index > 0 ==> value == octet_value(piece@.take(index as int)),
            value <= 999,
            index <= 1 ==> value <= 9,
            index <= 2 ==> value <= 99,
        decreases length - index,
    {
        let byte: u8 = piece[index];
        if !is_decimal_digit(byte) {
            return false;
        }
        value = value * 10 + (byte - 0x30) as u32;
        index = index + 1;
    }
    assert(piece@.take(length as int) =~= piece@);
    if length > 1 && piece[0] == 0x30 {
        return false;
    }
    value <= 255
}

/// Decides whether a piece is a group of an IPv6 address.
fn is_group(piece: &[u8]) -> (decided: bool)
    ensures
        decided == group(piece@),
{
    let length: usize = piece.len();
    if length == 0 || length > 4 {
        return false;
    }
    let mut index: usize = 0;
    while index < length
        invariant
            index <= length,
            length == piece@.len(),
            forall|i: int| 0 <= i < index ==> hex_digit(#[trigger] piece@[i]),
        decreases length - index,
    {
        if !is_hex_digit(piece[index]) {
            return false;
        }
        index = index + 1;
    }
    true
}

/// Decides whether a text is an IPv4 address.
pub fn is_dotted(text: &[u8]) -> (decided: bool)
    ensures
        decided == dotted(text@),
{
    let found = split(text, DOT);
    if found.len() != 4 {
        return false;
    }
    let mut index: usize = 0;
    while index < 4
        invariant
            index <= 4,
            found@.len() == 4,
            pieces(text@, DOT).len() == 4,
            forall|i: int| 0 <= i < 4 ==> (#[trigger] found@[i])@ == pieces(text@, DOT)[i],
            forall|i: int| 0 <= i < index ==> octet(#[trigger] pieces(text@, DOT)[i]),
        decreases 4 - index,
    {
        if !is_octet(found[index].as_slice()) {
            assert(!octet(pieces(text@, DOT)[index as int]));
            return false;
        }
        index = index + 1;
    }
    true
}

/// Reads groups with colons between them, of which the last may be an IPv4 address, and
/// returns how many groups of sixteen bits they are, nine standing for more than eight,
/// and whether an IPv4 address is there.
fn read_groups(text: &[u8]) -> (read: Option<(usize, bool)>)
    ensures
        match read {
            Some((count, embedded)) => {
                &&& grouped_tail(text@)
                &&& count == (if width(text@) <= 8 {
                    width(text@)
                } else {
                    9
                })
                &&& !embedded == grouped(text@)
            },
            None => !grouped_tail(text@) && !grouped(text@),
        },
{
    if text.len() == 0 {
        return Some((0, false));
    }
    let found = split(text, COLON);
    let last: usize = found.len() - 1;
    let mut index: usize = 0;
    while index < last
        invariant
            index <= last,
            last == found@.len() - 1,
            text@.len() > 0,
            found@.len() == pieces(text@, COLON).len(),
            forall|i: int|
                0 <= i < found@.len() ==> (#[trigger] found@[i])@ == pieces(text@, COLON)[i],
            forall|i: int| 0 <= i < index ==> group(#[trigger] pieces(text@, COLON)[i]),
        decreases last - index,
    {
        if !is_group(found[index].as_slice()) {
            assert(!group(pieces(text@, COLON)[index as int]));
            return None;
        }
        index = index + 1;
    }
    proof {
        assert(found@[last as int]@ == pieces(text@, COLON).last());
    }
    let count: usize = if found.len() > 8 {
        9
    } else {
        found.len()
    };
    if is_dotted(found[last].as_slice()) {
        proof {
            dotted_is_no_group(pieces(text@, COLON).last());
            assert(!group(pieces(text@, COLON)[last as int]));
        }
        Some((
            if count < 8 {
                count + 1
            } else {
                9
            },
            true,
        ))
    } else if is_group(found[last].as_slice()) {
        Some((count, false))
    } else {
        assert(!group(pieces(text@, COLON)[last as int]));
        None
    }
}

/// A text has at least one piece.
proof fn pieces_exist(text: Seq<u8>, separator: u8)
    ensures
        pieces(text, separator).len() >= 1,
    decreases text.len(),
{
    if text.len() > 0 {
        pieces_exist(text.drop_last(), separator);
    }
}

/// A text without a separator is one piece.
proof fn unseparated(text: Seq<u8>, separator: u8)
    requires
        forall|i: int| 0 <= i < text.len() ==> text[i] != separator,
    ensures
        pieces(text, separator) == seq![text],
    decreases text.len(),
{
    if text.len() > 0 {
        unseparated(text.drop_last(), separator);
        assert(text.drop_last().push(text.last()) =~= text);
        assert(pieces(text, separator) =~= seq![text]);
    } else {
        assert(text =~= Seq::empty());
    }
}

/// No IPv4 address is a group.
proof fn dotted_is_no_group(text: Seq<u8>)
    requires
        dotted(text),
    ensures
        !group(text),
{
    if group(text) {
        assert forall|i: int| 0 <= i < text.len() implies text[i] != DOT by {
            assert(hex_digit(text[i]));
        }
        unseparated(text, DOT);
    }
}

/// Decides whether a text is an IPv6 address.
pub fn is_colon_separated(text: &[u8]) -> (decided: bool)
    ensures
        decided == colon_separated(text@),
{
    if text.len() > 0 {
        if let Some((count, _embedded)) = read_groups(text) {
            if count == 8 {
                return true;
            }
        }
    }
    let mut at: usize = 0;
    while at < text.len() && at + 1 < text.len()
        invariant
            at <= text@.len(),
            !(text@.len() > 0 && grouped_tail(text@) && width(text@) == 8),
            forall|i: int| 0 <= i < at ==> !shortened_at(text@, i),
        decreases text@.len() - at,
    {
        if text[at] == COLON && text[at + 1] == COLON {
            let head = copy_range(text, 0, at);
            let tail = copy_range(text, at + 2, text.len());
            assert(head@ =~= text@.take(at as int));
            assert(tail@ =~= text@.skip(at + 2));
            if let Some((before, embedded)) = read_groups(head.as_slice()) {
                if let Some((after, _embedded)) = read_groups(tail.as_slice()) {
                    if !embedded && before <= 7 && after <= 7 - before {
                        assert(shortened_at(text@, at as int));
                        return true;
                    }
                }
            }
        }
        at = at + 1;
    }
    false
}

/// Decides whether a text is an IP address.
pub fn is_ip_text(text: &[u8]) -> (decided: bool)
    ensures
        decided == ip_text(text@),
{
    is_dotted(text) || is_colon_separated(text)
}

/// Whether a byte may stand in an IP address.
pub open spec fn address_byte(byte: u8) -> bool {
    hex_digit(byte) || byte == DOT || byte == COLON
}

/// Every byte of a text is a separator or stands in a piece.
proof fn pieces_cover(text: Seq<u8>, separator: u8, at: int)
    requires
        0 <= at < text.len(),
        text[at] != separator,
    ensures
        exists|i: int, j: int|
            0 <= i < pieces(text, separator).len() && 0 <= j < pieces(text, separator)[i].len()
                && #[trigger] pieces(text, separator)[i][j] == text[at],
    decreases text.len(),
{
    let before = pieces(text.drop_last(), separator);
    let all = pieces(text, separator);
    pieces_exist(text.drop_last(), separator);
    if at == text.len() - 1 {
        assert(all[before.len() - 1][before.last().len() as int] == text[at]);
    } else {
        pieces_cover(text.drop_last(), separator, at);
        let (i, j) = choose|i: int, j: int|
            0 <= i < before.len() && 0 <= j < before[i].len() && #[trigger] before[i][j]
                == text.drop_last()[at];
        assert(all[i][j] == text[at]);
    }
}

/// A text whose pieces but the last have at most `most` bytes is no longer than they
/// allow.
proof fn pieces_bound_the_length(text: Seq<u8>, separator: u8, most: nat)
    requires
        forall|i: int|
            0 <= i < pieces(text, separator).len() - 1 ==> (#[trigger] pieces(
                text,
                separator,
            )[i]).len() <= most,
    ensures
        text.len() <= (pieces(text, separator).len() - 1) * (most + 1) + pieces(
            text,
            separator,
        ).last().len(),
    decreases text.len(),
{
    if text.len() > 0 {
        let before = pieces(text.drop_last(), separator);
        let all = pieces(text, separator);
        pieces_exist(text.drop_last(), separator);
        assert forall|i: int| 0 <= i < before.len() - 1 implies (#[trigger] before[i]).len()
            <= most by {
            assert(all[i] == before[i]);
        }
        pieces_bound_the_length(text.drop_last(), separator, most);
        if text.last() == separator {
            assert(all[before.len() - 1] == before.last());
            assert(before.len() * (most + 1) == (before.len() - 1) * (most + 1) + (most + 1))
                by (nonlinear_arith);
        }
    }
}

/// An IPv4 address is short and holds digits and dots only.
proof fn dotted_is_plain(text: Seq<u8>)
    requires
        dotted(text),
    ensures
        text.len() <= 15,
        forall|i: int| 0 <= i < text.len() ==> address_byte(#[trigger] text[i]),
{
    let found = pieces(text, DOT);
    assert forall|i: int| 0 <= i < found.len() - 1 implies (#[trigger] found[i]).len() <= 3 by {
        assert(octet(found[i]));
    }
    assert(octet(found[3]));
    pieces_bound_the_length(text, DOT, 3);
    assert forall|i: int| 0 <= i < text.len() implies address_byte(#[trigger] text[i]) by {
        if text[i] != DOT {
            pieces_cover(text, DOT, i);
            let (p, q) = choose|p: int, q: int|
                0 <= p < found.len() && 0 <= q < found[p].len() && #[trigger] found[p][q]
                    == text[i];
            assert(octet(found[p]));
            assert(decimal_digit(found[p][q]));
        }
    }
}

/// Groups are short and hold digits, colons and dots only.
proof fn groups_are_plain(text: Seq<u8>)
    requires
        grouped_tail(text),
    ensures
        text.len() <= 5 * width(text) + 5,
        forall|i: int| 0 <= i < text.len() ==> address_byte(#[trigger] text[i]),
{
    if text.len() > 0 {
        let found = pieces(text, COLON);
        pieces_exist(text, COLON);
        if dotted(found.last()) {
            dotted_is_plain(found.last());
        }
        assert forall|i: int| 0 <= i < found.len() - 1 implies (#[trigger] found[i]).len() <= 4 by {
            assert(group(found[i]));
        }
        pieces_bound_the_length(text, COLON, 4);
        assert((found.len() - 1) * (4 + 1) == 5 * (found.len() - 1)) by (nonlinear_arith);
        assert forall|i: int| 0 <= i < text.len() implies address_byte(#[trigger] text[i]) by {
            if text[i] != COLON {
                pieces_cover(text, COLON, i);
                let (p, q) = choose|p: int, q: int|
                    0 <= p < found.len() && 0 <= q < found[p].len() && #[trigger] found[p][q]
                        == text[i];
                if p < found.len() - 1 || !dotted(found.last()) {
                    assert(group(found[p]));
                    assert(hex_digit(found[p][q]));
                } else {
                    assert(address_byte(found.last()[q]));
                }
            }
        }
    }
}

/// An IP address is shorter than sixty-four bytes, has no zero byte, and is UTF-8.
pub proof fn addresses_are_plain(text: Seq<u8>)
    requires
        ip_text(text),
    ensures
        text.len() < 64,
        forall|i: int| 0 <= i < text.len() ==> (#[trigger] text[i]) != 0,
        vstd::utf8::valid_utf8(text),
{
    if dotted(text) {
        dotted_is_plain(text);
    } else if text.len() > 0 && grouped_tail(text) && width(text) == 8 {
        groups_are_plain(text);
    } else {
        let at = choose|at: int| shortened_at(text, at);
        let head = text.take(at);
        let tail = text.skip(at + 2);
        if head.len() > 0 {
            pieces_exist(head, COLON);
        }
        groups_are_plain(head);
        groups_are_plain(tail);
        assert forall|i: int| 0 <= i < text.len() implies address_byte(#[trigger] text[i]) by {
            if i < at {
                assert(text[i] == head[i]);
            } else if i >= at + 2 {
                assert(text[i] == tail[i - at - 2]);
            }
        }
    }
    assert(forall|i: int|
        0 <= i < text.len() ==> #[trigger] vstd::utf8::is_leading_byte_width_1(text[i]));
    assert(text.subrange(0, 0) =~= Seq::empty());
    assert(vstd::utf8::partial_valid_utf8(text, 0));
    vstd::utf8::partial_valid_utf8_extend_ascii_block(text, 0, text.len() as int);
    assert(text.subrange(0, text.len() as int) =~= text);
}

/// The text in which pieces stand with separators between them.
pub open spec fn joined(pieces: Seq<Seq<u8>>, separator: u8) -> Seq<u8>
    decreases pieces.len(),
{
    if pieces.len() == 0 {
        Seq::empty()
    } else if pieces.len() == 1 {
        pieces[0]
    } else {
        joined(pieces.drop_last(), separator) + seq![separator] + pieces.last()
    }
}

/// A further separator and a piece behind a text make one piece more.
proof fn piece_behind(text: Seq<u8>, separator: u8, piece: Seq<u8>)
    requires
        forall|i: int| 0 <= i < piece.len() ==> piece[i] != separator,
    ensures
        pieces(text + seq![separator] + piece, separator) == pieces(text, separator).push(piece),
    decreases piece.len(),
{
    let whole = text + seq![separator] + piece;
    if piece.len() == 0 {
        assert(whole.drop_last() =~= text);
        assert(piece =~= Seq::empty());
    } else {
        let shorter = piece.drop_last();
        piece_behind(text, separator, shorter);
        assert(whole.drop_last() =~= text + seq![separator] + shorter);
        assert(whole.last() == piece.last());
        assert(shorter.push(piece.last()) =~= piece);
        let before = pieces(text, separator).push(shorter);
        assert(before.update(before.len() - 1, before.last().push(piece.last())) =~= pieces(
            text,
            separator,
        ).push(piece));
    }
}

/// Pieces that are joined by a separator which none of them holds come apart again.
pub proof fn joined_pieces_come_apart(parts: Seq<Seq<u8>>, separator: u8)
    requires
        parts.len() > 0,
        forall|i: int, j: int|
            0 <= i < parts.len() && 0 <= j < parts[i].len() ==> (#[trigger] parts[i][j])
                != separator,
    ensures
        pieces(joined(parts, separator), separator) == parts,
    decreases parts.len(),
{
    if parts.len() == 1 {
        unseparated(parts[0], separator);
        assert(parts =~= seq![parts[0]]);
    } else {
        let front = parts.drop_last();
        assert forall|i: int, j: int|
            0 <= i < front.len() && 0 <= j < front[i].len() implies (#[trigger] front[i][j])
            != separator by {
            assert(parts[i][j] != separator);
        }
        joined_pieces_come_apart(front, separator);
        let last = parts.last();
        assert forall|j: int| 0 <= j < last.len() implies last[j] != separator by {
            assert(parts[parts.len() - 1][j] != separator);
        }
        piece_behind(joined(front, separator), separator, last);
        assert(front.push(last) =~= parts);
    }
}

/// The pieces of a text, joined by the separator, are the text.
pub proof fn pieces_join_to_their_text(text: Seq<u8>, separator: u8)
    ensures
        pieces(text, separator).len() > 0,
        joined(pieces(text, separator), separator) == text,
    decreases text.len(),
{
    if text.len() == 0 {
        assert(text =~= Seq::empty());
    } else {
        let front = text.drop_last();
        pieces_join_to_their_text(front, separator);
        let before = pieces(front, separator);
        let all = pieces(text, separator);
        assert(front.push(text.last()) =~= text);
        if text.last() == separator {
            assert(all.drop_last() =~= before);
            assert(joined(all, separator) =~= text);
        } else if before.len() == 1 {
            assert(joined(all, separator) =~= text);
        } else {
            assert(all.drop_last() =~= before.drop_last());
            assert(joined(all, separator) =~= text);
        }
    }
}

/// A decimal number of an address has one to three digits, does not begin with a zero
/// unless it is zero, and is at most 255.
pub proof fn numbers_of_an_address_fit_a_byte(a: u8, b: u8, c: u8)
    ensures
        octet(seq![a]) <==> 0x30 <= a <= 0x39,
        octet(seq![a, b]) <==> 0x31 <= a <= 0x39 && 0x30 <= b <= 0x39,
        octet(seq![a, b, c]) <==> {
            &&& 0x31 <= a <= 0x39
            &&& 0x30 <= b <= 0x39
            &&& 0x30 <= c <= 0x39
            &&& 100 * (a - 0x30) + 10 * (b - 0x30) + (c - 0x30) <= 255
        },
        forall|piece: Seq<u8>| piece.len() == 0 || piece.len() > 3 ==> !#[trigger] octet(piece),
{
    let one = seq![a];
    let two = seq![a, b];
    let three = seq![a, b, c];
    assert(one[0] == a);
    assert(two[0] == a && two[1] == b);
    assert(three[0] == a && three[1] == b && three[2] == c);
}

/// Four numbers up to 255 with dots between them are an address.
pub proof fn four_numbers_make_an_address(a: Seq<u8>, b: Seq<u8>, c: Seq<u8>, d: Seq<u8>)
    requires
        octet(a),
        octet(b),
        octet(c),
        octet(d),
    ensures
        ip_text(a + seq![0x2Eu8] + b + seq![0x2Eu8] + c + seq![0x2Eu8] + d),
        dotted(a + seq![0x2Eu8] + b + seq![0x2Eu8] + c + seq![0x2Eu8] + d),
{
    let two = a + seq![0x2Eu8] + b;
    let three = two + seq![0x2Eu8] + c;
    unseparated(a, 0x2E);
    piece_behind(a, 0x2E, b);
    piece_behind(two, 0x2E, c);
    piece_behind(three, 0x2E, d);
    let found = pieces(three + seq![0x2Eu8] + d, 0x2E);
    assert(found =~= seq![a, b, c, d]);
}

/// An address with dots is four numbers up to 255 with dots between them.
pub proof fn addresses_with_dots_have_four_numbers(text: Seq<u8>)
    requires
        dotted(text),
    ensures
        ({
            let found = pieces(text, 0x2E);
            &&& octet(found[0]) && octet(found[1]) && octet(found[2]) && octet(found[3])
            &&& text == found[0] + seq![0x2Eu8] + found[1] + seq![0x2Eu8] + found[2]
                + seq![0x2Eu8] + found[3]
        }),
{
    let found = pieces(text, 0x2E);
    pieces_join_to_their_text(text, 0x2E);
    reveal_with_fuel(joined, 4);
}

/// A group has one to four hexadecimal digits of either case.
pub proof fn groups_are_hexadecimal(piece: Seq<u8>)
    ensures
        group(piece) <==> {
            &&& 1 <= piece.len() <= 4
            &&& forall|i: int|
                0 <= i < piece.len() ==> {
                    ||| 0x30 <= #[trigger] piece[i] <= 0x39
                    ||| 0x41 <= piece[i] <= 0x46
                    ||| 0x61 <= piece[i] <= 0x66
                }
        },
{
}

/// No group holds a colon.
proof fn groups_hold_no_colon(parts: Seq<Seq<u8>>)
    requires
        forall|i: int| 0 <= i < parts.len() ==> group(#[trigger] parts[i]),
    ensures
        forall|i: int, j: int|
            0 <= i < parts.len() && 0 <= j < parts[i].len() ==> (#[trigger] parts[i][j]) != 0x3A,
{
    assert forall|i: int, j: int| 0 <= i < parts.len() && 0 <= j < parts[i].len() implies (
    #[trigger] parts[i][j]) != 0x3A by {
        assert(group(parts[i]));
        assert(hex_digit(parts[i][j]));
    }
}

/// Groups that are joined by colons are as wide as they are many.
proof fn joined_groups(parts: Seq<Seq<u8>>)
    requires
        parts.len() > 0,
        forall|i: int| 0 <= i < parts.len() ==> group(#[trigger] parts[i]),
    ensures
        joined(parts, 0x3A).len() > 0,
        pieces(joined(parts, 0x3A), 0x3A) == parts,
        grouped(joined(parts, 0x3A)),
        grouped_tail(joined(parts, 0x3A)),
        width(joined(parts, 0x3A)) == parts.len(),
{
    groups_hold_no_colon(parts);
    joined_pieces_come_apart(parts, 0x3A);
    assert(group(parts.last()));
    if dotted(parts.last()) {
        dotted_is_no_group(parts.last());
    }
    if joined(parts, 0x3A).len() == 0 {
        assert(pieces(joined(parts, 0x3A), 0x3A)[0].len() == 0);
        assert(group(parts[0]));
    }
}

/// Eight groups with colons between them are an address.
pub proof fn eight_groups_make_an_address(parts: Seq<Seq<u8>>)
    requires
        parts.len() == 8,
        forall|i: int| 0 <= i < parts.len() ==> group(#[trigger] parts[i]),
    ensures
        ip_text(joined(parts, 0x3A)),
{
    joined_groups(parts);
}

/// Two colons stand for at least one group: with up to seven groups in front of them and
/// behind them, taken together, they make an address.
pub proof fn two_colons_stand_for_groups(front: Seq<Seq<u8>>, behind: Seq<Seq<u8>>)
    requires
        front.len() + behind.len() <= 7,
        forall|i: int| 0 <= i < front.len() ==> group(#[trigger] front[i]),
        forall|i: int| 0 <= i < behind.len() ==> group(#[trigger] behind[i]),
    ensures
        ip_text(joined(front, 0x3A) + seq![0x3Au8, 0x3Au8] + joined(behind, 0x3A)),
{
    let left = joined(front, 0x3A);
    let right = joined(behind, 0x3A);
    let text = left + seq![0x3Au8, 0x3Au8] + right;
    let at = left.len() as int;
    if front.len() > 0 {
        joined_groups(front);
    }
    if behind.len() > 0 {
        joined_groups(behind);
    }
    assert(text.take(at) =~= left);
    assert(text.skip(at + 2) =~= right);
    assert(text[at] == 0x3A && text[at + 1] == 0x3A);
    assert(shortened_at(text, at));
}

/// Where two colons stand for groups, at most seven are written out.
pub proof fn shortened_addresses_leave_a_group_out(text: Seq<u8>, at: int)
    requires
        shortened_at(text, at),
    ensures
        width(text.take(at)) + width(text.skip(at + 2)) <= 7,
        text[at] == 0x3A && text[at + 1] == 0x3A,
{
}

} // verus!
