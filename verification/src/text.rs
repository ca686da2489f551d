//! Text: comparison, prefixes, decimal numbers.
use vstd::prelude::*;
use vstd::string::*;

verus! {

/// Whether two texts have the same characters.
pub fn same_text(left: &str, right: &str) -> (same: bool)
    ensures
        same == (left@ == right@),
{
    left.to_owned() == right.to_owned()
}

/// What follows a prefix, where the text begins with it.
pub open spec fn after_prefix(text: Seq<char>, prefix: Seq<char>) -> Option<Seq<char>> {
    if prefix.is_prefix_of(text) {
        Some(text.skip(prefix.len() as int))
    } else {
        None
    }
}

/// Returns what follows a prefix, where the text begins with it.
pub fn strip_prefix<'a>(text: &'a str, prefix: &str) -> (rest: Option<&'a str>)
    ensures
        match rest {
            Some(found) => after_prefix(text@, prefix@) == Some(found@),
            None => after_prefix(text@, prefix@) is None,
        },
{
    let length: usize = text.unicode_len();
    let skipped: usize = prefix.unicode_len();
    if length < skipped {
        return None;
    }
    if same_text(text.substring_char(0, skipped), prefix) {
        let rest = text.substring_char(skipped, length);
        assert(rest@ =~= text@.skip(skipped as int));
        assert(text@.subrange(0, skipped as int) =~= prefix@);
        assert(prefix@.is_prefix_of(text@));
        Some(rest)
    } else {
        assert(prefix@.is_prefix_of(text@) ==> text@.subrange(0, skipped as int) =~= prefix@);
        None
    }
}

/// Whether a character has the Unicode property White_Space.
pub open spec fn white_space(c: char) -> bool {
    let code = c as u32;
    ||| 0x9 <= code <= 0xD
    ||| code == 0x20
    ||| code == 0x85
    ||| code == 0xA0
    ||| code == 0x1680
    ||| 0x2000 <= code <= 0x200A
    ||| code == 0x2028
    ||| code == 0x2029
    ||| code == 0x202F
    ||| code == 0x205F
    ||| code == 0x3000
}

/// Returns whether a character has the Unicode property White_Space.
fn is_white_space(c: char) -> (white: bool)
    ensures
        white == white_space(c),
{
    let code: u32 = c as u32;
    (0x9 <= code && code <= 0xD) || code == 0x20 || code == 0x85 || code == 0xA0 || code == 0x1680
        || (0x2000 <= code && code <= 0x200A) || code == 0x2028 || code == 0x2029 || code == 0x202F
        || code == 0x205F || code == 0x3000
}

/// What the `Debug` form of a text is.
pub uninterp spec fn debug_text(text: Seq<char>) -> Seq<char>;

/// Writes a text in its `Debug` form, with `format!`.
///
/// Claimed of the standard library: the form is a function of the text. That it stands in
/// quotes, with escapes where the text needs them, is left unsaid.
#[verifier::external_body]
pub(crate) fn quoted(text: &str) -> (shown: String)
    ensures
        shown@ == debug_text(text@),
{
    format!("{text:?}")
}

/// Whether a text is free of white space and of the characters that end the
/// authority part of a URL or separate user information from a host.
pub open spec fn plain_authority(text: Seq<char>) -> bool {
    forall|i: int| 0 <= i < text.len() ==> !breaks_authority(#[trigger] text[i])
}

/// Whether a character may not stand in an authority.
pub open spec fn breaks_authority(c: char) -> bool {
    c == '/' || c == '?' || c == '#' || c == '@' || white_space(c)
}

/// Decides [`plain_authority`].
pub fn is_plain_authority(text: &str) -> (plain: bool)
    ensures
        plain == plain_authority(text@),
{
    let mut plain = true;
    for c in it: text.chars()
        invariant
            it.seq() == text@,
            plain == (forall|i: int| 0 <= i < it.index() ==> !breaks_authority(#[trigger] text@[i])),
    {
        if c == '/' || c == '?' || c == '#' || c == '@' || is_white_space(c) {
            plain = false;
        }
    }
    plain
}

/// The character of a decimal digit.
pub open spec fn digit_char(digit: nat) -> char {
    (48 + digit) as char
}

/// The decimal digits of a number.
pub open spec fn decimal(number: nat) -> Seq<char>
    decreases number,
{
    if number < 10 {
        seq![digit_char(number)]
    } else {
        decimal(number / 10).push(digit_char(number % 10))
    }
}

fn digit_text(digit: u64) -> (text: &'static str)
    requires
        digit < 10,
    ensures
        text@ == seq![digit_char(digit as nat)],
{
    proof {
        reveal_strlit("0");
        reveal_strlit("1");
        reveal_strlit("2");
        reveal_strlit("3");
        reveal_strlit("4");
        reveal_strlit("5");
        reveal_strlit("6");
        reveal_strlit("7");
        reveal_strlit("8");
        reveal_strlit("9");
    }
    let text = match digit {
        0 => "0",
        1 => "1",
        2 => "2",
        3 => "3",
        4 => "4",
        5 => "5",
        6 => "6",
        7 => "7",
        8 => "8",
        _ => "9",
    };
    assert(text@ =~= seq![digit_char(digit as nat)]);
    text
}

/// Writes a number in decimal.
pub fn decimal_text(number: u64) -> (text: String)
    ensures
        text@ == decimal(number as nat),
    decreases number,
{
    if number < 10 {
        digit_text(number).to_owned()
    } else {
        let mut text = decimal_text(number / 10);
        text.append(digit_text(number % 10));
        assert(text@ =~= decimal(number as nat));
        text
    }
}

/// Whether every character is a decimal digit.
pub open spec fn all_digits(text: Seq<char>) -> bool {
    forall|i: int| 0 <= i < text.len() ==> 48 <= (#[trigger] text[i]) as u32 <= 57
}

/// The number that a row of digits stands for.
pub open spec fn digits_value(text: Seq<char>) -> nat
    decreases text.len(),
{
    if text.len() == 0 {
        0
    } else {
        digits_value(text.drop_last()) * 10 + (text.last() as u32 - 48) as nat
    }
}

/// The digits of an unsigned number: what follows an optional plus sign.
pub open spec fn unsigned_digits(text: Seq<char>) -> Seq<char> {
    if text.len() > 0 && text[0] == '+' {
        text.skip(1)
    } else {
        text
    }
}

/// The unsigned number of 64 bits that a text stands for: an optional plus sign and
/// at least one digit.
pub open spec fn parsed_u64(text: Seq<char>) -> Option<u64> {
    let digits = unsigned_digits(text);
    if digits.len() > 0 && all_digits(digits) && digits_value(digits) <= u64::MAX {
        Some(digits_value(digits) as u64)
    } else {
        None
    }
}

/// Reads an unsigned number of 64 bits.
pub fn parse_u64(text: &str) -> (number: Option<u64>)
    ensures
        number == parsed_u64(text@),
{
    let length: usize = text.unicode_len();
    let digits = if length > 0 && text.get_char(0) == '+' {
        text.substring_char(1, length)
    } else {
        text
    };
    assert(digits@ =~= unsigned_digits(text@));
    if digits.is_empty() {
        return None;
    }
    let mut valid = true;
    let mut overflow = false;
    let mut number: u64 = 0;
    assert(digits@.take(0) =~= Seq::<char>::empty());
    for c in it: digits.chars()
        invariant
            it.seq() == digits@,
            valid == all_digits(digits@.take(it.index())),
            valid && overflow ==> digits_value(digits@.take(it.index())) > u64::MAX,
            valid && !overflow ==> number == digits_value(digits@.take(it.index())),
    {
        let ghost before = digits@.take(it.index());
        let ghost now = digits@.take(it.index() + 1);
        assert(now =~= before.push(c));
        assert(now.drop_last() =~= before);
        let code: u32 = c as u32;
        proof {
            assert(all_digits(now) == (all_digits(before) && 48 <= c as u32 <= 57)) by {
                if all_digits(now) {
                    assert forall|i: int| 0 <= i < before.len() implies 48
                        <= (#[trigger] before[i]) as u32 <= 57 by {
                        assert(now[i] == before[i]);
                    }
                    assert(now[before.len() as int] == c);
                }
            }
        }
        if code < 48 || code > 57 {
            valid = false;
        } else if !overflow {
            let digit: u64 = (code - 48) as u64;
            match number.checked_mul(10) {
                Some(shifted) => match shifted.checked_add(digit) {
                    Some(sum) => {
                        number = sum;
                    },
                    None => {
                        overflow = true;
                    },
                },
                None => {
                    overflow = true;
                },
            }
        }
    }
    assert(digits@.take(digits@.len() as int) =~= digits@);
    if valid && !overflow {
        Some(number)
    } else {
        None
    }
}

proof fn decimal_is_digits(number: nat)
    ensures
        decimal(number).len() > 0,
        all_digits(decimal(number)),
        digits_value(decimal(number)) == number,
    decreases number,
{
    if number < 10 {
        assert(decimal(number).drop_last() =~= Seq::<char>::empty());
        assert(digits_value(Seq::<char>::empty()) == 0);
    } else {
        decimal_is_digits(number / 10);
        assert(decimal(number).drop_last() =~= decimal(number / 10));
    }
}

/// A number that is written in decimal reads back as itself.
pub proof fn decimal_reads_back(number: u64)
    ensures
        parsed_u64(decimal(number as nat)) == Some(number),
{
    decimal_is_digits(number as nat);
    assert(48 <= decimal(number as nat)[0] as u32);
    assert(unsigned_digits(decimal(number as nat)) == decimal(number as nat));
}

/// What follows a prefix is what has to be put behind the prefix to get the text back.
pub proof fn prefixes_are_put_back(text: Seq<char>, prefix: Seq<char>, rest: Seq<char>)
    ensures
        after_prefix(prefix + rest, prefix) == Some(rest),
        after_prefix(text, prefix) matches Some(found) ==> prefix + found == text,
{
    assert((prefix + rest).skip(prefix.len() as int) =~= rest);
    assert(prefix.is_prefix_of(prefix + rest));
    if let Some(found) = after_prefix(text, prefix) {
        assert(prefix + found =~= text);
    }
}

/// A digit behind a number is worth its value and ten times the number; a plus sign in
/// front changes nothing, and no other character may stand in a number.
pub proof fn numbers_are_read_by_place(text: Seq<char>, digit: char)
    requires
        text.len() > 0,
        all_digits(text),
    ensures
        '0' <= digit && digit <= '9' ==> {
            &&& digits_value(text.push(digit)) == 10 * digits_value(text) + (digit as u32
                - '0' as u32)
            &&& digits_value(text.push(digit)) <= u64::MAX ==> parsed_u64(text.push(digit))
                == Some(digits_value(text.push(digit)) as u64)
            &&& digits_value(text.push(digit)) > u64::MAX ==> parsed_u64(text.push(digit)) is None
        },
        !('0' <= digit && digit <= '9') ==> parsed_u64(text.push(digit)) is None,
        parsed_u64(seq!['+'] + text) == parsed_u64(text),
        parsed_u64(Seq::<char>::empty()) is None,
        parsed_u64(seq!['+']) is None,
{
    let longer = text.push(digit);
    assert(longer.drop_last() =~= text);
    assert(longer[0] == text[0]);
    assert(48 <= text[0] as u32 <= 57);
    assert(longer[text.len() as int] == digit);
    if '0' <= digit && digit <= '9' {
        assert(all_digits(longer));
    }
    assert((seq!['+'] + text).skip(1) =~= text);
    assert(seq!['+'].skip(1) =~= Seq::<char>::empty());
}

/// A slash, a question mark, a hash, an at sign or white space anywhere spoils an authority;
/// without them, letters, digits, dots, hyphens and colons never do.
pub proof fn authorities_are_plain(text: Seq<char>, at: int)
    requires
        0 <= at < text.len(),
    ensures
        text[at] == '/' || text[at] == '?' || text[at] == '#' || text[at] == '@' || text[at]
            == ' ' || text[at] == '\t' || text[at] == '\n' || text[at] == '\r' || text[at]
            == '\u{a0}' || text[at] == '\u{2003}' || text[at] == '\u{3000}' ==> !plain_authority(
            text,
        ),
        (forall|i: int|
            0 <= i < text.len() ==> {
                ||| 'a' <= #[trigger] text[i] && text[i] <= 'z'
                ||| 'A' <= text[i] && text[i] <= 'Z'
                ||| '0' <= text[i] && text[i] <= '9'
                ||| text[i] == '.'
                ||| text[i] == '-'
                ||| text[i] == ':'
            }) ==> plain_authority(text),
{
    if plain_authority(text) {
        assert(!breaks_authority(text[at]));
    }
}

/// What spoils an authority: the four characters that end it or part it, and white space, which
/// is a tab, the line ends, a space and their kin beyond. Every other character may stand in it.
pub proof fn few_characters_spoil_an_authority(c: char)
    ensures
        !plain_authority(seq![c]) <==> {
            ||| c == '/' || c == '?' || c == '#' || c == '@'
            ||| c == ' ' || '\u{9}' <= c && c <= '\u{d}'
            ||| c == '\u{85}' || c == '\u{a0}' || c == '\u{1680}'
            ||| '\u{2000}' <= c && c <= '\u{200a}'
            ||| c == '\u{2028}' || c == '\u{2029}' || c == '\u{202f}' || c == '\u{205f}'
            ||| c == '\u{3000}'
        },
{
    let text = seq![c];
    assert(text[0] == c);
    if plain_authority(text) {
        assert(!breaks_authority(text[0]));
    }
}

/// A digit is written as its character, a number of more digits as the number without the last
/// one and that digit behind it.
pub proof fn digits_are_written_in_order(number: nat, digit: nat)
    requires
        digit < 10,
    ensures
        digit == 0 ==> decimal(digit) == seq!['0'],
        digit == 1 ==> decimal(digit) == seq!['1'],
        digit == 9 ==> decimal(digit) == seq!['9'],
        decimal(digit).len() == 1 && decimal(digit)[0] as u32 == '0' as u32 + digit,
        number > 0 ==> decimal(10 * number + digit) == decimal(number) + decimal(digit),
{
    if number > 0 {
        assert((10 * number + digit) / 10 == number);
        assert((10 * number + digit) % 10 == digit);
        assert(decimal(10 * number + digit) =~= decimal(number) + decimal(digit));
    }
}

} // verus!
