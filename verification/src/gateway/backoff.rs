//! When a connection is attempted again, and when a heartbeat is due.
use vstd::prelude::*;

use crate::model::{ConnectInfo, VoiceConnectInfo};

verus! {

/// How many attempts in a row may fail.
pub const MAX_RECONNECT_ATTEMPTS: u8 = 4;

/// The shortest delay before an attempt, in milliseconds: it doubles with each of
/// the first six failures.
pub open spec fn base_delay(attempt: u8) -> u64 {
    if attempt == 0 {
        25
    } else if attempt == 1 {
        50
    } else if attempt == 2 {
        100
    } else if attempt == 3 {
        200
    } else if attempt == 4 {
        400
    } else if attempt == 5 {
        800
    } else {
        1600
    }
}

/// A user identifier rotated left by seventeen bits.
pub open spec fn rotated(id: u64) -> u64 {
    (id << 17u64) | (id >> 47u64)
}

/// The identity of a session after some of its bytes were mixed in.
pub open spec fn mixed(seed: u64, bytes: Seq<u8>) -> u64
    decreases bytes.len(),
{
    if bytes.len() == 0 {
        seed
    } else {
        (mixed(seed, bytes.drop_last()) ^ (bytes.last() as u64)).wrapping_mul(0x100_0000_01B3)
    }
}

/// The number that spreads the sessions of different users over time.
pub open spec fn session_identity(info: ConnectInfo) -> u64 {
    mixed(
        info.server_id ^ rotated(info.user_id),
        vstd::utf8::encode_utf8(info.session_id),
    )
}

/// The delay before an attempt, in milliseconds: the shortest delay and up to half of
/// it more, which depends on the session alone.
pub open spec fn delay_millis(attempt: u8, info: ConnectInfo) -> u64 {
    (base_delay(attempt) + session_identity(info).wrapping_mul(0x9E37_79B9_7F4A_7C15) % ((
    base_delay(attempt) / 2 + 1) as u64)) as u64
}

/// Computes the delay before an attempt, in milliseconds.
pub fn backoff_delay(attempt: u8, info: &VoiceConnectInfo) -> (millis: u64)
    ensures
        millis == delay_millis(attempt, info@),
        base_delay(attempt) <= millis <= base_delay(attempt) + base_delay(attempt) / 2,
{
    let base: u64 = match attempt {
        0 => 25,
        1 => 50,
        2 => 100,
        3 => 200,
        4 => 400,
        5 => 800,
        _ => 1600,
    };
    let user: u64 = info.user_id();
    let mut identity: u64 = info.server_id() ^ ((user << 17u64) | (user >> 47u64));
    let ghost seed = identity;
    let bytes = info.session_id().as_bytes();
    let mut index: usize = 0;
    assert(bytes@.take(0) =~= Seq::<u8>::empty());
    while index < bytes.len()
        invariant
            index <= bytes@.len(),
            identity == mixed(seed, bytes@.take(index as int)),
        decreases bytes@.len() - index,
    {
        let ghost before = bytes@.take(index as int);
        let ghost now = bytes@.take(index + 1);
        assert(now.drop_last() =~= before);
        assert(now.last() == bytes@[index as int]);
        identity = (identity ^ (bytes[index] as u64)).wrapping_mul(0x100_0000_01B3);
        index = index + 1;
    }
    assert(bytes@.take(index as int) =~= bytes@);
    let jitter: u64 = identity.wrapping_mul(0x9E37_79B9_7F4A_7C15) % (base / 2 + 1);
    base + jitter
}

/// The instant some nanoseconds later; the last instant of the clock is the latest.
pub open spec fn later(instant: u64, span: u64) -> u64 {
    if instant + span > u64::MAX {
        u64::MAX
    } else {
        (instant + span) as u64
    }
}

/// The nanoseconds from one instant to a later one; none the other way round.
pub open spec fn elapsed(from: u64, to: u64) -> u64 {
    if to >= from {
        (to - from) as u64
    } else {
        0
    }
}

/// The deadline after a deadline: one interval later, or one interval from now where
/// that has passed already.
pub open spec fn following_deadline(previous: u64, interval: u64, now: u64) -> u64 {
    if later(previous, interval) <= now {
        later(now, interval)
    } else {
        later(previous, interval)
    }
}

/// Computes the deadline after a deadline.
pub fn next_deadline(previous: u64, interval: u64, now: u64) -> (deadline: u64)
    ensures
        deadline == following_deadline(previous, interval, now),
{
    let next: u64 = previous.saturating_add(interval);
    if next <= now {
        now.saturating_add(interval)
    } else {
        next
    }
}

/// The next deadline is never in the past: a missed one is not made up for.
pub proof fn deadlines_do_not_pile_up(previous: u64, interval: u64, now: u64)
    requires
        interval > 0,
        now < u64::MAX,
    ensures
        following_deadline(previous, interval, now) > now,
{
}

/// The shortest delay doubles with each of the first six failures and stays from there on.
/// The delay adds at most half of it, so no delay is longer than the shortest of the
/// attempt after next.
pub proof fn delays_double(attempt: u8, info: ConnectInfo)
    ensures
        base_delay(0) == 25,
        attempt < 6 ==> base_delay((attempt + 1) as u8) == 2 * base_delay(attempt),
        attempt >= 6 ==> base_delay(attempt) == base_delay(6),
        base_delay(attempt) <= delay_millis(attempt, info),
        2 * delay_millis(attempt, info) <= 3 * base_delay(attempt),
{
}

/// The delay depends on the session alone: on the server, the user and the session, and on
/// no credential, endpoint or channel.
pub proof fn delays_depend_on_the_session_alone(attempt: u8, left: ConnectInfo, right: ConnectInfo)
    requires
        left.server_id == right.server_id,
        left.user_id == right.user_id,
        left.session_id == right.session_id,
    ensures
        delay_millis(attempt, left) == delay_millis(attempt, right),
{
}

/// A deadline that is answered before the next one comes is followed by the one an interval
/// behind it, whatever the lateness. One that is answered later is followed by the instant
/// an interval behind the answer.
pub proof fn deadlines_follow_at_the_interval(previous: u64, interval: u64, now: u64)
    requires
        previous + interval <= u64::MAX,
        now + interval <= u64::MAX,
    ensures
        now < previous + interval ==> following_deadline(previous, interval, now) - previous
            == interval,
        now >= previous + interval ==> following_deadline(previous, interval, now) - now
            == interval,
{
}

/// Two spans one behind the other lead as far as their sum; what has elapsed of a span is
/// the span itself, and nothing has elapsed of what lies ahead.
pub proof fn spans_measure_back(instant: u64, span: u64)
    requires
        instant + span <= u64::MAX,
    ensures
        later(instant, span) - instant == span,
        elapsed(instant, later(instant, span)) == span,
        elapsed(later(instant, span), instant) == 0,
        forall|beyond: u64| instant + beyond > u64::MAX ==> #[trigger] later(instant, beyond)
            == u64::MAX,
{
}

/// Multiplying by a number and by its inverse, each time within 64 bits, leads back.
proof fn inverse_leads_back(value: u64, factor: u64, inverse: u64)
    requires
        (factor * inverse) % 0x1_0000_0000_0000_0000 == 1,
    ensures
        value.wrapping_mul(factor).wrapping_mul(inverse) == value,
{
    let modulus: int = 0x1_0000_0000_0000_0000;
    let product = value * factor;
    assert((product % modulus) * inverse % modulus == (product * inverse) % modulus) by {
        vstd::arithmetic::div_mod::lemma_mul_mod_noop_left(product, inverse as int, modulus);
    }
    assert(product * inverse == value * (factor * inverse)) by (nonlinear_arith)
        requires
            product == value * factor,
    ;
    vstd::arithmetic::div_mod::lemma_mul_mod_noop_right(
        value as int,
        factor * inverse,
        modulus,
    );
    assert((value * (factor * inverse)) % modulus == (value * 1) % modulus);
    assert(value as int % modulus == value) by {
        vstd::arithmetic::div_mod::lemma_small_mod(value as nat, modulus as nat);
    }
}

/// Every byte of the session identifier counts, and so does its place: the last one can be
/// taken out of the identity again, with the inverse of the factor that mixed it in. So
/// identifiers that differ in it have different identities, for whatever server and user.
pub proof fn every_byte_of_the_session_counts(seed: u64, bytes: Seq<u8>, byte: u8, other: u8)
    ensures
        mixed(seed, Seq::<u8>::empty()) == seed,
        mixed(seed, bytes.push(byte)).wrapping_mul(0xCE96_5057_AFF6_957B) == mixed(seed, bytes) ^ (
        byte as u64),
        byte != other ==> mixed(seed, bytes.push(byte)) != mixed(seed, bytes.push(other)),
{
    assert(bytes.push(byte).drop_last() =~= bytes);
    assert(bytes.push(other).drop_last() =~= bytes);
    let before = mixed(seed, bytes);
    assert((0x100_0000_01B3u64 * 0xCE96_5057_AFF6_957Bu64) % 0x1_0000_0000_0000_0000 == 1);
    inverse_leads_back(before ^ (byte as u64), 0x100_0000_01B3, 0xCE96_5057_AFF6_957B);
    inverse_leads_back(before ^ (other as u64), 0x100_0000_01B3, 0xCE96_5057_AFF6_957B);
    let first: u64 = byte as u64;
    let second: u64 = other as u64;
    assert(before ^ first == before ^ second ==> first == second) by (bit_vector);
}

/// A session without an identifier is known by its server and its user, whose bits are
/// rotated by seventeen places: what leaves at the top comes back at the bottom.
pub proof fn servers_and_users_are_combined(info: ConnectInfo)
    requires
        vstd::utf8::encode_utf8(info.session_id).len() == 0,
    ensures
        session_identity(info) ^ info.server_id == rotated(info.user_id),
        rotated(info.user_id) / 0x2_0000 == info.user_id % 0x8000_0000_0000,
        rotated(info.user_id) % 0x2_0000 == info.user_id / 0x8000_0000_0000,
{
    let server = info.server_id;
    let user = info.user_id;
    assert(vstd::utf8::encode_utf8(info.session_id) =~= Seq::<u8>::empty());
    assert((server ^ ((user << 17u64) | (user >> 47u64))) ^ server == ((user << 17u64) | (user
        >> 47u64))) by (bit_vector);
    assert(((user << 17u64) | (user >> 47u64)) / 0x2_0000u64 == user % 0x8000_0000_0000u64)
        by (bit_vector);
    assert(((user << 17u64) | (user >> 47u64)) % 0x2_0000u64 == user / 0x8000_0000_0000u64)
        by (bit_vector);
}

/// What a delay adds is spread over the whole of its half: for each of its milliseconds the
/// sessions of one identity, which the inverse of the spreading factor tells, wait just that
/// much longer.
pub proof fn delays_are_spread_by_the_identity(attempt: u8, info: ConnectInfo, more: u64)
    requires
        2 * more <= base_delay(attempt),
        session_identity(info) == more.wrapping_mul(0xF1DE_83E1_9937_733D),
    ensures
        delay_millis(attempt, info) == base_delay(attempt) + more,
{
    assert((0xF1DE_83E1_9937_733Du64 * 0x9E37_79B9_7F4A_7C15u64) % 0x1_0000_0000_0000_0000 == 1);
    inverse_leads_back(more, 0xF1DE_83E1_9937_733D, 0x9E37_79B9_7F4A_7C15);
    vstd::arithmetic::div_mod::lemma_small_mod(
        more as nat,
        (base_delay(attempt) / 2 + 1) as nat,
    );
}

} // verus!
