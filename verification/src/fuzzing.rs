//! Entry points that run the decoders and the DAVE owner on arbitrary bytes. What they
//! promise on every input is proved.
use vstd::prelude::*;

use crate::dave::{Control, Core, CoreState, OutboundValue, Step, MAX_PROTOCOL_VERSION};
use crate::error::DaveFailure;
use crate::gateway::decode::{
    decode_dave_binary_envelope, decode_dave_json_control, decode_dave_roster,
    decode_disconnected_user, parse_ready, DaveBinaryEnvelopeError,
};
use crate::gateway::dispatch::TextMessage;
use crate::model::ConnectionGeneration;
use crate::transport::{parse_discovery_response, DiscoveredAddress};
use crate::wire::{copy_range, read_be16, read_be32};

verus! {

/// How many controls one input holds at most.
pub const MAX_CONTROLS: usize = 64;

/// The longest input for a run of controls.
pub const MAX_CONTROL_INPUT: usize = 1_048_576;

/// The longest frame that a run of controls encrypts.
pub const MAX_FUZZ_FRAME: usize = 1_275;

/// What became of an input as a binary message within a bound.
#[derive(Clone, Copy, Debug, PartialEq, Eq, Structural)]
pub enum EnvelopeOutcome {
    Malformed,
    BodyTooLarge,
    /// Whether the message carries a control.
    Decoded { sequence: u16, control: bool },
}

/// Whether a body is too short for its opcode.
pub open spec fn short_body(opcode: u8, body: int) -> bool {
    ||| opcode == 25 && body < 4
    ||| opcode == 27 && body < 2
    ||| (opcode == 29 || opcode == 30) && body < 3
}

/// What is expected of an input as a binary message: a sequence number and an opcode,
/// a body within the bound and long enough for the opcode, and of proposals one of the
/// two operations.
pub open spec fn envelope_outcome(input: Seq<u8>, maximum: int) -> EnvelopeOutcome {
    let body = input.len() - 3;
    if body < 0 {
        EnvelopeOutcome::Malformed
    } else if body > maximum {
        EnvelopeOutcome::BodyTooLarge
    } else if short_body(input[2], body) || (input[2] == 27 && input[3] > 1) {
        EnvelopeOutcome::Malformed
    } else {
        EnvelopeOutcome::Decoded {
            sequence: crate::wire::be16_value(input[0], input[1]),
            control: input[2] == 25 || input[2] == 27 || input[2] == 29 || input[2] == 30,
        }
    }
}

/// Decodes an input as a binary message within a bound.
fn decode_within(input: &[u8], maximum: usize) -> (outcome: EnvelopeOutcome)
    ensures
        outcome == envelope_outcome(input@, maximum as int),
{
    match decode_dave_binary_envelope(input, maximum) {
        Err(DaveBinaryEnvelopeError::Malformed) => EnvelopeOutcome::Malformed,
        Err(DaveBinaryEnvelopeError::BodyTooLarge) => EnvelopeOutcome::BodyTooLarge,
        Ok((sequence, control)) => EnvelopeOutcome::Decoded {
            sequence,
            control: control.is_some(),
        },
    }
}

/// Decodes an input as a binary message under four bounds: no body, one byte less than
/// the body, the body, and the bound of a gateway message.
pub fn dave_binary_envelope(input: &[u8]) -> (outcomes: [EnvelopeOutcome; 4])
    ensures
        ({
            let exact = if input@.len() < 3 {
                0
            } else {
                input@.len() - 3
            };
            let less = if exact == 0 {
                0
            } else {
                exact - 1
            };
            &&& outcomes@[0] == envelope_outcome(input@, 0)
            &&& outcomes@[1] == envelope_outcome(input@, less)
            &&& outcomes@[2] == envelope_outcome(input@, exact)
            &&& outcomes@[3] == envelope_outcome(input@, 1_048_576)
        }),
{
    let exact: usize = input.len().saturating_sub(3);
    [
        decode_within(input, 0),
        decode_within(input, exact.saturating_sub(1)),
        decode_within(input, exact),
        decode_within(input, 1_048_576),
    ]
}

/// A byte of an input; zero behind its end.
pub open spec fn padded(input: Seq<u8>, index: int) -> u8 {
    if 0 <= index < input.len() {
        input[index]
    } else {
        0
    }
}

fn byte_at(input: &[u8], index: usize) -> (byte: u8)
    ensures
        byte == padded(input@, index as int),
{
    if index < input.len() {
        input[index]
    } else {
        0
    }
}

/// The two bytes of an input at an offset.
pub open spec fn prefixed_u16(input: Seq<u8>, offset: int) -> u16 {
    crate::wire::be16_value(padded(input, offset), padded(input, offset + 1))
}

/// Reads two bytes of an input at an offset, most significant byte first.
pub fn prefix_u16(input: &[u8], offset: usize) -> (value: u16)
    requires
        offset < usize::MAX,
    ensures
        value == prefixed_u16(input@, offset as int),
{
    read_be16(byte_at(input, offset), byte_at(input, offset + 1))
}

/// The eight bytes of an input at an offset.
pub open spec fn prefixed_u64(input: Seq<u8>, offset: int) -> u64 {
    (crate::wire::be32_value(
        padded(input, offset),
        padded(input, offset + 1),
        padded(input, offset + 2),
        padded(input, offset + 3),
    ) * 0x1_0000_0000 + crate::wire::be32_value(
        padded(input, offset + 4),
        padded(input, offset + 5),
        padded(input, offset + 6),
        padded(input, offset + 7),
    )) as u64
}

/// Reads eight bytes of an input at an offset, most significant byte first.
pub fn prefix_u64(input: &[u8], offset: usize) -> (value: u64)
    requires
        offset <= usize::MAX - 7,
    ensures
        value == prefixed_u64(input@, offset as int),
{
    let high: u32 = read_be32(
        byte_at(input, offset),
        byte_at(input, offset + 1),
        byte_at(input, offset + 2),
        byte_at(input, offset + 3),
    );
    let low: u32 = read_be32(
        byte_at(input, offset + 4),
        byte_at(input, offset + 5),
        byte_at(input, offset + 6),
        byte_at(input, offset + 7),
    );
    high as u64 * 0x1_0000_0000 + low as u64
}

/// The users that the whole groups of eight bytes in a payload name.
pub open spec fn users_in(payload: Seq<u8>) -> Seq<u64> {
    Seq::new(payload.len() / 8, |i: int| prefixed_u64(payload, 8 * i))
}

/// Reads whole groups of eight bytes as users.
fn users_of(payload: &[u8]) -> (users: Vec<u64>)
    ensures
        users@ == users_in(payload@),
{
    let total: usize = payload.len();
    let count: usize = total / 8;
    let mut users: Vec<u64> = Vec::new();
    let mut index: usize = 0;
    while index < count
        invariant
            index <= count,
            total == payload@.len(),
            count == total / 8,
            users@.len() == index,
            forall|i: int|
                0 <= i < index ==> #[trigger] users@[i] == prefixed_u64(payload@, 8 * i),
        decreases count - index,
    {
        assert(8 * index + 8 <= total);
        users.push(prefix_u64(payload, 8 * index));
        index = index + 1;
    }
    assert(users@ =~= users_in(payload@));
    users
}

/// Without readiness nothing is encrypted: the attempt is refused and the output stays
/// empty. With readiness the active version is the known one.
fn probe_owner(core: &mut Core)
    requires
        old(core).well_formed(),
    ensures
        final(core).well_formed(),
        final(core)@ == old(core)@,
        final(core)@.active_version <= MAX_PROTOCOL_VERSION,
        final(core)@.ready() ==> final(core)@.active_version == MAX_PROTOCOL_VERSION,
{
    let snapshot = core.snapshot();
    proof {
        core.well_formed_is_valid();
        crate::dave::ready_needs_the_active_version(core@);
    }
    if !snapshot.ready {
        let frame = [0x6du8, 0x75u8, 0x73u8, 0x74u8];
        let mut output: Vec<u8> = Vec::new();
        let refused = core.encrypt_into(frame.as_slice(), &mut output);
        assert(refused matches Err(DaveFailure::InvalidState));
        assert(output@.len() == 0);
        proof {
            core.well_formed_is_valid();
            crate::dave::ready_needs_the_active_version(core@);
        }
    }
}

/// Whether an action with this payload stands for a control. Its kind is the last decimal
/// digit of its byte; numbers are read off the front of the payload.
pub open spec fn stands_for(action: u8, payload: Seq<u8>, control: Control) -> bool {
    match control {
        Control::PrepareTransition { protocol_version, id } => {
            &&& action % 10 == 0
            &&& protocol_version == prefixed_u16(payload, 0)
            &&& id == prefixed_u16(payload, 2)
        },
        Control::ExecuteTransition { id } => {
            &&& action % 10 == 1
            &&& id == prefixed_u16(payload, 0)
        },
        Control::PrepareEpoch { protocol_version, epoch } => {
            &&& action % 10 == 2
            &&& protocol_version == prefixed_u16(payload, 0)
            &&& epoch == prefixed_u64(payload, 2)
        },
        Control::ExternalSender(bytes) => action % 10 == 3 && bytes@ == payload,
        Control::Proposals(bytes) => action % 10 == 4 && bytes@ == payload,
        Control::Commit(bytes) => action % 10 == 5 && bytes@ == payload,
        Control::Welcome(bytes) => action % 10 == 6 && bytes@ == payload,
        Control::Roster(users) => action % 10 == 7 && users@ == users_in(payload),
        Control::MemberDisconnected(user) => {
            &&& action % 10 == 8
            &&& user == prefixed_u64(payload, 0)
        },
    }
}

/// What an action does to an owner. The last kind encrypts a frame, which an owner that
/// is not ready refuses; every other kind is a control.
pub open spec fn acted(
    before: CoreState,
    action: u8,
    payload: Seq<u8>,
    after: CoreState,
) -> bool {
    if action % 10 == 9 {
        &&& after == before.with_backend(after.backend)
        &&& after.snapshot() == before.snapshot()
        &&& !before.ready() ==> after == before
    } else {
        exists|control: Control, result: Result<Seq<OutboundValue>, DaveFailure>|
            {
                &&& #[trigger] stands_for(action, payload, control)
                &&& #[trigger] (Step { before, after, result }).controlled(control)
            }
    }
}

/// Runs one action on the owner.
fn run_action(core: &mut Core, action: u8, payload: &[u8])
    requires
        old(core).well_formed(),
    ensures
        final(core).well_formed(),
        acted(old(core)@, action, payload@, final(core)@),
        final(core)@.active_version <= MAX_PROTOCOL_VERSION,
        final(core)@.ready() ==> final(core)@.active_version == MAX_PROTOCOL_VERSION,
{
    let kind: u8 = action % 10;
    if kind == 9 {
        let length: usize = if payload.len() < MAX_FUZZ_FRAME {
            payload.len()
        } else {
            MAX_FUZZ_FRAME
        };
        let mut output: Vec<u8> = Vec::new();
        let encrypted = core.encrypt_into(&payload[0..length], &mut output);
        assert(encrypted is Err ==> output@.len() == 0);
    } else {
        let control = if kind == 0 {
            Control::PrepareTransition {
                protocol_version: prefix_u16(payload, 0),
                id: prefix_u16(payload, 2),
            }
        } else if kind == 1 {
            Control::ExecuteTransition { id: prefix_u16(payload, 0) }
        } else if kind == 2 {
            Control::PrepareEpoch {
                protocol_version: prefix_u16(payload, 0),
                epoch: prefix_u64(payload, 2),
            }
        } else if kind == 3 {
            Control::ExternalSender(copy_range(payload, 0, payload.len()))
        } else if kind == 4 {
            Control::Proposals(copy_range(payload, 0, payload.len()))
        } else if kind == 5 {
            Control::Commit(copy_range(payload, 0, payload.len()))
        } else if kind == 6 {
            Control::Welcome(copy_range(payload, 0, payload.len()))
        } else if kind == 7 {
            Control::Roster(users_of(payload))
        } else {
            Control::MemberDisconnected(prefix_u64(payload, 0))
        };
        assert(stands_for(action, payload@, control)) by {
            assert(payload@.subrange(0, payload@.len() as int) =~= payload@);
        }
        let result = core.control(control);
        assert((Step {
            before: old(core)@,
            after: core@,
            result: crate::dave::control_value(result),
        }).controlled(control));
    }
    probe_owner(core);
}

/// Where the payload of an action at `start` ends. It is cut at the end of the input.
pub open spec fn action_end(input: Seq<u8>, start: int) -> int {
    let declared = start + 3 + crate::wire::be16_value(input[start + 1], input[start + 2]);
    if declared < input.len() {
        declared
    } else {
        input.len() as int
    }
}

/// How many actions an input holds from `start` on, counting no more than `most`: each
/// is a byte, a length of two bytes and a payload.
pub open spec fn actions_from(input: Seq<u8>, start: int, most: nat) -> nat
    decreases most,
{
    if most == 0 || input.len() - start < 3 {
        0
    } else {
        1 + actions_from(input, action_end(input, start), (most - 1) as nat)
    }
}

/// Where an action of an input starts.
pub open spec fn action_start(input: Seq<u8>, index: int) -> int
    decreases index,
{
    if index <= 0 {
        0
    } else {
        action_end(input, action_start(input, index - 1))
    }
}

/// The byte of an action.
pub open spec fn action_at(input: Seq<u8>, index: int) -> u8 {
    input[action_start(input, index)]
}

/// The payload of an action.
pub open spec fn payload_at(input: Seq<u8>, index: int) -> Seq<u8> {
    input.subrange(action_start(input, index) + 3, action_start(input, index + 1))
}

/// Whether an action leads from one state of a course to the next.
pub open spec fn acted_at(course: Seq<CoreState>, input: Seq<u8>, index: int) -> bool {
    acted(course[index], action_at(input, index), payload_at(input, index), course[index + 1])
}

/// Whether an owner runs through these states, from the first to the last, under the
/// actions of an input.
pub open spec fn owner_course(course: Seq<CoreState>, input: Seq<u8>, ran: int) -> bool {
    &&& course.len() == ran + 1
    &&& forall|i: int| 0 <= i < ran ==> #[trigger] acted_at(course, input, i)
}

/// Whether the actions of an input lead an owner from one state to another.
pub open spec fn led(before: CoreState, input: Seq<u8>, ran: int, after: CoreState) -> bool {
    exists|course: Seq<CoreState>|
        {
            &&& #[trigger] owner_course(course, input, ran)
            &&& course.first() == before
            &&& course.last() == after
        }
}

/// Runs the actions of an input on an owner and returns how many there were. What holds
/// of the owner after every action is proved, whatever the owner was before.
pub fn run_controls(core: &mut Core, input: &[u8]) -> (ran: usize)
    requires
        old(core).well_formed(),
    ensures
        final(core).well_formed(),
        ran == actions_from(input@, 0, MAX_CONTROLS as nat),
        led(old(core)@, input@, ran as int, final(core)@),
{
    let mut start: usize = 0;
    let mut count: usize = 0;
    let ghost mut course: Seq<CoreState> = seq![core@];
    while count < MAX_CONTROLS
        invariant
            core.well_formed(),
            start <= input@.len(),
            count <= MAX_CONTROLS,
            start == action_start(input@, count as int),
            actions_from(input@, 0, MAX_CONTROLS as nat) == count + actions_from(
                input@,
                start as int,
                (MAX_CONTROLS - count) as nat,
            ),
            owner_course(course, input@, count as int),
            course.first() == old(core)@,
            course.last() == core@,
        decreases MAX_CONTROLS - count,
    {
        if input.len() - start < 3 {
            return count;
        }
        let action: u8 = input[start];
        let declared: usize = read_be16(input[start + 1], input[start + 2]) as usize;
        let from: usize = start + 3;
        let length: usize = if declared < input.len() - from {
            declared
        } else {
            input.len() - from
        };
        let ghost before = course;
        run_action(core, action, &input[from..from + length]);
        start = from + length;
        proof {
            course = course.push(core@);
            assert(action_start(input@, count + 1) == start);
            assert(acted_at(course, input@, count as int));
            assert forall|i: int| 0 <= i < count implies #[trigger] acted_at(
                course,
                input@,
                i,
            ) by {
                assert(acted_at(before, input@, i));
            }
        }
        count = count + 1;
    }
    count
}

/// Runs the actions of an input on an owner and returns how many there were. The first
/// byte chooses the owner: a new one, or one of the two that are handed in. An empty or
/// an overlong input runs nothing; without a new session there is no new owner.
pub fn dave_control_sequence(
    input: &[u8],
    user_id: u64,
    channel_id: u64,
    prepared: &mut Core,
    ready: &mut Core,
) -> (ran: Result<usize, DaveFailure>)
    requires
        old(prepared).well_formed(),
        old(ready).well_formed(),
    ensures
        final(prepared).well_formed(),
        final(ready).well_formed(),
        ({
            let count = actions_from(input@.skip(1), 0, MAX_CONTROLS as nat);
            let counted = ran == Ok::<usize, DaveFailure>(count as usize);
            if input@.len() == 0 || input@.len() > MAX_CONTROL_INPUT {
                &&& ran == Ok::<usize, DaveFailure>(0)
                &&& final(prepared)@ == old(prepared)@
                &&& final(ready)@ == old(ready)@
            } else if input@[0] % 3 == 0 {
                &&& match ran {
                    Ok(_) => {
                        &&& counted
                        &&& exists|before: CoreState, after: CoreState|
                            {
                                &&& #[trigger] before.newly_owned(user_id, channel_id)
                                &&& #[trigger] led(before, input@.skip(1), count as int, after)
                            }
                    },
                    Err(failure) => crate::dave::no_session(user_id, channel_id, failure),
                }
                &&& final(prepared)@ == old(prepared)@
                &&& final(ready)@ == old(ready)@
            } else if input@[0] % 3 == 1 {
                &&& counted
                &&& led(old(prepared)@, input@.skip(1), count as int, final(prepared)@)
                &&& final(ready)@ == old(ready)@
            } else {
                &&& counted
                &&& led(old(ready)@, input@.skip(1), count as int, final(ready)@)
                &&& final(prepared)@ == old(prepared)@
            }
        }),
{
    if input.len() == 0 || input.len() > MAX_CONTROL_INPUT {
        return Ok(0);
    }
    let actions = &input[1..input.len()];
    assert(actions@ =~= input@.skip(1));
    match input[0] % 3 {
        0 => match Core::new(user_id, channel_id) {
            Ok(mut core) => {
                let ghost before = core@;
                assert(before.newly_owned(user_id, channel_id));
                Ok(run_controls(&mut core, actions))
            },
            Err(failure) => Err(failure),
        },
        1 => Ok(run_controls(prepared, actions)),
        _ => Ok(run_controls(ready, actions)),
    }
}

/// Decodes a text message by its opcode. The result says whether what it carries was
/// accepted.
pub fn gateway_json_dispatch(message: TextMessage) -> (accepted: bool)
    ensures
        accepted == (match message.opcode {
            2 => message.ready matches Some(ready) && ready.acceptable(),
            4 => message.description is Some,
            8 => message.data.value().unsigned_member("heartbeat_interval"@) is Some,
            11 => crate::gateway::decode::roster_users(message.data.value(), 4_096) is Ok,
            13 => match message.data.value().member("user_id"@) {
                Some(value) => crate::gateway::decode::json_user(value) is Some,
                None => false,
            },
            21 | 22 | 24 => crate::gateway::decode::json_control(
                message.opcode,
                message.data.value(),
            ) is Some,
            _ => false,
        }),
{
    match message.opcode {
        2 => parse_ready(message.ready, ConnectionGeneration::first()).is_ok(),
        4 => message.description.is_some(),
        8 => message.data.u64_member("heartbeat_interval").is_some(),
        11 => decode_dave_roster(&message.data, 4_096).is_ok(),
        13 => decode_disconnected_user(&message.data).is_some(),
        21 | 22 | 24 => decode_dave_json_control(message.opcode, &message.data).is_some(),
        _ => false,
    }
}

/// Decodes an input as a discovery response for the SSRC in its first four bytes, which
/// is zero where it has fewer.
pub fn ip_discovery_response(input: &[u8]) -> (found: Option<DiscoveredAddress>)
    ensures
        ({
            let expected = if input@.len() < 4 {
                0
            } else {
                crate::wire::be32_value(input@[0], input@[1], input@[2], input@[3])
            };
            match found {
                Some(public) => crate::transport::discovery_answer(input@, expected) == Some(
                    (vstd::utf8::encode_utf8(public.address@), public.port),
                ),
                None => crate::transport::discovery_answer(input@, expected) is None,
            }
        }),
{
    let expected: u32 = if input.len() < 4 {
        0
    } else {
        read_be32(input[0], input[1], input[2], input[3])
    };
    parse_discovery_response(input, expected)
}

/// Numbers are read off an input with the high bytes first; what lies behind its end counts
/// as zero.
pub proof fn prefixes_weigh_by_place(input: Seq<u8>, offset: int)
    requires
        0 <= offset,
    ensures
        offset + 2 <= input.len() ==> prefixed_u16(input, offset) == input[offset] * 0x100
            + input[offset + 1],
        offset + 8 <= input.len() ==> prefixed_u64(input, offset) == input[offset]
            * 0x100_0000_0000_0000 + input[offset + 1] * 0x1_0000_0000_0000 + input[offset + 2]
            * 0x100_0000_0000 + input[offset + 3] * 0x1_0000_0000 + input[offset + 4] * 0x100_0000
            + input[offset + 5] * 0x1_0000 + input[offset + 6] * 0x100 + input[offset + 7],
        offset >= input.len() ==> prefixed_u16(input, offset) == 0 && prefixed_u64(input, offset)
            == 0,
        offset + 1 == input.len() ==> prefixed_u16(input, offset) == input[offset] * 0x100,
{
}

/// The users of a payload are its whole groups of eight bytes, in order.
pub proof fn users_are_groups_of_eight_bytes(payload: Seq<u8>)
    ensures
        8 * users_in(payload).len() <= payload.len() < 8 * users_in(payload).len() + 8,
        forall|i: int|
            0 <= i < users_in(payload).len() ==> #[trigger] users_in(payload)[i] == prefixed_u64(
                payload,
                8 * i,
            ),
{
}

/// The last digit of an action names its control, so no action stands for two kinds of
/// control, and the last kind of all stands for none. A control of bytes carries the payload
/// whole.
pub proof fn actions_name_one_kind(action: u8, payload: Seq<u8>, control: Control)
    requires
        stands_for(action, payload, control),
    ensures
        action % 10 != 9,
        control is PrepareTransition <==> action % 10 == 0,
        control is ExecuteTransition <==> action % 10 == 1,
        control is PrepareEpoch <==> action % 10 == 2,
        control is ExternalSender <==> action % 10 == 3,
        control is Proposals <==> action % 10 == 4,
        control is Commit <==> action % 10 == 5,
        control is Welcome <==> action % 10 == 6,
        control is Roster <==> action % 10 == 7,
        control is MemberDisconnected <==> action % 10 == 8,
        control matches Control::ExternalSender(bytes) ==> bytes@ == payload,
        control matches Control::Proposals(bytes) ==> bytes@ == payload,
        control matches Control::Commit(bytes) ==> bytes@ == payload,
        control matches Control::Welcome(bytes) ==> bytes@ == payload,
        control matches Control::PrepareTransition { protocol_version, id } ==> payload.len() >= 4
            ==> protocol_version == payload[0] * 0x100 + payload[1] && id == payload[2] * 0x100
            + payload[3],
        control matches Control::ExecuteTransition { id } ==> payload.len() >= 2 ==> id
            == payload[0] * 0x100 + payload[1],
{
}

/// An action that is written out in front of an input is its first one: a byte, the length
/// of the payload with the high byte first, and the payload. The rest of the input follows.
pub proof fn actions_are_read_one_by_one(
    action: u8,
    payload: Seq<u8>,
    rest: Seq<u8>,
    most: nat,
)
    requires
        payload.len() <= u16::MAX,
        most > 0,
    ensures
        ({
            let input = seq![action] + crate::wire::be16(payload.len() as u16) + payload + rest;
            &&& action_at(input, 0) == action
            &&& payload_at(input, 0) == payload
            &&& action_end(input, 0) == 3 + payload.len()
            &&& actions_from(input, 0, most) == 1 + actions_from(
                input,
                3 + payload.len() as int,
                (most - 1) as nat,
            )
        }),
{
    let number = crate::wire::be16(payload.len() as u16);
    crate::wire::be16_round_trip(payload.len() as u16);
    let input = seq![action] + number + payload + rest;
    assert(input[0] == action);
    assert(input[1] == number[0] && input[2] == number[1]);
    assert(action_start(input, 0) == 0);
    assert(action_start(input, 1) == action_end(input, action_start(input, 0)));
    assert(action_end(input, 0) == 3 + payload.len());
    assert(input.subrange(3, 3 + payload.len() as int) =~= payload);
}

/// No more actions run than the bound allows, and an input of fewer than three bytes holds
/// none.
pub proof fn actions_are_bounded(input: Seq<u8>, start: int, most: nat)
    ensures
        actions_from(input, start, most) <= most,
        input.len() - start < 3 ==> actions_from(input, start, most) == 0,
    decreases most,
{
    if most > 0 && input.len() - start >= 3 {
        actions_are_bounded(input, action_end(input, start), (most - 1) as nat);
    }
}

/// An input runs at most 64 actions, is at most one mebibyte long and encrypts frames of at
/// most 1275 bytes.
pub proof fn inputs_are_bounded(input: Seq<u8>)
    ensures
        actions_from(input, 0, MAX_CONTROLS as nat) <= 64,
        input.len() > MAX_CONTROL_INPUT <==> input.len() > 1024 * 1024,
        input.len() < MAX_FUZZ_FRAME <==> input.len() < 1_275,
        MAX_CONTROLS == 64,
{
    actions_are_bounded(input, 0, MAX_CONTROLS as nat);
}

} // verus!
