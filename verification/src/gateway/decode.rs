//! What the gateway sends.
use vstd::prelude::*;

use crate::dave::Control;
use crate::error::{Error, ErrorSource};
use crate::gateway::failure::protocol_error;
use crate::json::Json;
use crate::model::ConnectionGeneration;
use crate::text::parse_u64;
use crate::wire::{copy_range, read_be16};

verus! {

/// Most transport modes that a ready message may offer.
pub const MAX_TRANSPORT_MODES: usize = 32;

/// Shortest heartbeat interval, in milliseconds.
pub const MIN_HEARTBEAT_MILLIS: u64 = 10;

/// Longest heartbeat interval, in milliseconds.
pub const MAX_HEARTBEAT_MILLIS: u64 = 300_000;

/// What is wrong with a binary DAVE message.
#[derive(Clone, Copy, Debug, PartialEq, Eq, Structural)]
pub enum DaveBinaryEnvelopeError {
    Malformed,
    BodyTooLarge,
}

/// What is wrong with a roster message.
#[derive(Clone, Copy, Debug, PartialEq, Eq, Structural)]
pub enum DaveRosterError {
    Malformed,
    TooManyMembers,
}

/// The shortest body of a known binary opcode.
pub open spec fn min_body_bytes(opcode: u8) -> Option<usize> {
    match opcode {
        25 => Some(4),
        27 => Some(2),
        29 => Some(3),
        30 => Some(3),
        _ => None,
    }
}

/// Returns the shortest body of a known binary opcode.
pub fn dave_binary_min_body_bytes(opcode: u8) -> (minimum: Option<usize>)
    ensures
        minimum == min_body_bytes(opcode),
{
    match opcode {
        25 => Some(4),
        27 => Some(2),
        29 => Some(3),
        30 => Some(3),
        _ => None,
    }
}

/// The body of a binary message: what follows the sequence and the opcode.
pub open spec fn envelope_body(bytes: Seq<u8>) -> Seq<u8> {
    bytes.subrange(3, bytes.len() as int)
}

/// What is wrong with the bytes of a binary message.
pub open spec fn envelope_failure(bytes: Seq<u8>, max_body_bytes: usize) -> Option<
    DaveBinaryEnvelopeError,
> {
    if bytes.len() < 3 {
        Some(DaveBinaryEnvelopeError::Malformed)
    } else if bytes.len() - 3 > max_body_bytes {
        Some(DaveBinaryEnvelopeError::BodyTooLarge)
    } else if min_body_bytes(bytes[2]) matches Some(minimum) && bytes.len() - 3 < minimum {
        Some(DaveBinaryEnvelopeError::Malformed)
    } else if bytes[2] == 27 && bytes[3] > 1 {
        Some(DaveBinaryEnvelopeError::Malformed)
    } else {
        None
    }
}

/// Whether a control is the one that an opcode and a body stand for.
pub open spec fn is_binary_control(opcode: u8, body: Seq<u8>, control: Option<Control>) -> bool {
    match opcode {
        25 => control matches Some(Control::ExternalSender(payload)) && payload@ == body,
        27 => control matches Some(Control::Proposals(payload)) && payload@ == body,
        29 => control matches Some(Control::Commit(payload)) && payload@ == body,
        30 => control matches Some(Control::Welcome(payload)) && payload@ == body,
        _ => control is None,
    }
}

/// Decodes a binary message: a two-byte sequence, an opcode, a body. An unknown
/// opcode is no error.
pub fn decode_dave_binary_envelope(bytes: &[u8], max_body_bytes: usize) -> (decoded: Result<
    (u16, Option<Control>),
    DaveBinaryEnvelopeError,
>)
    ensures
        match decoded {
            Ok((sequence, control)) => {
                &&& envelope_failure(bytes@, max_body_bytes) is None
                &&& sequence == crate::wire::be16_value(bytes@[0], bytes@[1])
                &&& is_binary_control(bytes@[2], envelope_body(bytes@), control)
            },
            Err(failure) => envelope_failure(bytes@, max_body_bytes) == Some(failure),
        },
{
    if bytes.len() < 3 {
        return Err(DaveBinaryEnvelopeError::Malformed);
    }
    let sequence: u16 = read_be16(bytes[0], bytes[1]);
    let opcode: u8 = bytes[2];
    let length: usize = bytes.len() - 3;
    if length > max_body_bytes {
        return Err(DaveBinaryEnvelopeError::BodyTooLarge);
    }
    if let Some(minimum) = dave_binary_min_body_bytes(opcode) {
        if length < minimum {
            return Err(DaveBinaryEnvelopeError::Malformed);
        }
    }
    if opcode == 27 && bytes[3] > 1 {
        return Err(DaveBinaryEnvelopeError::Malformed);
    }
    let body = copy_range(bytes, 3, bytes.len());
    let control = match opcode {
        25 => Some(Control::ExternalSender(body)),
        27 => Some(Control::Proposals(body)),
        29 => Some(Control::Commit(body)),
        30 => Some(Control::Welcome(body)),
        _ => None,
    };
    Ok((sequence, control))
}

/// The 16-bit number in the member with a name.
pub open spec fn u16_member(data: crate::json::JsonValue, name: Seq<char>) -> Option<u16> {
    match data.unsigned_member(name) {
        Some(value) => if value <= u16::MAX {
            Some(value as u16)
        } else {
            None
        },
        None => None,
    }
}

/// Returns the 16-bit number in the member with this name.
pub fn u16_field(data: &Json, field: &str) -> (value: Option<u16>)
    ensures
        value == u16_member(data.value(), field@),
{
    match data.u64_member(field) {
        Some(value) => if value <= u16::MAX as u64 {
            Some(value as u16)
        } else {
            None
        },
        None => None,
    }
}

/// The control that a JSON message stands for.
pub open spec fn json_control(opcode: u64, data: crate::json::JsonValue) -> Option<Control> {
    match opcode {
        21 => match (u16_member(data, "protocol_version"@), u16_member(data, "transition_id"@)) {
            (Some(protocol_version), Some(id)) => Some(
                Control::PrepareTransition { protocol_version, id },
            ),
            _ => None,
        },
        22 => match u16_member(data, "transition_id"@) {
            Some(id) => Some(Control::ExecuteTransition { id }),
            None => None,
        },
        24 => match (u16_member(data, "protocol_version"@), data.unsigned_member("epoch"@)) {
            (Some(protocol_version), Some(epoch)) => Some(
                Control::PrepareEpoch { protocol_version, epoch },
            ),
            _ => None,
        },
        _ => None,
    }
}

/// Decodes a JSON control.
pub fn decode_dave_json_control(opcode: u64, data: &Json) -> (control: Option<Control>)
    ensures
        control == json_control(opcode, data.value()),
{
    match opcode {
        21 => {
            let version = u16_field(data, "protocol_version");
            let id = u16_field(data, "transition_id");
            match (version, id) {
                (Some(protocol_version), Some(id)) => Some(
                    Control::PrepareTransition { protocol_version, id },
                ),
                _ => None,
            }
        },
        22 => match u16_field(data, "transition_id") {
            Some(id) => Some(Control::ExecuteTransition { id }),
            None => None,
        },
        24 => {
            let version = u16_field(data, "protocol_version");
            let epoch = data.u64_member("epoch");
            match (version, epoch) {
                (Some(protocol_version), Some(epoch)) => Some(
                    Control::PrepareEpoch { protocol_version, epoch },
                ),
                _ => None,
            }
        },
        _ => None,
    }
}

/// The user that a text names: a positive number.
pub open spec fn user_id(text: Seq<char>) -> Option<u64> {
    match crate::text::parsed_u64(text) {
        Some(user) => if user != 0 {
            Some(user)
        } else {
            None
        },
        None => None,
    }
}

/// Reads the identifier of a user.
pub fn parse_dave_user_id(user: &str) -> (id: Option<u64>)
    ensures
        id == user_id(user@),
{
    match parse_u64(user) {
        Some(user) => if user != 0 {
            Some(user)
        } else {
            None
        },
        None => None,
    }
}

/// The user that a JSON value names.
pub open spec fn json_user(value: crate::json::JsonValue) -> Option<u64> {
    match value.text() {
        Some(text) => user_id(text),
        None => None,
    }
}

/// The users of a roster message, or what is wrong with it. The number of members is
/// checked before any of them is read.
pub open spec fn roster_users(data: crate::json::JsonValue, max_members: usize) -> Result<
    Seq<u64>,
    DaveRosterError,
> {
    match data.array_member("user_ids"@) {
        Some(users) => if users.len() > max_members {
            Err(DaveRosterError::TooManyMembers)
        } else if forall|i: int| 0 <= i < users.len() ==> json_user(#[trigger] users[i]) is Some {
            Ok(Seq::new(users.len(), |i: int| json_user(users[i])->0))
        } else {
            Err(DaveRosterError::Malformed)
        },
        None => Err(DaveRosterError::Malformed),
    }
}

/// Decodes a roster message.
pub fn decode_dave_roster(data: &Json, max_members: usize) -> (users: Result<
    Vec<u64>,
    DaveRosterError,
>)
    ensures
        match users {
            Ok(users) => roster_users(data.value(), max_members) == Ok::<
                Seq<u64>,
                DaveRosterError,
            >(users@),
            Err(failure) => roster_users(data.value(), max_members) == Err::<
                Seq<u64>,
                DaveRosterError,
            >(failure),
        },
{
    let member = match data.get("user_ids") {
        Some(member) => member,
        None => return Err(DaveRosterError::Malformed),
    };
    let items = match member.as_array() {
        Some(items) => items,
        None => return Err(DaveRosterError::Malformed),
    };
    let ghost values = crate::json::item_values(items@);
    assert(data.value().array_member("user_ids"@) == Some(values));
    if items.len() > max_members {
        return Err(DaveRosterError::TooManyMembers);
    }
    let mut users: Vec<u64> = Vec::new();
    let mut index: usize = 0;
    while index < items.len()
        invariant
            index <= items@.len(),
            items@.len() <= max_members,
            values == crate::json::item_values(items@),
            data.value().array_member("user_ids"@) == Some(values),
            users@.len() == index,
            forall|i: int| 0 <= i < index ==> json_user(#[trigger] values[i]) == Some(users@[i]),
        decreases items@.len() - index,
    {
        assert(values[index as int] == items@[index as int].value());
        let id = match items[index].as_str() {
            Some(text) => parse_dave_user_id(text),
            None => None,
        };
        match id {
            Some(id) => {
                users.push(id);
            },
            None => {
                assert(json_user(values[index as int]) is None);
                return Err(DaveRosterError::Malformed);
            },
        }
        index = index + 1;
    }
    assert(forall|i: int| 0 <= i < values.len() ==> json_user(#[trigger] values[i]) is Some);
    assert(users@ =~= Seq::new(values.len(), |i: int| json_user(values[i])->0));
    Ok(users)
}

/// The user that left, in a disconnect message.
pub fn decode_disconnected_user(data: &Json) -> (user: Option<u64>)
    ensures
        user == (match data.value().member("user_id"@) {
            Some(value) => json_user(value),
            None => None,
        }),
{
    match data.get("user_id") {
        Some(member) => match member.as_str() {
            Some(text) => parse_dave_user_id(text),
            None => None,
        },
        None => None,
    }
}

/// The heartbeat interval of a hello message in milliseconds, if it is acceptable.
pub open spec fn hello_interval(data: crate::json::JsonValue) -> Option<u64> {
    match data.unsigned_member("heartbeat_interval"@) {
        Some(millis) => if MIN_HEARTBEAT_MILLIS <= millis <= MAX_HEARTBEAT_MILLIS {
            Some(millis)
        } else {
            None
        },
        None => None,
    }
}

/// Decodes the heartbeat interval of a hello message.
pub fn decode_hello(data: &Json) -> (millis: Option<u64>)
    ensures
        millis == hello_interval(data.value()),
{
    match data.u64_member("heartbeat_interval") {
        Some(millis) => if MIN_HEARTBEAT_MILLIS <= millis && millis <= MAX_HEARTBEAT_MILLIS {
            Some(millis)
        } else {
            None
        },
        None => None,
    }
}

/// The contents of a ready message. The address is text.
#[derive(Debug)]
pub struct ReadyData {
    pub ssrc: u32,
    pub ip: String,
    pub port: u16,
    pub modes: Vec<String>,
}

impl ReadyData {
    /// Whether the message names a port and an acceptable number of modes.
    pub open spec fn acceptable(self) -> bool {
        &&& self.port != 0
        &&& 0 < self.modes@.len() <= MAX_TRANSPORT_MODES
    }
}

/// Accepts the contents of a ready message; `None` stands for a message that does not
/// have the shape of one.
pub fn parse_ready(data: Option<ReadyData>, generation: ConnectionGeneration) -> (ready: Result<
    ReadyData,
    Error,
>)
    ensures
        match ready {
            Ok(ready) => data == Some(ready) && ready.acceptable(),
            Err(error) => match data {
                Some(ready) => {
                    &&& !ready.acceptable()
                    &&& error@ == crate::gateway::failure::protocol_failure(generation)
                },
                None => error@ == (crate::error::ErrorView {
                    source: Some(ErrorSource::Foreign),
                    ..crate::gateway::failure::protocol_failure(generation)
                }),
            },
        },
{
    match data {
        Some(ready) => {
            if ready.port == 0 || ready.modes.len() == 0 || ready.modes.len()
                > MAX_TRANSPORT_MODES {
                Err(protocol_error(generation))
            } else {
                Ok(ready)
            }
        },
        None => Err(protocol_error(generation).with_source(ErrorSource::Foreign)),
    }
}

/// The contents of a session description message.
pub struct SessionDescriptionData {
    pub mode: String,
    pub secret_key: [u8; 32],
    pub dave_protocol_version: u16,
}

/// A binary message whose body is within the bound is decoded to the control that
/// carries its opcode.
pub proof fn decoded_controls_carry_their_opcode(opcode: u8, body: Seq<u8>, control: Option<Control>)
    requires
        is_binary_control(opcode, body, control),
    ensures
        control matches Some(found) ==> found.wire_opcode() == opcode,
        control is Some <==> min_body_bytes(opcode) is Some,
{
}

/// A JSON message is decoded to the control that carries its opcode.
pub proof fn json_controls_carry_their_opcode(opcode: u64, data: crate::json::JsonValue)
    ensures
        json_control(opcode, data) matches Some(found) ==> found.wire_opcode() == opcode,
{
}

/// A user is named by a positive decimal number and by nothing else, so every user is named
/// by its own number.
pub proof fn users_are_named_by_their_number(user: u64, value: crate::json::JsonValue)
    ensures
        user > 0 ==> json_user(crate::json::JsonValue::Text(crate::text::decimal(user as nat)))
            == Some(user),
        json_user(crate::json::JsonValue::Text(crate::text::decimal(0))) is None,
        json_user(value) matches Some(named) ==> named > 0 && value is Text,
        value !is Text ==> json_user(value) is None,
{
    crate::text::decimal_reads_back(user);
    crate::text::decimal_reads_back(0);
}

/// A body of a known opcode has its shortest length: four bytes of an external sender, an
/// operation and a byte of proposals, an identifier and a byte of a commit or a welcome.
/// Shorter ones, and operations other than two, are malformed; what is over the bound is
/// told as such, and unknown opcodes may carry anything.
pub proof fn envelopes_have_their_shortest_body(bytes: Seq<u8>, most: usize)
    requires
        3 <= bytes.len() <= most + 3,
    ensures
        bytes[2] == 25 ==> (envelope_failure(bytes, most) is None <==> bytes.len() >= 7),
        bytes[2] == 27 ==> (envelope_failure(bytes, most) is None <==> bytes.len() >= 5 && bytes[3]
            <= 1),
        bytes[2] == 29 || bytes[2] == 30 ==> (envelope_failure(bytes, most) is None
            <==> bytes.len() >= 6),
        bytes[2] != 25 && bytes[2] != 27 && bytes[2] != 29 && bytes[2] != 30 ==> envelope_failure(
            bytes,
            most,
        ) is None,
        envelope_failure(bytes, most) != Some(DaveBinaryEnvelopeError::BodyTooLarge),
{
}

/// A number of a JSON control is read as it stands where it fits into its sixteen bits.
pub proof fn short_numbers_are_read_as_they_stand(data: crate::json::JsonValue, name: Seq<char>, number: u64)
    requires
        data.unsigned_member(name) == Some(number),
    ensures
        number < 65_536 ==> u16_member(data, name) == Some(number as u16),
        number >= 65_536 ==> u16_member(data, name) is None,
{
}

/// A roster message names its users in order, each by its positive decimal number. One user
/// more than the bound is too many, whoever they are; a user that is not named, or a message
/// without users, is malformed.
pub proof fn rosters_name_their_users(
    data: crate::json::JsonValue,
    values: Seq<crate::json::JsonValue>,
    users: Seq<u64>,
    most: usize,
)
    requires
        data.array_member("user_ids"@) == Some(values),
        values.len() == users.len(),
    ensures
        values.len() <= most && (forall|i: int|
            0 <= i < users.len() ==> #[trigger] users[i] > 0 && values[i]
                == crate::json::JsonValue::Text(crate::text::decimal(users[i] as nat)))
            ==> roster_users(data, most) == Ok::<Seq<u64>, DaveRosterError>(users),
        values.len() > most ==> roster_users(data, most) == Err::<Seq<u64>, DaveRosterError>(
            DaveRosterError::TooManyMembers,
        ),
        values.len() <= most && (exists|i: int|
            0 <= i < values.len() && (#[trigger] values[i]) !is Text) ==> roster_users(data, most)
            == Err::<Seq<u64>, DaveRosterError>(DaveRosterError::Malformed),
        roster_users(crate::json::JsonValue::Null, most) == Err::<Seq<u64>, DaveRosterError>(
            DaveRosterError::Malformed,
        ),
{
    if values.len() <= most {
        if forall|i: int|
            0 <= i < users.len() ==> #[trigger] users[i] > 0 && values[i]
                == crate::json::JsonValue::Text(crate::text::decimal(users[i] as nat)) {
            assert forall|i: int| 0 <= i < values.len() implies json_user(#[trigger] values[i])
                == Some(users[i]) by {
                assert(users[i] > 0);
                users_are_named_by_their_number(users[i], values[i]);
            }
            assert(Seq::new(values.len(), |i: int| json_user(values[i])->0) =~= users);
        }
        if exists|i: int| 0 <= i < values.len() && (#[trigger] values[i]) !is Text {
            let i = choose|i: int| 0 <= i < values.len() && (#[trigger] values[i]) !is Text;
            assert(json_user(values[i]) is None);
        }
    }
}

/// A hello may ask for heartbeats every ten milliseconds to every five minutes.
pub proof fn heartbeat_intervals_are_bounded(data: crate::json::JsonValue, millis: u64)
    requires
        data.unsigned_member("heartbeat_interval"@) == Some(millis),
    ensures
        10 <= millis <= 300_000 ==> hello_interval(data) == Some(millis),
        millis < 10 || millis > 300_000 ==> hello_interval(data) is None,
        hello_interval(crate::json::JsonValue::Null) is None,
{
}

/// A ready message is taken where it has a port and one to 32 modes.
pub proof fn ready_messages_offer_modes(ready: ReadyData)
    ensures
        ready.acceptable() <==> ready.port > 0 && 1 <= ready.modes@.len() <= 32,
{
}

/// A message without a sequence number and an opcode is malformed; one whose body is over the
/// bound is told as such, whatever else is wrong with it.
pub proof fn envelopes_have_a_header(bytes: Seq<u8>, most: usize)
    ensures
        bytes.len() < 3 ==> envelope_failure(bytes, most) == Some(
            DaveBinaryEnvelopeError::Malformed,
        ),
        bytes.len() > most + 3 ==> envelope_failure(bytes, most) == Some(
            DaveBinaryEnvelopeError::BodyTooLarge,
        ),
        bytes.len() >= 3 ==> envelope_body(bytes).len() == bytes.len() - 3 && bytes.take(3)
            + envelope_body(bytes) == bytes,
{
    if bytes.len() >= 3 {
        assert(bytes.take(3) + envelope_body(bytes) =~= bytes);
    }
}

} // verus!
