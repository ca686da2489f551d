//! What the client sends.
use vstd::prelude::*;

use crate::dave::Outbound;
use crate::error::Error;
use crate::gateway::failure::{dave_error, resource_error};
use crate::gateway::info::ValidatedInfo;
use crate::json::{no_members, object, push_member, Json, JsonValue};
use crate::model::{ConnectInfo, ConnectionGeneration};
use crate::rtp::TransportMode;
use crate::text::decimal_text;

verus! {

/// A sequence number of the gateway: an integer of 64 bits with either sign.
#[derive(Clone, Copy, Debug, PartialEq, Eq, Structural)]
pub enum SequenceNumber {
    Unsigned(u64),
    Negative(i64),
}

/// A message for the gateway.
#[derive(Debug)]
pub enum OutboundMessage {
    Json(Json),
    Binary(Vec<u8>),
}

/// The acknowledgement of what was received: the latest sequence number, or minus
/// one where there is none.
pub open spec fn acknowledged(latest: Option<SequenceNumber>) -> JsonValue {
    match latest {
        Some(SequenceNumber::Unsigned(number)) => JsonValue::Unsigned(number),
        Some(SequenceNumber::Negative(number)) => JsonValue::Negative(number),
        None => JsonValue::Negative(-1i64),
    }
}

fn seq_ack(latest: Option<SequenceNumber>) -> (json: Json)
    ensures
        json.value() == acknowledged(latest),
{
    match latest {
        Some(SequenceNumber::Unsigned(number)) => Json::Unsigned(number),
        Some(SequenceNumber::Negative(number)) => Json::Negative(number),
        None => Json::Negative(-1),
    }
}

/// A message with an opcode and data.
pub open spec fn envelope(opcode: u64, data: JsonValue) -> JsonValue {
    JsonValue::Object(seq![("op"@, JsonValue::Unsigned(opcode)), ("d"@, data)])
}

/// Builds a message with an opcode and data.
pub fn message(opcode: u64, data: Json) -> (json: Json)
    ensures
        json.value() == envelope(opcode, data.value()),
{
    let mut members = no_members();
    push_member(&mut members, "op", Json::Unsigned(opcode));
    push_member(&mut members, "d", data);
    assert(crate::json::member_values(members@) =~= seq![
        ("op"@, JsonValue::Unsigned(opcode)),
        ("d"@, data.value()),
    ]);
    object(members)
}

/// The identification of a fresh session.
pub open spec fn identify_value(info: ConnectInfo) -> JsonValue {
    envelope(0, JsonValue::Object(identify_members(info)))
}

/// The members of its data.
pub open spec fn identify_members(info: ConnectInfo) -> Seq<(Seq<char>, JsonValue)> {
    seq![
                ("server_id"@, JsonValue::Text(crate::text::decimal(info.server_id as nat))),
                ("user_id"@, JsonValue::Text(crate::text::decimal(info.user_id as nat))),
                ("session_id"@, JsonValue::Text(info.session_id)),
                ("token"@, JsonValue::Text(info.token)),
                ("max_dave_protocol_version"@, JsonValue::Unsigned(1)),
            ]
}

/// Builds the identification of a fresh session.
pub fn identify_payload(info: &ValidatedInfo) -> (json: Json)
    ensures
        json.value() == identify_value(info@),
{
    let voice = info.info();
    let mut members = no_members();
    push_member(&mut members, "server_id", Json::Text(decimal_text(voice.server_id())));
    push_member(&mut members, "user_id", Json::Text(decimal_text(voice.user_id())));
    push_member(&mut members, "session_id", Json::Text(voice.session_id().to_owned()));
    push_member(&mut members, "token", Json::Text(voice.token().to_owned()));
    push_member(&mut members, "max_dave_protocol_version", Json::Unsigned(1));
    assert(crate::json::member_values(members@) =~= identify_members(info@));
    message(0, object(members))
}

/// The resumption of a session.
pub open spec fn resume_value(info: ConnectInfo, latest: Option<SequenceNumber>) -> JsonValue {
    envelope(7, JsonValue::Object(resume_members(info, latest)))
}

/// The members of its data.
pub open spec fn resume_members(info: ConnectInfo, latest: Option<SequenceNumber>) -> Seq<(Seq<char>, JsonValue)> {
    seq![
                ("server_id"@, JsonValue::Text(crate::text::decimal(info.server_id as nat))),
                ("session_id"@, JsonValue::Text(info.session_id)),
                ("token"@, JsonValue::Text(info.token)),
                ("seq_ack"@, acknowledged(latest)),
            ]
}

/// Builds the resumption of a session.
pub fn resume_payload(info: &ValidatedInfo, latest: Option<SequenceNumber>) -> (json: Json)
    ensures
        json.value() == resume_value(info@, latest),
{
    let voice = info.info();
    let mut members = no_members();
    push_member(&mut members, "server_id", Json::Text(decimal_text(voice.server_id())));
    push_member(&mut members, "session_id", Json::Text(voice.session_id().to_owned()));
    push_member(&mut members, "token", Json::Text(voice.token().to_owned()));
    push_member(&mut members, "seq_ack", seq_ack(latest));
    assert(crate::json::member_values(members@) =~= resume_members(info@, latest));
    message(7, object(members))
}

/// The selection of a transport.
pub open spec fn select_protocol_value(address: Seq<char>, port: u16, mode: TransportMode) -> JsonValue {
    envelope(
        1,
        JsonValue::Object(
            seq![
                ("protocol"@, JsonValue::Text("udp"@)),
                (
                    "data"@,
                    JsonValue::Object(
                        seq![
                            ("address"@, JsonValue::Text(address)),
                            ("port"@, JsonValue::Unsigned(port as u64)),
                            ("mode"@, JsonValue::Text(mode.wire_name())),
                        ],
                    ),
                ),
            ],
        ),
    )
}

/// Builds the selection of a transport.
pub fn select_protocol_payload(address: &str, port: u16, mode: TransportMode) -> (json: Json)
    ensures
        json.value() == select_protocol_value(address@, port, mode),
{
    let mut data = no_members();
    push_member(&mut data, "address", Json::Text(address.to_owned()));
    push_member(&mut data, "port", Json::Unsigned(port as u64));
    push_member(&mut data, "mode", Json::Text(mode.name().to_owned()));
    let ghost inner = crate::json::member_values(data@);
    assert(inner =~= seq![
        ("address"@, JsonValue::Text(address@)),
        ("port"@, JsonValue::Unsigned(port as u64)),
        ("mode"@, JsonValue::Text(mode.wire_name())),
    ]);
    let mut members = no_members();
    push_member(&mut members, "protocol", Json::Text("udp".to_owned()));
    push_member(&mut members, "data", object(data));
    assert(crate::json::member_values(members@) =~= seq![
        ("protocol"@, JsonValue::Text("udp"@)),
        ("data"@, JsonValue::Object(inner)),
    ]);
    message(1, object(members))
}

/// A speaking notice.
pub open spec fn speaking_value(ssrc: u32, speaking: bool) -> JsonValue {
    envelope(5, JsonValue::Object(speaking_members(ssrc, speaking)))
}

/// The members of its data.
pub open spec fn speaking_members(ssrc: u32, speaking: bool) -> Seq<(Seq<char>, JsonValue)> {
    seq![
                (
                    "speaking"@,
                    JsonValue::Unsigned(
                        if speaking {
                            1
                        } else {
                            0
                        },
                    ),
                ),
                ("delay"@, JsonValue::Unsigned(0)),
                ("ssrc"@, JsonValue::Unsigned(ssrc as u64)),
            ]
}

/// Builds a speaking notice.
pub fn speaking_payload(ssrc: u32, speaking: bool) -> (json: Json)
    ensures
        json.value() == speaking_value(ssrc, speaking),
{
    let flag: u64 = if speaking {
        1
    } else {
        0
    };
    let mut members = no_members();
    push_member(&mut members, "speaking", Json::Unsigned(flag));
    push_member(&mut members, "delay", Json::Unsigned(0));
    push_member(&mut members, "ssrc", Json::Unsigned(ssrc as u64));
    assert(crate::json::member_values(members@) =~= speaking_members(ssrc, speaking));
    message(5, object(members))
}

/// A heartbeat.
pub open spec fn heartbeat_value(nonce: u64, latest: Option<SequenceNumber>) -> JsonValue {
    envelope(3, JsonValue::Object(heartbeat_members(nonce, latest)))
}

/// The members of its data.
pub open spec fn heartbeat_members(nonce: u64, latest: Option<SequenceNumber>) -> Seq<(Seq<char>, JsonValue)> {
    seq![("t"@, JsonValue::Unsigned(nonce)), ("seq_ack"@, acknowledged(latest))]
}

/// Builds a heartbeat.
pub fn heartbeat_payload(nonce: u64, latest: Option<SequenceNumber>) -> (json: Json)
    ensures
        json.value() == heartbeat_value(nonce, latest),
{
    let mut members = no_members();
    push_member(&mut members, "t", Json::Unsigned(nonce));
    push_member(&mut members, "seq_ack", seq_ack(latest));
    assert(crate::json::member_values(members@) =~= heartbeat_members(nonce, latest));
    message(3, object(members))
}

/// A JSON message of the DAVE lifecycle.
pub open spec fn dave_json_value(opcode: u8, transition_id: u16) -> JsonValue {
    envelope(
        opcode as u64,
        JsonValue::Object(seq![("transition_id"@, JsonValue::Unsigned(transition_id as u64))]),
    )
}

/// Whether a message carries a DAVE action.
pub open spec fn carries(message: OutboundMessage, action: Outbound) -> bool {
    match action {
        Outbound::Json { opcode, transition_id } => message matches OutboundMessage::Json(json)
            && json.value() == dave_json_value(opcode, transition_id),
        Outbound::Binary(bytes) => message matches OutboundMessage::Binary(sent) && sent@
            == bytes@,
    }
}

/// Whether a DAVE action can be sent within a bound on binary messages.
pub open spec fn sendable(action: Outbound, maximum_binary_bytes: usize) -> bool {
    match action {
        Outbound::Json { .. } => true,
        Outbound::Binary(bytes) => 0 < bytes@.len() <= maximum_binary_bytes,
    }
}

/// Builds the message that carries a DAVE action.
pub fn dave_outbound_message(
    action: Outbound,
    maximum_binary_bytes: usize,
    generation: ConnectionGeneration,
) -> (sent: Result<OutboundMessage, Error>)
    ensures
        match sent {
            Ok(sent) => sendable(action, maximum_binary_bytes) && carries(sent, action),
            Err(error) => {
                &&& !sendable(action, maximum_binary_bytes)
                &&& error@ == (if action->Binary_0@.len() == 0 {
                    crate::gateway::failure::dave_setup_failure(generation)
                } else {
                    crate::gateway::failure::resource_failure(generation)
                })
            },
        },
{
    match action {
        Outbound::Json { opcode, transition_id } => {
            let mut members = no_members();
            push_member(&mut members, "transition_id", Json::Unsigned(transition_id as u64));
            assert(JsonValue::Object(crate::json::member_values(members@)) =~~= dave_json_value(
                opcode,
                transition_id,
            )->Object_0[1].1);
            Ok(OutboundMessage::Json(message(opcode as u64, object(members))))
        },
        Outbound::Binary(bytes) => {
            if bytes.len() == 0 {
                return Err(dave_error(generation));
            }
            if bytes.len() > maximum_binary_bytes {
                return Err(resource_error(generation));
            }
            Ok(OutboundMessage::Binary(bytes))
        },
    }
}

/// Whether a result holds the messages that carry DAVE actions, in order, or the
/// failure of the first action that cannot be sent.
pub open spec fn carried(
    actions: Seq<Outbound>,
    maximum_binary_bytes: usize,
    generation: ConnectionGeneration,
    sent: Result<Vec<OutboundMessage>, Error>,
) -> bool {
    match sent {
        Ok(sent) => {
            &&& sent@.len() == actions.len()
            &&& forall|i: int|
                0 <= i < actions.len() ==> sendable(#[trigger] actions[i], maximum_binary_bytes)
                    && carries(sent@[i], actions[i])
        },
        Err(error) => exists|i: int|
            {
                &&& 0 <= i < actions.len()
                &&& !sendable(#[trigger] actions[i], maximum_binary_bytes)
                &&& forall|j: int|
                    0 <= j < i ==> sendable(#[trigger] actions[j], maximum_binary_bytes)
                &&& error@ == (if actions[i]->Binary_0@.len() == 0 {
                    crate::gateway::failure::dave_setup_failure(generation)
                } else {
                    crate::gateway::failure::resource_failure(generation)
                })
            },
    }
}

/// Builds the messages that carry DAVE actions, in order. One action that cannot be
/// sent holds all of them back.
pub fn dave_outbound_messages(
    actions: Vec<Outbound>,
    maximum_binary_bytes: usize,
    generation: ConnectionGeneration,
) -> (sent: Result<Vec<OutboundMessage>, Error>)
    ensures
        carried(actions@, maximum_binary_bytes, generation, sent),
{
    let ghost all = actions@;
    let mut sent: Vec<OutboundMessage> = Vec::new();
    for action in it: actions
        invariant
            it.seq() == all,
            sent@.len() == it.index(),
            forall|i: int|
                0 <= i < it.index() ==> sendable(#[trigger] all[i], maximum_binary_bytes)
                    && carries(sent@[i], all[i]),
    {
        assert(action == all[it.index() as int]);
        match dave_outbound_message(action, maximum_binary_bytes, generation) {
            Ok(message) => {
                sent.push(message);
            },
            Err(error) => {
                assert(!sendable(all[it.index() as int], maximum_binary_bytes));
                return Err(error);
            },
        }
    }
    Ok(sent)
}

/// The names of the members are told apart.
proof fn member_names_differ()
    ensures
        "op"@ != "d"@,
        "speaking"@ != "delay"@,
        "speaking"@ != "ssrc"@,
        "delay"@ != "ssrc"@,
        "t"@ != "seq_ack"@,
        "server_id"@ != "user_id"@,
        "server_id"@ != "session_id"@,
        "server_id"@ != "token"@,
        "server_id"@ != "seq_ack"@,
        "server_id"@ != "max_dave_protocol_version"@,
        "user_id"@ != "session_id"@,
        "user_id"@ != "token"@,
        "user_id"@ != "max_dave_protocol_version"@,
        "session_id"@ != "token"@,
        "session_id"@ != "seq_ack"@,
        "session_id"@ != "max_dave_protocol_version"@,
        "token"@ != "seq_ack"@,
        "token"@ != "max_dave_protocol_version"@,
        "protocol"@ != "data"@,
        "address"@ != "port"@,
        "address"@ != "mode"@,
        "port"@ != "mode"@,
{
    reveal_strlit("op");
    reveal_strlit("d");
    reveal_strlit("speaking");
    reveal_strlit("delay");
    reveal_strlit("ssrc");
    reveal_strlit("t");
    reveal_strlit("seq_ack");
    reveal_strlit("server_id");
    reveal_strlit("user_id");
    reveal_strlit("session_id");
    reveal_strlit("token");
    reveal_strlit("max_dave_protocol_version");
    reveal_strlit("protocol");
    reveal_strlit("data");
    reveal_strlit("address");
    reveal_strlit("port");
    reveal_strlit("mode");
    assert("op"@.len() == 2);
    assert("d"@.len() == 1);
    assert("speaking"@.len() == 8);
    assert("delay"@.len() == 5);
    assert("ssrc"@.len() == 4);
    assert("t"@.len() == 1);
    assert("seq_ack"@.len() == 7);
    assert("server_id"@.len() == 9);
    assert("user_id"@.len() == 7);
    assert("session_id"@.len() == 10);
    assert("token"@.len() == 5);
    assert("max_dave_protocol_version"@.len() == 25);
    assert("protocol"@.len() == 8);
    assert("data"@.len() == 4);
    assert("address"@.len() == 7);
    assert("port"@.len() == 4);
    assert("mode"@.len() == 4);
    assert("port"@[0] == 'p');
    assert("mode"@[0] == 'm');
}

/// The member at an index is found by its name where no earlier one has that name.
pub(crate) proof fn found_member(members: Seq<(Seq<char>, JsonValue)>, index: int)
    requires
        0 <= index < members.len(),
        forall|i: int| 0 <= i < index ==> (#[trigger] members[i]).0 != members[index].0,
    ensures
        crate::json::first_member(members, members[index].0) == Some(members[index].1),
    decreases index,
{
    if index > 0 {
        let rest = members.skip(1);
        assert(members[0].0 != members[index].0);
        assert(rest[index - 1] == members[index]);
        assert forall|i: int| 0 <= i < index - 1 implies (#[trigger] rest[i]).0 != rest[index
            - 1].0 by {
            assert(rest[i] == members[i + 1]);
        }
        found_member(rest, index - 1);
    }
}

impl JsonValue {
    /// The data of a message.
    pub open spec fn contents(self) -> JsonValue
        recommends
            self.member("d"@) is Some,
    {
        self.member("d"@)->0
    }
}

pub(crate) proof fn envelope_members(opcode: u64, data: JsonValue)
    ensures
        envelope(opcode, data).unsigned_member("op"@) == Some(opcode),
        envelope(opcode, data).member("d"@) == Some(data),
        envelope(opcode, data).contents() == data,
{
    member_names_differ();
    let members = envelope(opcode, data)->Object_0;
    found_member(members, 0);
    found_member(members, 1);
}

/// A speaking notice says 1 where the sender speaks and 0 where it does not, without delay
/// and for its own stream. So the notices for speaking and for silence differ, and so do
/// those of different streams.
pub proof fn speaking_notices_say_what_is_spoken(ssrc: u32, other: u32)
    ensures
        speaking_value(ssrc, true).unsigned_member("op"@) == Some(5u64),
        speaking_value(ssrc, false).unsigned_member("op"@) == Some(5u64),
        speaking_value(ssrc, true).contents().unsigned_member("speaking"@) == Some(1u64),
        speaking_value(ssrc, false).contents().unsigned_member("speaking"@) == Some(0u64),
        speaking_value(ssrc, true) != speaking_value(ssrc, false),
        forall|speaking: bool|
            {
                &&& #[trigger] speaking_value(ssrc, speaking).contents().unsigned_member("ssrc"@)
                    == Some(ssrc as u64)
                &&& speaking_value(ssrc, speaking).contents().unsigned_member("delay"@) == Some(
                    0u64,
                )
                &&& ssrc != other ==> speaking_value(ssrc, speaking) != speaking_value(
                    other,
                    speaking,
                )
            },
{
    member_names_differ();
    assert forall|stream: u32, speaking: bool|
        {
            &&& #[trigger] speaking_value(stream, speaking).contents().unsigned_member("ssrc"@)
                == Some(stream as u64)
            &&& speaking_value(stream, speaking).contents().unsigned_member("delay"@) == Some(0u64)
            &&& speaking_value(stream, speaking).contents().unsigned_member("speaking"@) == Some(
                if speaking {
                    1u64
                } else {
                    0u64
                },
            )
            &&& speaking_value(stream, speaking).unsigned_member("op"@) == Some(5u64)
        } by {
        let members = speaking_members(stream, speaking);
        envelope_members(5, JsonValue::Object(members));
        found_member(members, 0);
        found_member(members, 1);
        found_member(members, 2);
    }
    assert(speaking_value(ssrc, true).contents().unsigned_member("ssrc"@) == Some(ssrc as u64));
    assert(speaking_value(ssrc, false).contents().unsigned_member("ssrc"@) == Some(ssrc as u64));
    assert(speaking_value(other, true).contents().unsigned_member("ssrc"@) == Some(other as u64));
    assert(speaking_value(other, false).contents().unsigned_member("ssrc"@) == Some(other as u64));
}

/// A heartbeat carries its number and acknowledges the latest sequence number that came,
/// or minus one before any came.
pub proof fn heartbeats_carry_their_number(nonce: u64, number: u64, below: i64)
    ensures
        forall|latest: Option<SequenceNumber>|
            {
                &&& #[trigger] heartbeat_value(nonce, latest).unsigned_member("op"@) == Some(3u64)
                &&& heartbeat_value(nonce, latest).contents().unsigned_member("t"@) == Some(nonce)
            },
        heartbeat_value(nonce, None).contents().member("seq_ack"@) == Some(
            JsonValue::Negative(-1i64),
        ),
        heartbeat_value(nonce, Some(SequenceNumber::Unsigned(number))).contents().unsigned_member(
            "seq_ack"@,
        ) == Some(number),
        heartbeat_value(nonce, Some(SequenceNumber::Negative(below))).contents().member(
            "seq_ack"@,
        ) == Some(JsonValue::Negative(below)),
{
    member_names_differ();
    assert forall|latest: Option<SequenceNumber>|
        {
            &&& #[trigger] heartbeat_value(nonce, latest).unsigned_member("op"@) == Some(3u64)
            &&& heartbeat_value(nonce, latest).contents().unsigned_member("t"@) == Some(nonce)
            &&& heartbeat_value(nonce, latest).contents().member("seq_ack"@) == Some(
                acknowledged(latest),
            )
        } by {
        let members = heartbeat_members(nonce, latest);
        envelope_members(3, JsonValue::Object(members));
        found_member(members, 0);
        found_member(members, 1);
    }
    assert(heartbeat_value(nonce, None).unsigned_member("op"@) == Some(3u64));
    assert(heartbeat_value(nonce, Some(SequenceNumber::Unsigned(number))).unsigned_member("op"@)
        == Some(3u64));
    assert(heartbeat_value(nonce, Some(SequenceNumber::Negative(below))).unsigned_member("op"@)
        == Some(3u64));
}

/// A fresh session identifies itself with what the voice information says: its numbers as
/// decimal texts that read back, its session and its credential, and the one DAVE version
/// that is spoken.
pub proof fn identification_carries_the_voice_information(info: ConnectInfo)
    ensures
        identify_value(info).unsigned_member("op"@) == Some(0u64),
        identify_value(info).contents().text_member("server_id"@) is Some,
        crate::text::parsed_u64(identify_value(info).contents().text_member("server_id"@)->0)
            == Some(info.server_id),
        identify_value(info).contents().text_member("user_id"@) is Some,
        crate::text::parsed_u64(identify_value(info).contents().text_member("user_id"@)->0)
            == Some(info.user_id),
        identify_value(info).contents().text_member("session_id"@) == Some(info.session_id),
        identify_value(info).contents().text_member("token"@) == Some(info.token),
        identify_value(info).contents().unsigned_member("max_dave_protocol_version"@) == Some(
            1u64,
        ),
{
    member_names_differ();
    let members = identify_members(info);
    envelope_members(0, JsonValue::Object(members));
    found_member(members, 0);
    found_member(members, 1);
    found_member(members, 2);
    found_member(members, 3);
    found_member(members, 4);
    crate::text::decimal_reads_back(info.server_id);
    crate::text::decimal_reads_back(info.user_id);
}

/// A resumption names the session that the identification named, and acknowledges the
/// latest sequence number as a heartbeat does.
pub proof fn resumption_names_the_identified_session(
    info: ConnectInfo,
    latest: Option<SequenceNumber>,
    nonce: u64,
)
    ensures
        resume_value(info, latest).unsigned_member("op"@) == Some(7u64),
        resume_value(info, latest).contents().text_member("server_id"@) == identify_value(
            info,
        ).contents().text_member("server_id"@),
        resume_value(info, latest).contents().text_member("session_id"@) == Some(info.session_id),
        resume_value(info, latest).contents().text_member("token"@) == Some(info.token),
        resume_value(info, latest).contents().member("seq_ack"@) is Some,
        resume_value(info, latest).contents().member("seq_ack"@) == heartbeat_value(
            nonce,
            latest,
        ).contents().member("seq_ack"@),
        latest matches Some(SequenceNumber::Unsigned(number)) ==> resume_value(
            info,
            latest,
        ).contents().unsigned_member("seq_ack"@) == Some(number),
{
    member_names_differ();
    let members = resume_members(info, latest);
    envelope_members(7, JsonValue::Object(members));
    found_member(members, 0);
    found_member(members, 1);
    found_member(members, 2);
    found_member(members, 3);
    let identified = identify_members(info);
    envelope_members(0, JsonValue::Object(identified));
    found_member(identified, 0);
    let beat = heartbeat_members(nonce, latest);
    envelope_members(3, JsonValue::Object(beat));
    found_member(beat, 1);
}

/// The selection of a transport names UDP, the public address and port, and the mode under
/// the name that the gateway offered it by.
pub proof fn selections_carry_the_public_address(address: Seq<char>, port: u16, mode: TransportMode)
    ensures
        select_protocol_value(address, port, mode).unsigned_member("op"@) == Some(1u64),
        select_protocol_value(address, port, mode).contents().text_member("protocol"@) == Some(
            "udp"@,
        ),
        ({
            let chosen = select_protocol_value(address, port, mode).contents().member("data"@);
            &&& chosen is Some
            &&& chosen->0.text_member("address"@) == Some(address)
            &&& chosen->0.unsigned_member("port"@) == Some(port as u64)
            &&& chosen->0.text_member("mode"@) == Some(mode.wire_name())
        }),
{
    member_names_differ();
    let outer = select_protocol_value(address, port, mode)->Object_0[1].1;
    envelope_members(1, outer);
    let members = outer->Object_0;
    found_member(members, 0);
    found_member(members, 1);
    let inner = members[1].1->Object_0;
    found_member(inner, 0);
    found_member(inner, 1);
    found_member(inner, 2);
}

/// A JSON message of the DAVE lifecycle carries its opcode and its transition.
pub proof fn dave_messages_carry_their_transition(opcode: u8, transition_id: u16)
    ensures
        dave_json_value(opcode, transition_id).unsigned_member("op"@) == Some(opcode as u64),
        dave_json_value(opcode, transition_id).contents().unsigned_member("transition_id"@)
            == Some(transition_id as u64),
{
    let data = dave_json_value(opcode, transition_id)->Object_0[1].1;
    envelope_members(opcode as u64, data);
    found_member(data->Object_0, 0);
}

/// The messages that carry DAVE actions come in the order of the actions, one for each, and
/// a binary message never exceeds its bound. One action that cannot be sent holds all of
/// them back.
pub proof fn dave_answers_keep_their_order(
    actions: Seq<Outbound>,
    maximum_binary_bytes: usize,
    generation: ConnectionGeneration,
    sent: Result<Vec<OutboundMessage>, Error>,
    index: int,
)
    requires
        carried(actions, maximum_binary_bytes, generation, sent),
        0 <= index < actions.len(),
    ensures
        sent matches Ok(messages) ==> {
            &&& messages@.len() == actions.len()
            &&& actions[index] matches Outbound::Binary(bytes) ==> {
                &&& messages@[index] matches OutboundMessage::Binary(written)
                &&& written@ == bytes@
                &&& 0 < written@.len() <= maximum_binary_bytes
            }
            &&& actions[index] matches Outbound::Json { opcode, transition_id } ==> {
                &&& messages@[index] matches OutboundMessage::Json(json)
                &&& json.value().unsigned_member("op"@) == Some(opcode as u64)
                &&& json.value().contents().unsigned_member("transition_id"@) == Some(
                    transition_id as u64,
                )
            }
        },
        actions[index] matches Outbound::Binary(bytes) ==> (bytes@.len() == 0 || bytes@.len()
            > maximum_binary_bytes) ==> sent is Err,
{
    assert(sent is Ok ==> sendable(actions[index], maximum_binary_bytes));
    if let Outbound::Json { opcode, transition_id } = actions[index] {
        dave_messages_carry_their_transition(opcode, transition_id);
    }
}

} // verus!
