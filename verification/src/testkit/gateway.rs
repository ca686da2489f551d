//! A voice gateway for tests: what it records, what it answers, and what it can replay.
use std::collections::VecDeque;
use vstd::prelude::*;
use vstd::string::*;

use crate::gateway::payload::{message, OutboundMessage};
use crate::json::{no_members, object, push_member, Json, JsonValue};
use crate::text::same_text;
use crate::wire::{append_bytes, copy_bytes, to_be16};

verus! {

/// When a scripted close comes.
#[derive(Clone, Copy, Debug, PartialEq, Eq, Structural)]
pub enum GatewayCloseStage {
    BeforeHello,
    AfterHello,
    AfterIdentify,
    AfterReady,
    OnResume,
}

/// A close with its code and reason.
#[derive(Debug, PartialEq, Eq)]
pub struct VoiceClose {
    pub code: u16,
    pub reason: String,
}

impl View for VoiceClose {
    type V = (u16, Seq<char>);

    open spec fn view(&self) -> (u16, Seq<char>) {
        (self.code, self.reason@)
    }
}

impl VoiceClose {
    /// Copies the close.
    pub fn duplicate(&self) -> (copied: VoiceClose)
        ensures
            copied@ == self@,
    {
        VoiceClose { code: self.code, reason: self.reason.as_str().to_owned() }
    }
}

/// A close that comes at a stage of every attempt.
#[derive(Debug, PartialEq, Eq)]
pub struct ScriptedClose {
    pub stage: GatewayCloseStage,
    pub close: VoiceClose,
}

/// The configuration of a gateway. Spans are nanoseconds.
pub struct FakeVoiceGatewayConfig {
    pub heartbeat_interval: u64,
    pub ssrc: u32,
    pub voice_ip: String,
    pub voice_port: u16,
    pub modes: Vec<String>,
    pub secret_key: [u8; 32],
    pub dave_protocol_version: u16,
    pub max_message_bytes: usize,
    pub command_capacity: usize,
    pub capture_capacity: usize,
    pub speaking_capacity: usize,
    pub replay_capacity: usize,
    pub sequence_start: u16,
    pub sequence_modulus: u32,
    /// How many heartbeats go without acknowledgement, over all connections.
    pub drop_heartbeat_acks: usize,
    /// The delay before each acknowledgement.
    pub heartbeat_ack_delay: u64,
    pub scripted_close: Option<ScriptedClose>,
    /// The delay before the hello.
    pub hello_delay: u64,
}

/// Why a gateway cannot run, or stopped.
#[derive(Clone, Copy, Debug, PartialEq, Eq, Structural)]
pub enum GatewayError {
    InvalidConfig,
    CaptureFull { capacity: usize },
    SpeakingFull { capacity: usize },
}

/// Why a command was refused.
#[derive(Clone, Copy, Debug, PartialEq, Eq, Structural)]
pub enum GatewayCommandError {
    Full { capacity: usize },
    Closed,
    MessageTooLarge { actual: usize, maximum: usize },
}

impl FakeVoiceGatewayConfig {
    /// Returns the configuration of a gateway on the local host.
    pub fn local() -> (config: Self)
        ensures
            config.heartbeat_interval == 10_000_000_000,
            config.ssrc == 0x1122_3344,
            config.voice_ip@ == "127.0.0.1"@,
            config.voice_port == 50_000,
            config.modes@.len() == 2,
            config.modes@[0]@ == "aead_aes256_gcm_rtpsize"@,
            config.modes@[1]@ == "aead_xchacha20_poly1305_rtpsize"@,
            forall|i: int| 0 <= i < 32 ==> config.secret_key@[i] == 0x42,
            config.dave_protocol_version == 0,
            config.max_message_bytes == 1_280_000,
            config.command_capacity == 32,
            config.capture_capacity == 128,
            config.speaking_capacity == 32,
            config.replay_capacity == 64,
            config.sequence_start == 0,
            config.sequence_modulus == 65_536,
            config.drop_heartbeat_acks == 0,
            config.heartbeat_ack_delay == 0,
            config.scripted_close is None,
            config.hello_delay == 0,
            config.usable(),
    {
        let mut modes: Vec<String> = Vec::new();
        modes.push("aead_aes256_gcm_rtpsize".to_owned());
        modes.push("aead_xchacha20_poly1305_rtpsize".to_owned());
        FakeVoiceGatewayConfig {
            heartbeat_interval: 10_000_000_000,
            ssrc: 0x1122_3344,
            voice_ip: "127.0.0.1".to_owned(),
            voice_port: 50_000,
            modes,
            secret_key: [0x42u8;32],
            dave_protocol_version: 0,
            max_message_bytes: 1_280_000,
            command_capacity: 32,
            capture_capacity: 128,
            speaking_capacity: 32,
            replay_capacity: 64,
            sequence_start: 0,
            sequence_modulus: 65_536,
            drop_heartbeat_acks: 0,
            heartbeat_ack_delay: 0,
            scripted_close: None,
            hello_delay: 0,
        }
    }

    /// Whether a gateway can run with the configuration.
    pub open spec fn usable(self) -> bool {
        &&& self.heartbeat_interval != 0
        &&& self.voice_port != 0
        &&& self.modes@.len() != 0
        &&& self.max_message_bytes >= 3
        &&& self.command_capacity != 0
        &&& self.capture_capacity != 0
        &&& self.speaking_capacity != 0
        &&& self.replay_capacity != 0
        &&& 0 < self.sequence_modulus <= 65_536
        &&& (self.replay_capacity as u32) < self.sequence_modulus
        &&& self.sequence_start < self.sequence_modulus
    }

    /// Checks the configuration.
    pub fn validate(&self) -> (checked: Result<(), GatewayError>)
        ensures
            match checked {
                Ok(()) => self.usable(),
                Err(failure) => !self.usable() && failure == GatewayError::InvalidConfig,
            },
    {
        let replay: u32 = #[verifier::truncate]
        (self.replay_capacity as u32);
        if self.heartbeat_interval == 0 || self.voice_port == 0 || self.modes.len() == 0
            || self.max_message_bytes < 3 || self.command_capacity == 0 || self.capture_capacity
            == 0 || self.speaking_capacity == 0 || self.replay_capacity == 0
            || self.sequence_modulus == 0 || self.sequence_modulus > 65_536 || replay
            >= self.sequence_modulus || self.sequence_start as u32 >= self.sequence_modulus {
            Err(GatewayError::InvalidConfig)
        } else {
            Ok(())
        }
    }

    /// The close that the script has for a stage.
    pub open spec fn scripted(self, stage: GatewayCloseStage) -> Option<(u16, Seq<char>)> {
        match self.scripted_close {
            Some(scripted) => if scripted.stage == stage {
                Some(scripted.close@)
            } else {
                None
            },
            None => None,
        }
    }

    /// Returns the close that the script has for a stage.
    pub fn close_at_stage(&self, stage: GatewayCloseStage) -> (close: Option<VoiceClose>)
        ensures
            close_value(close) == self.scripted(stage),
    {
        match &self.scripted_close {
            Some(scripted) => if scripted.stage == stage {
                Some(scripted.close.duplicate())
            } else {
                None
            },
            None => None,
        }
    }

    /// Whether a mode is offered.
    pub open spec fn offers(self, mode: Seq<char>) -> bool {
        exists|i: int| 0 <= i < self.modes@.len() && (#[trigger] self.modes@[i])@ == mode
    }

    fn offered(&self, mode: &str) -> (offered: bool)
        ensures
            offered == self.offers(mode@),
    {
        let mut index: usize = 0;
        while index < self.modes.len()
            invariant
                index <= self.modes@.len(),
                forall|i: int| 0 <= i < index ==> (#[trigger] self.modes@[i])@ != mode@,
            decreases self.modes@.len() - index,
        {
            if same_text(self.modes[index].as_str(), mode) {
                return true;
            }
            index = index + 1;
        }
        false
    }

    /// The hello of the gateway.
    pub open spec fn hello_value(self) -> JsonValue {
        crate::gateway::payload::envelope(
            8,
            JsonValue::Object(
                seq![
                    (
                        "heartbeat_interval"@,
                        JsonValue::Unsigned(self.heartbeat_interval / 1_000_000),
                    ),
                ],
            ),
        )
    }

    /// Builds the hello of the gateway.
    pub fn hello(&self) -> (json: Json)
        ensures
            json.value() == self.hello_value(),
    {
        let mut members = no_members();
        push_member(
            &mut members,
            "heartbeat_interval",
            Json::Unsigned(self.heartbeat_interval / 1_000_000),
        );
        assert(crate::json::member_values(members@) =~= seq![
            ("heartbeat_interval"@, JsonValue::Unsigned(self.heartbeat_interval / 1_000_000)),
        ]);
        message(8, object(members))
    }

    /// The modes as an array.
    pub open spec fn modes_value(self) -> Seq<JsonValue> {
        Seq::new(self.modes@.len(), |i: int| JsonValue::Text(self.modes@[i]@))
    }

    /// The key as an array.
    pub open spec fn key_value(self) -> Seq<JsonValue> {
        Seq::new(32, |i: int| JsonValue::Unsigned(self.secret_key@[i] as u64))
    }

    /// The members of a ready message.
    pub open spec fn ready_members(self) -> Seq<(Seq<char>, JsonValue)> {
        seq![
            ("ssrc"@, JsonValue::Unsigned(self.ssrc as u64)),
            ("ip"@, JsonValue::Text(self.voice_ip@)),
            ("port"@, JsonValue::Unsigned(self.voice_port as u64)),
            ("modes"@, JsonValue::Array(self.modes_value())),
        ]
    }

    fn ready(&self) -> (json: Json)
        ensures
            json.value() == JsonValue::Object(self.ready_members()),
    {
        let mut items: Vec<Json> = Vec::new();
        let mut index: usize = 0;
        while index < self.modes.len()
            invariant
                index <= self.modes@.len(),
                items@.len() == index,
                forall|i: int|
                    0 <= i < index ==> (#[trigger] items@[i]).value() == JsonValue::Text(
                        self.modes@[i]@,
                    ),
            decreases self.modes@.len() - index,
        {
            items.push(Json::Text(self.modes[index].as_str().to_owned()));
            index = index + 1;
        }
        proof {
            crate::json::array_value(items);
            assert(crate::json::item_values(items@) =~= self.modes_value());
        }
        let mut members = no_members();
        push_member(&mut members, "ssrc", Json::Unsigned(self.ssrc as u64));
        push_member(&mut members, "ip", Json::Text(self.voice_ip.as_str().to_owned()));
        push_member(&mut members, "port", Json::Unsigned(self.voice_port as u64));
        push_member(&mut members, "modes", Json::Array(items));
        assert(crate::json::member_values(members@) =~= self.ready_members());
        object(members)
    }

    /// The members of a session description for a mode.
    pub open spec fn description_members(self, mode: Seq<char>) -> Seq<(Seq<char>, JsonValue)> {
        seq![
            ("mode"@, JsonValue::Text(mode)),
            ("secret_key"@, JsonValue::Array(self.key_value())),
            ("dave_protocol_version"@, JsonValue::Unsigned(self.dave_protocol_version as u64)),
        ]
    }

    fn description(&self, mode: &str) -> (json: Json)
        ensures
            json.value() == JsonValue::Object(self.description_members(mode@)),
    {
        let mut items: Vec<Json> = Vec::new();
        let mut index: usize = 0;
        while index < 32
            invariant
                index <= 32,
                items@.len() == index,
                forall|i: int|
                    0 <= i < index ==> (#[trigger] items@[i]).value() == JsonValue::Unsigned(
                        self.secret_key@[i] as u64,
                    ),
            decreases 32 - index,
        {
            items.push(Json::Unsigned(self.secret_key[index] as u64));
            index = index + 1;
        }
        proof {
            crate::json::array_value(items);
            assert(crate::json::item_values(items@) =~= self.key_value());
        }
        let mut members = no_members();
        push_member(&mut members, "mode", Json::Text(mode.to_owned()));
        push_member(&mut members, "secret_key", Json::Array(items));
        push_member(
            &mut members,
            "dave_protocol_version",
            Json::Unsigned(self.dave_protocol_version as u64),
        );
        assert(crate::json::member_values(members@) =~= self.description_members(mode@));
        object(members)
    }
}

/// The value of an optional close.
pub open spec fn close_value(close: Option<VoiceClose>) -> Option<(u16, Seq<char>)> {
    match close {
        Some(close) => Some(close@),
        None => None,
    }
}

/// What a client sent.
#[derive(Debug)]
#[allow(inconsistent_fields)]
pub enum GatewayRecord {
    Identify(Json),
    SelectProtocol(Json),
    Heartbeat { nonce: Json, seq_ack: Option<i64> },
    Resume { seq_ack: i64 },
    Speaking(Json),
    Binary(Vec<u8>),
    OtherText(Json),
}

/// The mathematical form of a [`GatewayRecord`].
#[verifier::ext_equal]
#[allow(inconsistent_fields)]
pub ghost enum RecordValue {
    Identify(JsonValue),
    SelectProtocol(JsonValue),
    Heartbeat { nonce: JsonValue, seq_ack: Option<i64> },
    Resume { seq_ack: i64 },
    Speaking(JsonValue),
    Binary(Seq<u8>),
    OtherText(JsonValue),
}

impl GatewayRecord {
    /// The record as a mathematical value.
    pub open spec fn value(self) -> RecordValue {
        match self {
            GatewayRecord::Identify(json) => RecordValue::Identify(json.value()),
            GatewayRecord::SelectProtocol(json) => RecordValue::SelectProtocol(json.value()),
            GatewayRecord::Heartbeat { nonce, seq_ack } => RecordValue::Heartbeat {
                nonce: nonce.value(),
                seq_ack,
            },
            GatewayRecord::Resume { seq_ack } => RecordValue::Resume { seq_ack },
            GatewayRecord::Speaking(json) => RecordValue::Speaking(json.value()),
            GatewayRecord::Binary(bytes) => RecordValue::Binary(bytes@),
            GatewayRecord::OtherText(json) => RecordValue::OtherText(json.value()),
        }
    }
}

/// The mathematical form of an [`OutboundMessage`].
#[verifier::ext_equal]
pub ghost enum MessageValue {
    Json(JsonValue),
    Binary(Seq<u8>),
}

impl OutboundMessage {
    /// The message as a mathematical value.
    pub open spec fn value(self) -> MessageValue {
        match self {
            OutboundMessage::Json(json) => MessageValue::Json(json.value()),
            OutboundMessage::Binary(bytes) => MessageValue::Binary(bytes@),
        }
    }

    /// Copies the message.
    pub fn duplicate(&self) -> (copied: OutboundMessage)
        ensures
            copied.value() == self.value(),
    {
        match self {
            OutboundMessage::Json(json) => OutboundMessage::Json(json.duplicate()),
            OutboundMessage::Binary(bytes) => OutboundMessage::Binary(copy_bytes(bytes.as_slice())),
        }
    }
}

/// A numbered message that can be replayed.
#[derive(Debug)]
pub struct BufferedMessage {
    pub sequence: u16,
    pub message: OutboundMessage,
}

impl View for BufferedMessage {
    type V = (u16, MessageValue);

    open spec fn view(&self) -> (u16, MessageValue) {
        (self.sequence, self.message.value())
    }
}

/// The values of rows.
pub open spec fn record_values(records: Seq<GatewayRecord>) -> Seq<RecordValue> {
    Seq::new(records.len(), |i: int| records[i].value())
}

/// The values of a row of buffered messages.
pub open spec fn buffer_values(buffer: Seq<BufferedMessage>) -> Seq<(u16, MessageValue)> {
    Seq::new(buffer.len(), |i: int| buffer[i]@)
}

/// The values of a row of messages.
pub open spec fn message_values(messages: Seq<OutboundMessage>) -> Seq<MessageValue> {
    Seq::new(messages.len(), |i: int| messages[i].value())
}

/// What a client sends over a connection.
#[derive(Debug)]
pub enum ClientMessage {
    /// A text: how many bytes it has, and what it reads as, where it is JSON.
    Text { length: usize, json: Option<Json> },
    Binary(Vec<u8>),
    Ping(Vec<u8>),
    Pong,
    Close,
}

/// The mathematical form of a [`ClientMessage`].
pub ghost enum ClientValue {
    Text { length: usize, json: Option<JsonValue> },
    Binary(Seq<u8>),
    Ping(Seq<u8>),
    Pong,
    Close,
}

impl ClientMessage {
    /// The message as a mathematical value.
    pub open spec fn value(self) -> ClientValue {
        match self {
            ClientMessage::Text { length, json } => ClientValue::Text {
                length,
                json: match json {
                    Some(json) => Some(json.value()),
                    None => None,
                },
            },
            ClientMessage::Binary(bytes) => ClientValue::Binary(bytes@),
            ClientMessage::Ping(bytes) => ClientValue::Ping(bytes@),
            ClientMessage::Pong => ClientValue::Pong,
            ClientMessage::Close => ClientValue::Close,
        }
    }
}

/// What a gateway does about a message.
#[derive(Debug)]
pub enum GatewayStep {
    /// It replies, and ends the connection where the reply closes it.
    Reply(GatewayReply),
    /// It returns the bytes of a ping.
    Pong(Vec<u8>),
    /// The connection is over.
    End,
}

/// The mathematical form of a [`GatewayStep`].
pub ghost enum StepValue {
    Reply(ReplyValue),
    Pong(Seq<u8>),
    End,
}

impl GatewayStep {
    /// The step as a mathematical value.
    pub open spec fn value(self) -> StepValue {
        match self {
            GatewayStep::Reply(reply) => StepValue::Reply(reply.value()),
            GatewayStep::Pong(bytes) => StepValue::Pong(bytes@),
            GatewayStep::End => StepValue::End,
        }
    }
}

/// What a gateway answers, in order, and the close behind it.
#[derive(Debug)]
pub struct GatewayReply {
    pub messages: Vec<OutboundMessage>,
    /// Whether the acknowledgement delay comes first.
    pub delayed: bool,
    /// The close that ends the connection.
    pub close: Option<VoiceClose>,
    /// Whether it is let go that the close could not be sent.
    pub lenient: bool,
}

/// The mathematical form of a [`GatewayReply`].
#[verifier::ext_equal]
pub ghost struct ReplyValue {
    pub messages: Seq<MessageValue>,
    pub delayed: bool,
    pub close: Option<(u16, Seq<char>)>,
    pub lenient: bool,
}

impl GatewayReply {
    /// The reply as a mathematical value.
    pub open spec fn value(self) -> ReplyValue {
        ReplyValue {
            messages: message_values(self.messages@),
            delayed: self.delayed,
            close: close_value(self.close),
            lenient: self.lenient,
        }
    }
}

impl ReplyValue {
    /// A reply that says nothing.
    pub open spec fn nothing() -> ReplyValue {
        ReplyValue { messages: Seq::empty(), delayed: false, close: None, lenient: false }
    }

    /// A reply of one message.
    pub open spec fn only(message: MessageValue) -> ReplyValue {
        ReplyValue { messages: seq![message], delayed: false, close: None, lenient: false }
    }

    /// A reply that closes the connection.
    pub open spec fn closing(close: (u16, Seq<char>)) -> ReplyValue {
        ReplyValue { messages: Seq::empty(), delayed: false, close: Some(close), lenient: false }
    }

    /// A reply that closes the connection for what cannot be decoded.
    pub open spec fn undecoded() -> ReplyValue {
        ReplyValue { lenient: true, ..ReplyValue::closing(decode_close()) }
    }
}

/// The close for what cannot be decoded.
pub open spec fn decode_close() -> (u16, Seq<char>) {
    (4002, "failed to decode payload"@)
}

/// The close for a resume that the buffer does not reach back to.
pub open spec fn replay_close() -> (u16, Seq<char>) {
    (4006, "buffer no longer contains seq_ack"@)
}

/// The next sequence number.
pub open spec fn following_sequence(sequence: u16, modulus: u32) -> u16 {
    ((sequence + 1) % modulus as int) as u16
}

/// A message with an opcode, data and a sequence number.
pub open spec fn numbered_envelope(opcode: u8, data: JsonValue, sequence: u16) -> JsonValue {
    JsonValue::Object(
        seq![
            ("op"@, JsonValue::Unsigned(opcode as u64)),
            ("d"@, data),
            ("seq"@, JsonValue::Unsigned(sequence as u64)),
        ],
    )
}

/// A buffer with one more message; the oldest one makes room.
pub open spec fn buffered(
    buffer: Seq<(u16, MessageValue)>,
    capacity: usize,
    entry: (u16, MessageValue),
) -> Seq<(u16, MessageValue)> {
    if buffer.len() == capacity {
        buffer.skip(1).push(entry)
    } else {
        buffer.push(entry)
    }
}

/// Where a replay starts: behind the latest message with the acknowledged number, or at
/// the beginning where nothing was acknowledged.
pub open spec fn replay_start(buffer: Seq<(u16, MessageValue)>, ack: i64) -> Option<nat> {
    if ack == -1 {
        Some(0)
    } else {
        behind_latest(buffer, ack)
    }
}

/// The position behind the latest message with a number.
pub open spec fn behind_latest(buffer: Seq<(u16, MessageValue)>, number: i64) -> Option<nat>
    decreases buffer.len(),
{
    if buffer.len() == 0 {
        None
    } else if buffer.last().0 == number {
        Some(buffer.len())
    } else {
        behind_latest(buffer.drop_last(), number)
    }
}

/// The messages of a buffer from a position on.
pub open spec fn replayed(buffer: Seq<(u16, MessageValue)>, start: nat) -> Seq<MessageValue> {
    Seq::new((buffer.len() - start) as nat, |i: int| buffer[start + i].1)
}

/// What the gateway remembers over all connections.
pub struct GatewayPeer {
    records: Vec<GatewayRecord>,
    speaking: Vec<Json>,
    sequence: u16,
    replay: VecDeque<BufferedMessage>,
    remaining_dropped_acks: usize,
}

/// The mathematical form of a [`GatewayPeer`].
#[verifier::ext_equal]
pub ghost struct PeerState {
    pub records: Seq<RecordValue>,
    pub speaking: Seq<JsonValue>,
    pub sequence: u16,
    pub replay: Seq<(u16, MessageValue)>,
    pub remaining_dropped_acks: usize,
}

impl View for GatewayPeer {
    type V = PeerState;

    closed spec fn view(&self) -> PeerState {
        PeerState {
            records: record_values(self.records@),
            speaking: crate::json::item_values(self.speaking@),
            sequence: self.sequence,
            replay: buffer_values(self.replay@),
            remaining_dropped_acks: self.remaining_dropped_acks,
        }
    }
}

impl PeerState {
    /// A record is added, if there is room.
    pub open spec fn record(self, config: FakeVoiceGatewayConfig, record: RecordValue) -> (
        PeerState,
        Option<GatewayError>,
    ) {
        if self.records.len() == config.capture_capacity {
            (self, Some(GatewayError::CaptureFull { capacity: config.capture_capacity }))
        } else {
            (PeerState { records: self.records.push(record), ..self }, None)
        }
    }

    /// A record of speaking is added, if there is room for both.
    pub open spec fn record_speaking(self, config: FakeVoiceGatewayConfig, value: JsonValue) -> (
        PeerState,
        Option<GatewayError>,
    ) {
        if self.speaking.len() == config.speaking_capacity {
            (self, Some(GatewayError::SpeakingFull { capacity: config.speaking_capacity }))
        } else if self.records.len() == config.capture_capacity {
            (self, Some(GatewayError::CaptureFull { capacity: config.capture_capacity }))
        } else {
            (
                PeerState {
                    speaking: self.speaking.push(value),
                    records: self.records.push(RecordValue::Speaking(value)),
                    ..self
                },
                None,
            )
        }
    }

    /// The message takes the next number and can be replayed.
    pub open spec fn numbered(self, config: FakeVoiceGatewayConfig, message: MessageValue) -> PeerState {
        PeerState {
            sequence: following_sequence(self.sequence, config.sequence_modulus),
            replay: buffered(self.replay, config.replay_capacity, (self.sequence, message)),
            ..self
        }
    }

    /// The next numbered message with an opcode and data.
    pub open spec fn next_json(self, opcode: u8, data: JsonValue) -> MessageValue {
        MessageValue::Json(numbered_envelope(opcode, data, self.sequence))
    }

    /// The next numbered binary message.
    pub open spec fn next_binary(self, opcode: u8, payload: Seq<u8>) -> MessageValue {
        MessageValue::Binary(crate::wire::be16(self.sequence) + seq![opcode] + payload)
    }

    /// An identification is answered with a ready message.
    pub open spec fn identified(self, config: FakeVoiceGatewayConfig) -> (PeerState, ReplyValue) {
        if let Some(close) = config.scripted(GatewayCloseStage::AfterIdentify) {
            (self, ReplyValue::closing(close))
        } else {
            let ready = self.next_json(2, JsonValue::Object(config.ready_members()));
            (
                self.numbered(config, ready),
                ReplyValue {
                    close: config.scripted(GatewayCloseStage::AfterReady),
                    ..ReplyValue::only(ready)
                },
            )
        }
    }

    /// The mode that a protocol selection asks for.
    pub open spec fn asked_mode(data: JsonValue) -> Option<Seq<char>> {
        match data.member("data"@) {
            Some(inner) => inner.text_member("mode"@),
            None => None,
        }
    }

    /// A protocol selection is answered with a session description, if the mode was
    /// offered.
    pub open spec fn selected(self, config: FakeVoiceGatewayConfig, data: JsonValue) -> (
        PeerState,
        ReplyValue,
    ) {
        match PeerState::asked_mode(data) {
            Some(mode) if config.offers(mode) => {
                let description = self.next_json(
                    4,
                    JsonValue::Object(config.description_members(mode)),
                );
                (self.numbered(config, description), ReplyValue::only(description))
            },
            _ => (self, ReplyValue::undecoded()),
        }
    }

    /// The number of a heartbeat.
    pub open spec fn heartbeat_number(data: JsonValue) -> JsonValue {
        match data.member("t"@) {
            Some(nonce) => nonce,
            None => JsonValue::Null,
        }
    }

    /// The acknowledged sequence in a message.
    pub open spec fn acknowledged(data: JsonValue) -> Option<i64> {
        match data.member("seq_ack"@) {
            Some(ack) => ack.signed(),
            None => None,
        }
    }

    /// A heartbeat is acknowledged, unless it is one of those to let go.
    pub open spec fn beaten(self, config: FakeVoiceGatewayConfig, data: JsonValue) -> (
        PeerState,
        ReplyValue,
    ) {
        if self.remaining_dropped_acks > 0 {
            (
                PeerState {
                    remaining_dropped_acks: (self.remaining_dropped_acks - 1) as usize,
                    ..self
                },
                ReplyValue::nothing(),
            )
        } else {
            (
                self,
                ReplyValue {
                    delayed: config.heartbeat_ack_delay != 0,
                    ..ReplyValue::only(
                        MessageValue::Json(
                            crate::gateway::payload::envelope(
                                6,
                                JsonValue::Object(
                                    seq![("t"@, PeerState::heartbeat_number(data))],
                                ),
                            ),
                        ),
                    )
                },
            )
        }
    }

    /// A resume is answered with what was missed and a confirmation.
    pub open spec fn resumed(self, config: FakeVoiceGatewayConfig, ack: i64) -> ReplyValue {
        if let Some(close) = config.scripted(GatewayCloseStage::OnResume) {
            ReplyValue::closing(close)
        } else {
            match replay_start(self.replay, ack) {
                None => ReplyValue::closing(replay_close()),
                Some(start) => ReplyValue {
                    messages: replayed(self.replay, start).push(
                        MessageValue::Json(
                            crate::gateway::payload::envelope(9, JsonValue::Object(Seq::empty())),
                        ),
                    ),
                    delayed: false,
                    close: None,
                    lenient: false,
                },
            }
        }
    }

    /// The data of a message.
    pub open spec fn data(value: JsonValue) -> JsonValue {
        match value.member("d"@) {
            Some(data) => data,
            None => JsonValue::Null,
        }
    }

    /// The record of a text message.
    pub open spec fn record_of(opcode: u64, value: JsonValue) -> RecordValue {
        let data = PeerState::data(value);
        match opcode {
            0 => RecordValue::Identify(data),
            1 => RecordValue::SelectProtocol(data),
            3 => RecordValue::Heartbeat {
                nonce: PeerState::heartbeat_number(data),
                seq_ack: PeerState::acknowledged(data),
            },
            7 => RecordValue::Resume { seq_ack: PeerState::resume_ack(data) },
            _ => RecordValue::OtherText(value),
        }
    }

    /// What a resume acknowledges; minus one where it acknowledges nothing.
    pub open spec fn resume_ack(data: JsonValue) -> i64 {
        match PeerState::acknowledged(data) {
            Some(ack) => ack,
            None => -1i64,
        }
    }

    /// What a recorded text message is answered with.
    pub open spec fn answered(
        self,
        config: FakeVoiceGatewayConfig,
        opcode: u64,
        data: JsonValue,
    ) -> (PeerState, ReplyValue) {
        match opcode {
            0 => self.identified(config),
            1 => self.selected(config, data),
            3 => self.beaten(config, data),
            7 => (self, self.resumed(config, PeerState::resume_ack(data))),
            _ => (self, ReplyValue::nothing()),
        }
    }

    /// What a text message leads to.
    pub open spec fn text(self, config: FakeVoiceGatewayConfig, value: JsonValue) -> (
        PeerState,
        Result<ReplyValue, GatewayError>,
    ) {
        match value.unsigned_member("op"@) {
            None => (self, Ok(ReplyValue::undecoded())),
            Some(5) => {
                let (state, failure) = self.record_speaking(config, PeerState::data(value));
                (
                    state,
                    match failure {
                        Some(failure) => Err(failure),
                        None => Ok(ReplyValue::nothing()),
                    },
                )
            },
            Some(opcode) => {
                let (state, failure) = self.record(config, PeerState::record_of(opcode, value));
                match failure {
                    Some(failure) => (state, Err(failure)),
                    None => {
                        let (after, reply) = state.answered(config, opcode, PeerState::data(value));
                        (after, Ok(reply))
                    },
                }
            },
        }
    }
}

impl PeerState {
    /// What a binary message leads to: it is recorded, unless it is empty or too long.
    pub open spec fn binary(self, config: FakeVoiceGatewayConfig, bytes: Seq<u8>) -> (
        PeerState,
        Result<ReplyValue, GatewayError>,
    ) {
        if bytes.len() == 0 || bytes.len() > config.max_message_bytes {
            (self, Ok(ReplyValue::undecoded()))
        } else {
            let (state, failure) = self.record(config, RecordValue::Binary(bytes));
            (
                state,
                match failure {
                    Some(failure) => Err(failure),
                    None => Ok(ReplyValue::nothing()),
                },
            )
        }
    }

    /// What a message leads to. A close that is scripted for the first message after the
    /// hello comes before everything else; a text must be short enough, and JSON.
    pub open spec fn stepped(self, config: FakeVoiceGatewayConfig, message: ClientValue) -> (
        PeerState,
        Result<StepValue, GatewayError>,
    ) {
        if let Some(close) = config.scripted(GatewayCloseStage::AfterHello) {
            (self, Ok(StepValue::Reply(ReplyValue::closing(close))))
        } else {
            match message {
                ClientValue::Text { length, json } => {
                    let (state, reply) = if length > config.max_message_bytes || json is None {
                        (self, Ok(ReplyValue::undecoded()))
                    } else {
                        self.text(config, json->0)
                    };
                    (state, step_of(reply))
                },
                ClientValue::Binary(bytes) => {
                    let (state, reply) = self.binary(config, bytes);
                    (state, step_of(reply))
                },
                ClientValue::Ping(bytes) => (self, Ok(StepValue::Pong(bytes))),
                ClientValue::Pong => (self, Ok(StepValue::Reply(ReplyValue::nothing()))),
                ClientValue::Close => (self, Ok(StepValue::End)),
            }
        }
    }
}

/// The step that a reply makes.
pub open spec fn step_of(reply: Result<ReplyValue, GatewayError>) -> Result<
    StepValue,
    GatewayError,
> {
    match reply {
        Ok(reply) => Ok(StepValue::Reply(reply)),
        Err(failure) => Err(failure),
    }
}

/// A reply that says nothing.
fn nothing() -> (reply: GatewayReply)
    ensures
        reply.value() == ReplyValue::nothing(),
{
    let reply = GatewayReply { messages: Vec::new(), delayed: false, close: None, lenient: false };
    assert(reply.value() =~= ReplyValue::nothing());
    reply
}

/// A reply of one message.
fn only(message: OutboundMessage) -> (reply: GatewayReply)
    ensures
        reply.value() == ReplyValue::only(message.value()),
{
    let mut messages: Vec<OutboundMessage> = Vec::new();
    messages.push(message);
    let reply = GatewayReply { messages, delayed: false, close: None, lenient: false };
    assert(reply.value() =~= ReplyValue::only(message.value()));
    reply
}

/// A reply that closes the connection.
fn closing(close: VoiceClose) -> (reply: GatewayReply)
    ensures
        reply.value() == ReplyValue::closing(close@),
{
    let reply = GatewayReply {
        messages: Vec::new(),
        delayed: false,
        close: Some(close),
        lenient: false,
    };
    assert(reply.value() =~= ReplyValue::closing(close@));
    reply
}

/// A reply that closes the connection for what cannot be decoded.
fn undecoded() -> (reply: GatewayReply)
    ensures
        reply.value() == ReplyValue::undecoded(),
{
    let mut reply = closing(close_decode_error());
    reply.lenient = true;
    reply
}

/// Closes for what cannot be decoded.
pub fn close_decode_error() -> (close: VoiceClose)
    ensures
        close@ == decode_close(),
{
    VoiceClose { code: 4002, reason: "failed to decode payload".to_owned() }
}

fn numbered_message(opcode: u8, data: Json, sequence: u16) -> (json: Json)
    ensures
        json.value() == numbered_envelope(opcode, data.value(), sequence),
{
    let mut members = no_members();
    push_member(&mut members, "op", Json::Unsigned(opcode as u64));
    push_member(&mut members, "d", data);
    push_member(&mut members, "seq", Json::Unsigned(sequence as u64));
    assert(crate::json::member_values(members@) =~= seq![
        ("op"@, JsonValue::Unsigned(opcode as u64)),
        ("d"@, data.value()),
        ("seq"@, JsonValue::Unsigned(sequence as u64)),
    ]);
    object(members)
}

fn data_of(value: &Json) -> (data: Json)
    ensures
        data.value() == PeerState::data(value.value()),
{
    match value.get("d") {
        Some(data) => data.duplicate(),
        None => Json::Null,
    }
}

/// A command for the gateway.
#[derive(Debug)]
pub enum GatewayCommand {
    Json { opcode: u8, data: Json, numbered: bool },
    Binary { opcode: u8, payload: Vec<u8> },
    /// A message that is lost on its way, and can be replayed.
    BufferJson { opcode: u8, data: Json },
    Close(VoiceClose),
}

/// Checks the length of a binary command, with its sequence and opcode.
pub fn check_binary(payload: usize, maximum: usize) -> (checked: Result<(), GatewayCommandError>)
    requires
        payload <= usize::MAX - 3,
    ensures
        checked == (if payload + 3 > maximum {
            Err::<(), GatewayCommandError>(
                GatewayCommandError::MessageTooLarge { actual: (payload + 3) as usize, maximum },
            )
        } else {
            Ok(())
        }),
{
    let actual: usize = payload + 3;
    if actual > maximum {
        Err(GatewayCommandError::MessageTooLarge { actual, maximum })
    } else {
        Ok(())
    }
}

impl GatewayPeer {
    /// Creates what a gateway remembers.
    pub fn new(config: &FakeVoiceGatewayConfig) -> (peer: Self)
        ensures
            peer@ == (PeerState {
                records: Seq::empty(),
                speaking: Seq::empty(),
                sequence: config.sequence_start,
                replay: Seq::empty(),
                remaining_dropped_acks: config.drop_heartbeat_acks,
            }),
    {
        let peer = GatewayPeer {
            records: Vec::new(),
            speaking: Vec::new(),
            sequence: config.sequence_start,
            replay: VecDeque::new(),
            remaining_dropped_acks: config.drop_heartbeat_acks,
        };
        assert(peer@.records =~= Seq::<RecordValue>::empty());
        assert(peer@.speaking =~= Seq::<JsonValue>::empty());
        assert(peer@.replay =~= Seq::<(u16, MessageValue)>::empty());
        peer
    }

    /// Returns what clients sent.
    pub fn records(&self) -> (records: &Vec<GatewayRecord>)
        ensures
            record_values(records@) == self@.records,
    {
        &self.records
    }

    /// Returns what clients announced of speaking.
    pub fn speaking(&self) -> (speaking: &Vec<Json>)
        ensures
            crate::json::item_values(speaking@) == self@.speaking,
    {
        &self.speaking
    }

    fn record(&mut self, config: &FakeVoiceGatewayConfig, record: GatewayRecord) -> (recorded: Result<
        (),
        GatewayError,
    >)
        ensures
            final(self)@ == old(self)@.record(*config, record.value()).0,
            match recorded {
                Ok(()) => old(self)@.record(*config, record.value()).1 is None,
                Err(failure) => old(self)@.record(*config, record.value()).1 == Some(failure),
            },
    {
        if self.records.len() == config.capture_capacity {
            return Err(GatewayError::CaptureFull { capacity: config.capture_capacity });
        }
        self.records.push(record);
        assert(self@.records =~= old(self)@.records.push(record.value()));
        Ok(())
    }

    fn record_speaking(&mut self, config: &FakeVoiceGatewayConfig, value: Json) -> (recorded: Result<
        (),
        GatewayError,
    >)
        ensures
            final(self)@ == old(self)@.record_speaking(*config, value.value()).0,
            match recorded {
                Ok(()) => old(self)@.record_speaking(*config, value.value()).1 is None,
                Err(failure) => old(self)@.record_speaking(*config, value.value()).1 == Some(
                    failure,
                ),
            },
    {
        if self.speaking.len() == config.speaking_capacity {
            return Err(GatewayError::SpeakingFull { capacity: config.speaking_capacity });
        }
        if self.records.len() == config.capture_capacity {
            return Err(GatewayError::CaptureFull { capacity: config.capture_capacity });
        }
        self.speaking.push(value.duplicate());
        self.records.push(GatewayRecord::Speaking(value));
        assert(self@.speaking =~= old(self)@.speaking.push(value.value()));
        assert(self@.records =~= old(self)@.records.push(RecordValue::Speaking(value.value())));
        Ok(())
    }

    fn number(&mut self, config: &FakeVoiceGatewayConfig, message: &OutboundMessage)
        requires
            config.usable(),
        ensures
            final(self)@ == old(self)@.numbered(*config, message.value()),
    {
        let sequence: u16 = self.sequence;
        let next: u32 = (sequence as u32 + 1) % config.sequence_modulus;
        self.sequence = next as u16;
        if self.replay.len() == config.replay_capacity {
            let _oldest = self.replay.pop_front();
            assert(self@.replay =~= old(self)@.replay.skip(1));
        }
        let ghost before = self@.replay;
        self.replay.push_back(BufferedMessage { sequence, message: message.duplicate() });
        assert(self@.replay =~= before.push((sequence, message.value())));
    }

    fn next_json(&mut self, config: &FakeVoiceGatewayConfig, opcode: u8, data: Json) -> (sent:
        OutboundMessage)
        requires
            config.usable(),
        ensures
            sent.value() == old(self)@.next_json(opcode, data.value()),
            final(self)@ == old(self)@.numbered(*config, sent.value()),
    {
        let sent = OutboundMessage::Json(numbered_message(opcode, data, self.sequence));
        self.number(config, &sent);
        sent
    }

    /// Runs a command: the message to send, if there is one, or the close.
    pub fn run_command(&mut self, config: &FakeVoiceGatewayConfig, command: GatewayCommand) -> (reply:
        GatewayReply)
        requires
            config.usable(),
        ensures
            match command {
                GatewayCommand::Json { opcode, data, numbered } => if numbered {
                    let sent = old(self)@.next_json(opcode, data.value());
                    &&& reply.value() == ReplyValue::only(sent)
                    &&& final(self)@ == old(self)@.numbered(*config, sent)
                } else {
                    &&& reply.value() == ReplyValue::only(
                        MessageValue::Json(
                            crate::gateway::payload::envelope(opcode as u64, data.value()),
                        ),
                    )
                    &&& final(self)@ == old(self)@
                },
                GatewayCommand::Binary { opcode, payload } => {
                    let sent = old(self)@.next_binary(opcode, payload@);
                    &&& reply.value() == ReplyValue::only(sent)
                    &&& final(self)@ == old(self)@.numbered(*config, sent)
                },
                GatewayCommand::BufferJson { opcode, data } => {
                    &&& reply.value() == ReplyValue::nothing()
                    &&& final(self)@ == old(self)@.numbered(
                        *config,
                        old(self)@.next_json(opcode, data.value()),
                    )
                },
                GatewayCommand::Close(close) => {
                    &&& reply.value() == ReplyValue::closing(close@)
                    &&& final(self)@ == old(self)@
                },
            },
    {
        match command {
            GatewayCommand::Json { opcode, data, numbered } => {
                if numbered {
                    only(self.next_json(config, opcode, data))
                } else {
                    only(OutboundMessage::Json(message(opcode as u64, data)))
                }
            },
            GatewayCommand::Binary { opcode, payload } => {
                let mut bytes: Vec<u8> = Vec::new();
                append_bytes(&mut bytes, to_be16(self.sequence).as_slice());
                bytes.push(opcode);
                append_bytes(&mut bytes, payload.as_slice());
                assert(bytes@ =~= crate::wire::be16(self.sequence) + seq![opcode] + payload@);
                let sent = OutboundMessage::Binary(bytes);
                self.number(config, &sent);
                only(sent)
            },
            GatewayCommand::BufferJson { opcode, data } => {
                let _lost = self.next_json(config, opcode, data);
                nothing()
            },
            GatewayCommand::Close(close) => closing(close),
        }
    }

    fn identified(&mut self, config: &FakeVoiceGatewayConfig) -> (reply: GatewayReply)
        requires
            config.usable(),
        ensures
            (final(self)@, reply.value()) == old(self)@.identified(*config),
    {
        if let Some(close) = config.close_at_stage(GatewayCloseStage::AfterIdentify) {
            return closing(close);
        }
        let mut reply = only(self.next_json(config, 2, config.ready()));
        reply.close = config.close_at_stage(GatewayCloseStage::AfterReady);
        reply
    }

    fn selected(&mut self, config: &FakeVoiceGatewayConfig, data: &Json) -> (reply: GatewayReply)
        requires
            config.usable(),
        ensures
            (final(self)@, reply.value()) == old(self)@.selected(*config, data.value()),
    {
        if let Some(inner) = data.get("data") {
            if let Some(mode) = inner.get("mode") {
                if let Some(mode) = mode.as_str() {
                    if config.offered(mode) {
                        return only(self.next_json(config, 4, config.description(mode)));
                    }
                }
            }
        }
        undecoded()
    }

    fn beaten(&mut self, config: &FakeVoiceGatewayConfig, nonce: Json, Ghost(data): Ghost<JsonValue>) -> (reply:
        GatewayReply)
        requires
            nonce.value() == PeerState::heartbeat_number(data),
        ensures
            (final(self)@, reply.value()) == old(self)@.beaten(*config, data),
    {
        if self.remaining_dropped_acks > 0 {
            self.remaining_dropped_acks = self.remaining_dropped_acks - 1;
            return nothing();
        }
        let mut members = no_members();
        push_member(&mut members, "t", nonce);
        assert(crate::json::member_values(members@) =~= seq![
            ("t"@, PeerState::heartbeat_number(data)),
        ]);
        let mut reply = only(OutboundMessage::Json(message(6, object(members))));
        reply.delayed = config.heartbeat_ack_delay != 0;
        reply
    }

    fn find_start(&self, ack: i64) -> (start: Option<usize>)
        ensures
            match start {
                Some(start) => {
                    &&& replay_start(self@.replay, ack) == Some(start as nat)
                    &&& start <= self@.replay.len()
                },
                None => replay_start(self@.replay, ack) is None,
            },
    {
        if ack == -1 {
            return Some(0);
        }
        let mut end: usize = self.replay.len();
        assert(self@.replay.take(end as int) =~= self@.replay);
        while end > 0
            invariant
                end <= self.replay@.len(),
                self@.replay.len() == self.replay@.len(),
                ack != -1,
                behind_latest(self@.replay, ack) == behind_latest(
                    self@.replay.take(end as int),
                    ack,
                ),
            decreases end,
        {
            let ghost kept = self@.replay.take(end as int);
            assert(kept.last() == self@.replay[end - 1]);
            assert(self@.replay[end - 1] == self.replay@[end - 1]@);
            if self.replay[end - 1].sequence as i64 == ack {
                return Some(end);
            }
            assert(kept.drop_last() =~= self@.replay.take(end - 1));
            end = end - 1;
        }
        None
    }

    fn resumed(&self, config: &FakeVoiceGatewayConfig, ack: i64) -> (reply: GatewayReply)
        ensures
            reply.value() == self@.resumed(*config, ack),
    {
        if let Some(close) = config.close_at_stage(GatewayCloseStage::OnResume) {
            return closing(close);
        }
        let start: usize = match self.find_start(ack) {
            Some(start) => start,
            None => return closing(
                VoiceClose { code: 4006, reason: "buffer no longer contains seq_ack".to_owned() },
            ),
        };
        let mut messages: Vec<OutboundMessage> = Vec::new();
        let mut index: usize = start;
        while index < self.replay.len()
            invariant
                start <= index <= self.replay@.len(),
                messages@.len() == index - start,
                forall|i: int|
                    0 <= i < index - start ==> (#[trigger] messages@[i]).value()
                        == self.replay@[start + i]@.1,
            decreases self.replay@.len() - index,
        {
            messages.push(self.replay[index].message.duplicate());
            index = index + 1;
        }
        let confirmation = message(9, object(no_members()));
        messages.push(OutboundMessage::Json(confirmation));
        let ghost expected = replayed(self@.replay, start as nat).push(
            MessageValue::Json(confirmation.value()),
        );
        assert(message_values(messages@) =~= expected);
        GatewayReply { messages, delayed: false, close: None, lenient: false }
    }

    /// Takes a text message: it is recorded and answered.
    pub fn handle_text(&mut self, config: &FakeVoiceGatewayConfig, value: Json) -> (reply: Result<
        GatewayReply,
        GatewayError,
    >)
        requires
            config.usable(),
        ensures
            final(self)@ == old(self)@.text(*config, value.value()).0,
            match reply {
                Ok(reply) => old(self)@.text(*config, value.value()).1 == Ok::<
                    ReplyValue,
                    GatewayError,
                >(reply.value()),
                Err(failure) => old(self)@.text(*config, value.value()).1 == Err::<
                    ReplyValue,
                    GatewayError,
                >(failure),
            },
    {
        let opcode: u64 = match value.u64_member("op") {
            Some(opcode) => opcode,
            None => return Ok(undecoded()),
        };
        let data = data_of(&value);
        if opcode == 5 {
            return match self.record_speaking(config, data) {
                Ok(()) => Ok(nothing()),
                Err(failure) => Err(failure),
            };
        }
        let nonce = match data.get("t") {
            Some(nonce) => nonce.duplicate(),
            None => Json::Null,
        };
        let seq_ack: Option<i64> = match data.get("seq_ack") {
            Some(ack) => ack.as_i64(),
            None => None,
        };
        let ack: i64 = match seq_ack {
            Some(ack) => ack,
            None => -1,
        };
        let record = match opcode {
            0 => GatewayRecord::Identify(data.duplicate()),
            1 => GatewayRecord::SelectProtocol(data.duplicate()),
            3 => GatewayRecord::Heartbeat { nonce: nonce.duplicate(), seq_ack },
            7 => GatewayRecord::Resume { seq_ack: ack },
            _ => GatewayRecord::OtherText(value.duplicate()),
        };
        if let Err(failure) = self.record(config, record) {
            return Err(failure);
        }
        match opcode {
            0 => Ok(self.identified(config)),
            1 => Ok(self.selected(config, &data)),
            3 => Ok(self.beaten(config, nonce, Ghost(data.value()))),
            7 => Ok(self.resumed(config, ack)),
            _ => Ok(nothing()),
        }
    }

    /// Takes a binary message: it is recorded. An empty or too long one closes the
    /// connection.
    pub fn handle_binary(&mut self, config: &FakeVoiceGatewayConfig, bytes: Vec<u8>) -> (reply: Result<
        GatewayReply,
        GatewayError,
    >)
        ensures
            final(self)@ == old(self)@.binary(*config, bytes@).0,
            match reply {
                Ok(reply) => old(self)@.binary(*config, bytes@).1 == Ok::<ReplyValue, GatewayError>(
                    reply.value(),
                ),
                Err(failure) => old(self)@.binary(*config, bytes@).1 == Err::<
                    ReplyValue,
                    GatewayError,
                >(failure),
            },
    {
        if bytes.len() == 0 || bytes.len() > config.max_message_bytes {
            return Ok(undecoded());
        }
        match self.record(config, GatewayRecord::Binary(bytes)) {
            Ok(()) => Ok(nothing()),
            Err(failure) => Err(failure),
        }
    }

    /// Takes a message and says what to do about it.
    pub fn handle_message(
        &mut self,
        config: &FakeVoiceGatewayConfig,
        message: ClientMessage,
    ) -> (step: Result<GatewayStep, GatewayError>)
        requires
            config.usable(),
        ensures
            final(self)@ == old(self)@.stepped(*config, message.value()).0,
            match step {
                Ok(step) => old(self)@.stepped(*config, message.value()).1 == Ok::<
                    StepValue,
                    GatewayError,
                >(step.value()),
                Err(failure) => old(self)@.stepped(*config, message.value()).1 == Err::<
                    StepValue,
                    GatewayError,
                >(failure),
            },
    {
        if let Some(close) = config.close_at_stage(GatewayCloseStage::AfterHello) {
            return Ok(GatewayStep::Reply(closing(close)));
        }
        let reply = match message {
            ClientMessage::Text { length, json } => {
                match json {
                    Some(json) => if length > config.max_message_bytes {
                        Ok(undecoded())
                    } else {
                        self.handle_text(config, json)
                    },
                    None => Ok(undecoded()),
                }
            },
            ClientMessage::Binary(bytes) => self.handle_binary(config, bytes),
            ClientMessage::Ping(bytes) => return Ok(GatewayStep::Pong(bytes)),
            ClientMessage::Pong => Ok(nothing()),
            ClientMessage::Close => return Ok(GatewayStep::End),
        };
        match reply {
            Ok(reply) => Ok(GatewayStep::Reply(reply)),
            Err(failure) => Err(failure),
        }
    }
}

/// A close that is scripted for the first message after the hello answers any message,
/// and nothing of the message is recorded.
pub proof fn the_scripted_close_comes_first(
    state: PeerState,
    config: FakeVoiceGatewayConfig,
    message: ClientValue,
)
    requires
        config.scripted(GatewayCloseStage::AfterHello) is Some,
    ensures
        state.stepped(config, message).0 == state,
        state.stepped(config, message).1 == Ok::<StepValue, GatewayError>(
            StepValue::Reply(
                ReplyValue::closing(config.scripted(GatewayCloseStage::AfterHello)->0),
            ),
        ),
{
}

/// What can be replayed never outgrows its bound, and the numbers stay below their
/// modulus.
pub proof fn the_replay_buffer_is_bounded(
    state: PeerState,
    config: FakeVoiceGatewayConfig,
    message: MessageValue,
)
    requires
        config.usable(),
        state.replay.len() <= config.replay_capacity,
        state.sequence < config.sequence_modulus,
    ensures
        state.numbered(config, message).replay.len() <= config.replay_capacity,
        state.numbered(config, message).replay.last() == (state.sequence, message),
        state.numbered(config, message).sequence < config.sequence_modulus,
{
    let next = state.sequence + 1;
    let modulus = config.sequence_modulus as int;
    assert(0 <= next % modulus < modulus) by (nonlinear_arith)
        requires
            modulus > 0,
    ;
}

/// A client that acknowledged the latest message is sent nothing again; one that
/// acknowledged nothing is sent everything that is kept.
pub proof fn replays_follow_the_acknowledgement(buffer: Seq<(u16, MessageValue)>)
    requires
        buffer.len() > 0,
    ensures
        replay_start(buffer, buffer.last().0 as i64) == Some(buffer.len()),
        replayed(buffer, buffer.len()).len() == 0,
        replay_start(buffer, -1i64) == Some(0nat),
        replayed(buffer, 0).len() == buffer.len(),
{
}

proof fn reply_names_differ()
    ensures
        "op"@ != "d"@,
        "op"@ != "seq"@,
        "d"@ != "seq"@,
        "ssrc"@ != "ip"@,
        "ssrc"@ != "port"@,
        "ssrc"@ != "modes"@,
        "ip"@ != "port"@,
        "ip"@ != "modes"@,
        "port"@ != "modes"@,
        "mode"@ != "secret_key"@,
        "mode"@ != "dave_protocol_version"@,
        "secret_key"@ != "dave_protocol_version"@,
{
    reveal_strlit("op");
    reveal_strlit("d");
    reveal_strlit("seq");
    reveal_strlit("ssrc");
    reveal_strlit("ip");
    reveal_strlit("port");
    reveal_strlit("modes");
    reveal_strlit("mode");
    reveal_strlit("secret_key");
    reveal_strlit("dave_protocol_version");
    assert("op"@.len() == 2);
    assert("d"@.len() == 1);
    assert("seq"@.len() == 3);
    assert("ssrc"@.len() == 4);
    assert("ip"@.len() == 2);
    assert("port"@.len() == 4);
    assert("modes"@.len() == 5);
    assert("mode"@.len() == 4);
    assert("secret_key"@.len() == 10);
    assert("dave_protocol_version"@.len() == 21);
    assert("ssrc"@[0] == 's');
    assert("port"@[0] == 'p');
}

/// A numbered message carries its opcode, its data and its number.
pub proof fn numbered_messages_carry_their_number(opcode: u8, data: JsonValue, sequence: u16)
    ensures
        numbered_envelope(opcode, data, sequence).unsigned_member("op"@) == Some(opcode as u64),
        numbered_envelope(opcode, data, sequence).member("d"@) == Some(data),
        numbered_envelope(opcode, data, sequence).contents() == data,
        numbered_envelope(opcode, data, sequence).unsigned_member("seq"@) == Some(sequence as u64),
{
    reply_names_differ();
    let members = numbered_envelope(opcode, data, sequence)->Object_0;
    crate::gateway::payload::found_member(members, 0);
    crate::gateway::payload::found_member(members, 1);
    crate::gateway::payload::found_member(members, 2);
}

/// A binary message begins with its number, the high byte first, and its opcode; the
/// payload follows.
pub proof fn binary_messages_carry_their_number(state: PeerState, opcode: u8, payload: Seq<u8>)
    ensures
        state.next_binary(opcode, payload) matches MessageValue::Binary(bytes) && {
            &&& bytes.len() == payload.len() + 3
            &&& bytes[0] * 0x100 + bytes[1] == state.sequence
            &&& bytes[2] == opcode
            &&& bytes.skip(3) == payload
        },
{
    crate::wire::bytes_have_their_place(state.sequence, 0);
    let bytes = state.next_binary(opcode, payload)->Binary_0;
    let number = crate::wire::be16(state.sequence);
    assert(bytes[0] == number[0] && bytes[1] == number[1]);
    assert(bytes.skip(3) =~= payload);
}

/// Messages are numbered one after the other, from zero again at the modulus, and kept to
/// be replayed in their order. Where there is no room the oldest one leaves.
pub proof fn messages_are_numbered_in_order(
    state: PeerState,
    config: FakeVoiceGatewayConfig,
    message: MessageValue,
)
    requires
        config.usable(),
        state.sequence < config.sequence_modulus,
        state.replay.len() <= config.replay_capacity,
    ensures
        ({
            let after = state.numbered(config, message);
            &&& state.sequence + 1 < config.sequence_modulus ==> after.sequence == state.sequence
                + 1
            &&& state.sequence + 1 == config.sequence_modulus ==> after.sequence == 0
            &&& after.replay.last() == (state.sequence, message)
            &&& state.replay.len() < config.replay_capacity ==> after.replay.drop_last()
                == state.replay
            &&& state.replay.len() == config.replay_capacity ==> after.replay.drop_last()
                == state.replay.skip(1)
            &&& after.records == state.records
            &&& after.speaking == state.speaking
            &&& after.remaining_dropped_acks == state.remaining_dropped_acks
        }),
{
    let next = state.sequence + 1;
    let modulus = config.sequence_modulus as int;
    if next < modulus {
        assert(next % modulus == next) by (nonlinear_arith)
            requires
                0 <= next < modulus,
        ;
    } else {
        assert(next % modulus == 0) by (nonlinear_arith)
            requires
                next == modulus,
                modulus > 0,
        ;
    }
    let after = state.numbered(config, message);
    if state.replay.len() == config.replay_capacity {
        assert(after.replay.drop_last() =~= state.replay.skip(1));
    } else {
        assert(after.replay.drop_last() =~= state.replay);
    }
}

/// The hello tells the interval of heartbeats in milliseconds.
pub proof fn hello_tells_the_interval(config: FakeVoiceGatewayConfig)
    ensures
        config.hello_value().unsigned_member("op"@) == Some(8u64),
        config.hello_value().contents().unsigned_member("heartbeat_interval"@) matches Some(millis)
            && millis * 1_000_000 <= config.heartbeat_interval < (millis + 1) * 1_000_000,
{
    let data = config.hello_value()->Object_0[1].1;
    crate::gateway::payload::envelope_members(8, data);
    crate::gateway::payload::found_member(data->Object_0, 0);
}

/// A gateway runs where it has a port, a mode, room for a number and an opcode and room in
/// each of its queues, and where the numbers outlast what can be replayed.
pub proof fn usable_gateways_have_room(config: FakeVoiceGatewayConfig)
    requires
        config.replay_capacity <= u32::MAX,
    ensures
        config.usable() <==> {
            &&& config.heartbeat_interval > 0
            &&& config.voice_port > 0
            &&& config.modes@.len() > 0
            &&& config.max_message_bytes >= 3
            &&& config.command_capacity > 0
            &&& config.capture_capacity > 0
            &&& config.speaking_capacity > 0
            &&& 0 < config.replay_capacity < config.sequence_modulus
            &&& config.sequence_start < config.sequence_modulus <= 65_536
        },
{
}

/// A client that identifies itself is recorded and answered with a ready message: the next
/// number, the stream, the address and the modes of the gateway.
pub proof fn identifications_are_answered(
    state: PeerState,
    config: FakeVoiceGatewayConfig,
    value: JsonValue,
    data: JsonValue,
)
    requires
        config.scripted_close is None,
        state.records.len() < config.capture_capacity,
        value.unsigned_member("op"@) == Some(0u64),
        value.member("d"@) == Some(data),
    ensures
        ({
            let (after, answer) = state.text(config, value);
            &&& answer matches Ok(reply)
            &&& reply.messages.len() == 1
            &&& reply.close is None
            &&& !reply.delayed
            &&& reply.messages[0] matches MessageValue::Json(ready)
            &&& ready.unsigned_member("op"@) == Some(2u64)
            &&& ready.unsigned_member("seq"@) == Some(state.sequence as u64)
            &&& ready.contents().unsigned_member("ssrc"@) == Some(config.ssrc as u64)
            &&& ready.contents().text_member("ip"@) == Some(config.voice_ip@)
            &&& ready.contents().unsigned_member("port"@) == Some(config.voice_port as u64)
            &&& ready.contents().array_member("modes"@) matches Some(modes)
            &&& modes.len() == config.modes@.len()
            &&& forall|i: int|
                0 <= i < modes.len() ==> (#[trigger] modes[i]).text() == Some(config.modes@[i]@)
            &&& after.records == state.records.push(RecordValue::Identify(data))
            &&& after == (PeerState { records: after.records, ..state }).numbered(
                config,
                reply.messages[0],
            )
        }),
{
    reply_names_differ();
    let members = config.ready_members();
    numbered_messages_carry_their_number(2, JsonValue::Object(members), state.sequence);
    crate::gateway::payload::found_member(members, 0);
    crate::gateway::payload::found_member(members, 1);
    crate::gateway::payload::found_member(members, 2);
    crate::gateway::payload::found_member(members, 3);
    assert(members[3].1 == JsonValue::Array(config.modes_value()));
    assert forall|i: int| 0 <= i < config.modes@.len() implies (
    #[trigger] config.modes_value()[i]).text() == Some(config.modes@[i]@) by {}
}

/// A client that asks for an offered mode is told the mode, the key and the version of the
/// gateway; one that asks for another mode is closed out as not understood, and no number
/// is used.
pub proof fn offered_modes_are_described(
    state: PeerState,
    config: FakeVoiceGatewayConfig,
    value: JsonValue,
    data: JsonValue,
    inner: JsonValue,
    mode: Seq<char>,
)
    requires
        config.scripted_close is None,
        state.records.len() < config.capture_capacity,
        value.unsigned_member("op"@) == Some(1u64),
        value.member("d"@) == Some(data),
        data.member("data"@) == Some(inner),
        inner.text_member("mode"@) == Some(mode),
    ensures
        ({
            let (after, answer) = state.text(config, value);
            &&& after.records == state.records.push(RecordValue::SelectProtocol(data))
            &&& answer matches Ok(reply)
            &&& if exists|i: int|
                0 <= i < config.modes@.len() && (#[trigger] config.modes@[i])@ == mode {
                &&& reply.messages.len() == 1
                &&& reply.close is None
                &&& reply.messages[0] matches MessageValue::Json(told)
                &&& told.unsigned_member("op"@) == Some(4u64)
                &&& told.unsigned_member("seq"@) == Some(state.sequence as u64)
                &&& told.contents().text_member("mode"@) == Some(mode)
                &&& told.contents().unsigned_member("dave_protocol_version"@) == Some(
                    config.dave_protocol_version as u64,
                )
                &&& told.contents().array_member("secret_key"@) matches Some(key)
                &&& key.len() == 32
                &&& forall|i: int|
                    0 <= i < 32 ==> (#[trigger] key[i]).unsigned() == Some(
                        config.secret_key@[i] as u64,
                    )
                &&& after == (PeerState { records: after.records, ..state }).numbered(
                    config,
                    reply.messages[0],
                )
            } else {
                &&& reply.messages.len() == 0
                &&& reply.close == Some((4002u16, "failed to decode payload"@))
                &&& reply.lenient
                &&& after.sequence == state.sequence
                &&& after.replay == state.replay
            }
        }),
{
    reply_names_differ();
    let members = config.description_members(mode);
    numbered_messages_carry_their_number(4, JsonValue::Object(members), state.sequence);
    crate::gateway::payload::found_member(members, 0);
    crate::gateway::payload::found_member(members, 1);
    crate::gateway::payload::found_member(members, 2);
    assert(members[1].1 == JsonValue::Array(config.key_value()));
    assert forall|i: int| 0 <= i < 32 implies (#[trigger] config.key_value()[i]).unsigned() == Some(
        config.secret_key@[i] as u64,
    ) by {}
}

/// A heartbeat is recorded with its number and what it acknowledges. It is acknowledged
/// with its own number, without a number of the gateway; as many as are to be let go first
/// are not.
pub proof fn heartbeats_are_acknowledged_by_their_number(
    state: PeerState,
    config: FakeVoiceGatewayConfig,
    value: JsonValue,
    data: JsonValue,
    nonce: JsonValue,
    latest: u64,
)
    requires
        state.records.len() < config.capture_capacity,
        value.unsigned_member("op"@) == Some(3u64),
        value.member("d"@) == Some(data),
        data.member("t"@) == Some(nonce),
        data.member("seq_ack"@) == Some(JsonValue::Unsigned(latest)),
        latest <= i64::MAX,
    ensures
        ({
            let (after, answer) = state.text(config, value);
            &&& after.records == state.records.push(
                RecordValue::Heartbeat { nonce, seq_ack: Some(latest as i64) },
            )
            &&& after.sequence == state.sequence
            &&& after.replay == state.replay
            &&& answer matches Ok(reply)
            &&& reply.close is None
            &&& if state.remaining_dropped_acks == 0 {
                &&& reply.messages.len() == 1
                &&& reply.delayed == (config.heartbeat_ack_delay > 0)
                &&& reply.messages[0] matches MessageValue::Json(beat)
                &&& beat.unsigned_member("op"@) == Some(6u64)
                &&& beat.contents().member("t"@) == Some(nonce)
                &&& after.remaining_dropped_acks == 0
            } else {
                &&& reply.messages.len() == 0
                &&& after.remaining_dropped_acks == state.remaining_dropped_acks - 1
            }
        }),
{
    let contents = JsonValue::Object(seq![("t"@, nonce)]);
    crate::gateway::payload::envelope_members(6, contents);
    crate::gateway::payload::found_member(contents->Object_0, 0);
}

/// The latest message with a number is the one behind which a replay starts; a number
/// that no message has is not found.
proof fn latest_with_a_number(buffer: Seq<(u16, MessageValue)>, number: i64, index: int)
    ensures
        0 <= index < buffer.len() && buffer[index].0 == number && (forall|j: int|
            index < j < buffer.len() ==> (#[trigger] buffer[j]).0 != number) ==> behind_latest(
            buffer,
            number,
        ) == Some((index + 1) as nat),
        (forall|j: int| 0 <= j < buffer.len() ==> (#[trigger] buffer[j]).0 != number)
            ==> behind_latest(buffer, number) is None,
    decreases buffer.len(),
{
    if buffer.len() > 0 {
        latest_with_a_number(buffer.drop_last(), number, index);
        let shorter = buffer.drop_last();
        assert forall|j: int| 0 <= j < shorter.len() implies shorter[j] == buffer[j] by {}
        assert(buffer.last() == buffer[buffer.len() - 1]);
    }
}

/// A client that resumes is sent again what came behind the latest message that it
/// acknowledged, in order, and then the confirmation. Nothing is numbered anew.
pub proof fn resumes_replay_what_was_missed(
    state: PeerState,
    config: FakeVoiceGatewayConfig,
    value: JsonValue,
    data: JsonValue,
    index: int,
)
    requires
        config.scripted_close is None,
        state.records.len() < config.capture_capacity,
        value.unsigned_member("op"@) == Some(7u64),
        value.member("d"@) == Some(data),
        0 <= index < state.replay.len(),
        data.member("seq_ack"@) == Some(JsonValue::Unsigned(state.replay[index].0 as u64)),
        forall|j: int|
            index < j < state.replay.len() ==> (#[trigger] state.replay[j]).0
                != state.replay[index].0,
    ensures
        ({
            let (after, answer) = state.text(config, value);
            &&& after.records == state.records.push(
                RecordValue::Resume { seq_ack: state.replay[index].0 as i64 },
            )
            &&& after.sequence == state.sequence
            &&& after.replay == state.replay
            &&& answer matches Ok(reply)
            &&& reply.close is None
            &&& reply.messages.len() == state.replay.len() - index
            &&& forall|i: int|
                0 <= i < reply.messages.len() - 1 ==> (#[trigger] reply.messages[i])
                    == state.replay[index + 1 + i].1
            &&& reply.messages.last() matches MessageValue::Json(resumed)
            &&& resumed.unsigned_member("op"@) == Some(9u64)
        }),
{
    latest_with_a_number(state.replay, state.replay[index].0 as i64, index);
    crate::gateway::payload::envelope_members(9, JsonValue::Object(Seq::empty()));
}

/// A client that acknowledged nothing is sent everything that is kept; one that
/// acknowledged what is no longer kept is closed out with the code for that.
pub proof fn resumes_need_what_is_kept(
    state: PeerState,
    config: FakeVoiceGatewayConfig,
    value: JsonValue,
    data: JsonValue,
    number: u64,
)
    requires
        config.scripted_close is None,
        state.records.len() < config.capture_capacity,
        value.unsigned_member("op"@) == Some(7u64),
        value.member("d"@) == Some(data),
        number <= i64::MAX,
        forall|j: int|
            0 <= j < state.replay.len() ==> (#[trigger] state.replay[j]).0 as int != number as int,
    ensures
        ({
            let (after, answer) = state.text(config, value);
            &&& data.member("seq_ack"@) is None ==> {
                &&& answer matches Ok(reply)
                &&& reply.close is None
                &&& reply.messages.len() == state.replay.len() + 1
                &&& forall|i: int|
                    0 <= i < state.replay.len() ==> (#[trigger] reply.messages[i])
                        == state.replay[i].1
            }
            &&& data.member("seq_ack"@) == Some(JsonValue::Unsigned(number)) ==> {
                &&& answer matches Ok(reply)
                &&& reply.messages.len() == 0
                &&& reply.close == Some((4006u16, "buffer no longer contains seq_ack"@))
            }
        }),
{
    latest_with_a_number(state.replay, number as i64, 0);
}

/// A close of the script ends the attempt at its stage: in place of the ready message,
/// behind it, or in place of a replay.
pub proof fn scripted_closes_come_at_their_stage(
    state: PeerState,
    config: FakeVoiceGatewayConfig,
    value: JsonValue,
    script: ScriptedClose,
)
    requires
        config.scripted_close == Some(script),
        state.records.len() < config.capture_capacity,
    ensures
        ({
            let (after, answer) = state.text(config, value);
            let close = Some((script.close.code, script.close.reason@));
            &&& value.unsigned_member("op"@) == Some(0u64) && script.stage is AfterIdentify ==> {
                &&& answer matches Ok(reply)
                &&& reply.messages.len() == 0
                &&& reply.close == close
                &&& after.sequence == state.sequence
            }
            &&& value.unsigned_member("op"@) == Some(0u64) && script.stage is AfterReady ==> {
                &&& answer matches Ok(reply)
                &&& reply.messages.len() == 1
                &&& reply.close == close
            }
            &&& value.unsigned_member("op"@) == Some(7u64) && script.stage is OnResume ==> {
                &&& answer matches Ok(reply)
                &&& reply.messages.len() == 0
                &&& reply.close == close
            }
        }),
{
}

/// Announcements of speaking are kept twice, apart and among the records, where there is
/// room for both; they are answered with nothing.
pub proof fn announcements_are_recorded_twice(
    state: PeerState,
    config: FakeVoiceGatewayConfig,
    value: JsonValue,
    data: JsonValue,
)
    requires
        value.unsigned_member("op"@) == Some(5u64),
        value.member("d"@) == Some(data),
    ensures
        ({
            let (after, answer) = state.text(config, value);
            if state.speaking.len() != config.speaking_capacity && state.records.len()
                != config.capture_capacity {
                &&& after.speaking == state.speaking.push(data)
                &&& after.records == state.records.push(RecordValue::Speaking(data))
                &&& answer matches Ok(reply)
                &&& reply.messages.len() == 0
                &&& reply.close is None
            } else {
                &&& after == state
                &&& state.speaking.len() == config.speaking_capacity ==> answer == Err::<
                    ReplyValue,
                    GatewayError,
                >(GatewayError::SpeakingFull { capacity: config.speaking_capacity })
                &&& state.speaking.len() != config.speaking_capacity ==> answer == Err::<
                    ReplyValue,
                    GatewayError,
                >(GatewayError::CaptureFull { capacity: config.capture_capacity })
            }
        }),
{
}

/// A text with another opcode is recorded whole and answered with nothing; where there is
/// no room for a record, a text changes nothing and the gateway says so; a text without an
/// opcode is closed out as not understood.
pub proof fn other_texts_are_recorded_whole(
    state: PeerState,
    config: FakeVoiceGatewayConfig,
    value: JsonValue,
    opcode: u64,
)
    requires
        opcode != 5,
    ensures
        ({
            let (after, answer) = state.text(config, value);
            &&& value.unsigned_member("op"@) == Some(opcode) && state.records.len()
                == config.capture_capacity ==> {
                &&& after == state
                &&& answer == Err::<ReplyValue, GatewayError>(
                    GatewayError::CaptureFull { capacity: config.capture_capacity },
                )
            }
            &&& value.unsigned_member("op"@) == Some(opcode) && state.records.len()
                != config.capture_capacity && opcode != 0 && opcode != 1 && opcode != 3 && opcode
                != 7 ==> {
                &&& after == (PeerState {
                    records: state.records.push(RecordValue::OtherText(value)),
                    ..state
                })
                &&& answer matches Ok(reply)
                &&& reply.messages.len() == 0
                &&& reply.close is None
            }
            &&& value.unsigned_member("op"@) is None ==> {
                &&& after == state
                &&& answer matches Ok(reply)
                &&& reply.messages.len() == 0
                &&& reply.close == Some((4002u16, "failed to decode payload"@))
                &&& reply.lenient
            }
        }),
{
}

/// A binary message is recorded as it is; an empty or too long one, like a text that is
/// too long or no JSON, is closed out as not understood. A ping is returned, a pong let go,
/// and a close ends the connection.
pub proof fn messages_are_taken_by_their_kind(
    state: PeerState,
    config: FakeVoiceGatewayConfig,
    bytes: Seq<u8>,
    length: usize,
    json: JsonValue,
)
    requires
        config.scripted_close is None,
        state.records.len() < config.capture_capacity,
    ensures
        ({
            let (after, step) = state.stepped(config, ClientValue::Binary(bytes));
            if 0 < bytes.len() <= config.max_message_bytes {
                &&& after.records == state.records.push(RecordValue::Binary(bytes))
                &&& step matches Ok(StepValue::Reply(reply))
                &&& reply.messages.len() == 0
                &&& reply.close is None
            } else {
                &&& after == state
                &&& step matches Ok(StepValue::Reply(reply))
                &&& reply.close == Some((4002u16, "failed to decode payload"@))
            }
        }),
        ({
            let (after, step) = state.stepped(
                config,
                ClientValue::Text { length, json: Some(json) },
            );
            if length <= config.max_message_bytes {
                &&& after == state.text(config, json).0
                &&& state.text(config, json).1 matches Ok(reply) ==> step == Ok::<
                    StepValue,
                    GatewayError,
                >(StepValue::Reply(reply))
            } else {
                &&& after == state
                &&& step matches Ok(StepValue::Reply(reply))
                &&& reply.close == Some((4002u16, "failed to decode payload"@))
            }
        }),
        ({
            let (after, step) = state.stepped(config, ClientValue::Text { length, json: None });
            &&& after == state
            &&& step matches Ok(StepValue::Reply(reply))
            &&& reply.close == Some((4002u16, "failed to decode payload"@))
        }),
        state.stepped(config, ClientValue::Ping(bytes)) == (
            state,
            Ok::<StepValue, GatewayError>(StepValue::Pong(bytes)),
        ),
        state.stepped(config, ClientValue::Close) == (
            state,
            Ok::<StepValue, GatewayError>(StepValue::End),
        ),
        ({
            let (after, step) = state.stepped(config, ClientValue::Pong);
            &&& after == state
            &&& step matches Ok(StepValue::Reply(reply))
            &&& reply.messages.len() == 0
            &&& reply.close is None
        }),
{
}

} // verus!
