//! Bounds on every resource, and the connector that holds them.
use vstd::prelude::*;

use crate::dave::OPUS_MAX_ENCRYPTION_OVERHEAD_BYTES;
use crate::error::{Error, ErrorKind, Operation, RetryDisposition};
use crate::rtp::RTP_OVERHEAD_BYTES;

verus! {

/// Bounds on every queue, message and buffer of a connection.
#[derive(Clone, Copy, Debug, PartialEq, Eq, Structural)]
pub struct ResourceLimits {
    pub gateway_text_bytes: usize,
    pub gateway_binary_bytes: usize,
    pub dave_binary_body_bytes: usize,
    pub dave_roster_members: usize,
    pub gateway_command_capacity: usize,
    pub event_capacity: usize,
    pub event_subscriber_capacity: usize,
    pub encoded_opus_frame_bytes: usize,
    pub udp_datagram_bytes: usize,
    pub sender_command_capacity: usize,
    pub staged_frame_capacity: usize,
}

/// A binary DAVE message is its body behind a two-byte sequence and an opcode.
pub const DAVE_BINARY_HEADER_BYTES: usize = 3;

impl ResourceLimits {
    /// The bounds that hold unless the caller sets others.
    pub open spec fn defaults() -> ResourceLimits {
        ResourceLimits {
            gateway_text_bytes: 1_280_000,
            gateway_binary_bytes: 1_280_000,
            dave_binary_body_bytes: 1_048_576,
            dave_roster_members: 4_096,
            gateway_command_capacity: 32,
            event_capacity: 64,
            event_subscriber_capacity: 8,
            encoded_opus_frame_bytes: 1_275,
            udp_datagram_bytes: 2_048,
            sender_command_capacity: 8,
            staged_frame_capacity: 1,
        }
    }

    /// Whether the bounds are consistent: nothing is zero, a DAVE body fits in a binary
    /// message, a datagram fits in UDP, an encrypted frame fits in a datagram, and
    /// exactly one frame is staged.
    pub open spec fn consistent(self) -> bool {
        &&& self.gateway_text_bytes > 0
        &&& self.gateway_binary_bytes > 0
        &&& self.dave_binary_body_bytes > 0
        &&& self.dave_roster_members > 0
        &&& self.gateway_command_capacity > 0
        &&& self.event_capacity > 0
        &&& self.event_subscriber_capacity > 0
        &&& self.encoded_opus_frame_bytes > 0
        &&& self.udp_datagram_bytes > 0
        &&& self.sender_command_capacity > 0
        &&& self.staged_frame_capacity > 0
        &&& self.dave_binary_body_bytes + DAVE_BINARY_HEADER_BYTES <= self.gateway_binary_bytes
        &&& self.udp_datagram_bytes <= u16::MAX
        &&& self.encoded_opus_frame_bytes + OPUS_MAX_ENCRYPTION_OVERHEAD_BYTES + RTP_OVERHEAD_BYTES
            <= self.udp_datagram_bytes
        &&& self.staged_frame_capacity == 1
    }

    /// Returns the largest text message accepted from the gateway.
    pub fn gateway_text_bytes(&self) -> (value: usize)
        ensures
            value == self.gateway_text_bytes,
    {
        self.gateway_text_bytes
    }

    /// Sets the largest text message accepted from the gateway.
    pub fn with_gateway_text_bytes(self, value: usize) -> (limits: Self)
        ensures
            limits == (ResourceLimits { gateway_text_bytes: value, ..self }),
    {
        ResourceLimits { gateway_text_bytes: value, ..self }
    }

    /// Returns the largest binary message accepted from or sent to the gateway.
    pub fn gateway_binary_bytes(&self) -> (value: usize)
        ensures
            value == self.gateway_binary_bytes,
    {
        self.gateway_binary_bytes
    }

    /// Sets the largest binary message accepted from or sent to the gateway.
    pub fn with_gateway_binary_bytes(self, value: usize) -> (limits: Self)
        ensures
            limits == (ResourceLimits { gateway_binary_bytes: value, ..self }),
    {
        ResourceLimits { gateway_binary_bytes: value, ..self }
    }

    /// Returns the largest body of a binary DAVE message.
    pub fn dave_binary_body_bytes(&self) -> (value: usize)
        ensures
            value == self.dave_binary_body_bytes,
    {
        self.dave_binary_body_bytes
    }

    /// Sets the largest body of a binary DAVE message.
    pub fn with_dave_binary_body_bytes(self, value: usize) -> (limits: Self)
        ensures
            limits == (ResourceLimits { dave_binary_body_bytes: value, ..self }),
    {
        ResourceLimits { dave_binary_body_bytes: value, ..self }
    }

    /// Returns the largest number of members in a roster message.
    pub fn dave_roster_members(&self) -> (value: usize)
        ensures
            value == self.dave_roster_members,
    {
        self.dave_roster_members
    }

    /// Sets the largest number of members in a roster message.
    pub fn with_dave_roster_members(self, value: usize) -> (limits: Self)
        ensures
            limits == (ResourceLimits { dave_roster_members: value, ..self }),
    {
        ResourceLimits { dave_roster_members: value, ..self }
    }

    /// Returns the capacity of the gateway command queue.
    pub fn gateway_command_capacity(&self) -> (value: usize)
        ensures
            value == self.gateway_command_capacity,
    {
        self.gateway_command_capacity
    }

    /// Sets the capacity of the gateway command queue.
    pub fn with_gateway_command_capacity(self, value: usize) -> (limits: Self)
        ensures
            limits == (ResourceLimits { gateway_command_capacity: value, ..self }),
    {
        ResourceLimits { gateway_command_capacity: value, ..self }
    }

    /// Returns the capacity of the event channel.
    pub fn event_capacity(&self) -> (value: usize)
        ensures
            value == self.event_capacity,
    {
        self.event_capacity
    }

    /// Sets the capacity of the event channel.
    pub fn with_event_capacity(self, value: usize) -> (limits: Self)
        ensures
            limits == (ResourceLimits { event_capacity: value, ..self }),
    {
        ResourceLimits { event_capacity: value, ..self }
    }

    /// Returns the largest number of event subscribers.
    pub fn event_subscriber_capacity(&self) -> (value: usize)
        ensures
            value == self.event_subscriber_capacity,
    {
        self.event_subscriber_capacity
    }

    /// Sets the largest number of event subscribers.
    pub fn with_event_subscriber_capacity(self, value: usize) -> (limits: Self)
        ensures
            limits == (ResourceLimits { event_subscriber_capacity: value, ..self }),
    {
        ResourceLimits { event_subscriber_capacity: value, ..self }
    }

    /// Returns the largest encoded Opus frame.
    pub fn encoded_opus_frame_bytes(&self) -> (value: usize)
        ensures
            value == self.encoded_opus_frame_bytes,
    {
        self.encoded_opus_frame_bytes
    }

    /// Sets the largest encoded Opus frame.
    pub fn with_encoded_opus_frame_bytes(self, value: usize) -> (limits: Self)
        ensures
            limits == (ResourceLimits { encoded_opus_frame_bytes: value, ..self }),
    {
        ResourceLimits { encoded_opus_frame_bytes: value, ..self }
    }

    /// Returns the largest datagram.
    pub fn udp_datagram_bytes(&self) -> (value: usize)
        ensures
            value == self.udp_datagram_bytes,
    {
        self.udp_datagram_bytes
    }

    /// Sets the largest datagram.
    pub fn with_udp_datagram_bytes(self, value: usize) -> (limits: Self)
        ensures
            limits == (ResourceLimits { udp_datagram_bytes: value, ..self }),
    {
        ResourceLimits { udp_datagram_bytes: value, ..self }
    }

    /// Returns the capacity of the audio command queue.
    pub fn sender_command_capacity(&self) -> (value: usize)
        ensures
            value == self.sender_command_capacity,
    {
        self.sender_command_capacity
    }

    /// Sets the capacity of the audio command queue.
    pub fn with_sender_command_capacity(self, value: usize) -> (limits: Self)
        ensures
            limits == (ResourceLimits { sender_command_capacity: value, ..self }),
    {
        ResourceLimits { sender_command_capacity: value, ..self }
    }

    /// Returns the number of staged frames.
    pub fn staged_frame_capacity(&self) -> (value: usize)
        ensures
            value == self.staged_frame_capacity,
    {
        self.staged_frame_capacity
    }

    /// Sets the number of staged frames.
    pub fn with_staged_frame_capacity(self, value: usize) -> (limits: Self)
        ensures
            limits == (ResourceLimits { staged_frame_capacity: value, ..self }),
    {
        ResourceLimits { staged_frame_capacity: value, ..self }
    }

    /// Refuses bounds that are not consistent.
    pub fn validate(&self) -> (result: Result<(), Error>)
        ensures
            match result {
                Ok(()) => self.consistent(),
                Err(error) => {
                    &&& !self.consistent()
                    &&& error@ == crate::error::ErrorView::plain(
                        ErrorKind::InvalidConfiguration,
                        Operation::Build,
                        None,
                        RetryDisposition::Fatal,
                        None,
                        "invalid resource limits"@,
                    )
                },
            },
    {
        let all_nonzero = self.gateway_text_bytes > 0 && self.gateway_binary_bytes > 0
            && self.dave_binary_body_bytes > 0 && self.dave_roster_members > 0
            && self.gateway_command_capacity > 0 && self.event_capacity > 0
            && self.event_subscriber_capacity > 0 && self.encoded_opus_frame_bytes > 0
            && self.udp_datagram_bytes > 0 && self.sender_command_capacity > 0
            && self.staged_frame_capacity > 0;
        let body_fits = match self.dave_binary_body_bytes.checked_add(DAVE_BINARY_HEADER_BYTES) {
            Some(message_bytes) => message_bytes <= self.gateway_binary_bytes,
            None => false,
        };
        let frame_fits = match self.encoded_opus_frame_bytes.checked_add(
            OPUS_MAX_ENCRYPTION_OVERHEAD_BYTES + RTP_OVERHEAD_BYTES,
        ) {
            Some(packet_bytes) => packet_bytes <= self.udp_datagram_bytes,
            None => false,
        };
        if !all_nonzero || !body_fits || self.udp_datagram_bytes > u16::MAX as usize || !frame_fits
            || self.staged_frame_capacity != 1 {
            return Err(
                Error::new(
                    ErrorKind::InvalidConfiguration,
                    Operation::Build,
                    None,
                    RetryDisposition::Fatal,
                    None,
                    "invalid resource limits",
                ),
            );
        }
        Ok(())
    }

    /// Returns the largest payload of a media packet: a frame and what encrypting it
    /// adds at most.
    pub fn transport_payload_bytes(&self) -> (bytes: usize)
        requires
            self.consistent(),
        ensures
            bytes == self.encoded_opus_frame_bytes + OPUS_MAX_ENCRYPTION_OVERHEAD_BYTES,
            crate::transport::encoder_bounds(bytes, self.udp_datagram_bytes),
    {
        self.encoded_opus_frame_bytes + OPUS_MAX_ENCRYPTION_OVERHEAD_BYTES
    }
}

impl Default for ResourceLimits {
    fn default() -> (limits: Self)
        ensures
            limits == ResourceLimits::defaults(),
    {
        ResourceLimits {
            gateway_text_bytes: 1_280_000,
            gateway_binary_bytes: 1_280_000,
            dave_binary_body_bytes: 1_048_576,
            dave_roster_members: 4_096,
            gateway_command_capacity: 32,
            event_capacity: 64,
            event_subscriber_capacity: 8,
            encoded_opus_frame_bytes: 1_275,
            udp_datagram_bytes: 2_048,
            sender_command_capacity: 8,
            staged_frame_capacity: 1,
        }
    }
}

/// A connector whose bounds are known to be consistent.
#[derive(Clone, Copy, Debug)]
pub struct Oto {
    limits: ResourceLimits,
}

/// Collects the settings of a connector.
#[derive(Clone, Copy, Debug)]
pub struct OtoBuilder {
    limits: ResourceLimits,
}

impl Oto {
    #[verifier::type_invariant]
    spec fn well_formed(self) -> bool {
        self.limits.consistent()
    }

    /// The bounds of the connector.
    pub closed spec fn spec_limits(self) -> ResourceLimits {
        self.limits
    }

    /// Starts a connector with the default bounds.
    pub fn builder() -> (builder: OtoBuilder)
        ensures
            builder.spec_limits() == ResourceLimits::defaults(),
    {
        OtoBuilder { limits: ResourceLimits::default() }
    }

    /// Returns the bounds of the connector.
    pub fn limits(&self) -> (limits: ResourceLimits)
        ensures
            limits == self.spec_limits(),
            limits.consistent(),
    {
        proof {
            use_type_invariant(self);
        }
        self.limits
    }
}

impl OtoBuilder {
    /// The bounds collected so far.
    pub closed spec fn spec_limits(self) -> ResourceLimits {
        self.limits
    }

    /// Sets the bounds.
    pub fn resource_limits(self, limits: ResourceLimits) -> (builder: Self)
        ensures
            builder.spec_limits() == limits,
    {
        OtoBuilder { limits }
    }

    /// Builds the connector, unless the bounds are not consistent.
    pub fn build(self) -> (oto: Result<Oto, Error>)
        ensures
            match oto {
                Ok(oto) => {
                    &&& self.spec_limits().consistent()
                    &&& oto.spec_limits() == self.spec_limits()
                },
                Err(error) => {
                    &&& !self.spec_limits().consistent()
                    &&& error@ == crate::error::ErrorView::plain(
                        ErrorKind::InvalidConfiguration,
                        Operation::Build,
                        None,
                        RetryDisposition::Fatal,
                        None,
                        "invalid resource limits"@,
                    )
                },
            },
    {
        match self.limits.validate() {
            Ok(()) => Ok(Oto { limits: self.limits }),
            Err(error) => Err(error),
        }
    }
}

/// Under consistent bounds no encrypted frame is ever too long for its packet: a
/// frame within the bounds, with all that DAVE may add, is a payload that the
/// transport takes, and the packet is a datagram within the bounds.
pub proof fn encrypted_frames_fit(limits: ResourceLimits, frame: nat, encrypted: nat)
    requires
        limits.consistent(),
        frame <= limits.encoded_opus_frame_bytes,
        encrypted <= frame + OPUS_MAX_ENCRYPTION_OVERHEAD_BYTES,
    ensures
        encrypted <= limits.encoded_opus_frame_bytes + OPUS_MAX_ENCRYPTION_OVERHEAD_BYTES,
        encrypted + RTP_OVERHEAD_BYTES <= limits.udp_datagram_bytes,
        limits.udp_datagram_bytes <= 65_535,
{
}

/// The default bounds are consistent.
pub proof fn defaults_are_consistent()
    ensures
        ResourceLimits::defaults().consistent(),
{
}

/// Bounds with a zero among them are refused, and so are a DAVE body that does not fit into
/// a binary message behind its three bytes, a datagram that UDP does not carry, a frame that
/// does not fit into its datagram with the 48 bytes that encryption and packet add at most,
/// and any number of staged frames but one. All other bounds are accepted.
pub proof fn bounds_are_refused_for_a_reason(limits: ResourceLimits)
    ensures
        limits.gateway_text_bytes == 0 ==> !limits.consistent(),
        limits.gateway_binary_bytes == 0 ==> !limits.consistent(),
        limits.dave_binary_body_bytes == 0 ==> !limits.consistent(),
        limits.dave_roster_members == 0 ==> !limits.consistent(),
        limits.gateway_command_capacity == 0 ==> !limits.consistent(),
        limits.event_capacity == 0 ==> !limits.consistent(),
        limits.event_subscriber_capacity == 0 ==> !limits.consistent(),
        limits.encoded_opus_frame_bytes == 0 ==> !limits.consistent(),
        limits.sender_command_capacity == 0 ==> !limits.consistent(),
        limits.dave_binary_body_bytes > limits.gateway_binary_bytes - 3 ==> !limits.consistent(),
        limits.udp_datagram_bytes > 65_535 ==> !limits.consistent(),
        limits.encoded_opus_frame_bytes > limits.udp_datagram_bytes - 48 ==> !limits.consistent(),
        limits.staged_frame_capacity != 1 ==> !limits.consistent(),
        limits.gateway_text_bytes >= 1 && limits.dave_binary_body_bytes >= 1
            && limits.dave_roster_members >= 1 && limits.gateway_command_capacity >= 1
            && limits.event_capacity >= 1 && limits.event_subscriber_capacity >= 1
            && limits.encoded_opus_frame_bytes >= 1 && limits.sender_command_capacity >= 1
            && limits.dave_binary_body_bytes + 3 <= limits.gateway_binary_bytes
            && limits.encoded_opus_frame_bytes + 48 <= limits.udp_datagram_bytes
            && limits.udp_datagram_bytes <= 65_535 && limits.staged_frame_capacity == 1
            ==> limits.consistent(),
{
}

/// The default bounds take the longest Opus frame, and a caller may lower the frame, the
/// text or a queue, or raise the datagram to what UDP carries, without spoiling them.
pub proof fn defaults_leave_room(frame: usize, text: usize, commands: usize, datagram: usize)
    requires
        1 <= frame <= 1_275,
        1 <= text,
        1 <= commands,
        2_048 <= datagram <= 65_535,
    ensures
        ResourceLimits::defaults().encoded_opus_frame_bytes == 1_275,
        (ResourceLimits {
            encoded_opus_frame_bytes: frame,
            gateway_text_bytes: text,
            gateway_command_capacity: commands,
            udp_datagram_bytes: datagram,
            ..ResourceLimits::defaults()
        }).consistent(),
{
}

/// The bounds that hold where the caller sets none: text and binary messages of 1 280 000
/// bytes, DAVE bodies of one mebibyte, 4096 members, and short queues.
pub proof fn defaults_bound_messages_and_queues()
    ensures
        ResourceLimits::defaults().gateway_text_bytes == 1_280_000,
        ResourceLimits::defaults().gateway_binary_bytes == 1_280_000,
        ResourceLimits::defaults().dave_binary_body_bytes == 1024 * 1024,
        ResourceLimits::defaults().dave_roster_members == 4_096,
        ResourceLimits::defaults().gateway_command_capacity == 32,
        ResourceLimits::defaults().event_capacity == 64,
        ResourceLimits::defaults().event_subscriber_capacity == 8,
        ResourceLimits::defaults().udp_datagram_bytes == 2_048,
        ResourceLimits::defaults().sender_command_capacity == 8,
        ResourceLimits::defaults().staged_frame_capacity == 1,
{
}

} // verus!
