//! How a session description turns a discovered transport into one that carries
//! media.
use vstd::prelude::*;

use crate::config::ResourceLimits;
use crate::dave::{Control, MAX_PROTOCOL_VERSION};
use crate::error::{DaveFailure, Error, ErrorSource};
use crate::gateway::decode::SessionDescriptionData;
use crate::gateway::failure::{
    dave_error, dave_unsupported_error, protocol_error, transport_crypto_error,
    unsupported_transport_error,
};
use crate::gateway::link::{InstalledState, InstalledTransport, Link, LinkState, SlotState, TransportSlot};
use crate::gateway::session::DaveStep;
use crate::model::ConnectionPhase;
use crate::roster::copy_users;
use crate::rtp::TransportMode;
use crate::transport::{EncoderState, TransportCryptoFailure, TransportEncoder};

verus! {

/// What a session description leads to.
pub enum DescribeStep {
    /// Go on with this encoder and DAVE version; where a DAVE owner is to be started,
    /// that comes first.
    Accept { encoder: TransportEncoder, version: u16, start_dave: bool },
    Fatal(Error),
}

impl LinkState {
    /// Why a session description is refused before its key is used; `None` in place of
    /// a description stands for a message that does not have the shape of one.
    pub open spec fn description_failure(self, description: Option<SessionDescriptionData>) -> Option<
        crate::error::ErrorView,
    > {
        let protocol = crate::gateway::failure::protocol_failure(self.generation());
        match (self.transport, description) {
            (None, _) => Some(protocol),
            (Some(slot), description) => if slot.session_ready {
                Some(protocol)
            } else {
                match description {
                    None => Some(
                        crate::error::ErrorView { source: Some(ErrorSource::Foreign), ..protocol },
                    ),
                    Some(data) => if data.mode@ == slot.selected_mode.wire_name() {
                        None
                    } else if data.mode@ == TransportMode::Aes256GcmRtpSize.wire_name()
                        || data.mode@ == TransportMode::XChaCha20Poly1305RtpSize.wire_name() {
                        Some(protocol)
                    } else {
                        Some(
                            crate::gateway::failure::unsupported_transport_failure(
                                self.generation(),
                            ),
                        )
                    },
                }
            },
        }
    }

    /// Whether an encoder is one for a description, under the limits.
    pub open spec fn encodes(
        self,
        description: SessionDescriptionData,
        limits: ResourceLimits,
        encoder: EncoderState,
    ) -> bool {
        &&& encoder.mode == self.transport->0.selected_mode
        &&& encoder.key == description.secret_key@
        &&& encoder.ssrc == self.transport->0.ssrc
        &&& encoder.max_payload_bytes == limits.encoded_opus_frame_bytes
            + crate::dave::OPUS_MAX_ENCRYPTION_OVERHEAD_BYTES
        &&& encoder.max_datagram_bytes == limits.udp_datagram_bytes
        &&& encoder.next_nonce is Some
    }

    /// What an encoder, or the want of one, and a DAVE version lead to.
    pub open spec fn description_leads(
        self,
        encoder: Option<EncoderState>,
        version: u16,
        step: DescribeStep,
    ) -> bool {
        match encoder {
            None => step matches DescribeStep::Fatal(error) && error@
                == crate::gateway::failure::transport_crypto_failure(self.generation()),
            Some(encoder) => if version > MAX_PROTOCOL_VERSION {
                step matches DescribeStep::Fatal(error) && error@
                    == crate::gateway::failure::dave_unsupported_failure(self.generation())
            } else {
                step matches DescribeStep::Accept {
                    encoder: accepted,
                    version: agreed,
                    start_dave,
                } && accepted@ == encoder && agreed == version && start_dave == (version != 0
                    && !self.dave)
            },
        }
    }

    /// What a session description leads to. Whether an encoder can be made rests on
    /// the random source.
    pub open spec fn described(
        self,
        description: Option<SessionDescriptionData>,
        limits: ResourceLimits,
        step: DescribeStep,
    ) -> bool {
        match self.description_failure(description) {
            Some(failure) => step matches DescribeStep::Fatal(error) && error@ == failure,
            None => {
                let version = description->0.dave_protocol_version;
                ||| self.description_leads(None, version, step)
                ||| exists|encoder: EncoderState| #[trigger]
                    self.encodes(description->0, limits, encoder) && self.description_leads(
                        Some(encoder),
                        version,
                        step,
                    )
            },
        }
    }

    /// The transport is ready: an attached audio sender is to get the encoder, else it
    /// is kept.
    pub open spec fn ready_for_media(self, encoder: EncoderState, version: u16) -> LinkState {
        let dave = version != 0 && self.dave;
        LinkState {
            dave,
            transport: Some(
                SlotState {
                    encoder: if self.attachment is Some {
                        None
                    } else {
                        Some(encoder)
                    },
                    dave_protocol_version: version,
                    has_dave: dave,
                    session_ready: true,
                    ..self.transport->0
                },
            ),
            ..self
        }
    }

    /// The description was carried out: the caller who connects has its answer and the
    /// budget of attempts is full again.
    pub open spec fn description_finished(self, version: u16) -> LinkState {
        let phased = self.stored(
            self.store.phase_to(
                if version == 0 {
                    ConnectionPhase::Connected
                } else {
                    ConnectionPhase::EstablishingDave
                },
            ),
        );
        phased.progressed().answered(Ok(()))
    }
}

/// The encoder that was made, if one was.
pub open spec fn made_encoder(encoder: Result<TransportEncoder, TransportCryptoFailure>) -> Option<
    EncoderState,
> {
    match encoder {
        Ok(encoder) => Some(encoder@),
        Err(_) => None,
    }
}

/// Checks a session description against the transport that waits for it.
pub fn check_description(link: &Link, description: Option<SessionDescriptionData>) -> (checked:
    Result<SessionDescriptionData, Error>)
    ensures
        match checked {
            Ok(data) => description == Some(data) && link@.description_failure(description) is None,
            Err(error) => link@.description_failure(description) == Some(error@),
        },
{
    let generation = link.store.generation();
    let selected = match &link.transport {
        Some(slot) => {
            if slot.session_ready {
                return Err(protocol_error(generation));
            }
            slot.selected_mode
        },
        None => return Err(protocol_error(generation)),
    };
    let data = match description {
        Some(data) => data,
        None => return Err(protocol_error(generation).with_source(ErrorSource::Foreign)),
    };
    proof {
        crate::transport::mode_names_are_distinct(
            TransportMode::Aes256GcmRtpSize,
            TransportMode::XChaCha20Poly1305RtpSize,
        );
    }
    match TransportMode::parse(data.mode.as_str()) {
        Some(mode) => if mode == selected {
            Ok(data)
        } else {
            Err(protocol_error(generation))
        },
        None => Err(unsupported_transport_error(generation)),
    }
}

/// Goes on with the encoder that was made for a description, or without one.
pub fn accept_description(
    link: &Link,
    encoder: Result<TransportEncoder, TransportCryptoFailure>,
    version: u16,
) -> (step: DescribeStep)
    ensures
        link@.description_leads(
            made_encoder(encoder),
            version,
            step,
        ),
{
    let generation = link.store.generation();
    match encoder {
        Ok(encoder) => if version > MAX_PROTOCOL_VERSION {
            DescribeStep::Fatal(dave_unsupported_error(generation))
        } else {
            DescribeStep::Accept { encoder, version, start_dave: version != 0 && !link.dave }
        },
        Err(_) => DescribeStep::Fatal(transport_crypto_error(generation)),
    }
}

/// Takes a session description: its mode has to be the selected one, and its key makes
/// the encoder of the transport.
pub fn describe(
    link: &Link,
    description: Option<SessionDescriptionData>,
    limits: &ResourceLimits,
) -> (step: DescribeStep)
    requires
        limits.consistent(),
    ensures
        link@.described(description, *limits, step),
{
    let data = match check_description(link, description) {
        Ok(data) => data,
        Err(error) => return DescribeStep::Fatal(error),
    };
    let encoder = match &link.transport {
        Some(slot) => TransportEncoder::new(
            slot.selected_mode,
            &data.secret_key,
            slot.ssrc,
            limits.transport_payload_bytes(),
            limits.udp_datagram_bytes,
        ),
        None => Err(TransportCryptoFailure::Randomness),
    };
    let ghost made = made_encoder(encoder);
    let step = accept_description(link, encoder, data.dave_protocol_version);
    proof {
        if let Some(state) = made {
            assert(link@.encodes(data, *limits, state));
        }
    }
    step
}

/// Records the start of a DAVE owner, or its failure. A roster that came before the
/// owner is handed to it.
pub fn dave_started(link: &mut Link, started: Result<(), DaveFailure>) -> (step: DaveStep)
    ensures
        match started {
            Ok(()) => {
                &&& final(link)@ == (LinkState { dave: true, ..old(link)@ })
                &&& if old(link)@.dave_roster.len() == 0 {
                    step is Done
                } else {
                    step matches DaveStep::RunQuietly(Control::Roster(users)) && users@
                        == old(link)@.dave_roster
                }
            },
            Err(failure) => {
                &&& final(link)@ == old(link)@
                &&& step matches DaveStep::Fatal(error) && error@ == (crate::error::ErrorView {
                    source: Some(ErrorSource::Dave(failure)),
                    ..crate::gateway::failure::dave_setup_failure(old(link)@.generation())
                })
            },
        },
{
    match started {
        Ok(()) => {
            link.dave = true;
            if link.dave_roster.len() == 0 {
                DaveStep::Done
            } else {
                DaveStep::RunQuietly(Control::Roster(copy_users(&link.dave_roster)))
            }
        },
        Err(failure) => DaveStep::Fatal(
            dave_error(link.store.generation()).with_source(ErrorSource::Dave(failure)),
        ),
    }
}

/// Makes the transport ready for media. The result is what an attached audio sender is
/// to get.
pub fn install_transport(link: &mut Link, encoder: TransportEncoder, version: u16) -> (installed:
    Option<InstalledTransport>)
    requires
        old(link)@.transport is Some,
    ensures
        final(link)@ == old(link)@.ready_for_media(encoder@, version),
        match installed {
            Some(installed) => {
                &&& old(link)@.attachment is Some
                &&& installed@ == (InstalledState {
                    generation: old(link)@.generation(),
                    socket: old(link)@.transport->0.socket,
                    encoder: encoder@,
                    dave_protocol_version: version,
                    has_dave: version != 0 && old(link)@.dave,
                })
            },
            None => old(link)@.attachment is None,
        },
{
    let generation = link.store.generation();
    if version == 0 {
        link.dave = false;
    }
    let has_dave = link.dave;
    match link.transport.take() {
        Some(slot) => {
            let socket: u64 = slot.socket;
            let ready = TransportSlot {
                encoder: None,
                dave_protocol_version: version,
                has_dave,
                session_ready: true,
                ..slot
            };
            if link.attachment.is_some() {
                link.transport = Some(ready);
                Some(
                    InstalledTransport {
                        generation,
                        socket,
                        encoder,
                        dave_protocol_version: version,
                        has_dave,
                    },
                )
            } else {
                link.transport = Some(TransportSlot { encoder: Some(encoder), ..ready });
                None
            }
        },
        None => None,
    }
}

/// Takes back the encoder that an attached audio sender did not take; that sender is
/// not in force any more.
pub fn delivery_refused(link: &mut Link, encoder: TransportEncoder)
    requires
        old(link)@.transport is Some,
    ensures
        final(link)@ == old(link)@.unattached().with_encoder(Some(encoder@)),
{
    link.attachment = None;
    link.attach_refused(encoder);
}

/// Completes a session description.
pub fn finish_description(link: &mut Link, version: u16)
    ensures
        final(link)@ == old(link)@.description_finished(version),
{
    link.store.phase_to(
        if version == 0 {
            ConnectionPhase::Connected
        } else {
            ConnectionPhase::EstablishingDave
        },
    );
    link.reconnect_attempts = 0;
    link.answer_initial(Ok(()));
}

} // verus!
