//! The failures of a gateway connection, and what a close code means.
use vstd::prelude::*;

use crate::error::{Error, ErrorKind, Operation, RetryDisposition};
use crate::model::ConnectionGeneration;

verus! {

/// The failure that the gateway could not be reached.
pub open spec fn endpoint_failure(generation: ConnectionGeneration) -> crate::error::ErrorView {
    crate::error::ErrorView::plain(
        ErrorKind::EndpointOrTls,
        Operation::Connect,
        Some(generation),
        RetryDisposition::RetryingInternally,
        None,
        "voice gateway endpoint or TLS connection failed"@,
    )
}

/// Creates the failure that the gateway could not be reached.
pub fn endpoint_error(generation: ConnectionGeneration) -> (error: Error)
    ensures
        error@ == endpoint_failure(generation),
{
    Error::new(
        ErrorKind::EndpointOrTls,
        Operation::Connect,
        Some(generation),
        RetryDisposition::RetryingInternally,
        None,
        "voice gateway endpoint or TLS connection failed",
    )
}

/// The failure that the gateway broke the protocol.
pub open spec fn protocol_failure(generation: ConnectionGeneration) -> crate::error::ErrorView {
    crate::error::ErrorView::plain(
        ErrorKind::GatewayProtocol,
        Operation::Connect,
        Some(generation),
        RetryDisposition::Fatal,
        None,
        "voice gateway protocol payload was invalid"@,
    )
}

/// Creates the failure that the gateway broke the protocol.
pub fn protocol_error(generation: ConnectionGeneration) -> (error: Error)
    ensures
        error@ == protocol_failure(generation),
{
    Error::new(
        ErrorKind::GatewayProtocol,
        Operation::Connect,
        Some(generation),
        RetryDisposition::Fatal,
        None,
        "voice gateway protocol payload was invalid",
    )
}

/// The failure that DAVE could not be set up or moved on.
pub open spec fn dave_setup_failure(generation: ConnectionGeneration) -> crate::error::ErrorView {
    crate::error::ErrorView::plain(
        ErrorKind::DaveTransition,
        Operation::Connect,
        Some(generation),
        RetryDisposition::Fatal,
        None,
        "DAVE setup or transition failed"@,
    )
}

/// Creates the failure that DAVE could not be set up or moved on.
pub fn dave_error(generation: ConnectionGeneration) -> (error: Error)
    ensures
        error@ == dave_setup_failure(generation),
{
    Error::new(
        ErrorKind::DaveTransition,
        Operation::Connect,
        Some(generation),
        RetryDisposition::Fatal,
        None,
        "DAVE setup or transition failed",
    )
}

/// The failure that the gateway selected a DAVE version that is not spoken.
pub open spec fn dave_unsupported_failure(generation: ConnectionGeneration) -> crate::error::ErrorView {
    crate::error::ErrorView::plain(
        ErrorKind::DaveUnsupported,
        Operation::Connect,
        Some(generation),
        RetryDisposition::Fatal,
        None,
        "voice gateway selected an unsupported DAVE protocol version"@,
    )
}

/// Creates the failure that the gateway selected a DAVE version that is not spoken.
pub fn dave_unsupported_error(generation: ConnectionGeneration) -> (error: Error)
    ensures
        error@ == dave_unsupported_failure(generation),
{
    Error::new(
        ErrorKind::DaveUnsupported,
        Operation::Connect,
        Some(generation),
        RetryDisposition::Fatal,
        None,
        "voice gateway selected an unsupported DAVE protocol version",
    )
}

/// The failure that address discovery failed.
pub open spec fn udp_discovery_failure(generation: ConnectionGeneration) -> crate::error::ErrorView {
    crate::error::ErrorView::plain(
        ErrorKind::UdpDiscovery,
        Operation::Connect,
        Some(generation),
        RetryDisposition::Fatal,
        None,
        "UDP discovery failed after bounded retries"@,
    )
}

/// Creates the failure that address discovery failed.
pub fn udp_discovery_error(generation: ConnectionGeneration) -> (error: Error)
    ensures
        error@ == udp_discovery_failure(generation),
{
    Error::new(
        ErrorKind::UdpDiscovery,
        Operation::Connect,
        Some(generation),
        RetryDisposition::Fatal,
        None,
        "UDP discovery failed after bounded retries",
    )
}

/// The failure that no offered transport mode is supported.
pub open spec fn unsupported_transport_failure(generation: ConnectionGeneration) -> crate::error::ErrorView {
    crate::error::ErrorView::plain(
        ErrorKind::UnsupportedTransport,
        Operation::Connect,
        Some(generation),
        RetryDisposition::Fatal,
        None,
        "voice gateway offered no supported transport mode"@,
    )
}

/// Creates the failure that no offered transport mode is supported.
pub fn unsupported_transport_error(generation: ConnectionGeneration) -> (error: Error)
    ensures
        error@ == unsupported_transport_failure(generation),
{
    Error::new(
        ErrorKind::UnsupportedTransport,
        Operation::Connect,
        Some(generation),
        RetryDisposition::Fatal,
        None,
        "voice gateway offered no supported transport mode",
    )
}

/// The failure that the transport cipher could not be set up.
pub open spec fn transport_crypto_failure(generation: ConnectionGeneration) -> crate::error::ErrorView {
    crate::error::ErrorView::plain(
        ErrorKind::TransportCrypto,
        Operation::Connect,
        Some(generation),
        RetryDisposition::Fatal,
        None,
        "transport cipher initialization failed"@,
    )
}

/// Creates the failure that the transport cipher could not be set up.
pub fn transport_crypto_error(generation: ConnectionGeneration) -> (error: Error)
    ensures
        error@ == transport_crypto_failure(generation),
{
    Error::new(
        ErrorKind::TransportCrypto,
        Operation::Connect,
        Some(generation),
        RetryDisposition::Fatal,
        None,
        "transport cipher initialization failed",
    )
}

/// The failure that an audio command came for a stale generation or attachment.
pub open spec fn superseded_audio_failure(generation: ConnectionGeneration) -> crate::error::ErrorView {
    crate::error::ErrorView::plain(
        ErrorKind::Superseded,
        Operation::StartAudio,
        Some(generation),
        RetryDisposition::Fatal,
        None,
        "audio lifecycle command belongs to a stale connection generation"@,
    )
}

/// Creates the failure that an audio command came for a stale generation or attachment.
pub fn superseded_audio_error(generation: ConnectionGeneration) -> (error: Error)
    ensures
        error@ == superseded_audio_failure(generation),
{
    Error::new(
        ErrorKind::Superseded,
        Operation::StartAudio,
        Some(generation),
        RetryDisposition::Fatal,
        None,
        "audio lifecycle command belongs to a stale connection generation",
    )
}

/// The failure that a message was longer than its bound.
pub open spec fn resource_failure(generation: ConnectionGeneration) -> crate::error::ErrorView {
    crate::error::ErrorView::plain(
        ErrorKind::ResourceLimit,
        Operation::Connect,
        Some(generation),
        RetryDisposition::Fatal,
        None,
        "voice gateway message exceeded configured limit"@,
    )
}

/// Creates the failure that a message was longer than its bound.
pub fn resource_error(generation: ConnectionGeneration) -> (error: Error)
    ensures
        error@ == resource_failure(generation),
{
    Error::new(
        ErrorKind::ResourceLimit,
        Operation::Connect,
        Some(generation),
        RetryDisposition::Fatal,
        None,
        "voice gateway message exceeded configured limit",
    )
}

/// The failure that a WebSocket frame was longer than its bound.
pub open spec fn frame_limit_failure(generation: ConnectionGeneration) -> crate::error::ErrorView {
    crate::error::ErrorView::plain(
        ErrorKind::ResourceLimit,
        Operation::Connect,
        Some(generation),
        RetryDisposition::Fatal,
        None,
        "voice gateway frame exceeded configured limit"@,
    )
}

/// Creates the failure that a WebSocket frame was longer than its bound.
pub fn frame_limit_error(generation: ConnectionGeneration) -> (error: Error)
    ensures
        error@ == frame_limit_failure(generation),
{
    Error::new(
        ErrorKind::ResourceLimit,
        Operation::Connect,
        Some(generation),
        RetryDisposition::Fatal,
        None,
        "voice gateway frame exceeded configured limit",
    )
}

/// The failure that an audio sender is attached.
pub open spec fn attached_failure(generation: ConnectionGeneration) -> crate::error::ErrorView {
    crate::error::ErrorView::plain(
        ErrorKind::ResourceLimit,
        Operation::StartAudio,
        Some(generation),
        RetryDisposition::Fatal,
        None,
        "a paced audio sender is already attached"@,
    )
}

/// Creates the failure that an audio sender is attached.
pub fn attached_error(generation: ConnectionGeneration) -> (error: Error)
    ensures
        error@ == attached_failure(generation),
{
    Error::new(
        ErrorKind::ResourceLimit,
        Operation::StartAudio,
        Some(generation),
        RetryDisposition::Fatal,
        None,
        "a paced audio sender is already attached",
    )
}

/// The failure that the encoder of the transport is in use.
pub open spec fn encoder_attached_failure(generation: ConnectionGeneration) -> crate::error::ErrorView {
    crate::error::ErrorView::plain(
        ErrorKind::ResourceLimit,
        Operation::StartAudio,
        Some(generation),
        RetryDisposition::Fatal,
        None,
        "the current transport encoder is already attached"@,
    )
}

/// Creates the failure that the encoder of the transport is in use.
pub fn encoder_attached_error(generation: ConnectionGeneration) -> (error: Error)
    ensures
        error@ == encoder_attached_failure(generation),
{
    Error::new(
        ErrorKind::ResourceLimit,
        Operation::StartAudio,
        Some(generation),
        RetryDisposition::Fatal,
        None,
        "the current transport encoder is already attached",
    )
}

/// The failure that media must be encrypted and cannot be yet.
pub open spec fn dave_required_failure(generation: ConnectionGeneration) -> crate::error::ErrorView {
    crate::error::ErrorView::plain(
        ErrorKind::DaveRequired,
        Operation::StartAudio,
        Some(generation),
        RetryDisposition::Fatal,
        None,
        "DAVE is required before participant media can be sent"@,
    )
}

/// Creates the failure that media must be encrypted and cannot be yet.
pub fn dave_required_error(generation: ConnectionGeneration) -> (error: Error)
    ensures
        error@ == dave_required_failure(generation),
{
    Error::new(
        ErrorKind::DaveRequired,
        Operation::StartAudio,
        Some(generation),
        RetryDisposition::Fatal,
        None,
        "DAVE is required before participant media can be sent",
    )
}

/// The failure that too many pings are waiting.
pub open spec fn ping_limit_failure(generation: ConnectionGeneration) -> crate::error::ErrorView {
    crate::error::ErrorView::plain(
        ErrorKind::Overloaded,
        Operation::Ping,
        Some(generation),
        RetryDisposition::Fatal,
        None,
        "pending gateway ping waiter limit reached"@,
    )
}

/// Creates the failure that too many pings are waiting.
pub fn ping_limit_error(generation: ConnectionGeneration) -> (error: Error)
    ensures
        error@ == ping_limit_failure(generation),
{
    Error::new(
        ErrorKind::Overloaded,
        Operation::Ping,
        Some(generation),
        RetryDisposition::Fatal,
        None,
        "pending gateway ping waiter limit reached",
    )
}

/// The failure that the connection was shut down before a ping completed.
pub open spec fn ping_shutdown_failure(generation: ConnectionGeneration) -> crate::error::ErrorView {
    crate::error::ErrorView::plain(
        ErrorKind::Shutdown,
        Operation::Ping,
        Some(generation),
        RetryDisposition::Shutdown,
        None,
        "connection shut down before ping completed"@,
    )
}

/// Creates the failure that the connection was shut down before a ping completed.
pub fn ping_shutdown_error(generation: ConnectionGeneration) -> (error: Error)
    ensures
        error@ == ping_shutdown_failure(generation),
{
    Error::new(
        ErrorKind::Shutdown,
        Operation::Ping,
        Some(generation),
        RetryDisposition::Shutdown,
        None,
        "connection shut down before ping completed",
    )
}

/// The failure that no further generation can be numbered.
pub open spec fn generation_exhausted_failure(generation: ConnectionGeneration) -> crate::error::ErrorView {
    crate::error::ErrorView::plain(
        ErrorKind::ResourceLimit,
        Operation::ReplaceVoiceInfo,
        Some(generation),
        RetryDisposition::Fatal,
        None,
        "connection generation exhausted"@,
    )
}

/// Creates the failure that no further generation can be numbered.
pub fn generation_exhausted_error(generation: ConnectionGeneration) -> (error: Error)
    ensures
        error@ == generation_exhausted_failure(generation),
{
    Error::new(
        ErrorKind::ResourceLimit,
        Operation::ReplaceVoiceInfo,
        Some(generation),
        RetryDisposition::Fatal,
        None,
        "connection generation exhausted",
    )
}

/// The failure that the reconnect budget ran out.
pub open spec fn heartbeat_budget_failure(generation: ConnectionGeneration) -> crate::error::ErrorView {
    crate::error::ErrorView::plain(
        ErrorKind::HeartbeatTimeout,
        Operation::Resume,
        Some(generation),
        RetryDisposition::Fatal,
        None,
        "gateway reconnect budget exhausted"@,
    )
}

/// Creates the failure that the reconnect budget ran out.
pub fn heartbeat_budget_error(generation: ConnectionGeneration) -> (error: Error)
    ensures
        error@ == heartbeat_budget_failure(generation),
{
    Error::new(
        ErrorKind::HeartbeatTimeout,
        Operation::Resume,
        Some(generation),
        RetryDisposition::Fatal,
        None,
        "gateway reconnect budget exhausted",
    )
}

/// The failure that the connection was shut down while connecting.
pub open spec fn shutdown_failure(generation: ConnectionGeneration) -> crate::error::ErrorView {
    crate::error::ErrorView::plain(
        ErrorKind::Shutdown,
        Operation::Connect,
        Some(generation),
        RetryDisposition::Shutdown,
        None,
        "connection was shut down"@,
    )
}

/// Creates the failure that the connection was shut down while connecting.
pub fn shutdown_error(generation: ConnectionGeneration) -> (error: Error)
    ensures
        error@ == shutdown_failure(generation),
{
    Error::new(
        ErrorKind::Shutdown,
        Operation::Connect,
        Some(generation),
        RetryDisposition::Shutdown,
        None,
        "connection was shut down",
    )
}

/// The failure that the gateway closed cleanly while connecting.
pub open spec fn clean_close_failure(generation: ConnectionGeneration) -> crate::error::ErrorView {
    crate::error::ErrorView::plain(
        ErrorKind::Shutdown,
        Operation::Connect,
        Some(generation),
        RetryDisposition::Shutdown,
        None,
        "voice gateway closed cleanly during connect"@,
    )
}

/// Creates the failure that the gateway closed cleanly while connecting.
pub fn clean_close_error(generation: ConnectionGeneration) -> (error: Error)
    ensures
        error@ == clean_close_failure(generation),
{
    Error::new(
        ErrorKind::Shutdown,
        Operation::Connect,
        Some(generation),
        RetryDisposition::Shutdown,
        None,
        "voice gateway closed cleanly during connect",
    )
}

/// The failure that a ping needs fresh voice information.
pub open spec fn fresh_ping_failure(generation: ConnectionGeneration) -> crate::error::ErrorView {
    crate::error::ErrorView::plain(
        ErrorKind::NeedsFreshVoiceInfo,
        Operation::Ping,
        Some(generation),
        RetryDisposition::NeedsFreshVoiceInfo,
        None,
        "fresh voice information is required"@,
    )
}

/// Creates the failure that a ping needs fresh voice information.
pub fn fresh_ping_error(generation: ConnectionGeneration) -> (error: Error)
    ensures
        error@ == fresh_ping_failure(generation),
{
    Error::new(
        ErrorKind::NeedsFreshVoiceInfo,
        Operation::Ping,
        Some(generation),
        RetryDisposition::NeedsFreshVoiceInfo,
        None,
        "fresh voice information is required",
    )
}

/// The failure that audio needs fresh voice information to start.
pub open spec fn fresh_attach_failure(generation: ConnectionGeneration) -> crate::error::ErrorView {
    crate::error::ErrorView::plain(
        ErrorKind::NeedsFreshVoiceInfo,
        Operation::StartAudio,
        Some(generation),
        RetryDisposition::NeedsFreshVoiceInfo,
        None,
        "fresh voice information is required before audio can start"@,
    )
}

/// Creates the failure that audio needs fresh voice information to start.
pub fn fresh_attach_error(generation: ConnectionGeneration) -> (error: Error)
    ensures
        error@ == fresh_attach_failure(generation),
{
    Error::new(
        ErrorKind::NeedsFreshVoiceInfo,
        Operation::StartAudio,
        Some(generation),
        RetryDisposition::NeedsFreshVoiceInfo,
        None,
        "fresh voice information is required before audio can start",
    )
}

/// The failure that audio needs fresh voice information to go on.
pub open spec fn fresh_audio_failure(generation: ConnectionGeneration) -> crate::error::ErrorView {
    crate::error::ErrorView::plain(
        ErrorKind::NeedsFreshVoiceInfo,
        Operation::StartAudio,
        Some(generation),
        RetryDisposition::NeedsFreshVoiceInfo,
        None,
        "fresh voice information is required for audio lifecycle work"@,
    )
}

/// Creates the failure that audio needs fresh voice information to go on.
pub fn fresh_audio_error(generation: ConnectionGeneration) -> (error: Error)
    ensures
        error@ == fresh_audio_failure(generation),
{
    Error::new(
        ErrorKind::NeedsFreshVoiceInfo,
        Operation::StartAudio,
        Some(generation),
        RetryDisposition::NeedsFreshVoiceInfo,
        None,
        "fresh voice information is required for audio lifecycle work",
    )
}

/// The failure that resume was rejected and the reconnect budget ran out.
pub open spec fn resume_budget_failure(generation: ConnectionGeneration) -> crate::error::ErrorView {
    crate::error::ErrorView::plain(
        ErrorKind::ResumeRejected,
        Operation::Resume,
        Some(generation),
        RetryDisposition::Fatal,
        Some(4006),
        "gateway rejected resume and reconnect budget was exhausted"@,
    )
}

/// Creates the failure that resume was rejected and the reconnect budget ran out.
pub fn resume_budget_error(generation: ConnectionGeneration) -> (error: Error)
    ensures
        error@ == resume_budget_failure(generation),
{
    Error::new(
        ErrorKind::ResumeRejected,
        Operation::Resume,
        Some(generation),
        RetryDisposition::Fatal,
        Some(4006),
        "gateway rejected resume and reconnect budget was exhausted",
    )
}

/// The failure that the gateway is being reached again.
pub open spec fn retrying_failure(operation: Operation, generation: ConnectionGeneration) -> crate::error::ErrorView {
    crate::error::ErrorView::plain(
        ErrorKind::EndpointOrTls,
        operation,
        Some(generation),
        RetryDisposition::RetryingInternally,
        None,
        "voice gateway is reconnecting"@,
    )
}

/// Creates the failure that the gateway is being reached again.
pub fn retrying_error(operation: Operation, generation: ConnectionGeneration) -> (error: Error)
    ensures
        error@ == retrying_failure(operation, generation),
{
    Error::new(
        ErrorKind::EndpointOrTls,
        operation,
        Some(generation),
        RetryDisposition::RetryingInternally,
        None,
        "voice gateway is reconnecting",
    )
}

/// The failure that a write to the gateway failed.
pub open spec fn write_failed_failure() -> crate::error::ErrorView {
    crate::error::ErrorView::plain(
        ErrorKind::SendIo,
        Operation::Connect,
        None,
        RetryDisposition::RetryingInternally,
        None,
        "voice gateway write failed"@,
    )
}

/// Creates the failure that a write to the gateway failed.
pub fn write_failed_error() -> (error: Error)
    ensures
        error@ == write_failed_failure(),
{
    Error::new(
        ErrorKind::SendIo,
        Operation::Connect,
        None,
        RetryDisposition::RetryingInternally,
        None,
        "voice gateway write failed",
    )
}

/// The failure that a write to the gateway took too long.
pub open spec fn write_timeout_failure() -> crate::error::ErrorView {
    crate::error::ErrorView::plain(
        ErrorKind::SendIo,
        Operation::Connect,
        None,
        RetryDisposition::RetryingInternally,
        None,
        "voice gateway write timed out"@,
    )
}

/// Creates the failure that a write to the gateway took too long.
pub fn write_timeout_error() -> (error: Error)
    ensures
        error@ == write_timeout_failure(),
{
    Error::new(
        ErrorKind::SendIo,
        Operation::Connect,
        None,
        RetryDisposition::RetryingInternally,
        None,
        "voice gateway write timed out",
    )
}

/// The failure that no further heartbeat can be numbered.
pub open spec fn nonce_exhausted_failure() -> crate::error::ErrorView {
    crate::error::ErrorView::plain(
        ErrorKind::ResourceLimit,
        Operation::Connect,
        None,
        RetryDisposition::Fatal,
        None,
        "heartbeat nonce exhausted"@,
    )
}

/// Creates the failure that no further heartbeat can be numbered.
pub fn nonce_exhausted_error() -> (error: Error)
    ensures
        error@ == nonce_exhausted_failure(),
{
    Error::new(
        ErrorKind::ResourceLimit,
        Operation::Connect,
        None,
        RetryDisposition::Fatal,
        None,
        "heartbeat nonce exhausted",
    )
}

/// Whether a connection attempt identifies afresh or resumes.
#[derive(Clone, Copy, Debug, PartialEq, Eq, Structural)]
pub enum Attempt {
    Identify,
    Resume,
}

/// What a close code asks for.
#[derive(Clone, Copy, Debug)]
pub enum CloseOutcome {
    /// Resume the session.
    Resume,
    /// Identify afresh.
    FreshIdentify,
    /// Wait for fresh voice information.
    NeedsFresh(Error),
    /// Give up.
    Fatal(Error),
    /// The gateway ended the connection.
    CleanRemote,
}

/// What the policy says of a close code.
#[derive(Clone, Copy, Debug, PartialEq, Eq, Structural)]
pub enum ClosePolicy {
    Resume,
    FreshIdentify,
    NeedsFresh,
    Fatal(ErrorKind),
    CleanRemote,
}

/// The policy for close codes. A code without a rule of its own asks for a resume.
pub open spec fn close_policy(code: u16) -> ClosePolicy {
    if code == 1000 {
        ClosePolicy::CleanRemote
    } else if code == 4001 || code == 4002 || code == 4003 || code == 4005 || code == 4006 || code
        == 4009 {
        ClosePolicy::FreshIdentify
    } else if code == 4004 {
        ClosePolicy::Fatal(ErrorKind::CredentialsRejected)
    } else if code == 4011 || code == 4014 || code == 4021 || code == 4022 {
        ClosePolicy::NeedsFresh
    } else if code == 4012 || code == 4016 {
        ClosePolicy::Fatal(ErrorKind::UnsupportedTransport)
    } else if code == 4017 {
        ClosePolicy::Fatal(ErrorKind::DaveRequired)
    } else if code == 4020 {
        ClosePolicy::Fatal(ErrorKind::GatewayProtocol)
    } else {
        ClosePolicy::Resume
    }
}

/// The failure that a close code stands for.
pub open spec fn close_failure(
    code: u16,
    kind: ErrorKind,
    retry: RetryDisposition,
    generation: ConnectionGeneration,
) -> crate::error::ErrorView {
    crate::error::ErrorView::plain(
        kind,
        Operation::Connect,
        Some(generation),
        retry,
        Some(code as u32),
        "voice gateway closed the connection"@,
    )
}

/// Whether an outcome is the one that the policy asks for.
pub open spec fn follows_policy(
    outcome: CloseOutcome,
    code: u16,
    generation: ConnectionGeneration,
) -> bool {
    match close_policy(code) {
        ClosePolicy::Resume => outcome is Resume,
        ClosePolicy::FreshIdentify => outcome is FreshIdentify,
        ClosePolicy::CleanRemote => outcome is CleanRemote,
        ClosePolicy::NeedsFresh => outcome matches CloseOutcome::NeedsFresh(error) && error@
            == close_failure(
            code,
            ErrorKind::NeedsFreshVoiceInfo,
            RetryDisposition::NeedsFreshVoiceInfo,
            generation,
        ),
        ClosePolicy::Fatal(kind) => outcome matches CloseOutcome::Fatal(error) && error@
            == close_failure(code, kind, RetryDisposition::Fatal, generation),
    }
}

fn closed_by_gateway(
    code: u16,
    kind: ErrorKind,
    retry: RetryDisposition,
    generation: ConnectionGeneration,
) -> (error: Error)
    ensures
        error@ == close_failure(code, kind, retry, generation),
{
    Error::new(
        kind,
        Operation::Connect,
        Some(generation),
        retry,
        Some(code as u32),
        "voice gateway closed the connection",
    )
}

/// Decides what a close code asks for. The attempt makes no difference.
pub fn close_outcome(code: u16, generation: ConnectionGeneration, attempt: Attempt) -> (outcome:
    CloseOutcome)
    ensures
        follows_policy(outcome, code, generation),
{
    match code {
        1000 => CloseOutcome::CleanRemote,
        4001 | 4002 | 4003 | 4005 | 4006 | 4009 => CloseOutcome::FreshIdentify,
        4004 => CloseOutcome::Fatal(
            closed_by_gateway(
                code,
                ErrorKind::CredentialsRejected,
                RetryDisposition::Fatal,
                generation,
            ),
        ),
        4011 | 4014 | 4021 | 4022 => CloseOutcome::NeedsFresh(
            closed_by_gateway(
                code,
                ErrorKind::NeedsFreshVoiceInfo,
                RetryDisposition::NeedsFreshVoiceInfo,
                generation,
            ),
        ),
        4012 | 4016 => CloseOutcome::Fatal(
            closed_by_gateway(
                code,
                ErrorKind::UnsupportedTransport,
                RetryDisposition::Fatal,
                generation,
            ),
        ),
        4017 => CloseOutcome::Fatal(
            closed_by_gateway(code, ErrorKind::DaveRequired, RetryDisposition::Fatal, generation),
        ),
        4020 => CloseOutcome::Fatal(
            closed_by_gateway(code, ErrorKind::GatewayProtocol, RetryDisposition::Fatal, generation),
        ),
        _ => CloseOutcome::Resume,
    }
}

/// A failure says who has to act: the kinds of a shutdown and of missing voice information
/// have dispositions of their own, an endpoint that is out of reach is retried by the
/// connection itself, and everything else is final. Every failure names its generation.
pub proof fn failures_say_who_acts(generation: ConnectionGeneration, operation: Operation)
    ensures
        forall|failure: crate::error::ErrorView|
            {
                ||| failure == endpoint_failure(generation)
                ||| failure == protocol_failure(generation)
                ||| failure == dave_setup_failure(generation)
                ||| failure == dave_unsupported_failure(generation)
                ||| failure == udp_discovery_failure(generation)
                ||| failure == unsupported_transport_failure(generation)
                ||| failure == transport_crypto_failure(generation)
                ||| failure == superseded_audio_failure(generation)
                ||| failure == resource_failure(generation)
                ||| failure == frame_limit_failure(generation)
                ||| failure == attached_failure(generation)
                ||| failure == encoder_attached_failure(generation)
                ||| failure == dave_required_failure(generation)
                ||| failure == ping_limit_failure(generation)
                ||| failure == ping_shutdown_failure(generation)
                ||| failure == generation_exhausted_failure(generation)
                ||| failure == heartbeat_budget_failure(generation)
                ||| failure == shutdown_failure(generation)
                ||| failure == clean_close_failure(generation)
                ||| failure == fresh_ping_failure(generation)
                ||| failure == fresh_attach_failure(generation)
                ||| failure == fresh_audio_failure(generation)
                ||| failure == resume_budget_failure(generation)
                ||| failure == retrying_failure(operation, generation)
            } ==> {
                &&& #[trigger] failure.generation == Some(generation)
                &&& failure.kind == ErrorKind::Shutdown <==> failure.retry
                    == RetryDisposition::Shutdown
                &&& failure.kind == ErrorKind::NeedsFreshVoiceInfo <==> failure.retry
                    == RetryDisposition::NeedsFreshVoiceInfo
                &&& failure.kind == ErrorKind::EndpointOrTls <==> failure.retry
                    == RetryDisposition::RetryingInternally
                &&& failure.source is None
                &&& failure.dave_context is None
            },
        write_failed_failure().retry == RetryDisposition::RetryingInternally,
        write_timeout_failure().retry == RetryDisposition::RetryingInternally,
        write_failed_failure().kind == write_timeout_failure().kind,
        nonce_exhausted_failure().retry == RetryDisposition::Fatal,
{
}

/// What is refused for want of room is told as such, and apart from what is refused for
/// being wrong, for being unencrypted, for being too much at once and for being out of date.
pub proof fn refusals_are_told_apart(generation: ConnectionGeneration)
    ensures
        resource_failure(generation).kind == ErrorKind::ResourceLimit,
        frame_limit_failure(generation).kind == ErrorKind::ResourceLimit,
        attached_failure(generation).kind == ErrorKind::ResourceLimit,
        encoder_attached_failure(generation).kind == ErrorKind::ResourceLimit,
        generation_exhausted_failure(generation).kind == ErrorKind::ResourceLimit,
        nonce_exhausted_failure().kind == ErrorKind::ResourceLimit,
        protocol_failure(generation).kind == ErrorKind::GatewayProtocol,
        dave_setup_failure(generation).kind == ErrorKind::DaveTransition,
        dave_unsupported_failure(generation).kind == ErrorKind::DaveUnsupported,
        dave_required_failure(generation).kind == ErrorKind::DaveRequired,
        udp_discovery_failure(generation).kind == ErrorKind::UdpDiscovery,
        unsupported_transport_failure(generation).kind == ErrorKind::UnsupportedTransport,
        transport_crypto_failure(generation).kind == ErrorKind::TransportCrypto,
        superseded_audio_failure(generation).kind == ErrorKind::Superseded,
        ping_limit_failure(generation).kind == ErrorKind::Overloaded,
        heartbeat_budget_failure(generation).kind == ErrorKind::HeartbeatTimeout,
        resume_budget_failure(generation).kind == ErrorKind::ResumeRejected,
        write_failed_failure().kind == ErrorKind::SendIo,
        resume_budget_failure(generation).operation == heartbeat_budget_failure(
            generation,
        ).operation,
        superseded_audio_failure(generation).operation == Operation::StartAudio,
        dave_required_failure(generation).operation == Operation::StartAudio,
        attached_failure(generation).operation == Operation::StartAudio,
        ping_limit_failure(generation).operation == Operation::Ping,
        generation_exhausted_failure(generation).operation == Operation::ReplaceVoiceInfo,
        protocol_failure(generation).operation == Operation::Connect,
        resource_failure(generation).operation == Operation::Connect,
{
}

/// A close code stays with the failure that it leads to, so a caller can look it up.
pub proof fn close_failures_carry_their_code(
    code: u16,
    kind: ErrorKind,
    retry: RetryDisposition,
    generation: ConnectionGeneration,
)
    ensures
        close_failure(code, kind, retry, generation).safe_code == Some(code as u32),
        close_failure(code, kind, retry, generation).kind == kind,
        close_failure(code, kind, retry, generation).retry == retry,
        close_failure(code, kind, retry, generation).generation == Some(generation),
        close_failure(code, kind, retry, generation).operation == Operation::Connect,
{
}

/// A failure names what was being done: a resumption where the budget of attempts ended it, a
/// ping, an audio sender or fresh voice information where one of those asked, and the
/// connection itself elsewhere.
pub proof fn failures_name_their_operation(
    generation: ConnectionGeneration,
    operation: Operation,
)
    ensures
        heartbeat_budget_failure(generation).operation == Operation::Resume,
        resume_budget_failure(generation).operation == Operation::Resume,
        ping_shutdown_failure(generation).operation == Operation::Ping,
        fresh_ping_failure(generation).operation == Operation::Ping,
        fresh_attach_failure(generation).operation == Operation::StartAudio,
        fresh_audio_failure(generation).operation == Operation::StartAudio,
        encoder_attached_failure(generation).operation == Operation::StartAudio,
        endpoint_failure(generation).operation == Operation::Connect,
        dave_setup_failure(generation).operation == Operation::Connect,
        dave_unsupported_failure(generation).operation == Operation::Connect,
        udp_discovery_failure(generation).operation == Operation::Connect,
        unsupported_transport_failure(generation).operation == Operation::Connect,
        transport_crypto_failure(generation).operation == Operation::Connect,
        frame_limit_failure(generation).operation == Operation::Connect,
        shutdown_failure(generation).operation == Operation::Connect,
        clean_close_failure(generation).operation == Operation::Connect,
        retrying_failure(operation, generation).operation == operation,
        shutdown_failure(generation).kind == ErrorKind::Shutdown,
        clean_close_failure(generation).kind == ErrorKind::Shutdown,
        ping_shutdown_failure(generation).kind == ErrorKind::Shutdown,
        fresh_ping_failure(generation).kind == ErrorKind::NeedsFreshVoiceInfo,
        fresh_attach_failure(generation).kind == ErrorKind::NeedsFreshVoiceInfo,
        fresh_audio_failure(generation).kind == ErrorKind::NeedsFreshVoiceInfo,
        endpoint_failure(generation).kind == ErrorKind::EndpointOrTls,
        retrying_failure(operation, generation).kind == ErrorKind::EndpointOrTls,
        write_timeout_failure().kind == ErrorKind::SendIo,
{
}

} // verus!
