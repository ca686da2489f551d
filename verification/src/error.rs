//! Failure classification shared by every part of the library.
use vstd::prelude::*;

use crate::model::ConnectionGeneration;

verus! {

/// Stable classifications for failures.
#[derive(Clone, Copy, Debug, PartialEq, Eq, Structural)]
#[non_exhaustive]
pub enum ErrorKind {
    /// Builder inputs are zero, inconsistent, or unsafe.
    InvalidConfiguration,
    /// Voice connection information is malformed or out of bounds.
    InvalidVoiceInfo,
    /// The operation requires a running caller-owned runtime.
    RuntimeUnavailable,
    /// Endpoint parsing, DNS, WebSocket, or TLS establishment failed.
    EndpointOrTls,
    /// The service rejected the supplied voice credentials.
    CredentialsRejected,
    /// A Voice Gateway message or state transition violated the protocol.
    GatewayProtocol,
    /// The Voice Gateway heartbeat acknowledgement deadline expired.
    HeartbeatTimeout,
    /// The service rejected or could not satisfy a buffered resume.
    ResumeRejected,
    /// Recovery requires a fresh voice-state/server update.
    NeedsFreshVoiceInfo,
    /// UDP address discovery did not produce a valid route.
    UdpDiscovery,
    /// No supported transport encryption mode was offered.
    UnsupportedTransport,
    /// RTP transport encryption, key, nonce, or packet processing failed.
    TransportCrypto,
    /// The call requires DAVE but no ready encrypted sender is available.
    DaveRequired,
    /// The selected DAVE version is not supported.
    DaveUnsupported,
    /// DAVE setup, membership, transition, or media transformation failed.
    DaveTransition,
    /// A source blocked, returned an invalid length, or broke its contract.
    FrameSourceContract,
    /// Sending a UDP media packet failed.
    SendIo,
    /// A configured bounded resource limit rejected an operation.
    ResourceLimit,
    /// A bounded queue or operation deadline remained saturated.
    Overloaded,
    /// A newer lifecycle operation replaced the requested work.
    Superseded,
    /// Explicit shutdown or owner cancellation ended the operation.
    Shutdown,
}

/// Credential-free DAVE failure classifications, retained by durable snapshots.
#[derive(Clone, Copy, Debug, PartialEq, Eq, Structural)]
#[non_exhaustive]
pub enum DaveFailure {
    /// The selected protocol version is unsupported.
    UnsupportedVersion,
    /// A required encrypted call attempted a plaintext downgrade.
    RequiredDowngrade,
    /// A control payload or frame length was malformed.
    Malformed,
    /// The lifecycle state does not permit the operation.
    InvalidState,
    /// The encryption or MLS backend rejected the operation.
    Backend,
    /// The backend panicked.
    BackendPanic,
    /// The owner command could not be queued before its deadline.
    QueueTimeout,
    /// The owner did not respond before its deadline.
    ResponseTimeout,
    /// The owner command or response lane closed.
    Closed,
}

impl DaveFailure {
    /// The fixed text of each cause.
    pub open spec fn text(self) -> Seq<char> {
        match self {
            DaveFailure::UnsupportedVersion => "unsupported DAVE protocol version"@,
            DaveFailure::RequiredDowngrade =>
                "DAVE-required call attempted a plaintext downgrade"@,
            DaveFailure::Malformed => "malformed DAVE control payload"@,
            DaveFailure::InvalidState => "invalid DAVE lifecycle transition"@,
            DaveFailure::Backend => "DAVE backend rejected the operation"@,
            DaveFailure::BackendPanic =>
                "DAVE backend panicked while rejecting untrusted input"@,
            DaveFailure::QueueTimeout => "DAVE command queue remained full"@,
            DaveFailure::ResponseTimeout => "DAVE owner response deadline expired"@,
            DaveFailure::Closed => "DAVE owner task stopped"@,
        }
    }

    /// Returns the fixed text of this cause; it never carries payload bytes.
    pub fn message(self) -> (text: &'static str)
        ensures
            text@ == self.text(),
    {
        match self {
            DaveFailure::UnsupportedVersion => "unsupported DAVE protocol version",
            DaveFailure::RequiredDowngrade => "DAVE-required call attempted a plaintext downgrade",
            DaveFailure::Malformed => "malformed DAVE control payload",
            DaveFailure::InvalidState => "invalid DAVE lifecycle transition",
            DaveFailure::Backend => "DAVE backend rejected the operation",
            DaveFailure::BackendPanic => "DAVE backend panicked while rejecting untrusted input",
            DaveFailure::QueueTimeout => "DAVE command queue remained full",
            DaveFailure::ResponseTimeout => "DAVE owner response deadline expired",
            DaveFailure::Closed => "DAVE owner task stopped",
        }
    }
}

/// Redaction-safe DAVE state observed when an operation failed.
///
/// This is a lifecycle observation, not a copy of keys or control payloads.
#[derive(Clone, Copy, Debug, PartialEq, Eq, Structural)]
pub struct DaveContext {
    /// Active protocol version observed by the DAVE owner.
    pub active_version: u16,
    /// Whether a transition was pending at the observation.
    pub transition_pending: bool,
    /// Whether the owner reported a ready encrypted sender.
    pub ready: bool,
}

/// What the caller should assume about retry ownership after a failure.
#[derive(Clone, Copy, Debug, PartialEq, Eq, Structural)]
#[non_exhaustive]
pub enum RetryDisposition {
    /// A retry is already under way within the current connection generation.
    RetryingInternally,
    /// The caller must supply a fresh complete `VoiceConnectInfo`.
    NeedsFreshVoiceInfo,
    /// This failure is not retried automatically.
    Fatal,
    /// The operation ended because the connection is shutting down.
    Shutdown,
}

/// Public operation labels attached to failures and snapshots.
#[derive(Clone, Copy, Debug, PartialEq, Eq, Structural)]
#[non_exhaustive]
pub enum Operation {
    /// Connector configuration validation.
    Build,
    /// Initial voice connection establishment.
    Connect,
    /// Fresh voice information replacement.
    ReplaceVoiceInfo,
    /// Internal buffered resume processing.
    Resume,
    /// Voice Gateway heartbeat round-trip measurement.
    Ping,
    /// Paced sender attachment.
    StartAudio,
    /// Attached source replacement.
    ReplaceSource,
    /// Graceful paced audio stop.
    StopAudio,
    /// Explicit connection shutdown.
    Shutdown,
}

/// What is known of the error that caused a failure.
///
/// Only the DAVE causes are on the list of what diagnostics may show. Any other
/// cause is recorded as present and nothing of it is kept.
#[derive(Clone, Copy, Debug, PartialEq, Eq, Structural)]
pub enum ErrorSource {
    /// A DAVE cause, which carries no secret.
    Dave(DaveFailure),
    /// Any other cause: an I/O, TLS, WebSocket or JSON error.
    Foreign,
}

/// A typed failure with redaction-safe metadata.
#[derive(Clone, Copy, Debug)]
pub struct Error {
    pub(crate) kind: ErrorKind,
    pub(crate) operation: Operation,
    pub(crate) generation: Option<ConnectionGeneration>,
    pub(crate) retry: RetryDisposition,
    pub(crate) safe_code: Option<u32>,
    pub(crate) message: &'static str,
    pub(crate) source: Option<ErrorSource>,
    pub(crate) dave_context: Option<DaveContext>,
}

/// What an [`Error`] says, as a mathematical value.
pub ghost struct ErrorView {
    pub kind: ErrorKind,
    pub operation: Operation,
    pub generation: Option<ConnectionGeneration>,
    pub retry: RetryDisposition,
    pub safe_code: Option<u32>,
    pub message: Seq<char>,
    pub source: Option<ErrorSource>,
    pub dave_context: Option<DaveContext>,
}

impl ErrorView {
    /// A failure without a recorded cause and without a DAVE observation.
    pub open spec fn plain(
        kind: ErrorKind,
        operation: Operation,
        generation: Option<ConnectionGeneration>,
        retry: RetryDisposition,
        safe_code: Option<u32>,
        message: Seq<char>,
    ) -> ErrorView {
        ErrorView {
            kind,
            operation,
            generation,
            retry,
            safe_code,
            message,
            source: None,
            dave_context: None,
        }
    }

    /// The DAVE cause that diagnostics may show, if the cause is one.
    pub open spec fn dave_failure(self) -> Option<DaveFailure> {
        match self.source {
            Some(ErrorSource::Dave(failure)) => Some(failure),
            _ => None,
        }
    }
}

impl View for Error {
    type V = ErrorView;

    closed spec fn view(&self) -> ErrorView {
        ErrorView {
            kind: self.kind,
            operation: self.operation,
            generation: self.generation,
            retry: self.retry,
            safe_code: self.safe_code,
            message: self.message@,
            source: self.source,
            dave_context: self.dave_context,
        }
    }
}

impl Error {
    /// Creates a failure without a cause.
    pub fn new(
        kind: ErrorKind,
        operation: Operation,
        generation: Option<ConnectionGeneration>,
        retry: RetryDisposition,
        safe_code: Option<u32>,
        message: &'static str,
    ) -> (error: Self)
        ensures
            error@ == ErrorView::plain(kind, operation, generation, retry, safe_code, message@),
    {
        Error {
            kind,
            operation,
            generation,
            retry,
            safe_code,
            message,
            source: None,
            dave_context: None,
        }
    }

    /// Attaches the DAVE state observed after the failure.
    pub fn with_dave_context(self, context: DaveContext) -> (error: Self)
        ensures
            error@ == (ErrorView { dave_context: Some(context), ..self@ }),
    {
        Error { dave_context: Some(context), ..self }
    }

    /// Returns the lifecycle state observed after a DAVE failure, if available.
    pub fn dave_context(&self) -> (context: Option<DaveContext>)
        ensures
            context == self@.dave_context,
    {
        self.dave_context
    }

    /// Records what caused the failure.
    pub fn with_source(self, source: ErrorSource) -> (error: Self)
        ensures
            error@ == (ErrorView { source: Some(source), ..self@ }),
    {
        Error { source: Some(source), ..self }
    }

    /// Relabels the failure for the operation and generation that observed it.
    pub fn for_operation_generation(
        self,
        operation: Operation,
        generation: ConnectionGeneration,
    ) -> (error: Self)
        ensures
            error@ == (ErrorView { operation, generation: Some(generation), ..self@ }),
    {
        Error { operation, generation: Some(generation), ..self }
    }

    /// Returns the stable failure classification.
    pub fn kind(&self) -> (kind: ErrorKind)
        ensures
            kind == self@.kind,
    {
        self.kind
    }

    /// Returns only the allowlisted DAVE cause, never arbitrary source text.
    pub fn dave_failure(&self) -> (failure: Option<DaveFailure>)
        ensures
            failure == self@.dave_failure(),
    {
        match self.source {
            Some(ErrorSource::Dave(failure)) => Some(failure),
            _ => None,
        }
    }

    /// Returns whether a cause was recorded.
    pub fn has_source(&self) -> (present: bool)
        ensures
            present == (self@.source is Some),
    {
        self.source.is_some()
    }

    /// Returns the operation that observed the failure.
    pub fn operation(&self) -> (operation: Operation)
        ensures
            operation == self@.operation,
    {
        self.operation
    }

    /// Returns the affected connection generation when one exists.
    pub fn generation(&self) -> (generation: Option<ConnectionGeneration>)
        ensures
            generation == self@.generation,
    {
        self.generation
    }

    /// Returns the retry ownership/disposition.
    pub fn retry_disposition(&self) -> (retry: RetryDisposition)
        ensures
            retry == self@.retry,
    {
        self.retry
    }

    /// Returns a redaction-safe protocol/status code when applicable.
    pub fn safe_code(&self) -> (code: Option<u32>)
        ensures
            code == self@.safe_code,
    {
        self.safe_code
    }

    /// Returns the fixed text of the failure.
    pub fn message(&self) -> (text: &'static str)
        ensures
            text@ == self@.message,
    {
        self.message
    }
}

/// A cause off the list is never shown by diagnostics, whatever else the failure
/// says, and a DAVE cause is shown as it is.
pub proof fn only_dave_causes_are_shown(error: ErrorView, failure: DaveFailure)
    ensures
        (ErrorView { source: Some(ErrorSource::Foreign), ..error }).dave_failure() is None,
        (ErrorView { source: Some(ErrorSource::Dave(failure)), ..error }).dave_failure() == Some(
            failure,
        ),
{
}

/// A failure says what it was made of, and has neither a cause nor an observed DAVE state
/// until one is added.
pub proof fn failures_say_what_they_were_made_of(
    kind: ErrorKind,
    operation: Operation,
    generation: Option<ConnectionGeneration>,
    retry: RetryDisposition,
    code: Option<u32>,
    message: Seq<char>,
)
    ensures
        ({
            let failure = ErrorView::plain(kind, operation, generation, retry, code, message);
            &&& failure.kind == kind
            &&& failure.operation == operation
            &&& failure.generation == generation
            &&& failure.retry == retry
            &&& failure.safe_code == code
            &&& failure.message == message
            &&& failure.source is None
            &&& failure.dave_failure() is None
            &&& failure.dave_context is None
        }),
{
}

/// What is shown of a DAVE cause is one fixed text for each cause.
pub proof fn causes_are_shown_by_fixed_texts(failure: DaveFailure)
    ensures
        failure == DaveFailure::UnsupportedVersion ==> failure.text()
            == "unsupported DAVE protocol version"@,
        failure == DaveFailure::RequiredDowngrade ==> failure.text()
            == "DAVE-required call attempted a plaintext downgrade"@,
        failure == DaveFailure::Malformed ==> failure.text() == "malformed DAVE control payload"@,
        failure == DaveFailure::InvalidState ==> failure.text()
            == "invalid DAVE lifecycle transition"@,
        failure == DaveFailure::Backend ==> failure.text() == "DAVE backend rejected the operation"@,
        failure == DaveFailure::BackendPanic ==> failure.text()
            == "DAVE backend panicked while rejecting untrusted input"@,
        failure == DaveFailure::QueueTimeout ==> failure.text()
            == "DAVE command queue remained full"@,
        failure == DaveFailure::ResponseTimeout ==> failure.text()
            == "DAVE owner response deadline expired"@,
        failure == DaveFailure::Closed ==> failure.text() == "DAVE owner task stopped"@,
{
}

} // verus!
