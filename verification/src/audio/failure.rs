//! The failures of audio sending.
use vstd::prelude::*;

use crate::error::{Error, ErrorKind, Operation, RetryDisposition};
use crate::pacer::PacerFailure;

verus! {

/// A failure of audio sending.
pub open spec fn audio_failure(
    kind: ErrorKind,
    operation: Operation,
    retry: RetryDisposition,
    message: Seq<char>,
) -> crate::error::ErrorView {
    crate::error::ErrorView::plain(kind, operation, None, retry, None, message)
}

/// Creates a failure of audio sending.
pub fn audio_error(
    kind: ErrorKind,
    operation: Operation,
    retry: RetryDisposition,
    message: &'static str,
) -> (error: Error)
    ensures
        error@ == audio_failure(kind, operation, retry, message@),
{
    Error::new(kind, operation, None, retry, None, message)
}

/// The failure of a sender whose pacer failed.
pub open spec fn pacer_failure(failure: PacerFailure) -> crate::error::ErrorView {
    audio_failure(
        match failure {
            PacerFailure::Exhausted => ErrorKind::Overloaded,
            PacerFailure::Closed => ErrorKind::Shutdown,
        },
        Operation::StartAudio,
        RetryDisposition::Fatal,
        "shared pacing coordinator is unavailable"@,
    )
}

/// Creates the failure of a sender whose pacer failed.
pub fn pacer_error(failure: PacerFailure) -> (error: Error)
    ensures
        error@ == pacer_failure(failure),
{
    let kind = match failure {
        PacerFailure::Exhausted => ErrorKind::Overloaded,
        PacerFailure::Closed => ErrorKind::Shutdown,
    };
    audio_error(
        kind,
        Operation::StartAudio,
        RetryDisposition::Fatal,
        "shared pacing coordinator is unavailable",
    )
}

/// The failure of a sender whose gateway owner is gone.
pub open spec fn gateway_stopped_failure() -> crate::error::ErrorView {
    audio_failure(
        ErrorKind::Shutdown,
        Operation::StartAudio,
        RetryDisposition::Shutdown,
        "gateway owner stopped during audio lifecycle work"@,
    )
}

/// Creates the failure of a sender whose gateway owner is gone.
pub fn gateway_stopped() -> (error: Error)
    ensures
        error@ == gateway_stopped_failure(),
{
    audio_error(
        ErrorKind::Shutdown,
        Operation::StartAudio,
        RetryDisposition::Shutdown,
        "gateway owner stopped during audio lifecycle work",
    )
}

/// How a command found the queue of its owner.
#[derive(Clone, Copy, Debug, PartialEq, Eq, Structural)]
pub enum Queueing {
    Sent,
    Closed,
    Full,
}

/// Reports how a command to the gateway owner was queued.
pub fn gateway_queued(outcome: Queueing) -> (result: Result<(), Error>)
    ensures
        match outcome {
            Queueing::Sent => result is Ok,
            Queueing::Closed => result matches Err(error) && error@ == gateway_stopped_failure(),
            Queueing::Full => result matches Err(error) && error@ == audio_failure(
                ErrorKind::Overloaded,
                Operation::StartAudio,
                RetryDisposition::Fatal,
                "gateway command queue remained full during audio lifecycle work"@,
            ),
        },
{
    match outcome {
        Queueing::Sent => Ok(()),
        Queueing::Closed => Err(gateway_stopped()),
        Queueing::Full => Err(
            audio_error(
                ErrorKind::Overloaded,
                Operation::StartAudio,
                RetryDisposition::Fatal,
                "gateway command queue remained full during audio lifecycle work",
            ),
        ),
    }
}

/// Reports how a command to the sender was queued.
pub fn audio_queued(outcome: Queueing, operation: Operation) -> (result: Result<(), Error>)
    ensures
        match outcome {
            Queueing::Sent => result is Ok,
            Queueing::Closed => result matches Err(error) && error@ == audio_failure(
                ErrorKind::Shutdown,
                operation,
                RetryDisposition::Shutdown,
                "audio sender is closed"@,
            ),
            Queueing::Full => result matches Err(error) && error@ == audio_failure(
                ErrorKind::Overloaded,
                operation,
                RetryDisposition::Fatal,
                "audio sender command queue remained full"@,
            ),
        },
{
    match outcome {
        Queueing::Sent => Ok(()),
        Queueing::Closed => Err(
            audio_error(
                ErrorKind::Shutdown,
                operation,
                RetryDisposition::Shutdown,
                "audio sender is closed",
            ),
        ),
        Queueing::Full => Err(
            audio_error(
                ErrorKind::Overloaded,
                operation,
                RetryDisposition::Fatal,
                "audio sender command queue remained full",
            ),
        ),
    }
}

/// The failure of a replacement or a stop whose sender ended before it answered.
pub fn answer_lost(stopping: bool) -> (error: Error)
    ensures
        error@ == (if stopping {
            audio_failure(
                ErrorKind::Shutdown,
                Operation::StopAudio,
                RetryDisposition::Shutdown,
                "audio sender stopped before graceful stop completed"@,
            )
        } else {
            audio_failure(
                ErrorKind::Shutdown,
                Operation::ReplaceSource,
                RetryDisposition::Shutdown,
                "audio sender stopped before source replacement completed"@,
            )
        }),
{
    if stopping {
        audio_error(
            ErrorKind::Shutdown,
            Operation::StopAudio,
            RetryDisposition::Shutdown,
            "audio sender stopped before graceful stop completed",
        )
    } else {
        audio_error(
            ErrorKind::Shutdown,
            Operation::ReplaceSource,
            RetryDisposition::Shutdown,
            "audio sender stopped before source replacement completed",
        )
    }
}

/// A pacer that ran out of numbers is overloaded, one that is gone has shut down, and so has
/// a gateway owner that is gone. Each failure is one of starting audio and has no cause.
pub proof fn lost_helpers_are_told_apart(operation: Operation, retry: RetryDisposition)
    ensures
        pacer_failure(PacerFailure::Exhausted).kind == ErrorKind::Overloaded,
        pacer_failure(PacerFailure::Closed).kind == ErrorKind::Shutdown,
        forall|failure: PacerFailure|
            {
                &&& (#[trigger] pacer_failure(failure)).operation == Operation::StartAudio
                &&& pacer_failure(failure).retry == RetryDisposition::Fatal
                &&& pacer_failure(failure).dave_failure() is None
            },
        gateway_stopped_failure().kind == ErrorKind::Shutdown,
        gateway_stopped_failure().operation == Operation::StartAudio,
        gateway_stopped_failure().retry == RetryDisposition::Shutdown,
        forall|kind: ErrorKind, message: Seq<char>|
            {
                let failure = #[trigger] audio_failure(kind, operation, retry, message);
                &&& failure.kind == kind
                &&& failure.operation == operation
                &&& failure.retry == retry
                &&& failure.message == message
                &&& failure.generation is None
                &&& failure.safe_code is None
                &&& failure.source is None
                &&& failure.dave_context is None
            },
{
}

} // verus!
