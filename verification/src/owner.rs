//! Commands to the task that owns a DAVE core, and what becomes of them.
use vstd::prelude::*;

use crate::audio::executor::EncryptReport;
use crate::dave::MediaOutcome;
use crate::error::DaveFailure;

verus! {

/// How long a command waits for room in the queue of the owner, and then for its answer,
/// in nanoseconds.
pub const COMMAND_TIMEOUT: u64 = 2_000_000_000;

/// How a wait for the owner ended.
#[derive(Clone, Copy, Debug, PartialEq, Eq, Structural)]
pub enum OwnerWait {
    Done,
    TimedOut,
    /// The owner is gone.
    Gone,
}

/// Decides after the wait for room in the queue.
pub fn command_queued(wait: OwnerWait) -> (queued: Result<(), DaveFailure>)
    ensures
        queued == (match wait {
            OwnerWait::Done => Ok::<(), DaveFailure>(()),
            OwnerWait::TimedOut => Err(DaveFailure::QueueTimeout),
            OwnerWait::Gone => Err(DaveFailure::Closed),
        }),
{
    match wait {
        OwnerWait::Done => Ok(()),
        OwnerWait::TimedOut => Err(DaveFailure::QueueTimeout),
        OwnerWait::Gone => Err(DaveFailure::Closed),
    }
}

/// Decides after the wait for the answer.
pub fn answer_arrived(wait: OwnerWait) -> (arrived: Result<(), DaveFailure>)
    ensures
        arrived == (match wait {
            OwnerWait::Done => Ok::<(), DaveFailure>(()),
            OwnerWait::TimedOut => Err(DaveFailure::ResponseTimeout),
            OwnerWait::Gone => Err(DaveFailure::Closed),
        }),
{
    match wait {
        OwnerWait::Done => Ok(()),
        OwnerWait::TimedOut => Err(DaveFailure::ResponseTimeout),
        OwnerWait::Gone => Err(DaveFailure::Closed),
    }
}

/// Checks that a frame lies in its buffer before it is handed to the owner.
pub fn admit_frame(buffer: usize, len: usize) -> (admitted: Result<(), DaveFailure>)
    ensures
        admitted == (if len > buffer {
            Err::<(), DaveFailure>(DaveFailure::Malformed)
        } else {
            Ok(())
        }),
{
    if len > buffer {
        Err(DaveFailure::Malformed)
    } else {
        Ok(())
    }
}

/// Reports to the sender what became of a frame: the owner did not answer, or it
/// answered with an outcome and, where it encrypted the frame, these bytes.
pub fn media_report(
    answer: Result<Result<MediaOutcome, DaveFailure>, DaveFailure>,
    output: Vec<u8>,
) -> (report: EncryptReport)
    ensures
        report == (match answer {
            Err(failure) => EncryptReport::OwnerFailed(failure),
            Ok(Err(failure)) => EncryptReport::Failed(failure),
            Ok(Ok(MediaOutcome::NotReady)) => EncryptReport::NotReady,
            Ok(Ok(MediaOutcome::Encrypted)) => EncryptReport::Ready(output),
        }),
{
    match answer {
        Err(failure) => EncryptReport::OwnerFailed(failure),
        Ok(Err(failure)) => EncryptReport::Failed(failure),
        Ok(Ok(MediaOutcome::NotReady)) => EncryptReport::NotReady,
        Ok(Ok(MediaOutcome::Encrypted)) => EncryptReport::Ready(output),
    }
}

/// The owner has two seconds for each wait.
pub proof fn owners_are_waited_for_two_seconds(waited: nat)
    ensures
        waited >= COMMAND_TIMEOUT <==> waited >= 2 * 1_000_000_000,
{
}

} // verus!
