//! Sources of encoded frames.
use core::task::{Context, Poll};
use vstd::prelude::*;

verus! {

/// The context of a poll, which carries the waker of the caller.
#[verifier::external_type_specification]
#[verifier::external_body]
pub struct ExContext<'a>(core::task::Context<'a>);

/// The result of a poll.
#[verifier::external_type_specification]
#[verifier::external_body]
#[verifier::reject_recursive_types(T)]
pub struct ExPoll<T>(core::task::Poll<T>);

/// The result of a ready [`FrameSource`] poll.
#[derive(Clone, Copy, Debug, PartialEq, Eq, Structural)]
#[non_exhaustive]
pub enum FrameStatus {
    /// One complete encoded frame was written into the output buffer.
    Frame {
        /// Number of frame bytes at the start of the output buffer.
        len: usize,
    },
    /// The source has ended for good.
    Ended,
}

/// A non-blocking source of encoded frames.
///
/// One sender polls a source at a time. A ready frame is exactly 20 ms of 48 kHz stereo
/// Opus. A source that answers `Pending` has registered the waker of the context and
/// wakes it once a frame or the end may be available. Polls do not block and do no
/// expensive work.
pub trait FrameSource: Send + 'static {
    /// Polls one encoded frame into `output`.
    fn poll_frame(&mut self, cx: &mut Context<'_>, output: &mut [u8]) -> Poll<FrameStatus>;
}

} // verus!
