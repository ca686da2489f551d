//! A capacity-one handoff of encoded frames.
//!
//! One writer and one reader share a channel. The writer publishes a frame once the one
//! before it was read, and a frame counts as sent once it was read.
use vstd::prelude::*;

use crate::ring::{new_frame_queue, pop_frame, push_frame};
use crate::wire::copy_bytes;

verus! {

/// The longest encoded frame in bytes.
pub const MAX_FRAME: usize = 1275;

/// A failed send.
#[derive(Debug, Clone, Copy, PartialEq, Eq, Structural)]
pub enum FrameSendError {
    /// The length is outside 1..=1275 bytes; nothing was published.
    InvalidLength,
    /// The reader is gone; whether a frame in flight was read is unknown.
    Closed,
    /// The reader supplied a buffer that was too small; nothing was copied.
    OutputTooSmall,
}

impl FrameSendError {
    /// What diagnostics show.
    pub fn message(self) -> (message: &'static str)
        ensures
            message@ == (match self {
                FrameSendError::InvalidLength => "invalid encoded frame length"@,
                FrameSendError::Closed => "encoded frame consumer closed"@,
                FrameSendError::OutputTooSmall => "encoded frame output buffer too small"@,
            }),
    {
        match self {
            FrameSendError::InvalidLength => "invalid encoded frame length",
            FrameSendError::Closed => "encoded frame consumer closed",
            FrameSendError::OutputTooSmall => "encoded frame output buffer too small",
        }
    }
}

/// How a send goes on.
#[derive(Debug, Clone, Copy, PartialEq, Eq)]
pub enum SendStep {
    Done(Result<(), FrameSendError>),
    /// The frame in flight was not read yet. Where the reader does not wake the writer,
    /// it is to look again after a while.
    Wait { timer: bool },
}

/// What a read brought.
#[derive(Debug, Clone, Copy, PartialEq, Eq, Structural)]
pub enum ReadStep {
    /// A frame of this many bytes.
    Frame(usize),
    Ended,
    Pending,
}

/// A channel: its queue, and what its two ends told each other.
pub struct FrameChannel {
    producer: rtrb::Producer<Vec<u8>>,
    consumer: rtrb::Consumer<Vec<u8>>,
    in_flight: bool,
    consumed: bool,
    ended: bool,
    closed: bool,
    undersized: bool,
    owned: bool,
}

/// The mathematical form of a [`FrameChannel`].
#[verifier::ext_equal]
pub ghost struct ChannelState {
    /// The frame that was published and not read.
    pub queued: Option<Seq<u8>>,
    /// Whether the writer has a frame of which it does not know that it was read.
    pub in_flight: bool,
    /// Whether the reader read the frame and the writer does not know it.
    pub consumed: bool,
    /// Whether the writer is gone.
    pub ended: bool,
    /// Whether the reader is gone.
    pub closed: bool,
    /// Whether a read failed for want of room.
    pub undersized: bool,
    /// Whether the reader wakes the writer.
    pub owned: bool,
}

/// The frame of a queue with one place.
pub open spec fn only_frame(frames: Seq<Vec<u8>>) -> Option<Seq<u8>> {
    if frames.len() == 0 {
        None
    } else {
        Some(frames[0]@)
    }
}

impl View for FrameChannel {
    type V = ChannelState;

    closed spec fn view(&self) -> ChannelState {
        ChannelState {
            queued: only_frame(crate::ring::queued_frames(self.producer, self.consumer)),
            in_flight: self.in_flight,
            consumed: self.consumed,
            ended: self.ended,
            closed: self.closed,
            undersized: self.undersized,
            owned: self.owned,
        }
    }
}

impl ChannelState {
    /// A channel that nothing went through.
    pub open spec fn fresh() -> ChannelState {
        ChannelState {
            queued: None,
            in_flight: false,
            consumed: false,
            ended: false,
            closed: false,
            undersized: false,
            owned: false,
        }
    }

    /// What the writer knows fits what the reader did.
    pub open spec fn consistent(self) -> bool {
        &&& self.queued is Some ==> self.in_flight && !self.consumed
        &&& self.consumed ==> self.in_flight
        &&& self.in_flight && !self.consumed && !self.undersized ==> self.queued is Some
    }

    /// Why the writer cannot go on.
    pub open spec fn failure(self) -> Option<FrameSendError> {
        if self.undersized {
            Some(FrameSendError::OutputTooSmall)
        } else if self.closed {
            Some(FrameSendError::Closed)
        } else {
            None
        }
    }

    /// The channel once the writer took note that its frame was read.
    pub open spec fn acknowledged(self) -> ChannelState {
        if self.in_flight && self.failure() is None && self.consumed {
            ChannelState { in_flight: false, consumed: false, ..self }
        } else {
            self
        }
    }

    /// Whether the writer waits for its frame to be read: `None` where it was, and a
    /// step where it was not.
    pub open spec fn waits(self) -> Option<SendStep> {
        if !self.in_flight {
            None
        } else {
            match self.failure() {
                Some(failure) => Some(SendStep::Done(Err(failure))),
                None => if self.consumed {
                    None
                } else {
                    Some(SendStep::Wait { timer: !self.owned })
                },
            }
        }
    }

    /// The channel with a frame published.
    pub open spec fn published(self, frame: Seq<u8>) -> ChannelState {
        ChannelState { queued: Some(frame), in_flight: true, ..self }
    }

    /// What a send that has not published its frame yet leads to: the channel, the step,
    /// and whether the frame was published.
    pub open spec fn send_begins(self, frame: Seq<u8>) -> (ChannelState, SendStep, bool) {
        if !(1 <= frame.len() <= MAX_FRAME) {
            (self, SendStep::Done(Err(FrameSendError::InvalidLength)), false)
        } else {
            match self.waits() {
                Some(step) => (self, step, false),
                None => {
                    let free = self.acknowledged();
                    match free.failure() {
                        Some(failure) => (free, SendStep::Done(Err(failure)), false),
                        None => (
                            free.published(frame),
                            SendStep::Wait { timer: !self.owned },
                            true,
                        ),
                    }
                },
            }
        }
    }

    /// What a send that has published its frame leads to.
    pub open spec fn send_continues(self) -> (ChannelState, SendStep) {
        match self.waits() {
            Some(step) => (self, step),
            None => (self.acknowledged(), SendStep::Done(Ok(()))),
        }
    }

    /// What a read into a buffer of some length leads to.
    pub open spec fn read(self, room: nat) -> (ChannelState, ReadStep) {
        if self.undersized {
            (self, ReadStep::Ended)
        } else {
            match self.queued {
                Some(frame) => if frame.len() > room {
                    (ChannelState { queued: None, undersized: true, ..self }, ReadStep::Ended)
                } else {
                    (
                        ChannelState { queued: None, consumed: true, ..self },
                        ReadStep::Frame(frame.len() as usize),
                    )
                },
                None => if self.ended {
                    (self, ReadStep::Ended)
                } else {
                    (self, ReadStep::Pending)
                },
            }
        }
    }
}

/// The buffer after a read.
pub open spec fn read_into(channel: ChannelState, buffer: Seq<u8>) -> Seq<u8> {
    match (channel.read(buffer.len()).1, channel.queued) {
        (ReadStep::Frame(len), Some(frame)) => frame + buffer.subrange(
            len as int,
            buffer.len() as int,
        ),
        _ => buffer,
    }
}

/// Creates a channel for encoded frames.
pub fn frame_channel() -> (channel: FrameChannel)
    ensures
        channel.well_formed(),
        channel@ == ChannelState::fresh(),
{
    let (producer, consumer) = new_frame_queue(1);
    FrameChannel {
        producer,
        consumer,
        in_flight: false,
        consumed: false,
        ended: false,
        closed: false,
        undersized: false,
        owned: false,
    }
}

impl FrameChannel {
    /// The ends belong to one queue with one place, and hold frames of valid length.
    pub closed spec fn well_formed(self) -> bool {
        let frames = crate::ring::queued_frames(self.producer, self.consumer);
        &&& crate::ring::frame_room(self.producer, self.consumer) == Some(1nat)
        &&& frames.len() <= 1
        &&& frames.len() == 1 ==> 1 <= frames[0]@.len() <= MAX_FRAME
        &&& self@.consistent()
    }

    /// The state of a well-formed channel is consistent.
    pub broadcast proof fn well_formed_is_consistent(self)
        ensures
            #[trigger] self.well_formed() ==> self@.consistent(),
    {
    }

    fn check_open(&self) -> (result: Result<(), FrameSendError>)
        ensures
            match result {
                Ok(()) => self@.failure() is None,
                Err(failure) => self@.failure() == Some(failure),
            },
    {
        if self.undersized {
            Err(FrameSendError::OutputTooSmall)
        } else if self.closed {
            Err(FrameSendError::Closed)
        } else {
            Ok(())
        }
    }

    fn poll_consumed(&mut self) -> (wait: Option<SendStep>)
        requires
            old(self).well_formed(),
        ensures
            final(self).well_formed(),
            wait == old(self)@.waits(),
            final(self)@ == old(self)@.acknowledged(),
    {
        if !self.in_flight {
            return None;
        }
        if let Err(failure) = self.check_open() {
            return Some(SendStep::Done(Err(failure)));
        }
        if self.consumed {
            self.consumed = false;
            self.in_flight = false;
            None
        } else {
            Some(SendStep::Wait { timer: !self.owned })
        }
    }

    /// Goes on with a send, whose frame was published before or not. A send publishes its
    /// frame once, after the one before it was read, and is done once its own was read.
    /// The reader is to be woken where the frame became published.
    pub fn poll_send(&mut self, bytes: &[u8], published: &mut bool) -> (step: SendStep)
        requires
            old(self).well_formed(),
        ensures
            final(self).well_formed(),
            if *old(published) {
                &&& *final(published)
                &&& (final(self)@, step) == old(self)@.send_continues()
            } else {
                (final(self)@, step, *final(published)) == old(self)@.send_begins(bytes@)
            },
    {
        if !*published {
            if bytes.len() < 1 || bytes.len() > MAX_FRAME {
                return SendStep::Done(Err(FrameSendError::InvalidLength));
            }
            if let Some(step) = self.poll_consumed() {
                return step;
            }
            if let Err(failure) = self.check_open() {
                return SendStep::Done(Err(failure));
            }
            self.in_flight = true;
            let _pushed = push_frame(&mut self.producer, &mut self.consumer, copy_bytes(bytes));
            *published = true;
            return SendStep::Wait { timer: !self.owned };
        }
        match self.poll_consumed() {
            Some(step) => step,
            None => SendStep::Done(Ok(())),
        }
    }

    /// Reads one frame into `output`. A buffer that is too small ends the channel and
    /// fails the writer; nothing is copied then.
    pub fn poll_frame(&mut self, output: &mut [u8]) -> (step: ReadStep)
        requires
            old(self).well_formed(),
        ensures
            final(self).well_formed(),
            (final(self)@, step) == old(self)@.read(old(output)@.len()),
            final(output)@ == read_into(old(self)@, old(output)@),
    {
        if self.undersized {
            return ReadStep::Ended;
        }
        match pop_frame(&mut self.producer, &mut self.consumer) {
            Some(frame) => {
                if frame.len() > output.len() {
                    self.undersized = true;
                    return ReadStep::Ended;
                }
                copy_into(&frame, output);
                self.consumed = true;
                ReadStep::Frame(frame.len())
            },
            None => if self.ended {
                ReadStep::Ended
            } else {
                ReadStep::Pending
            },
        }
    }

    /// Reads like [`FrameChannel::poll_frame`] for a reader that wakes the writer, which
    /// it is to do where the read was not pending.
    pub fn poll_owned(&mut self, output: &mut [u8]) -> (step: ReadStep)
        requires
            old(self).well_formed(),
        ensures
            final(self).well_formed(),
            (final(self)@, step) == (ChannelState { owned: true, ..old(self)@ }).read(
                old(output)@.len(),
            ),
            final(output)@ == read_into(old(self)@, old(output)@),
    {
        self.owned = true;
        self.poll_frame(output)
    }

    /// Lets the writer go: what it published is still read, then the channel ends.
    pub fn drop_writer(&mut self)
        requires
            old(self).well_formed(),
        ensures
            final(self).well_formed(),
            final(self)@ == (ChannelState { ended: true, ..old(self)@ }),
    {
        self.ended = true;
    }

    /// Lets the reader go: sends fail.
    pub fn drop_reader(&mut self)
        requires
            old(self).well_formed(),
        ensures
            final(self).well_formed(),
            final(self)@ == (ChannelState { closed: true, ..old(self)@ }),
    {
        self.closed = true;
    }
}

/// Copies bytes over the front of a buffer.
fn copy_into(bytes: &Vec<u8>, buffer: &mut [u8])
    requires
        bytes@.len() <= old(buffer)@.len(),
    ensures
        final(buffer)@ == bytes@ + old(buffer)@.subrange(
            bytes@.len() as int,
            old(buffer)@.len() as int,
        ),
{
    let ghost before = buffer@;
    let mut index: usize = 0;
    while index < bytes.len()
        invariant
            index <= bytes@.len() <= before.len(),
            buffer@ == bytes@.take(index as int) + before.subrange(
                index as int,
                before.len() as int,
            ),
        decreases bytes@.len() - index,
    {
        buffer[index] = bytes[index];
        index = index + 1;
        assert(buffer@ =~= bytes@.take(index as int) + before.subrange(
            index as int,
            before.len() as int,
        ));
    }
    assert(bytes@.take(index as int) =~= bytes@);
}

/// What is read is what was sent: a frame that was published is the next one that is
/// read, byte by byte, and the writer learns that it was read.
pub proof fn frames_arrive_as_sent(channel: ChannelState, frame: Seq<u8>, buffer: Seq<u8>)
    requires
        channel.consistent(),
        channel.send_begins(frame).2,
        frame.len() <= buffer.len(),
    ensures
        ({
            let sent = channel.send_begins(frame).0;
            let (taken, step) = sent.read(buffer.len());
            &&& step == ReadStep::Frame(frame.len() as usize)
            &&& read_into(sent, buffer).subrange(0, frame.len() as int) == frame
            &&& read_into(sent, buffer).len() == buffer.len()
            &&& sent.send_continues().1 == SendStep::Wait { timer: !sent.owned }
            &&& !taken.closed ==> taken.send_continues().1 == SendStep::Done(Ok(()))
        }),
{
    let sent = channel.send_begins(frame).0;
    assert(read_into(sent, buffer).subrange(0, frame.len() as int) =~= frame);
}

/// A frame in flight is never overwritten: until it was read, another send waits and
/// leaves the channel as it is.
pub proof fn frames_are_not_overwritten(channel: ChannelState, frame: Seq<u8>)
    requires
        channel.consistent(),
        channel.queued is Some,
        1 <= frame.len() <= MAX_FRAME,
        !channel.closed,
        !channel.undersized,
    ensures
        channel.send_begins(frame) == (channel, SendStep::Wait { timer: !channel.owned }, false),
{
}

/// A frame of an invalid length is refused, and nothing is published.
pub proof fn invalid_lengths_publish_nothing(channel: ChannelState, frame: Seq<u8>)
    requires
        frame.len() == 0 || frame.len() > MAX_FRAME,
    ensures
        channel.send_begins(frame) == (
            channel,
            SendStep::Done(Err(FrameSendError::InvalidLength)),
            false,
        ),
{
}

/// No channel takes a frame that is longer than an Opus packet, whatever its state.
pub proof fn overlong_frames_are_refused(channel: ChannelState, frame: Seq<u8>)
    requires
        frame.len() >= 1_276,
    ensures
        !channel.send_begins(frame).2,
        channel.send_begins(frame).0 == channel,
        channel.send_begins(frame).1 == SendStep::Done(Err(FrameSendError::InvalidLength)),
{
}

/// A reader with too little room gets nothing, ends the channel, and every send fails.
pub proof fn small_buffers_end_the_channel(
    channel: ChannelState,
    buffer: Seq<u8>,
    frame: Seq<u8>,
    room: nat,
)
    requires
        channel.consistent(),
        !channel.undersized,
        channel.queued is Some,
        channel.queued->0.len() > buffer.len(),
        1 <= frame.len() <= MAX_FRAME,
    ensures
        ({
            let (ended, step) = channel.read(buffer.len());
            &&& step == ReadStep::Ended
            &&& read_into(channel, buffer) == buffer
            &&& ended.send_continues().1 == SendStep::Done(Err(FrameSendError::OutputTooSmall))
            &&& ended.send_begins(frame).1 == SendStep::Done(Err(FrameSendError::OutputTooSmall))
            &&& ended.read(room) == (ended, ReadStep::Ended)
        }),
{
}

/// A writer that is gone ends the channel only after what it published was read; a
/// reader that is gone fails every send.
pub proof fn ends_come_after_frames(channel: ChannelState, room: nat, frame: Seq<u8>)
    requires
        channel.consistent(),
        !channel.undersized,
    ensures
        ({
            let left = ChannelState { ended: true, ..channel };
            &&& channel.queued is Some && channel.queued->0.len() <= room ==> left.read(room).1
                == ReadStep::Frame(channel.queued->0.len() as usize) && left.read(room).0.read(
                room,
            ).1 == ReadStep::Ended
            &&& channel.queued is None ==> left.read(room).1 == ReadStep::Ended
        }),
        ({
            let gone = ChannelState { closed: true, ..channel };
            &&& gone.in_flight ==> gone.send_continues().1 == SendStep::Done(
                Err(FrameSendError::Closed),
            )
            &&& 1 <= frame.len() <= MAX_FRAME ==> gone.send_begins(frame).1 == SendStep::Done(
                Err(FrameSendError::Closed),
            )
        }),
{
}

/// An open channel whose last frame was read takes every frame from one to 1275 bytes; the
/// writer then waits until the frame was read, by itself where the reader does not wake it.
pub proof fn free_channels_take_frames(channel: ChannelState, frame: Seq<u8>)
    requires
        channel.consistent(),
        !channel.closed,
        !channel.undersized,
        channel.queued is None,
        1 <= frame.len() <= 1275,
    ensures
        ({
            let (after, step, published) = channel.send_begins(frame);
            &&& published
            &&& after.queued == Some(frame)
            &&& after.in_flight
            &&& !after.consumed
            &&& step == SendStep::Wait { timer: !channel.owned }
            &&& after.ended == channel.ended
            &&& after.owned == channel.owned
            &&& after.consistent()
        }),
{
}

/// A read empties the channel, tells the writer, and leaves what lies behind the frame in
/// the buffer as it was. Without a frame it is pending until the writer is gone.
pub proof fn reads_take_one_frame(channel: ChannelState, buffer: Seq<u8>)
    requires
        channel.consistent(),
        !channel.undersized,
        buffer.len() <= usize::MAX,
    ensures
        channel.queued matches Some(frame) ==> frame.len() <= buffer.len() ==> {
            let (after, step) = channel.read(buffer.len());
            &&& after.queued is None
            &&& after.consumed
            &&& after.in_flight
            &&& step == ReadStep::Frame(frame.len() as usize)
            &&& read_into(channel, buffer).take(frame.len() as int) == frame
            &&& read_into(channel, buffer).skip(frame.len() as int) == buffer.skip(
                frame.len() as int,
            )
        },
        channel.queued is None ==> {
            &&& channel.read(buffer.len()).0 == channel
            &&& channel.read(buffer.len()).1 is Pending <==> !channel.ended
            &&& channel.read(buffer.len()).1 is Ended <==> channel.ended
            &&& read_into(channel, buffer) == buffer
        },
{
    if let Some(frame) = channel.queued {
        if frame.len() <= buffer.len() {
            assert(read_into(channel, buffer).take(frame.len() as int) =~= frame);
            assert(read_into(channel, buffer).skip(frame.len() as int) =~= buffer.skip(
                frame.len() as int,
            ));
        }
    }
}

/// A new channel is open and holds nothing: a read waits, and a frame is taken at once. The
/// reader does not wake the writer until it says so.
pub proof fn new_channels_are_open(frame: Seq<u8>, room: nat)
    requires
        1 <= frame.len() <= 1275,
    ensures
        ChannelState::fresh().consistent(),
        ChannelState::fresh().failure() is None,
        ChannelState::fresh().read(room).1 is Pending,
        ChannelState::fresh().send_begins(frame).2,
        ChannelState::fresh().send_begins(frame).1 == (SendStep::Wait { timer: true }),
        ChannelState::fresh().send_begins(frame).0.queued == Some(frame),
{
}

/// A frame that was read frees the channel for the next one, once the writer took note of it;
/// until it is read the writer waits.
pub proof fn read_frames_free_the_channel(channel: ChannelState)
    requires
        channel.consistent(),
        channel.in_flight,
        !channel.closed,
        !channel.undersized,
    ensures
        channel.consumed ==> {
            let (after, step) = channel.send_continues();
            &&& step == SendStep::Done(Ok(()))
            &&& !after.in_flight
            &&& !after.consumed
            &&& after.queued is None
        },
        !channel.consumed ==> channel.send_continues() == (
            channel,
            SendStep::Wait { timer: !channel.owned },
        ),
{
}

} // verus!
