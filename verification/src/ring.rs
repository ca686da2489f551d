//! The two ends of a bounded queue of `rtrb`, held together.
//!
//! An operation on one end changes what the other end sees, so every operation takes
//! both ends.
use vstd::prelude::*;

verus! {

/// The writing end of a queue.
#[verifier::external_type_specification]
#[verifier::external_body]
#[verifier::reject_recursive_types(T)]
pub struct ExProducer<T>(rtrb::Producer<T>);

/// The reading end of a queue.
#[verifier::external_type_specification]
#[verifier::external_body]
#[verifier::reject_recursive_types(T)]
pub struct ExConsumer<T>(rtrb::Consumer<T>);

/// What a queue of frames holds, oldest first, seen through its two ends.
pub uninterp spec fn queued_frames(
    producer: rtrb::Producer<Vec<u8>>,
    consumer: rtrb::Consumer<Vec<u8>>,
) -> Seq<Vec<u8>>;

/// How many frames a queue has room for, if the two ends are those of one queue.
pub uninterp spec fn frame_room(
    producer: rtrb::Producer<Vec<u8>>,
    consumer: rtrb::Consumer<Vec<u8>>,
) -> Option<nat>;

/// Creates a queue of frames with `rtrb::RingBuffer::new`.
///
/// Claimed of the crate: the two ends belong to one empty queue with this room. The
/// bound keeps the allocation within what `new` accepts.
#[verifier::external_body]
pub(crate) fn new_frame_queue(capacity: usize) -> (ends: (
    rtrb::Producer<Vec<u8>>,
    rtrb::Consumer<Vec<u8>>,
))
    requires
        capacity <= 0x10_0000,
    ensures
        frame_room(ends.0, ends.1) == Some(capacity as nat),
        queued_frames(ends.0, ends.1) == Seq::<Vec<u8>>::empty(),
{
    rtrb::RingBuffer::new(capacity)
}

/// Whether a queue with this room takes one item more than it holds.
pub open spec fn has_room(room: Option<nat>, held: nat) -> bool {
    room matches Some(room) && held < room
}

/// Appends a frame with `rtrb::Producer::push`.
///
/// Claimed of the crate: where the queue has room the frame becomes its newest item;
/// where it is full nothing changes. The queue keeps its room.
#[verifier::external_body]
pub(crate) fn push_frame(
    producer: &mut rtrb::Producer<Vec<u8>>,
    consumer: &mut rtrb::Consumer<Vec<u8>>,
    frame: Vec<u8>,
) -> (pushed: bool)
    requires
        frame_room(*old(producer), *old(consumer)) is Some,
    ensures
        pushed == has_room(
            frame_room(*old(producer), *old(consumer)),
            queued_frames(*old(producer), *old(consumer)).len(),
        ),
        frame_room(*final(producer), *final(consumer)) == frame_room(
            *old(producer),
            *old(consumer),
        ),
        queued_frames(*final(producer), *final(consumer)) == (if pushed {
            queued_frames(*old(producer), *old(consumer)).push(frame)
        } else {
            queued_frames(*old(producer), *old(consumer))
        }),
{
    producer.push(frame).is_ok()
}

/// Takes the oldest frame with `rtrb::Consumer::pop`.
///
/// Claimed of the crate: the oldest item leaves the queue and is returned; an empty
/// queue returns none and stays as it is. The queue keeps its room.
#[verifier::external_body]
pub(crate) fn pop_frame(
    producer: &mut rtrb::Producer<Vec<u8>>,
    consumer: &mut rtrb::Consumer<Vec<u8>>,
) -> (popped: Option<Vec<u8>>)
    requires
        frame_room(*old(producer), *old(consumer)) is Some,
    ensures
        frame_room(*final(producer), *final(consumer)) == frame_room(
            *old(producer),
            *old(consumer),
        ),
        match popped {
            Some(frame) => {
                &&& queued_frames(*old(producer), *old(consumer)).len() > 0
                &&& frame == queued_frames(*old(producer), *old(consumer))[0]
                &&& queued_frames(*final(producer), *final(consumer)) == queued_frames(
                    *old(producer),
                    *old(consumer),
                ).skip(1)
            },
            None => {
                &&& queued_frames(*old(producer), *old(consumer)).len() == 0
                &&& queued_frames(*final(producer), *final(consumer)).len() == 0
            },
        },
{
    consumer.pop().ok()
}

} // verus!
