//! Bounded evidence of what was sent: headers and times, never payloads or keys.
use vstd::prelude::*;

use crate::wire::{read_be16, read_be32};

verus! {

/// One packet that was handed to the network.
#[derive(Clone, Copy, Debug, PartialEq, Eq, Structural)]
pub struct SendRecord {
    /// The number of the record, counting those that found no room.
    pub index: u64,
    /// The time of the send since the trace began, in microseconds.
    pub elapsed_micros: u64,
    /// The generation of the connection.
    pub connection_generation: u64,
    /// The generation of the source.
    pub source_generation: u64,
    /// The synchronization source of the header.
    pub ssrc: u32,
    /// The timestamp of the header.
    pub timestamp: u32,
    /// The sequence number of the header.
    pub sequence: u16,
    /// Whether the packet carried silence.
    pub silence: bool,
}

/// What a queue of records holds, oldest first, seen through its two ends.
pub uninterp spec fn queued_records(
    producer: rtrb::Producer<SendRecord>,
    consumer: rtrb::Consumer<SendRecord>,
) -> Seq<SendRecord>;

/// How many records a queue has room for, if the two ends are those of one queue.
pub uninterp spec fn record_room(
    producer: rtrb::Producer<SendRecord>,
    consumer: rtrb::Consumer<SendRecord>,
) -> Option<nat>;

/// Whether memory can be addressed for this many records, of at most sixty-four bytes
/// each.
pub open spec fn addressable(capacity: usize) -> bool {
    capacity * 64 <= isize::MAX
}

/// Creates a queue of records with `rtrb::RingBuffer::new`.
///
/// Claimed of the crate: the two ends belong to one empty queue with this room. The
/// bound keeps the allocation within what `new` accepts; it panics beyond.
#[verifier::external_body]
fn new_record_queue(capacity: usize) -> (ends: (
    rtrb::Producer<SendRecord>,
    rtrb::Consumer<SendRecord>,
))
    requires
        addressable(capacity),
    ensures
        record_room(ends.0, ends.1) == Some(capacity as nat),
        queued_records(ends.0, ends.1) == Seq::<SendRecord>::empty(),
{
    rtrb::RingBuffer::new(capacity)
}

/// Appends a record with `rtrb::Producer::push`.
///
/// Claimed of the crate: where the queue has room the record becomes its newest item;
/// where it is full nothing changes. The queue keeps its room.
#[verifier::external_body]
fn push_record(
    producer: &mut rtrb::Producer<SendRecord>,
    consumer: &mut rtrb::Consumer<SendRecord>,
    record: SendRecord,
) -> (pushed: bool)
    requires
        record_room(*old(producer), *old(consumer)) is Some,
    ensures
        pushed == crate::ring::has_room(
            record_room(*old(producer), *old(consumer)),
            queued_records(*old(producer), *old(consumer)).len(),
        ),
        record_room(*final(producer), *final(consumer)) == record_room(
            *old(producer),
            *old(consumer),
        ),
        queued_records(*final(producer), *final(consumer)) == (if pushed {
            queued_records(*old(producer), *old(consumer)).push(record)
        } else {
            queued_records(*old(producer), *old(consumer))
        }),
{
    producer.push(record).is_ok()
}

/// Takes the oldest record with `rtrb::Consumer::pop`.
///
/// Claimed of the crate: the oldest item leaves the queue and is returned; an empty
/// queue returns none and stays as it is. The queue keeps its room.
#[verifier::external_body]
fn pop_record(
    producer: &mut rtrb::Producer<SendRecord>,
    consumer: &mut rtrb::Consumer<SendRecord>,
) -> (popped: Option<SendRecord>)
    requires
        record_room(*old(producer), *old(consumer)) is Some,
    ensures
        record_room(*final(producer), *final(consumer)) == record_room(
            *old(producer),
            *old(consumer),
        ),
        match popped {
            Some(record) => {
                &&& queued_records(*old(producer), *old(consumer)).len() > 0
                &&& record == queued_records(*old(producer), *old(consumer))[0]
                &&& queued_records(*final(producer), *final(consumer)) == queued_records(
                    *old(producer),
                    *old(consumer),
                ).skip(1)
            },
            None => {
                &&& queued_records(*old(producer), *old(consumer)).len() == 0
                &&& queued_records(*final(producer), *final(consumer)).len() == 0
            },
        },
{
    consumer.pop().ok()
}

/// A bounded trace of what was sent.
pub struct SendTrace {
    producer: rtrb::Producer<SendRecord>,
    consumer: rtrb::Consumer<SendRecord>,
    started: u64,
    index: u64,
    dropped: u64,
    abandoned: bool,
}

/// The mathematical form of a [`SendTrace`].
#[verifier::ext_equal]
pub ghost struct TraceState {
    pub records: Seq<SendRecord>,
    pub room: nat,
    /// When the trace began, in nanoseconds.
    pub started: u64,
    /// The number of the latest record.
    pub index: u64,
    /// How many records found no room.
    pub dropped: u64,
    /// Whether nobody reads the trace any more.
    pub abandoned: bool,
}

impl View for SendTrace {
    type V = TraceState;

    closed spec fn view(&self) -> TraceState {
        TraceState {
            records: queued_records(self.producer, self.consumer),
            room: record_room(self.producer, self.consumer)->0,
            started: self.started,
            index: self.index,
            dropped: self.dropped,
            abandoned: self.abandoned,
        }
    }
}

impl TraceState {
    /// The record of a packet with this header.
    pub open spec fn record_of(
        self,
        now: u64,
        header: Seq<u8>,
        connection: u64,
        source: u64,
        silence: bool,
    ) -> SendRecord {
        SendRecord {
            index: crate::model::counted(self.index),
            elapsed_micros: crate::gateway::backoff::elapsed(self.started, now) / 1000,
            connection_generation: connection,
            source_generation: source,
            ssrc: crate::wire::be32_value(header[8], header[9], header[10], header[11]),
            timestamp: crate::wire::be32_value(header[4], header[5], header[6], header[7]),
            sequence: crate::wire::be16_value(header[2], header[3]),
            silence,
        }
    }

    /// The trace with one more record, which may have found no room.
    pub open spec fn recorded(self, record: SendRecord) -> TraceState {
        if self.abandoned {
            self
        } else if self.records.len() < self.room {
            TraceState { index: record.index, records: self.records.push(record), ..self }
        } else {
            TraceState {
                index: record.index,
                dropped: self.dropped.wrapping_add(1),
                ..self
            }
        }
    }
}

/// Creates a trace with room for some records, which begins at an instant.
pub fn pair(capacity: usize, started: u64) -> (trace: SendTrace)
    requires
        addressable(capacity),
    ensures
        trace.well_formed(),
        trace@ == (TraceState {
            records: Seq::empty(),
            room: capacity as nat,
            started,
            index: 0,
            dropped: 0,
            abandoned: false,
        }),
{
    let (producer, consumer) = new_record_queue(capacity);
    SendTrace { producer, consumer, started, index: 0, dropped: 0, abandoned: false }
}

impl SendTrace {
    /// The ends belong to one queue.
    pub closed spec fn well_formed(self) -> bool {
        record_room(self.producer, self.consumer) is Some
    }

    /// Records a packet, whose header is the first twelve bytes of what was sent. The
    /// result says whether anybody reads the trace.
    pub fn record(
        &mut self,
        now: u64,
        header: &[u8],
        connection: u64,
        source: u64,
        silence: bool,
    ) -> (read: bool)
        requires
            old(self).well_formed(),
            header@.len() >= 12,
        ensures
            final(self).well_formed(),
            read == !old(self)@.abandoned,
            final(self)@ == old(self)@.recorded(
                old(self)@.record_of(now, header@, connection, source, silence),
            ),
    {
        if self.abandoned {
            return false;
        }
        self.index = self.index.saturating_add(1);
        let record = SendRecord {
            index: self.index,
            elapsed_micros: now.saturating_sub(self.started) / 1000,
            connection_generation: connection,
            source_generation: source,
            ssrc: read_be32(header[8], header[9], header[10], header[11]),
            timestamp: read_be32(header[4], header[5], header[6], header[7]),
            sequence: read_be16(header[2], header[3]),
            silence,
        };
        if !push_record(&mut self.producer, &mut self.consumer, record) {
            self.dropped = self.dropped.wrapping_add(1);
        }
        true
    }

    /// Removes the oldest record, if there is one.
    pub fn pop(&mut self) -> (record: Option<SendRecord>)
        requires
            old(self).well_formed(),
        ensures
            final(self).well_formed(),
            match record {
                Some(record) => {
                    &&& old(self)@.records.len() > 0
                    &&& record == old(self)@.records[0]
                    &&& final(self)@ == (TraceState {
                        records: old(self)@.records.skip(1),
                        ..old(self)@
                    })
                },
                None => old(self)@.records.len() == 0 && final(self)@ == old(self)@,
            },
    {
        let record = pop_record(&mut self.producer, &mut self.consumer);
        proof {
            if record is None {
                assert(self@.records =~= old(self)@.records);
            }
        }
        record
    }

    /// Returns how many records found no room.
    pub fn dropped(&self) -> (dropped: u64)
        ensures
            dropped == self@.dropped,
    {
        self.dropped
    }

    /// Lets the reader of the trace go: nothing is recorded any more.
    pub fn abandon(&mut self)
        requires
            old(self).well_formed(),
        ensures
            final(self).well_formed(),
            final(self)@ == (TraceState { abandoned: true, ..old(self)@ }),
    {
        self.abandoned = true;
    }
}

/// A record that found no room leaves a gap in the numbers: the number of the latest
/// record counts every packet, kept or not.
pub proof fn missing_records_show(state: TraceState, record: SendRecord)
    requires
        !state.abandoned,
        state.index < u64::MAX,
        state.dropped < u64::MAX,
        record.index == crate::model::counted(state.index),
    ensures
        state.recorded(record).index == state.index + 1,
        state.recorded(record).records.len() + state.recorded(record).dropped
            == state.records.len() + state.dropped + 1,
        state.records.len() <= state.room ==> state.recorded(record).records.len() <= state.room,
{
}

/// A record names the stream, the clock and the sequence number of the packet that was sent,
/// the generations and the silence that were told, and the whole microseconds since the
/// trace began.
pub proof fn records_name_their_packet(
    state: TraceState,
    now: u64,
    mode: crate::rtp::TransportMode,
    key: Seq<u8>,
    fields: crate::rtp::PacketFields,
    connection: u64,
    source: u64,
    silence: bool,
)
    requires
        state.started <= now,
        state.index < u64::MAX,
    ensures
        ({
            let record = state.record_of(
                now,
                crate::rtp::rtp_packet(mode, key, fields),
                connection,
                source,
                silence,
            );
            &&& record.sequence == fields.sequence
            &&& record.timestamp == fields.timestamp
            &&& record.ssrc == fields.ssrc
            &&& record.connection_generation == connection
            &&& record.source_generation == source
            &&& record.silence == silence
            &&& record.index == state.index + 1
            &&& record.elapsed_micros * 1000 <= now - state.started
            &&& now - state.started < (record.elapsed_micros + 1) * 1000
        }),
{
    crate::rtp::packets_are_laid_out_for_rtp(mode, key, fields);
}

/// While there is room the newest record is the last one and the earlier ones stay as they
/// are. A full trace keeps what it has and counts the loss, and one that nobody reads takes
/// nothing.
pub proof fn full_traces_keep_what_they_have(state: TraceState, record: SendRecord)
    ensures
        !state.abandoned && state.records.len() < state.room ==> {
            &&& state.recorded(record).records == state.records.push(record)
            &&& state.recorded(record).dropped == state.dropped
        },
        !state.abandoned && state.records.len() >= state.room ==> {
            &&& state.recorded(record).records == state.records
            &&& state.dropped < u64::MAX ==> state.recorded(record).dropped == state.dropped + 1
        },
        state.abandoned ==> state.recorded(record) == state,
{
}

} // verus!
