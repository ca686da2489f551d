//! A bounded record of packets.
use vstd::prelude::*;
use vstd::string::*;

use crate::wire::copy_bytes;

verus! {

/// A packet, when it came, and from whom.
#[derive(Debug, PartialEq, Eq)]
pub struct PacketRecord {
    pub at: u128,
    pub peer: String,
    pub bytes: Vec<u8>,
}

/// The mathematical form of a [`PacketRecord`].
pub ghost struct RecordForm {
    pub at: u128,
    pub peer: Seq<char>,
    pub bytes: Seq<u8>,
}

impl View for PacketRecord {
    type V = RecordForm;

    open spec fn view(&self) -> RecordForm {
        RecordForm { at: self.at, peer: self.peer@, bytes: self.bytes@ }
    }
}

impl PacketRecord {
    /// Copies the record.
    pub fn duplicate(&self) -> (copied: PacketRecord)
        ensures
            copied@ == self@,
    {
        PacketRecord {
            at: self.at,
            peer: self.peer.as_str().to_owned(),
            bytes: copy_bytes(self.bytes.as_slice()),
        }
    }
}

/// The records of a row.
pub open spec fn records(rows: Seq<PacketRecord>) -> Seq<RecordForm> {
    Seq::new(rows.len(), |i: int| rows[i]@)
}

/// Records packets up to a bound.
#[derive(Debug)]
pub struct PacketCapture {
    records: Vec<PacketRecord>,
    capacity: usize,
    max_packet_bytes: usize,
}

/// The mathematical form of a [`PacketCapture`].
#[verifier::ext_equal]
pub ghost struct CaptureState {
    pub records: Seq<RecordForm>,
    pub capacity: usize,
    pub max_packet_bytes: usize,
}

impl View for PacketCapture {
    type V = CaptureState;

    closed spec fn view(&self) -> CaptureState {
        CaptureState {
            records: records(self.records@),
            capacity: self.capacity,
            max_packet_bytes: self.max_packet_bytes,
        }
    }
}

/// Why a record was refused.
#[derive(Clone, Copy, Debug, PartialEq, Eq, Structural)]
pub enum CaptureError {
    /// A bound is zero.
    InvalidCapacity,
    /// No further record fits.
    Full { capacity: usize },
    /// The packet is longer than the bound.
    PacketTooLarge { actual: usize, maximum: usize },
}

impl CaptureState {
    /// Why a packet of this length is refused.
    pub open spec fn failure(self, length: nat) -> Option<CaptureError> {
        if length > self.max_packet_bytes {
            Some(
                CaptureError::PacketTooLarge {
                    actual: length as usize,
                    maximum: self.max_packet_bytes,
                },
            )
        } else if self.records.len() == self.capacity {
            Some(CaptureError::Full { capacity: self.capacity })
        } else {
            None
        }
    }
}

impl PacketCapture {
    /// Creates a capture with bounds on its records and packets.
    pub fn new(capacity: usize, max_packet_bytes: usize) -> (capture: Result<Self, CaptureError>)
        ensures
            match capture {
                Ok(capture) => {
                    &&& capacity > 0
                    &&& max_packet_bytes > 0
                    &&& capture@ == (CaptureState {
                        records: Seq::empty(),
                        capacity,
                        max_packet_bytes,
                    })
                },
                Err(failure) => {
                    &&& capacity == 0 || max_packet_bytes == 0
                    &&& failure == CaptureError::InvalidCapacity
                },
            },
    {
        if capacity == 0 || max_packet_bytes == 0 {
            return Err(CaptureError::InvalidCapacity);
        }
        let capture = PacketCapture { records: Vec::new(), capacity, max_packet_bytes };
        assert(capture@.records =~= Seq::<RecordForm>::empty());
        Ok(capture)
    }

    /// Records a packet. What is refused takes no room.
    pub fn record(&mut self, record: PacketRecord) -> (recorded: Result<(), CaptureError>)
        ensures
            match recorded {
                Ok(()) => {
                    &&& old(self)@.failure(record@.bytes.len()) is None
                    &&& final(self)@ == (CaptureState {
                        records: old(self)@.records.push(record@),
                        ..old(self)@
                    })
                },
                Err(failure) => {
                    &&& old(self)@.failure(record@.bytes.len()) == Some(failure)
                    &&& final(self)@ == old(self)@
                },
            },
    {
        if record.bytes.len() > self.max_packet_bytes {
            return Err(
                CaptureError::PacketTooLarge {
                    actual: record.bytes.len(),
                    maximum: self.max_packet_bytes,
                },
            );
        }
        if self.records.len() == self.capacity {
            return Err(CaptureError::Full { capacity: self.capacity });
        }
        self.records.push(record);
        assert(self@.records =~= old(self)@.records.push(record@));
        Ok(())
    }

    /// Returns copies of the records.
    pub fn snapshot(&self) -> (copied: Vec<PacketRecord>)
        ensures
            records(copied@) == self@.records,
    {
        let mut copied: Vec<PacketRecord> = Vec::new();
        let mut index: usize = 0;
        while index < self.records.len()
            invariant
                index <= self.records@.len(),
                copied@.len() == index,
                forall|i: int| 0 <= i < index ==> (#[trigger] copied@[i])@ == self.records@[i]@,
            decreases self.records@.len() - index,
        {
            copied.push(self.records[index].duplicate());
            index = index + 1;
        }
        assert(records(copied@) =~= records(self.records@));
        copied
    }

    /// Takes the records out.
    pub fn drain(&mut self) -> (taken: Vec<PacketRecord>)
        ensures
            records(taken@) == old(self)@.records,
            final(self)@ == (CaptureState { records: Seq::empty(), ..old(self)@ }),
    {
        let mut taken: Vec<PacketRecord> = Vec::new();
        taken.append(&mut self.records);
        assert(records(taken@) =~= old(self)@.records);
        assert(self@.records =~= Seq::<RecordForm>::empty());
        taken
    }

    /// Returns how many records there are.
    pub fn len(&self) -> (len: usize)
        ensures
            len == self@.records.len(),
    {
        self.records.len()
    }

    /// Returns whether there is no record.
    pub fn is_empty(&self) -> (empty: bool)
        ensures
            empty == (self@.records.len() == 0),
    {
        self.records.len() == 0
    }

    /// Returns the bound on the length of a packet.
    pub fn max_packet_bytes(&self) -> (bytes: usize)
        ensures
            bytes == self@.max_packet_bytes,
    {
        self.max_packet_bytes
    }

    /// Returns the bytes of a record, if it exists.
    pub fn packet(&self, index: usize) -> (bytes: Option<&Vec<u8>>)
        ensures
            match bytes {
                Some(bytes) => index < self@.records.len() && bytes@ == self@.records[index as int].bytes,
                None => index >= self@.records.len(),
            },
    {
        if index < self.records.len() {
            Some(&self.records[index].bytes)
        } else {
            None
        }
    }
}

/// A packet is recorded exactly where it is within the bound and there is room. One beyond
/// the bound is told by its length, even where there is no room either.
pub proof fn packets_are_recorded_while_there_is_room(state: CaptureState, length: nat)
    requires
        length <= usize::MAX,
    ensures
        state.failure(length) is None <==> length <= state.max_packet_bytes && state.records.len()
            != state.capacity,
        length > state.max_packet_bytes ==> (state.failure(length) matches Some(
            CaptureError::PacketTooLarge { actual, maximum },
        ) && actual == length && maximum == state.max_packet_bytes),
        length <= state.max_packet_bytes && state.records.len() == state.capacity
            ==> state.failure(length) == Some(CaptureError::Full { capacity: state.capacity }),
{
}

} // verus!
