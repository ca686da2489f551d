//! A source of numbers that hands out a fixed list.
use std::collections::VecDeque;
use vstd::prelude::*;

verus! {

/// Hands out the numbers of a list, in order, and then none.
#[derive(Debug)]
pub struct DeterministicRng {
    values: VecDeque<u64>,
    capacity: usize,
}

/// Why a list could not be made, or a number not be had.
#[derive(Clone, Copy, Debug, PartialEq, Eq, Structural)]
pub enum DeterministicRngError {
    /// The capacity is zero.
    ZeroCapacity,
    /// The list is longer than the capacity.
    TooManyValues { provided: usize, capacity: usize },
    /// The list is used up.
    Exhausted,
}

/// How many numbers fill some bytes, eight by eight.
pub open spec fn numbers_for(bytes: nat) -> nat {
    (bytes + 7) / 8
}

/// A byte of a number, the least significant one first.
pub open spec fn little_endian_byte(value: u64, index: int) -> u8 {
    ((value as int / power_256(index)) % 256) as u8
}

/// A power of 256 with an exponent below eight.
pub open spec fn power_256(exponent: int) -> int {
    if exponent == 0 {
        1
    } else if exponent == 1 {
        0x100
    } else if exponent == 2 {
        0x1_0000
    } else if exponent == 3 {
        0x100_0000
    } else if exponent == 4 {
        0x1_0000_0000
    } else if exponent == 5 {
        0x100_0000_0000
    } else if exponent == 6 {
        0x1_0000_0000_0000
    } else {
        0x100_0000_0000_0000
    }
}

/// The bytes that a list of numbers fills a buffer with; what the list does not reach
/// stays.
pub open spec fn filled(values: Seq<u64>, buffer: Seq<u8>) -> Seq<u8> {
    Seq::new(
        buffer.len(),
        |i: int|
            if i / 8 < values.len() {
                little_endian_byte(values[i / 8], i % 8)
            } else {
                buffer[i]
            },
    )
}

fn byte_of(value: u64, index: usize) -> (byte: u8)
    requires
        index < 8,
    ensures
        byte == little_endian_byte(value, index as int),
{
    let power: u64 = if index == 0 {
        1
    } else if index == 1 {
        0x100
    } else if index == 2 {
        0x1_0000
    } else if index == 3 {
        0x100_0000
    } else if index == 4 {
        0x1_0000_0000
    } else if index == 5 {
        0x100_0000_0000
    } else if index == 6 {
        0x1_0000_0000_0000
    } else {
        0x100_0000_0000_0000
    };
    ((value / power) % 256) as u8
}

impl DeterministicRng {
    /// The numbers that are left.
    pub closed spec fn left(self) -> Seq<u64> {
        self.values@
    }

    /// The bound that the list was made with.
    pub closed spec fn bound(self) -> usize {
        self.capacity
    }

    /// Creates a source from a list within a capacity.
    pub fn new(values: Vec<u64>, capacity: usize) -> (rng: Result<Self, DeterministicRngError>)
        ensures
            match rng {
                Ok(rng) => {
                    &&& 0 < capacity
                    &&& values@.len() <= capacity
                    &&& rng.left() == values@
                    &&& rng.bound() == capacity
                },
                Err(DeterministicRngError::ZeroCapacity) => capacity == 0,
                Err(DeterministicRngError::TooManyValues { provided, capacity: bound }) => {
                    &&& 0 < capacity < values@.len()
                    &&& provided == values@.len()
                    &&& bound == capacity
                },
                Err(DeterministicRngError::Exhausted) => false,
            },
    {
        if capacity == 0 {
            return Err(DeterministicRngError::ZeroCapacity);
        }
        if values.len() > capacity {
            return Err(DeterministicRngError::TooManyValues { provided: values.len(), capacity });
        }
        let mut queue: VecDeque<u64> = VecDeque::new();
        let mut index: usize = 0;
        while index < values.len()
            invariant
                index <= values@.len(),
                queue@ == values@.take(index as int),
            decreases values@.len() - index,
        {
            queue.push_back(values[index]);
            index = index + 1;
            assert(values@.take(index as int) =~= values@.take(index - 1).push(values@[index - 1]));
        }
        assert(values@.take(index as int) =~= values@);
        Ok(DeterministicRng { values: queue, capacity })
    }

    /// Returns how many numbers are left.
    pub fn remaining(&self) -> (remaining: usize)
        ensures
            remaining == self.left().len(),
    {
        self.values.len()
    }

    /// Returns the bound that the list was made with.
    pub fn capacity(&self) -> (capacity: usize)
        ensures
            capacity == self.bound(),
    {
        self.capacity
    }

    /// Hands out the next number.
    pub fn next_u64(&mut self) -> (value: Result<u64, DeterministicRngError>)
        ensures
            final(self).bound() == old(self).bound(),
            if old(self).left().len() == 0 {
                &&& value == Err::<u64, DeterministicRngError>(DeterministicRngError::Exhausted)
                &&& final(self).left() == old(self).left()
            } else {
                &&& value == Ok::<u64, DeterministicRngError>(old(self).left()[0])
                &&& final(self).left() == old(self).left().skip(1)
            },
    {
        match self.values.pop_front() {
            Some(value) => {
                assert(self.values@ =~= old(self).values@.skip(1));
                Ok(value)
            },
            None => Err(DeterministicRngError::Exhausted),
        }
    }

    /// Hands out the low half of the next number.
    pub fn next_u32(&mut self) -> (value: Result<u32, DeterministicRngError>)
        ensures
            final(self).bound() == old(self).bound(),
            if old(self).left().len() == 0 {
                &&& value == Err::<u32, DeterministicRngError>(DeterministicRngError::Exhausted)
                &&& final(self).left() == old(self).left()
            } else {
                &&& value == Ok::<u32, DeterministicRngError>(
                    (old(self).left()[0] % 0x1_0000_0000) as u32,
                )
                &&& final(self).left() == old(self).left().skip(1)
            },
    {
        match self.next_u64() {
            Ok(value) => Ok((value % 0x1_0000_0000) as u32),
            Err(failure) => Err(failure),
        }
    }

    /// Fills bytes with numbers, eight bytes with each, the least significant one first.
    /// The last number may be used in part. A list that is used up leaves the rest of
    /// the bytes.
    pub fn fill_bytes(&mut self, output: &mut [u8]) -> (result: Result<(), DeterministicRngError>)
        ensures
            final(self).bound() == old(self).bound(),
            final(output)@ == filled(old(self).left(), old(output)@),
            if numbers_for(old(output)@.len()) <= old(self).left().len() {
                &&& result is Ok
                &&& final(self).left() == old(self).left().skip(
                    numbers_for(old(output)@.len()) as int,
                )
            } else {
                &&& result == Err::<(), DeterministicRngError>(DeterministicRngError::Exhausted)
                &&& final(self).left().len() == 0
            },
    {
        let ghost values = self.left();
        let ghost before = output@;
        let mut index: usize = 0;
        let mut current: u64 = 0;
        while index < output.len()
            invariant
                index <= output@.len(),
                output@.len() == before.len(),
                self.bound() == old(self).bound(),
                values == old(self).left(),
                before == old(output)@,
                numbers_for(index as nat) <= values.len(),
                self.left() == values.skip(numbers_for(index as nat) as int),
                index % 8 != 0 ==> current == values[index as int / 8],
                forall|i: int|
                    0 <= i < index ==> i / 8 < values.len() && output@[i] == little_endian_byte(
                        #[trigger] values[i / 8],
                        i % 8,
                    ),
                forall|i: int| index <= i < before.len() ==> output@[i] == #[trigger] before[i],
            decreases output@.len() - index,
        {
            if index % 8 == 0 {
                assert(numbers_for(index as nat) == index / 8);
                match self.next_u64() {
                    Ok(value) => {
                        current = value;
                        assert(self.left() =~= values.skip(index as int / 8 + 1));
                    },
                    Err(failure) => {
                        assert(output@ =~= filled(values, before));
                        return Err(failure);
                    },
                }
            }
            assert(numbers_for((index + 1) as nat) == index / 8 + 1);
            output[index] = byte_of(current, index % 8);
            index = index + 1;
        }
        assert(output@ =~= filled(values, before));
        Ok(())
    }
}

/// The eight bytes of a number weigh by their place, from the least significant one on,
/// and add up to the number.
pub proof fn bytes_add_up_to_their_number(value: u64)
    ensures
        little_endian_byte(value, 0) + little_endian_byte(value, 1) * 0x100 + little_endian_byte(
            value,
            2,
        ) * 0x1_0000 + little_endian_byte(value, 3) * 0x100_0000 + little_endian_byte(value, 4)
            * 0x1_0000_0000 + little_endian_byte(value, 5) * 0x100_0000_0000 + little_endian_byte(
            value,
            6,
        ) * 0x1_0000_0000_0000 + little_endian_byte(value, 7) * 0x100_0000_0000_0000 == value,
{
    let v = value as int;
    assert((v / 0x100) == 0x100 * (v / 0x1_0000) + (v / 0x100) % 0x100);
    assert((v / 0x1_0000) == 0x100 * (v / 0x100_0000) + (v / 0x1_0000) % 0x100);
    assert((v / 0x100_0000) == 0x100 * (v / 0x1_0000_0000) + (v / 0x100_0000) % 0x100);
    assert((v / 0x1_0000_0000) == 0x100 * (v / 0x100_0000_0000) + (v / 0x1_0000_0000) % 0x100);
    assert((v / 0x100_0000_0000) == 0x100 * (v / 0x1_0000_0000_0000) + (v / 0x100_0000_0000)
        % 0x100);
    assert((v / 0x1_0000_0000_0000) == 0x100 * (v / 0x100_0000_0000_0000) + (v
        / 0x1_0000_0000_0000) % 0x100);
    assert(v / 0x100_0000_0000_0000 < 0x100);
}

/// Each number fills eight bytes in turn. As many numbers are used as the bytes need, and
/// bytes that no number reaches stay as they are.
pub proof fn numbers_fill_eight_bytes_each(
    values: Seq<u64>,
    buffer: Seq<u8>,
    number: int,
    place: int,
)
    ensures
        filled(values, buffer).len() == buffer.len(),
        0 <= number < values.len() && 0 <= place < 8 && 8 * number + place < buffer.len()
            ==> filled(values, buffer)[8 * number + place] == little_endian_byte(
            values[number],
            place,
        ),
        forall|i: int|
            8 * values.len() <= i < buffer.len() ==> filled(values, buffer)[i] == buffer[i],
        8 * numbers_for(buffer.len()) >= buffer.len(),
        8 * numbers_for(buffer.len()) < buffer.len() + 8,
{
    if 0 <= number < values.len() && 0 <= place < 8 && 8 * number + place < buffer.len() {
        assert((8 * number + place) / 8 == number);
        assert((8 * number + place) % 8 == place);
    }
}

} // verus!
