//! A clock that a test moves by hand. Instants and spans are nanoseconds.
use vstd::prelude::*;

verus! {

/// The longest span: 2^64 seconds, less a nanosecond.
pub const MAX_SPAN: u128 = 18_446_744_073_709_551_615_999_999_999;

/// A clock that stands still until it is moved, and only moves on.
#[derive(Debug)]
pub struct ManualClock {
    now: u128,
}

/// Why the clock did not move, or does not any more.
#[derive(Clone, Copy, Debug, PartialEq, Eq, Structural)]
pub enum ManualClockError {
    /// The clock would have moved back.
    WentBackwards { current: u128, requested: u128 },
    /// The clock would have moved beyond its range.
    Overflow,
    /// The clock is gone.
    Closed,
}

impl ManualClock {
    /// What the clock shows.
    pub closed spec fn shown(self) -> u128 {
        self.now
    }

    /// Creates a clock.
    pub fn new(start: u128) -> (clock: Self)
        ensures
            clock.shown() == start,
    {
        ManualClock { now: start }
    }

    /// Returns what the clock shows.
    pub fn now(&self) -> (now: u128)
        ensures
            now == self.shown(),
    {
        self.now
    }

    /// Moves the clock on by a span.
    pub fn advance(&mut self, delta: u128) -> (moved: Result<u128, ManualClockError>)
        ensures
            if old(self).shown() + delta <= MAX_SPAN {
                &&& moved == Ok::<u128, ManualClockError>((old(self).shown() + delta) as u128)
                &&& final(self).shown() == old(self).shown() + delta
            } else {
                &&& moved == Err::<u128, ManualClockError>(ManualClockError::Overflow)
                &&& final(self).shown() == old(self).shown()
            },
    {
        match self.now.checked_add(delta) {
            Some(requested) => {
                if requested > MAX_SPAN {
                    return Err(ManualClockError::Overflow);
                }
                self.now = requested;
                Ok(requested)
            },
            None => Err(ManualClockError::Overflow),
        }
    }

    /// Moves the clock to an instant, which must not lie behind.
    pub fn set(&mut self, requested: u128) -> (moved: Result<(), ManualClockError>)
        ensures
            if requested < old(self).shown() {
                &&& moved == Err::<(), ManualClockError>(
                    ManualClockError::WentBackwards { current: old(self).shown(), requested },
                )
                &&& final(self).shown() == old(self).shown()
            } else {
                &&& moved is Ok
                &&& final(self).shown() == requested
            },
    {
        if requested < self.now {
            return Err(ManualClockError::WentBackwards { current: self.now, requested });
        }
        self.now = requested;
        Ok(())
    }

    /// Returns whether a sleep until an instant is over.
    pub fn reached(&self, deadline: u128) -> (reached: bool)
        ensures
            reached == (self.shown() >= deadline),
    {
        self.now >= deadline
    }
}

} // verus!
