//! Wakes of an audio source, which may come while the source is being polled.
use vstd::prelude::*;

verus! {

/// Whether the source is being polled, whether a wake came, and the largest generation
/// that was woken.
#[derive(Clone, Copy, Debug, PartialEq, Eq, Structural)]
pub struct WakeShared {
    pub poll_active: bool,
    pub wake_pending: bool,
    pub latest_generation: u64,
}

impl WakeShared {
    /// The state before any poll or wake.
    pub open spec fn idle() -> WakeShared {
        WakeShared { poll_active: false, wake_pending: false, latest_generation: 0 }
    }

    /// Creates the state before any poll or wake.
    pub fn new() -> (shared: Self)
        ensures
            shared == WakeShared::idle(),
    {
        WakeShared { poll_active: false, wake_pending: false, latest_generation: 0 }
    }

    /// The state while the source is being polled.
    pub open spec fn polling(self) -> WakeShared {
        WakeShared { poll_active: true, ..self }
    }

    /// Begins a poll.
    pub fn begin_poll(&mut self)
        ensures
            *final(self) == old(self).polling(),
    {
        self.poll_active = true;
    }

    /// The state after a poll.
    pub open spec fn polled(self) -> WakeShared {
        WakeShared { poll_active: false, wake_pending: false, ..self }
    }

    /// Ends a poll. The result says whether the sender is to be notified now, because a
    /// wake came that was not passed on.
    pub fn end_poll(&mut self) -> (notify: bool)
        ensures
            *final(self) == old(self).polled(),
            notify == old(self).wake_pending,
    {
        let notify = self.wake_pending;
        self.poll_active = false;
        self.wake_pending = false;
        notify
    }

    /// The larger of the generation and the one woken before.
    pub open spec fn latest_with(self, generation: u64) -> u64 {
        if generation > self.latest_generation {
            generation
        } else {
            self.latest_generation
        }
    }

    /// Records a generation that is to be looked at.
    pub fn raise_generation(&mut self, generation: u64)
        ensures
            *final(self) == (WakeShared {
                latest_generation: old(self).latest_with(generation),
                ..*old(self)
            }),
    {
        if generation > self.latest_generation {
            self.latest_generation = generation;
        }
    }

    /// The state after a wake.
    pub open spec fn woken(self, generation: u64) -> WakeShared {
        WakeShared {
            wake_pending: true,
            latest_generation: self.latest_with(generation),
            ..self
        }
    }

    /// Takes a wake of a source. The result says whether the sender is to be notified
    /// now; a wake during a poll is passed on when the poll ends.
    pub fn wake(&mut self, generation: u64) -> (notify: bool)
        ensures
            *final(self) == old(self).woken(generation),
            notify == !old(self).poll_active,
    {
        self.raise_generation(generation);
        self.wake_pending = true;
        !self.poll_active
    }
}

/// No wake is lost, and none runs the notifier inside a poll: a wake during a poll is
/// passed on by the end of the poll, a wake outside one at once.
pub proof fn wakes_are_not_lost(shared: WakeShared, generation: u64)
    ensures
        shared.polling().woken(generation).poll_active,
        shared.polling().woken(generation).wake_pending,
        shared.polling().woken(generation).polled() == (WakeShared {
            poll_active: false,
            wake_pending: false,
            latest_generation: shared.latest_with(generation),
        }),
        shared.woken(generation).latest_generation >= generation,
        shared.woken(generation).latest_generation >= shared.latest_generation,
        shared.woken(generation).latest_generation == generation
            || shared.woken(generation).latest_generation == shared.latest_generation,
{
}

/// A poll begins without losing a wake that came before it; a wake says nothing about
/// whether a poll is under way, and a new state has neither.
pub proof fn polls_keep_earlier_wakes(shared: WakeShared, generation: u64)
    ensures
        shared.polling().poll_active,
        shared.polling().wake_pending == shared.wake_pending,
        shared.polling().latest_generation == shared.latest_generation,
        shared.woken(generation).poll_active == shared.poll_active,
        shared.woken(generation).wake_pending,
        !shared.polled().poll_active,
        !shared.polled().wake_pending,
        shared.polled().latest_generation == shared.latest_generation,
        !WakeShared::idle().poll_active,
        !WakeShared::idle().wake_pending,
        WakeShared::idle().woken(generation).latest_generation == generation,
{
}

} // verus!
