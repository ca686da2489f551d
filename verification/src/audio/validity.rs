//! Admission of sends to a transport that may be taken away.
use vstd::prelude::*;

verus! {

/// How many sends a transport has admitted that are still under way, and whether it
/// admits more.
#[derive(Clone, Copy, Debug, PartialEq, Eq, Structural)]
pub struct TransportValidity {
    pub permits: usize,
    pub invalidated: bool,
}

impl TransportValidity {
    /// Creates the admission of a transport that is in force.
    pub fn new() -> (validity: Self)
        ensures
            validity.permits == 0,
            !validity.invalidated,
    {
        TransportValidity { permits: 0, invalidated: false }
    }

    /// Whether a send would be admitted.
    pub open spec fn admits(self) -> bool {
        !self.invalidated && self.permits < usize::MAX
    }

    /// Whether the transport can be dropped: it admits no more sends and none is under
    /// way.
    pub open spec fn drained(self) -> bool {
        self.invalidated && self.permits == 0
    }

    /// The admission with one more send, if it is admitted.
    pub open spec fn acquired(self) -> TransportValidity {
        if self.admits() {
            TransportValidity { permits: (self.permits + 1) as usize, ..self }
        } else {
            self
        }
    }

    /// Admits a send, unless the transport was taken away.
    pub fn try_acquire(&mut self) -> (admitted: bool)
        ensures
            admitted == old(self).admits(),
            *final(self) == old(self).acquired(),
    {
        if self.invalidated {
            return false;
        }
        match self.permits.checked_add(1) {
            Some(permits) => {
                self.permits = permits;
                true
            },
            None => false,
        }
    }

    /// The admission after a send ended.
    pub open spec fn released(self) -> TransportValidity {
        TransportValidity {
            permits: if self.permits == 0 {
                0
            } else {
                (self.permits - 1) as usize
            },
            ..self
        }
    }

    /// Ends a send. The result says whether whoever waits to drop the transport is to
    /// be told.
    pub fn release(&mut self) -> (told: bool)
        requires
            old(self).permits > 0,
        ensures
            *final(self) == old(self).released(),
            told == final(self).drained(),
    {
        self.permits = self.permits - 1;
        self.invalidated && self.permits == 0
    }

    /// The admission of a transport that was taken away.
    pub open spec fn taken_away(self) -> TransportValidity {
        TransportValidity { invalidated: true, ..self }
    }

    /// Takes the transport away: no send is admitted any more. The result says whether
    /// it can be dropped at once.
    pub fn invalidate(&mut self) -> (drained: bool)
        ensures
            *final(self) == old(self).taken_away(),
            drained == final(self).drained(),
    {
        self.invalidated = true;
        self.permits == 0
    }
}

/// Once a transport was taken away, nothing admits a send to it again, and it is drained
/// exactly when the last send ends.
pub proof fn no_send_follows_invalidation(validity: TransportValidity)
    ensures
        !validity.taken_away().admits(),
        validity.taken_away().acquired() == validity.taken_away(),
        !validity.taken_away().released().admits(),
        validity.permits == 1 ==> validity.taken_away().released().drained(),
        validity.permits > 1 ==> !validity.taken_away().released().drained(),
        validity.taken_away().taken_away() == validity.taken_away(),
{
}

/// A send that was admitted and ended leaves no trace.
pub proof fn ended_sends_leave_no_trace(validity: TransportValidity)
    requires
        validity.admits(),
    ensures
        validity.acquired().released() == validity,
        validity.acquired().taken_away().released() == validity.taken_away(),
{
}

/// A transport in force admits every send that can be counted, and counts it; it can be
/// dropped only once it was taken away and no send is under way.
pub proof fn transports_in_force_admit_sends(validity: TransportValidity)
    ensures
        !validity.invalidated && validity.permits < usize::MAX ==> {
            &&& validity.admits()
            &&& validity.acquired().permits == validity.permits + 1
            &&& !validity.acquired().invalidated
        },
        !validity.invalidated ==> !validity.drained(),
        validity.permits > 0 ==> !validity.drained() && validity.released().permits
            == validity.permits - 1,
        validity.released().invalidated == validity.invalidated,
        validity.taken_away().permits == validity.permits,
        validity.taken_away().drained() <==> validity.permits == 0,
{
}

} // verus!
