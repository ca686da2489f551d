//! The 20 ms timeline of one audio sender. Instants and spans are nanoseconds.
use vstd::prelude::*;


verus! {

/// The time between two frames.
pub const FRAME_PERIOD: u64 = 20_000_000;

/// Hands out registrations, within the range of their numbers.
pub struct Pacer {
    next_id: u64,
}

/// Why the pacer did not do what it was asked.
#[derive(Clone, Copy, Debug, PartialEq, Eq, Structural)]
pub enum PacerFailure {
    /// No registration is left to hand out.
    Exhausted,
    /// There is no runtime, or the registration ended.
    Closed,
}

/// The timer of one sender.
#[derive(Clone, Copy, Debug, PartialEq, Eq, Structural)]
pub struct PacerRegistration {
    pub next: Option<u64>,
    pub skipped: u64,
    pub observed_missed: u64,
    pub registered: bool,
}

/// What the timer says at some instant.
#[derive(Clone, Copy, Debug, PartialEq, Eq, Structural)]
pub enum PacerStep {
    /// The registration ended.
    Closed,
    /// No deadline is set.
    Idle,
    /// The deadline lies ahead.
    Wait(u64),
    /// The deadline came.
    Due(u64),
}

/// The sum of two counts, at most the largest count.
pub open spec fn capped_sum(left: u64, right: u64) -> u64 {
    if left + right > u64::MAX {
        u64::MAX
    } else {
        (left + right) as u64
    }
}

/// How many periods lie between a deadline and a later instant.
pub open spec fn missed_periods(deadline: u64, now: u64) -> u64 {
    if now <= deadline {
        0
    } else {
        ((now - deadline) / FRAME_PERIOD as int) as u64
    }
}

/// Counts the periods between a deadline and a later instant.
pub fn count_missed(deadline: u64, now: u64) -> (missed: u64)
    ensures
        missed == missed_periods(deadline, now),
{
    if now <= deadline {
        0
    } else {
        (now - deadline) / FRAME_PERIOD
    }
}

impl Pacer {
    /// The number that the next registration takes.
    pub closed spec fn upcoming(self) -> u64 {
        self.next_id
    }

    /// Creates a pacer.
    pub fn new() -> (pacer: Self)
        ensures
            pacer.upcoming() == 1,
    {
        Pacer { next_id: 1 }
    }

    /// Registers a sender; `runtime` says whether there is a runtime to keep time.
    pub fn register(&mut self, runtime: bool) -> (registration: Result<
        PacerRegistration,
        PacerFailure,
    >)
        ensures
            registration == (if !runtime {
                Err::<PacerRegistration, PacerFailure>(PacerFailure::Closed)
            } else if old(self).upcoming() == u64::MAX {
                Err(PacerFailure::Exhausted)
            } else {
                Ok(PacerRegistration::fresh())
            }),
            final(self).upcoming() == (if registration is Ok {
                old(self).upcoming() + 1
            } else {
                old(self).upcoming() as int
            }),
    {
        if !runtime {
            return Err(PacerFailure::Closed);
        }
        match self.next_id.checked_add(1) {
            Some(next) => {
                self.next_id = next;
                Ok(
                    PacerRegistration {
                        next: None,
                        skipped: 0,
                        observed_missed: 0,
                        registered: true,
                    },
                )
            },
            None => Err(PacerFailure::Exhausted),
        }
    }
}

impl PacerRegistration {
    /// A registration without a deadline.
    pub open spec fn fresh() -> PacerRegistration {
        PacerRegistration { next: None, skipped: 0, observed_missed: 0, registered: true }
    }

    /// What the timer says at an instant.
    pub open spec fn step(self, now: u64) -> PacerStep {
        if !self.registered {
            PacerStep::Closed
        } else {
            match self.next {
                None => PacerStep::Idle,
                Some(deadline) => if now < deadline {
                    PacerStep::Wait(deadline)
                } else {
                    PacerStep::Due(deadline)
                },
            }
        }
    }

    /// The registration after the timer was asked. A deadline that came is followed by
    /// one a period later; after missed periods that period counts from now.
    pub open spec fn stepped(self, now: u64) -> PacerRegistration {
        match self.step(now) {
            PacerStep::Due(deadline) => {
                let missed = missed_periods(deadline, now);
                PacerRegistration {
                    observed_missed: missed,
                    skipped: capped_sum(self.skipped, missed),
                    next: Some(
                        crate::gateway::backoff::later(
                            if missed > 0 {
                                now
                            } else {
                                deadline
                            },
                            FRAME_PERIOD,
                        ),
                    ),
                    ..self
                }
            },
            _ => self,
        }
    }

    /// Asks the timer at an instant. A wait leaves the deadline as it is; a late answer
    /// permits one frame, never a backlog of missed ones.
    pub fn next_deadline(&mut self, now: u64) -> (step: PacerStep)
        ensures
            step == old(self).step(now),
            *final(self) == old(self).stepped(now),
    {
        if !self.registered {
            return PacerStep::Closed;
        }
        let deadline: u64 = match self.next {
            Some(deadline) => deadline,
            None => return PacerStep::Idle,
        };
        if now < deadline {
            return PacerStep::Wait(deadline);
        }
        let missed: u64 = count_missed(deadline, now);
        self.observed_missed = missed;
        self.skipped = self.skipped.saturating_add(missed);
        self.next = Some(
            if missed > 0 {
                now.saturating_add(FRAME_PERIOD)
            } else {
                deadline.saturating_add(FRAME_PERIOD)
            },
        );
        PacerStep::Due(deadline)
    }

    /// The registration after the work of a deadline was done.
    pub open spec fn completed(self, deadline: u64, now: u64) -> PacerRegistration {
        let missed = missed_periods(deadline, now);
        PacerRegistration {
            skipped: capped_sum(
                self.skipped,
                if missed > self.observed_missed {
                    (missed - self.observed_missed) as u64
                } else {
                    0
                },
            ),
            observed_missed: 0,
            next: if missed > 0 {
                Some(crate::gateway::backoff::later(now, FRAME_PERIOD))
            } else {
                self.next
            },
            ..self
        }
    }

    /// Counts the periods that the work of a deadline took, without counting those
    /// twice that the timer was late by. Work that took a period moves the next
    /// deadline a period away.
    pub fn complete(&mut self, deadline: u64, completed: u64)
        ensures
            *final(self) == old(self).completed(deadline, completed),
    {
        let missed: u64 = count_missed(deadline, completed);
        self.skipped = self.skipped.saturating_add(missed.saturating_sub(self.observed_missed));
        self.observed_missed = 0;
        if missed > 0 {
            self.next = Some(completed.saturating_add(FRAME_PERIOD));
        }
    }

    /// The registration with a first deadline.
    pub open spec fn activated(self, first: u64) -> PacerRegistration {
        if self.registered {
            PacerRegistration { next: Some(first), observed_missed: 0, ..self }
        } else {
            self
        }
    }

    /// Sets the first deadline of a timeline.
    pub fn activate(&mut self, first: u64) -> (result: Result<(), PacerFailure>)
        ensures
            *final(self) == old(self).activated(first),
            result == (if old(self).registered {
                Ok::<(), PacerFailure>(())
            } else {
                Err(PacerFailure::Closed)
            }),
    {
        if !self.registered {
            return Err(PacerFailure::Closed);
        }
        self.next = Some(first);
        self.observed_missed = 0;
        Ok(())
    }

    /// The registration without a deadline.
    pub open spec fn deactivated(self) -> PacerRegistration {
        PacerRegistration { next: None, ..self }
    }

    /// Ends a timeline.
    pub fn deactivate(&mut self)
        ensures
            *final(self) == old(self).deactivated(),
    {
        self.next = None;
    }

    /// Returns how many frame opportunities were missed.
    pub fn skipped(&self) -> (skipped: u64)
        ensures
            skipped == self.skipped,
    {
        self.skipped
    }

    /// Ends the registration.
    pub fn unregister(&mut self)
        ensures
            *final(self) == (PacerRegistration { next: None, registered: false, ..*old(self) }),
    {
        self.next = None;
        self.registered = false;
    }
}

/// However late the timer is asked, one frame is permitted: asked again at the same
/// instant, it waits.
pub proof fn late_timers_do_not_catch_up(registration: PacerRegistration, now: u64)
    requires
        registration.step(now) is Due,
        now + FRAME_PERIOD <= u64::MAX,
    ensures
        registration.stepped(now).step(now) is Wait,
        registration.stepped(now).next->0 > now,
        registration.stepped(now).next->0 <= now + FRAME_PERIOD,
{
    let deadline = registration.next->0;
    if missed_periods(deadline, now) == 0 {
        assert(now - deadline < FRAME_PERIOD) by (nonlinear_arith)
            requires
                now >= deadline,
                (now - deadline) / 20_000_000 == 0,
                FRAME_PERIOD == 20_000_000,
        ;
    }
}

/// Asking before the deadline changes nothing.
pub proof fn waiting_changes_nothing(registration: PacerRegistration, now: u64)
    requires
        registration.step(now) !is Due,
    ensures
        registration.stepped(now) == registration,
{
}

/// A timeline that was ended delivers no deadline until it is started again, and then
/// the new one; time without a timeline is not missed.
pub proof fn ended_timelines_deliver_nothing(registration: PacerRegistration, first: u64, now: u64)
    requires
        registration.registered,
    ensures
        registration.deactivated().step(now) == PacerStep::Idle,
        registration.deactivated().activated(first).next == Some(first),
        registration.deactivated().activated(first).skipped == registration.skipped,
        (PacerRegistration { next: None, registered: false, ..registration }).step(now)
            == PacerStep::Closed,
{
}

/// The periods between a deadline and the end of its work are counted once, whether the
/// timer or the work was late, as long as the count has room.
pub proof fn missed_periods_are_counted_once(
    registration: PacerRegistration,
    now: u64,
    completed: u64,
)
    requires
        registration.step(now) is Due,
        now <= completed,
        registration.skipped + missed_periods(registration.next->0, completed) <= u64::MAX,
    ensures
        registration.stepped(now).completed(registration.next->0, completed).skipped
            == registration.skipped + missed_periods(registration.next->0, completed),
{
    let deadline = registration.next->0;
    assert((now - deadline) / 20_000_000 <= (completed - deadline) / 20_000_000)
        by (nonlinear_arith)
        requires
            deadline <= now <= completed,
    ;
}

/// A deadline that is answered less than a period late is followed by the deadline one
/// period after it, whatever the lateness; no frame counts as missed.
pub proof fn punctual_answers_keep_the_beat(
    registration: PacerRegistration,
    deadline: u64,
    now: u64,
)
    requires
        registration.registered,
        registration.next == Some(deadline),
        deadline <= now < deadline + FRAME_PERIOD <= u64::MAX,
    ensures
        registration.step(now) == PacerStep::Due(deadline),
        registration.stepped(now).next->0 - deadline == 20_000_000,
        registration.stepped(now).next is Some,
        registration.stepped(now).skipped == registration.skipped,
        registration.stepped(now).registered,
{
    assert((now - deadline) / 20_000_000 == 0) by (nonlinear_arith)
        requires
            deadline <= now < deadline + 20_000_000,
    ;
}

impl PacerRegistration {
    /// The registration after the timer was asked at each of some instants in turn.
    pub open spec fn asked_at(self, instants: Seq<u64>) -> PacerRegistration
        decreases instants.len(),
    {
        if instants.len() == 0 {
            self
        } else {
            self.asked_at(instants.drop_last()).stepped(instants.last())
        }
    }
}

/// The timeline does not drift: deadlines that are each answered less than a period late
/// lie a whole number of periods behind the first one, whatever the lateness of the single
/// answers, and no frame counts as missed.
pub proof fn punctual_timelines_do_not_drift(
    registration: PacerRegistration,
    first: u64,
    answers: Seq<u64>,
)
    requires
        registration.registered,
        registration.next == Some(first),
        forall|i: int|
            0 <= i < answers.len() ==> first + i * 20_000_000 <= #[trigger] answers[i] < first + (i
                + 1) * 20_000_000,
        first + answers.len() * 20_000_000 <= u64::MAX,
    ensures
        registration.asked_at(answers).registered,
        registration.asked_at(answers).next is Some,
        registration.asked_at(answers).next->0 == first + answers.len() * 20_000_000,
        registration.asked_at(answers).skipped == registration.skipped,
    decreases answers.len(),
{
    if answers.len() > 0 {
        let earlier = answers.drop_last();
        assert forall|i: int| 0 <= i < earlier.len() implies first + i * 20_000_000
            <= #[trigger] earlier[i] < first + (i + 1) * 20_000_000 by {
            assert(earlier[i] == answers[i]);
        }
        punctual_timelines_do_not_drift(registration, first, earlier);
        let before = registration.asked_at(earlier);
        assert(answers.last() == answers[answers.len() - 1]);
        punctual_answers_keep_the_beat(before, before.next->0, answers.last());
    }
}

/// An answer that is a number of whole periods late counts exactly those as missed, and
/// the next deadline lies one period behind the answer.
pub proof fn late_answers_start_over(
    registration: PacerRegistration,
    deadline: u64,
    now: u64,
    missed: nat,
)
    requires
        registration.registered,
        registration.next == Some(deadline),
        0 < missed,
        deadline + missed * 20_000_000 <= now < deadline + (missed + 1) * 20_000_000,
        now + 20_000_000 <= u64::MAX,
        registration.skipped + missed <= u64::MAX,
    ensures
        registration.step(now) == PacerStep::Due(deadline),
        registration.stepped(now).next is Some,
        registration.stepped(now).next->0 - now == 20_000_000,
        registration.stepped(now).skipped - registration.skipped == missed,
{
    assert((now - deadline) / 20_000_000 == missed) by (nonlinear_arith)
        requires
            deadline + missed * 20_000_000 <= now < deadline + (missed + 1) * 20_000_000,
    ;
}

/// Before its deadline the timer names the deadline and lets nothing through; from the
/// deadline on it lets one frame through.
pub proof fn deadlines_are_not_anticipated(
    registration: PacerRegistration,
    deadline: u64,
    now: u64,
)
    requires
        registration.registered,
        registration.next == Some(deadline),
    ensures
        now < deadline ==> registration.step(now) == PacerStep::Wait(deadline),
        now < deadline ==> registration.stepped(now).next == Some(deadline),
        registration.step(now) is Due <==> deadline <= now,
{
}

/// Work that ends less than a period behind its deadline leaves the timeline as it is.
/// Work that ends some whole periods behind it moves the next deadline one period behind
/// its end, and the periods that no answer of the timer counted are missed.
pub proof fn long_work_moves_the_timeline(
    registration: PacerRegistration,
    deadline: u64,
    completed: u64,
    missed: nat,
)
    requires
        deadline + missed * 20_000_000 <= completed < deadline + (missed + 1) * 20_000_000,
        completed + 20_000_000 <= u64::MAX,
        registration.observed_missed <= missed,
        registration.skipped + missed <= u64::MAX,
    ensures
        missed == 0 ==> registration.completed(deadline, completed).next == registration.next,
        missed > 0 ==> {
            &&& registration.completed(deadline, completed).next is Some
            &&& registration.completed(deadline, completed).next->0 - completed == 20_000_000
        },
        registration.completed(deadline, completed).skipped == registration.skipped + missed
            - registration.observed_missed,
        registration.completed(deadline, completed).observed_missed == 0,
        registration.completed(deadline, completed).registered == registration.registered,
{
    if deadline < completed {
        assert((completed - deadline) / 20_000_000 == missed) by (nonlinear_arith)
            requires
                deadline + missed * 20_000_000 <= completed < deadline + (missed + 1)
                    * 20_000_000,
        ;
    } else {
        assert(missed == 0) by (nonlinear_arith)
            requires
                deadline + missed * 20_000_000 <= completed,
                completed <= deadline,
        ;
    }
}

/// A new registration has its place with the timer, no deadline and nothing missed. It waits
/// for a first deadline, and with one it is due from that instant on.
pub proof fn registrations_wait_for_a_deadline(first: u64, now: u64)
    ensures
        PacerRegistration::fresh().registered,
        PacerRegistration::fresh().skipped == 0,
        PacerRegistration::fresh().step(now) == PacerStep::Idle,
        PacerRegistration::fresh().stepped(now) == PacerRegistration::fresh(),
        now < first ==> PacerRegistration::fresh().activated(first).step(now) == PacerStep::Wait(
            first,
        ),
        now >= first ==> PacerRegistration::fresh().activated(first).step(now) == PacerStep::Due(
            first,
        ),
{
}

} // verus!
