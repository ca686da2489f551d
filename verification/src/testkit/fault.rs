//! Faults that befall packets on their way, in a fixed order.
use std::collections::VecDeque;
use vstd::prelude::*;

use crate::testkit::clock::MAX_SPAN;

verus! {

/// What befalls a packet. A span is nanoseconds.
#[derive(Debug, PartialEq, Eq)]
pub enum FaultAction {
    Pass,
    Drop,
    Delay(u128),
    /// The packet is delivered behind the next one.
    Reorder,
    Replace(Vec<u8>),
}

/// The mathematical form of a [`FaultAction`].
#[verifier::ext_equal]
pub ghost enum ActionForm {
    Pass,
    Drop,
    Delay(u128),
    Reorder,
    Replace(Seq<u8>),
}

impl FaultAction {
    /// The action as a mathematical value.
    pub open spec fn form(self) -> ActionForm {
        match self {
            FaultAction::Pass => ActionForm::Pass,
            FaultAction::Drop => ActionForm::Drop,
            FaultAction::Delay(delay) => ActionForm::Delay(delay),
            FaultAction::Reorder => ActionForm::Reorder,
            FaultAction::Replace(bytes) => ActionForm::Replace(bytes@),
        }
    }
}

/// A packet that is due at an instant.
#[derive(Debug, PartialEq, Eq)]
pub struct ScheduledPacket {
    pub due: u128,
    pub bytes: Vec<u8>,
}

impl View for ScheduledPacket {
    type V = (u128, Seq<u8>);

    open spec fn view(&self) -> (u128, Seq<u8>) {
        (self.due, self.bytes@)
    }
}

/// The packets of a row.
pub open spec fn schedule(packets: Seq<ScheduledPacket>) -> Seq<(u128, Seq<u8>)> {
    Seq::new(packets.len(), |i: int| packets[i]@)
}

/// Why an action or a packet was refused.
#[derive(Clone, Copy, Debug, PartialEq, Eq, Structural)]
pub enum FaultError {
    /// A bound is zero.
    InvalidCapacity,
    /// No further action fits.
    ScheduleFull { capacity: usize },
    /// A packet is longer than the bound.
    PacketTooLarge { actual: usize, maximum: usize },
    /// A packet waits for the next one already.
    ReorderSlotFull,
    /// The delivery lies beyond the range of the clock.
    TimeOverflow,
}

/// Applies a queue of actions to packets, one to each.
#[derive(Debug)]
pub struct FaultInjector {
    actions: VecDeque<FaultAction>,
    action_capacity: usize,
    max_packet_bytes: usize,
    held_for_reorder: Option<Vec<u8>>,
}

/// The mathematical form of a [`FaultInjector`].
#[verifier::ext_equal]
pub ghost struct InjectorState {
    pub actions: Seq<ActionForm>,
    pub action_capacity: usize,
    pub max_packet_bytes: usize,
    /// The packet that waits for the next one.
    pub held: Option<Seq<u8>>,
}

/// The forms of a row of actions.
pub open spec fn forms(actions: Seq<FaultAction>) -> Seq<ActionForm> {
    Seq::new(actions.len(), |i: int| actions[i].form())
}

/// The bytes of an optional packet.
pub open spec fn held_bytes(held: Option<Vec<u8>>) -> Option<Seq<u8>> {
    match held {
        Some(bytes) => Some(bytes@),
        None => None,
    }
}

impl View for FaultInjector {
    type V = InjectorState;

    closed spec fn view(&self) -> InjectorState {
        InjectorState {
            actions: forms(self.actions@),
            action_capacity: self.action_capacity,
            max_packet_bytes: self.max_packet_bytes,
            held: held_bytes(self.held_for_reorder),
        }
    }
}

impl InjectorState {
    /// Why an action is refused.
    pub open spec fn push_failure(self, action: ActionForm) -> Option<FaultError> {
        if action matches ActionForm::Replace(bytes) && bytes.len() > self.max_packet_bytes {
            Some(
                FaultError::PacketTooLarge {
                    actual: action->Replace_0.len() as usize,
                    maximum: self.max_packet_bytes,
                },
            )
        } else if self.actions.len() == self.action_capacity {
            Some(FaultError::ScheduleFull { capacity: self.action_capacity })
        } else {
            None
        }
    }

    /// The action that befalls the next packet.
    pub open spec fn next_action(self) -> ActionForm {
        if self.actions.len() == 0 {
            ActionForm::Pass
        } else {
            self.actions[0]
        }
    }

    /// The injector once the next action is used up.
    pub open spec fn action_used(self) -> InjectorState {
        InjectorState {
            actions: if self.actions.len() == 0 {
                self.actions
            } else {
                self.actions.skip(1)
            },
            ..self
        }
    }

    /// What comes of a packet itself, where its action does not hold it back.
    pub open spec fn delivered(action: ActionForm, now: u128, packet: Seq<u8>) -> Seq<
        (u128, Seq<u8>),
    > {
        match action {
            ActionForm::Pass => seq![(now, packet)],
            ActionForm::Delay(delay) => seq![((now + delay) as u128, packet)],
            ActionForm::Replace(bytes) => seq![(now, bytes)],
            _ => seq![],
        }
    }

    /// What comes of a packet: the injector, and the packets to deliver or the refusal.
    pub open spec fn apply(self, now: u128, packet: Seq<u8>) -> (
        InjectorState,
        Result<Seq<(u128, Seq<u8>)>, FaultError>,
    ) {
        let used = self.action_used();
        let action = self.next_action();
        if packet.len() > self.max_packet_bytes {
            (
                self,
                Err(
                    FaultError::PacketTooLarge {
                        actual: packet.len() as usize,
                        maximum: self.max_packet_bytes,
                    },
                ),
            )
        } else if action is Reorder {
            if self.held is Some {
                (used, Err(FaultError::ReorderSlotFull))
            } else {
                (InjectorState { held: Some(packet), ..used }, Ok(seq![]))
            }
        } else if action matches ActionForm::Delay(delay) && now + delay > MAX_SPAN {
            (used, Err(FaultError::TimeOverflow))
        } else {
            let own = InjectorState::delivered(action, now, packet);
            match self.held {
                Some(held) => (InjectorState { held: None, ..used }, Ok(own.push((now, held)))),
                None => (used, Ok(own)),
            }
        }
    }
}

impl FaultInjector {
    /// Creates an injector with bounds on its actions and packets.
    pub fn new(action_capacity: usize, max_packet_bytes: usize) -> (injector: Result<
        Self,
        FaultError,
    >)
        ensures
            match injector {
                Ok(injector) => {
                    &&& action_capacity > 0
                    &&& max_packet_bytes > 0
                    &&& injector@ == (InjectorState {
                        actions: Seq::empty(),
                        action_capacity,
                        max_packet_bytes,
                        held: None,
                    })
                },
                Err(failure) => {
                    &&& action_capacity == 0 || max_packet_bytes == 0
                    &&& failure == FaultError::InvalidCapacity
                },
            },
    {
        if action_capacity == 0 || max_packet_bytes == 0 {
            return Err(FaultError::InvalidCapacity);
        }
        let injector = FaultInjector {
            actions: VecDeque::new(),
            action_capacity,
            max_packet_bytes,
            held_for_reorder: None,
        };
        assert(injector@.actions =~= Seq::<ActionForm>::empty());
        Ok(injector)
    }

    /// Queues an action.
    pub fn push(&mut self, action: FaultAction) -> (pushed: Result<(), FaultError>)
        ensures
            match pushed {
                Ok(()) => {
                    &&& old(self)@.push_failure(action.form()) is None
                    &&& final(self)@ == (InjectorState {
                        actions: old(self)@.actions.push(action.form()),
                        ..old(self)@
                    })
                },
                Err(failure) => {
                    &&& old(self)@.push_failure(action.form()) == Some(failure)
                    &&& final(self)@ == old(self)@
                },
            },
    {
        if let FaultAction::Replace(bytes) = &action {
            if bytes.len() > self.max_packet_bytes {
                return Err(
                    FaultError::PacketTooLarge {
                        actual: bytes.len(),
                        maximum: self.max_packet_bytes,
                    },
                );
            }
        }
        if self.actions.len() == self.action_capacity {
            return Err(FaultError::ScheduleFull { capacity: self.action_capacity });
        }
        self.actions.push_back(action);
        assert(self@.actions =~= old(self)@.actions.push(action.form()));
        Ok(())
    }

    /// Applies the next action to a packet; without one the packet passes. A packet that
    /// is held back is delivered behind the next one that is not.
    pub fn apply(&mut self, now: u128, packet: Vec<u8>) -> (packets: Result<
        Vec<ScheduledPacket>,
        FaultError,
    >)
        ensures
            final(self)@ == old(self)@.apply(now, packet@).0,
            match packets {
                Ok(packets) => old(self)@.apply(now, packet@).1 == Ok::<
                    Seq<(u128, Seq<u8>)>,
                    FaultError,
                >(schedule(packets@)),
                Err(failure) => old(self)@.apply(now, packet@).1 == Err::<
                    Seq<(u128, Seq<u8>)>,
                    FaultError,
                >(failure),
            },
    {
        if packet.len() > self.max_packet_bytes {
            return Err(
                FaultError::PacketTooLarge {
                    actual: packet.len(),
                    maximum: self.max_packet_bytes,
                },
            );
        }
        let ghost bytes = packet@;
        let action = match self.actions.pop_front() {
            Some(action) => action,
            None => FaultAction::Pass,
        };
        assert(self@ =~= old(self)@.action_used());
        assert(action.form() == old(self)@.next_action());
        let mut scheduled: Vec<ScheduledPacket> = Vec::new();
        match action {
            FaultAction::Reorder => {
                if self.held_for_reorder.is_some() {
                    return Err(FaultError::ReorderSlotFull);
                }
                self.held_for_reorder = Some(packet);
                assert(schedule(scheduled@) =~= seq![]);
                return Ok(scheduled);
            },
            FaultAction::Pass => {
                scheduled.push(ScheduledPacket { due: now, bytes: packet });
            },
            FaultAction::Drop => {},
            FaultAction::Delay(delay) => {
                match now.checked_add(delay) {
                    Some(due) => {
                        if due > MAX_SPAN {
                            return Err(FaultError::TimeOverflow);
                        }
                        scheduled.push(ScheduledPacket { due, bytes: packet });
                    },
                    None => return Err(FaultError::TimeOverflow),
                }
            },
            FaultAction::Replace(replacement) => {
                scheduled.push(ScheduledPacket { due: now, bytes: replacement });
            },
        }
        let ghost own = InjectorState::delivered(old(self)@.next_action(), now, bytes);
        assert(schedule(scheduled@) =~= own);
        if let Some(held) = self.held_for_reorder.take() {
            let ghost waited = held@;
            scheduled.push(ScheduledPacket { due: now, bytes: held });
            assert(schedule(scheduled@) =~= own.push((now, waited)));
        }
        Ok(scheduled)
    }

    /// Delivers the packet that waits for the next one.
    pub fn flush_reordered(&mut self, now: u128) -> (packet: Option<ScheduledPacket>)
        ensures
            final(self)@ == (InjectorState { held: None, ..old(self)@ }),
            match packet {
                Some(packet) => old(self)@.held is Some && packet@ == (now, old(self)@.held->0),
                None => old(self)@.held is None,
            },
    {
        match self.held_for_reorder.take() {
            Some(bytes) => Some(ScheduledPacket { due: now, bytes }),
            None => None,
        }
    }
}

/// Nothing is lost but by a drop: a packet that is held back comes out with the next one
/// that is not held back, behind it.
pub proof fn held_packets_follow_the_next_one(state: InjectorState, now: u128, packet: Seq<u8>)
    requires
        state.held is Some,
        packet.len() <= state.max_packet_bytes,
        state.next_action() !is Reorder,
        state.next_action() !is Delay,
    ensures
        state.apply(now, packet).1 is Ok,
        state.apply(now, packet).1->Ok_0.last() == (now, state.held->0),
        state.apply(now, packet).0.held is None,
        state.next_action() is Pass ==> state.apply(now, packet).1->Ok_0 == seq![
            (now, packet),
            (now, state.held->0),
        ],
{
    if state.next_action() is Pass {
        assert(state.apply(now, packet).1->Ok_0 =~= seq![(now, packet), (now, state.held->0)]);
    }
}

/// A packet for which nothing is planned, while none is held back, is delivered at once
/// and as it is.
pub proof fn unplanned_packets_pass(state: InjectorState, now: u128, packet: Seq<u8>)
    requires
        state.actions.len() == 0,
        state.held is None,
        packet.len() <= state.max_packet_bytes,
    ensures
        state.apply(now, packet).0 == state,
        state.apply(now, packet).1 == Ok::<Seq<(u128, Seq<u8>)>, FaultError>(
            seq![(now, packet)],
        ),
{
}

/// The first action in the queue befalls the packet and is used up: a dropped packet is
/// not delivered, a delayed one comes by the delay later, and a replaced one as other bytes.
/// The other actions wait in their order.
pub proof fn actions_befall_packets_in_order(
    state: InjectorState,
    now: u128,
    packet: Seq<u8>,
    first: ActionForm,
    others: Seq<ActionForm>,
)
    requires
        state.actions == seq![first] + others,
        state.held is None,
        packet.len() <= state.max_packet_bytes,
    ensures
        state.apply(now, packet).0.actions == others,
        state.apply(now, packet).0.action_capacity == state.action_capacity,
        state.apply(now, packet).0.max_packet_bytes == state.max_packet_bytes,
        first is Pass ==> state.apply(now, packet).1 == Ok::<Seq<(u128, Seq<u8>)>, FaultError>(
            seq![(now, packet)],
        ),
        first is Drop ==> state.apply(now, packet).1 == Ok::<Seq<(u128, Seq<u8>)>, FaultError>(
            seq![],
        ),
        first matches ActionForm::Replace(bytes) ==> state.apply(now, packet).1 == Ok::<
            Seq<(u128, Seq<u8>)>,
            FaultError,
        >(seq![(now, bytes)]),
        first matches ActionForm::Delay(delay) ==> {
            if now + delay <= 18_446_744_073_709_551_615_999_999_999 {
                &&& state.apply(now, packet).1 is Ok
                &&& state.apply(now, packet).1->Ok_0.len() == 1
                &&& state.apply(now, packet).1->Ok_0[0].0 - now == delay
                &&& state.apply(now, packet).1->Ok_0[0].1 == packet
            } else {
                state.apply(now, packet).1 == Err::<Seq<(u128, Seq<u8>)>, FaultError>(
                    FaultError::TimeOverflow,
                )
            }
        },
        first is Reorder <==> state.apply(now, packet).0.held is Some,
{
    assert(state.actions[0] == first);
    assert(state.actions.skip(1) =~= others);
}

/// A packet that is to be reordered waits and is delivered behind the next one: the two
/// change places.
pub proof fn reordered_packets_change_places(
    state: InjectorState,
    earlier: u128,
    first: Seq<u8>,
    later: u128,
    second: Seq<u8>,
)
    requires
        state.actions == seq![ActionForm::Reorder],
        state.held is None,
        first.len() <= state.max_packet_bytes,
        second.len() <= state.max_packet_bytes,
    ensures
        ({
            let (waiting, none) = state.apply(earlier, first);
            let (after, both) = waiting.apply(later, second);
            &&& none == Ok::<Seq<(u128, Seq<u8>)>, FaultError>(seq![])
            &&& both == Ok::<Seq<(u128, Seq<u8>)>, FaultError>(
                seq![(later, second), (later, first)],
            )
            &&& after.held is None
            &&& after.actions.len() == 0
        }),
{
    let (waiting, none) = state.apply(earlier, first);
    let (after, both) = waiting.apply(later, second);
    assert(waiting.actions.len() == 0);
    assert(both->Ok_0 =~= seq![(later, second), (later, first)]);
}

/// Only one packet can wait for the next one: a second one to be reordered is refused, and
/// the first one keeps waiting.
pub proof fn one_packet_waits_at_a_time(state: InjectorState, now: u128, packet: Seq<u8>)
    requires
        state.actions.len() > 0,
        state.actions[0] is Reorder,
        state.held is Some,
        packet.len() <= state.max_packet_bytes,
    ensures
        state.apply(now, packet).1 == Err::<Seq<(u128, Seq<u8>)>, FaultError>(
            FaultError::ReorderSlotFull,
        ),
        state.apply(now, packet).0.held == state.held,
        state.apply(now, packet).0.actions.len() == state.actions.len() - 1,
{
}

/// A packet beyond the bound is refused with its length and the bound, and uses no action.
pub proof fn oversized_packets_use_no_action(state: InjectorState, now: u128, packet: Seq<u8>)
    requires
        state.max_packet_bytes < packet.len() <= usize::MAX,
    ensures
        state.apply(now, packet).0 == state,
        state.apply(now, packet).1 matches Err(FaultError::PacketTooLarge { actual, maximum })
            && actual == packet.len() && maximum == state.max_packet_bytes,
{
}

/// An action is queued while there is room, unless it replaces packets by one beyond the
/// bound, which is told first.
pub proof fn actions_are_queued_while_there_is_room(
    state: InjectorState,
    action: ActionForm,
    bytes: Seq<u8>,
)
    requires
        state.max_packet_bytes < bytes.len() <= usize::MAX,
    ensures
        action !is Replace ==> {
            &&& state.push_failure(action) is None <==> state.actions.len()
                != state.action_capacity
            &&& state.actions.len() == state.action_capacity ==> state.push_failure(action) == Some(
                FaultError::ScheduleFull { capacity: state.action_capacity },
            )
        },
        state.push_failure(ActionForm::Replace(bytes)) matches Some(
            FaultError::PacketTooLarge { actual, maximum },
        ) && actual == bytes.len() && maximum == state.max_packet_bytes,
        state.push_failure(ActionForm::Replace(bytes.take(state.max_packet_bytes as int)))
            == state.push_failure(ActionForm::Pass),
{
}

} // verus!
