//! The durable state of a sender together with the events that are still to be
//! published.
use vstd::prelude::*;

use crate::audio::counters::AudioCounters;
use crate::error::Error;
use crate::model::{AudioPhase, AudioSnapshot, AudioStats, ConnectionEvent, SourceGeneration};

verus! {

/// The durable state of a sender, its counters, and the events that are still to be
/// published, in order.
pub struct AudioStore {
    pub current: AudioSnapshot,
    pub counters: AudioCounters,
    pub events: Vec<ConnectionEvent>,
}

/// The mathematical form of an [`AudioStore`].
pub ghost struct AudioState {
    pub current: AudioSnapshot,
    pub stats: AudioStats,
    pub events: Seq<ConnectionEvent>,
}

impl View for AudioStore {
    type V = AudioState;

    open spec fn view(&self) -> AudioState {
        AudioState { current: self.current, stats: self.counters.stats, events: self.events@ }
    }
}

/// The event for entering a phase.
pub open spec fn audio_changed(current: AudioSnapshot) -> ConnectionEvent {
    ConnectionEvent::AudioChanged { generation: current.generation, phase: current.phase }
}

impl AudioState {
    /// Entering a phase; nothing happens in the phase that is current.
    pub open spec fn phase(self, phase: AudioPhase) -> AudioState {
        if self.current.phase == phase {
            self
        } else {
            let current = AudioSnapshot { phase, ..self.current };
            AudioState { current, events: self.events.push(audio_changed(current)), ..self }
        }
    }

    /// A source was replaced.
    pub open spec fn replace_generation(self, generation: SourceGeneration) -> AudioState {
        self.invalidate_generation(generation).phase(AudioPhase::WaitingForSource)
    }

    /// The current source counts no more.
    pub open spec fn invalidate_generation(self, generation: SourceGeneration) -> AudioState {
        AudioState { current: self.current.with_generation(generation), ..self }
    }

    /// The sender failed.
    pub open spec fn fail(self, error: crate::error::ErrorView) -> AudioState {
        let current = self.current.with_failure(error);
        AudioState { current, events: self.events.push(audio_changed(current)), ..self }
    }

    /// Other counters.
    pub open spec fn with_stats(self, stats: AudioStats) -> AudioState {
        AudioState { stats, ..self }
    }
}

impl AudioStore {
    /// Creates the store of a new sender.
    pub fn new() -> (store: Self)
        ensures
            store@.current.generation.number() == 1,
            store@.current.phase == AudioPhase::WaitingForSource,
            store@.current.failure is None,
            store@.stats.zero(),
            store@.events.len() == 0,
    {
        AudioStore {
            current: AudioSnapshot::initial(),
            counters: AudioCounters::new(),
            events: Vec::new(),
        }
    }

    /// Returns the durable state with the counters of this moment.
    pub fn snapshot(&self) -> (snapshot: AudioSnapshot)
        ensures
            snapshot == (AudioSnapshot { stats: self@.stats, ..self@.current }),
    {
        let mut snapshot = self.current;
        snapshot.set_stats(self.counters.snapshot());
        snapshot
    }

    /// Takes the events that are still to be published.
    pub fn take_events(&mut self) -> (events: Vec<ConnectionEvent>)
        ensures
            events@ == old(self)@.events,
            final(self)@ == (AudioState { events: Seq::empty(), ..old(self)@ }),
    {
        let mut events: Vec<ConnectionEvent> = Vec::new();
        events.append(&mut self.events);
        assert(events@ =~= old(self)@.events);
        events
    }

    fn publish(&mut self)
        ensures
            final(self)@ == (AudioState {
                events: old(self)@.events.push(audio_changed(old(self)@.current)),
                ..old(self)@
            }),
    {
        let event = ConnectionEvent::AudioChanged {
            generation: self.current.generation(),
            phase: self.current.phase(),
        };
        self.events.push(event);
    }

    /// Enters a phase.
    pub fn phase(&mut self, phase: AudioPhase)
        ensures
            final(self)@ == old(self)@.phase(phase),
    {
        if self.current.phase() == phase {
            return;
        }
        self.current.set_phase(phase);
        self.publish();
    }

    /// Admits a new source.
    pub fn replace_generation(&mut self, generation: SourceGeneration)
        ensures
            final(self)@ == old(self)@.replace_generation(generation),
    {
        self.current.set_generation(generation);
        self.phase(AudioPhase::WaitingForSource);
    }

    /// Lets the current source count no more.
    pub fn invalidate_generation(&mut self, generation: SourceGeneration)
        ensures
            final(self)@ == old(self)@.invalidate_generation(generation),
    {
        self.current.set_generation(generation);
    }

    /// Fails the sender.
    pub fn fail(&mut self, error: &Error)
        ensures
            final(self)@ == old(self)@.fail(error@),
    {
        self.current.set_failure(error);
        self.publish();
    }
}

/// A failure keeps its DAVE cause until the next source, whose state starts clean.
pub proof fn failures_last_until_the_next_source(
    state: AudioState,
    error: crate::error::ErrorView,
    generation: SourceGeneration,
)
    ensures
        state.fail(error).current.phase == AudioPhase::Failed,
        state.fail(error).current.failure == Some(error.kind),
        state.fail(error).current.dave_failure == error.dave_failure(),
        state.fail(error).current.dave_context == error.dave_context,
        state.fail(error).stats == state.stats,
        ({
            let next = state.fail(error).replace_generation(generation);
            &&& next.current.generation == generation
            &&& next.current.phase == AudioPhase::WaitingForSource
            &&& next.current.failure is None
            &&& next.current.dave_failure is None
            &&& next.current.dave_context is None
            &&& next.stats == state.stats
        }),
{
}

/// A phase is entered once: the change is told by one event with the phase and the source
/// in force, and the same phase again is no change. A failure and a new source tell of
/// themselves in the same way; a source that counts no more does not.
pub proof fn phases_of_a_sender_are_told_once(
    state: AudioState,
    phase: AudioPhase,
    error: crate::error::ErrorView,
    generation: SourceGeneration,
)
    ensures
        state.current.phase == phase ==> state.phase(phase) == state,
        state.current.phase != phase ==> {
            let after = state.phase(phase);
            &&& after.current.phase == phase
            &&& after.current.generation == state.current.generation
            &&& after.current.failure == state.current.failure
            &&& after.stats == state.stats
            &&& after.events.len() == state.events.len() + 1
            &&& after.events.drop_last() == state.events
            &&& after.events.last() == (ConnectionEvent::AudioChanged {
                generation: state.current.generation,
                phase,
            })
        },
        state.fail(error).events.drop_last() == state.events,
        state.fail(error).events.last() == (ConnectionEvent::AudioChanged {
            generation: state.current.generation,
            phase: AudioPhase::Failed,
        }),
        state.current.phase != AudioPhase::WaitingForSource ==> {
            &&& state.replace_generation(generation).events.drop_last() == state.events
            &&& state.replace_generation(generation).events.last() == (
            ConnectionEvent::AudioChanged { generation, phase: AudioPhase::WaitingForSource })
        },
        state.invalidate_generation(generation).events == state.events,
        state.invalidate_generation(generation).current.generation == generation,
        state.invalidate_generation(generation).current.phase == state.current.phase,
        state.invalidate_generation(generation).current.failure is None,
{
    assert(state.phase(phase).events.drop_last() =~= state.events || state.current.phase == phase);
    assert(state.fail(error).events.drop_last() =~= state.events);
    assert(state.current.phase != AudioPhase::WaitingForSource ==> state.replace_generation(
        generation,
    ).events.drop_last() =~= state.events);
}

} // verus!
