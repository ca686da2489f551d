//! A connection from its first attempt to its end: when an attempt is made, when it waits,
//! and what is answered while no session runs.
use vstd::prelude::*;

use crate::error::{Error, ErrorKind};
use crate::gateway::failure::Attempt;
use crate::gateway::info::ValidatedInfo;
use crate::gateway::link::{
    Continuation, IdleCommand, InstalledTransport, Link, LinkState, SessionOutcome,
};
use crate::model::{CloseReason, ConnectionGeneration, ConnectionPhase};

verus! {

/// Where a connection stands.
pub enum Course {
    /// Its first attempt is to begin.
    Setting,
    /// The gateway is being reached.
    Connecting,
    /// A session runs.
    Conversing,
    /// The next attempt waits for its time.
    Pausing,
    /// Fresh voice information is awaited.
    Awaiting,
    /// The transport is being invalidated to make room for fresh voice information.
    Replacing(ValidatedInfo),
    /// It is over.
    Over,
}

/// What happens to a connection while no session runs, and how a session ended.
pub enum CourseEvent {
    /// The first attempt may begin.
    Begin,
    /// The connection is to shut down.
    Stopped,
    /// Nobody is left who could ask for anything.
    Forsaken,
    /// A command asks for something that only a session can do.
    Asked(IdleCommand),
    /// An audio sender gives its transport back.
    Returned { audio_id: u64, transport: InstalledTransport },
    /// A caller asks for a start from fresh voice information.
    ReplacementAsked(ValidatedInfo),
    /// The old transport admits no more sends, and the admitted ones have ended.
    Invalidated,
    /// The gateway was reached.
    Connected,
    /// The gateway was not reached, be it for lack of time.
    NotConnected { timed_out: bool },
    /// The session ended.
    SessionEnded(SessionOutcome),
    /// The pause is over.
    Elapsed,
}

/// What the command at hand is answered.
pub enum CourseAnswer {
    /// It is refused.
    Refused(Error),
    /// The fresh voice information is in force under this generation.
    Replaced(ConnectionGeneration),
    /// The transport was taken back.
    Released,
}

/// What is to be done next.
#[derive(Clone, Copy, Debug, PartialEq, Eq)]
pub enum Errand {
    /// Go on waiting for what was waited for.
    Wait,
    /// Reach the gateway.
    Connect,
    /// Run a session.
    Converse,
    /// Pause for this many milliseconds.
    Pause(u64),
    /// Wait for fresh voice information.
    Await,
    /// Admit no more sends over the transport, if there is one, and let the admitted ones
    /// end.
    Invalidate,
    /// Stop.
    Finish,
}

/// An answer to the command at hand, where there is one, and what comes next.
pub struct CourseStep {
    pub answer: Option<CourseAnswer>,
    pub errand: Errand,
}

/// A step of a connection: from a state, under an event, to a state and a step.
pub ghost struct Leg {
    pub before: Course,
    pub link: LinkState,
    pub after: Course,
    pub link_after: LinkState,
    pub step: CourseStep,
}

impl Leg {
    /// The connection shuts down.
    pub open spec fn shuts_down(self) -> bool {
        &&& self.link_after == self.link.shut_down()
        &&& self.after is Over
        &&& self.step.errand is Finish
    }

    /// The next attempt begins, unless the connection is to shut down.
    pub open spec fn begins(self, stopped: bool) -> bool {
        if stopped {
            self.shuts_down()
        } else {
            &&& self.link_after == self.link.attempt_begun()
            &&& self.after is Connecting
            &&& self.step.errand is Connect
        }
    }

    /// The connection goes on as it was decided.
    pub open spec fn continues(self, continuation: Continuation, stopped: bool) -> bool {
        match continuation {
            Continuation::Retry => self.begins(stopped),
            Continuation::Backoff(millis) => {
                &&& self.link_after == self.link
                &&& self.after is Pausing
                &&& self.step.errand == Errand::Pause(millis)
            },
            Continuation::AwaitReplacement => {
                &&& self.link_after == self.link
                &&& self.after is Awaiting
                &&& self.step.errand is Await
            },
            Continuation::Finished => {
                &&& self.link_after == self.link
                &&& self.after is Over
                &&& self.step.errand is Finish
            },
        }
    }

    /// The connection waits for what it waited for. Only a pause is cut short by a
    /// command.
    pub open spec fn waits_on(self, stopped: bool) -> bool {
        if self.before is Pausing {
            self.begins(stopped)
        } else {
            &&& self.link_after == self.link
            &&& self.after == self.before
            &&& self.step.errand is Wait
        }
    }

    /// The command at hand is refused with this failure.
    pub open spec fn refuses(self, failure: crate::error::ErrorView) -> bool {
        self.step.answer matches Some(CourseAnswer::Refused(error)) && error@ == failure
    }

    /// What a command that only a session can carry out leads to.
    pub open spec fn asked(self, command: IdleCommand, stopped: bool) -> bool {
        &&& self.refuses(
            if self.before is Awaiting {
                crate::gateway::link::awaiting_answer(command, self.link.generation())
            } else {
                crate::gateway::link::idle_answer(command, self.link.generation())
            },
        )
        &&& self.waits_on(stopped)
    }

    /// What a transport that is given back leads to. One that comes while fresh voice
    /// information is awaited is dropped.
    pub open spec fn returned(
        self,
        audio_id: u64,
        transport: InstalledTransport,
        stopped: bool,
    ) -> bool {
        let link = if self.before is Awaiting {
            self.link
        } else {
            self.link.detached(audio_id, transport@)
        };
        &&& self.step.answer is Some
        &&& self.step.answer->0 is Released
        &&& (Leg { link, ..self }).waits_on(stopped)
    }

    /// What fresh voice information that is asked for leads to. Without a generation for
    /// it the connection fails.
    pub open spec fn replacement_asked(self, info: ValidatedInfo, stopped: bool) -> bool {
        if self.link.generation().number() == u64::MAX {
            &&& self.refuses(
                crate::gateway::failure::generation_exhausted_failure(self.link.generation()),
            )
            &&& (Leg { link: self.link.replacement_admitted(None), ..self }).waits_on(stopped)
        } else {
            &&& self.link_after == self.link
            &&& self.after == Course::Replacing(info)
            &&& self.step.answer is None
            &&& self.step.errand is Invalidate
        }
    }

    /// What follows once the old transport is out of the way: the fresh voice information
    /// is in force under the next generation, and an attempt begins.
    pub open spec fn replaced(self, info: ValidatedInfo, stopped: bool) -> bool {
        if self.link.generation().number() == u64::MAX {
            &&& self.refuses(
                crate::gateway::failure::generation_exhausted_failure(self.link.generation()),
            )
            &&& (Leg { link: self.link.replacement_admitted(None), ..self }).begins(stopped)
        } else {
            &&& self.step.answer matches Some(CourseAnswer::Replaced(next))
            &&& next.number() == self.link.generation().number() + 1
            &&& (Leg {
                link: self.link.replacement_admitted(Some(next)).replaced(info@),
                ..self
            }).begins(stopped)
        }
    }

    /// Whether the connection waits without a session.
    pub open spec fn idle(self) -> bool {
        self.before is Connecting || self.before is Pausing || self.before is Awaiting
    }

    /// What a connection does about an event. An event that does not belong to where it
    /// stands changes nothing.
    pub open spec fn follows(self, event: CourseEvent, stopped: bool) -> bool {
        let silent = self.step.answer is None;
        match (self.before, event) {
            (Course::Setting, CourseEvent::Begin) => silent && self.begins(stopped),
            (Course::Pausing, CourseEvent::Elapsed) => silent && self.begins(stopped),
            (Course::Connecting, CourseEvent::Connected) => {
                &&& silent
                &&& self.link_after == self.link.stored(
                    self.link.store.phase_to(ConnectionPhase::Handshaking),
                )
                &&& self.after is Conversing
                &&& self.step.errand is Converse
            },
            (Course::Connecting, CourseEvent::NotConnected { timed_out }) => {
                &&& silent
                &&& exists|continuation: Continuation|
                    {
                        &&& #[trigger] self.link.connect_continues(timed_out, continuation)
                        &&& (Leg {
                            link: self.link.connect_failed(self.link.connect_failure(timed_out)),
                            ..self
                        }).continues(continuation, stopped)
                    }
            },
            (Course::Conversing, CourseEvent::SessionEnded(outcome)) => {
                &&& silent
                &&& exists|continuation: Continuation|
                    {
                        &&& #[trigger] self.link.continues(outcome.value(), continuation)
                        &&& (Leg {
                            link: self.link.session_ended(outcome.value()),
                            ..self
                        }).continues(continuation, stopped)
                    }
            },
            (Course::Replacing(info), CourseEvent::Invalidated) => self.replaced(info, stopped),
            (_, CourseEvent::Stopped) if self.idle() => silent && self.shuts_down(),
            (_, CourseEvent::Forsaken) if self.idle() => silent && self.shuts_down(),
            (_, CourseEvent::Asked(command)) if self.idle() => self.asked(command, stopped),
            (_, CourseEvent::Returned { audio_id, transport }) if self.idle() => self.returned(
                audio_id,
                transport,
                stopped,
            ),
            (_, CourseEvent::ReplacementAsked(info)) if self.idle() => self.replacement_asked(
                info,
                stopped,
            ),
            _ => {
                &&& silent
                &&& self.link_after == self.link
                &&& self.after == self.before
                &&& self.step.errand is Wait
            },
        }
    }
}

impl Course {
    /// A connection that was just asked for.
    pub fn new() -> (course: Self)
        ensures
            course is Setting,
    {
        Course::Setting
    }

    fn begin(&mut self, link: &mut Link, answer: Option<CourseAnswer>, stopped: bool) -> (step:
        CourseStep)
        ensures
            step.answer == answer,
            (Leg {
                before: *old(self),
                link: old(link)@,
                after: *final(self),
                link_after: final(link)@,
                step,
            }).begins(stopped),
    {
        if stopped {
            link.finish_shutdown();
            *self = Course::Over;
            return CourseStep { answer, errand: Errand::Finish };
        }
        link.begin_attempt();
        *self = Course::Connecting;
        CourseStep { answer, errand: Errand::Connect }
    }

    fn go_on(&mut self, link: &mut Link, continuation: Continuation, stopped: bool) -> (step:
        CourseStep)
        ensures
            step.answer is None,
            (Leg {
                before: *old(self),
                link: old(link)@,
                after: *final(self),
                link_after: final(link)@,
                step,
            }).continues(continuation, stopped),
    {
        match continuation {
            Continuation::Retry => self.begin(link, None, stopped),
            Continuation::Backoff(millis) => {
                *self = Course::Pausing;
                CourseStep { answer: None, errand: Errand::Pause(millis) }
            },
            Continuation::AwaitReplacement => {
                *self = Course::Awaiting;
                CourseStep { answer: None, errand: Errand::Await }
            },
            Continuation::Finished => {
                *self = Course::Over;
                CourseStep { answer: None, errand: Errand::Finish }
            },
        }
    }

    fn wait_on(&mut self, link: &mut Link, answer: CourseAnswer, stopped: bool) -> (step: CourseStep)
        ensures
            step.answer == Some(answer),
            (Leg {
                before: *old(self),
                link: old(link)@,
                after: *final(self),
                link_after: final(link)@,
                step,
            }).waits_on(stopped),
    {
        if let Course::Pausing = self {
            return self.begin(link, Some(answer), stopped);
        }
        CourseStep { answer: Some(answer), errand: Errand::Wait }
    }

    fn shut_down(&mut self, link: &mut Link) -> (step: CourseStep)
        ensures
            step.answer is None,
            (Leg {
                before: *old(self),
                link: old(link)@,
                after: *final(self),
                link_after: final(link)@,
                step,
            }).shuts_down(),
    {
        link.finish_shutdown();
        *self = Course::Over;
        CourseStep { answer: None, errand: Errand::Finish }
    }

    fn ask_replacement(&mut self, link: &mut Link, info: ValidatedInfo, stopped: bool) -> (step:
        CourseStep)
        ensures
            (Leg {
                before: *old(self),
                link: old(link)@,
                after: *final(self),
                link_after: final(link)@,
                step,
            }).replacement_asked(info, stopped),
    {
        if link.store.generation().next().is_some() {
            *self = Course::Replacing(info);
            return CourseStep { answer: None, errand: Errand::Invalidate };
        }
        match link.admit_replacement() {
            Ok(next) => self.wait_on(link, CourseAnswer::Replaced(next), stopped),
            Err(error) => self.wait_on(link, CourseAnswer::Refused(error), stopped),
        }
    }

    fn replace(&mut self, link: &mut Link, info: ValidatedInfo, stopped: bool) -> (step: CourseStep)
        ensures
            (Leg {
                before: *old(self),
                link: old(link)@,
                after: *final(self),
                link_after: final(link)@,
                step,
            }).replaced(info, stopped),
    {
        match link.admit_replacement() {
            Ok(next) => {
                link.replace_info(info);
                self.begin(link, Some(CourseAnswer::Replaced(next)), stopped)
            },
            Err(error) => self.begin(link, Some(CourseAnswer::Refused(error)), stopped),
        }
    }

    /// Takes an event: the connection moves on, and the result says what is to be done
    /// next. `stopped` tells whether the connection is to shut down.
    pub fn step(&mut self, link: &mut Link, event: CourseEvent, stopped: bool) -> (step: CourseStep)
        ensures
            (Leg {
                before: *old(self),
                link: old(link)@,
                after: *final(self),
                link_after: final(link)@,
                step,
            }).follows(event, stopped),
    {
        let idle = match self {
            Course::Connecting | Course::Pausing | Course::Awaiting => true,
            _ => false,
        };
        let awaiting = match self {
            Course::Awaiting => true,
            _ => false,
        };
        match event {
            CourseEvent::Begin => {
                if let Course::Setting = self {
                    return self.begin(link, None, stopped);
                }
            },
            CourseEvent::Elapsed => {
                if let Course::Pausing = self {
                    return self.begin(link, None, stopped);
                }
            },
            CourseEvent::Connected => {
                if let Course::Connecting = self {
                    link.store.phase_to(ConnectionPhase::Handshaking);
                    *self = Course::Conversing;
                    return CourseStep { answer: None, errand: Errand::Converse };
                }
            },
            CourseEvent::NotConnected { timed_out } => {
                if let Course::Connecting = self {
                    let continuation = link.connect_failed(timed_out);
                    assert(old(link)@.connect_continues(timed_out, continuation));
                    return self.go_on(link, continuation, stopped);
                }
            },
            CourseEvent::SessionEnded(outcome) => {
                if let Course::Conversing = self {
                    let continuation = link.session_ended(outcome);
                    assert(old(link)@.continues(outcome.value(), continuation));
                    return self.go_on(link, continuation, stopped);
                }
            },
            CourseEvent::Invalidated => {
                let mut course = Course::Over;
                core::mem::swap(self, &mut course);
                if let Course::Replacing(info) = course {
                    return self.replace(link, info, stopped);
                }
                *self = course;
            },
            CourseEvent::Stopped | CourseEvent::Forsaken => {
                if idle {
                    return self.shut_down(link);
                }
            },
            CourseEvent::Asked(command) => {
                if idle {
                    let error = if awaiting {
                        link.answer_awaiting(command)
                    } else {
                        link.answer_idle(command)
                    };
                    return self.wait_on(link, CourseAnswer::Refused(error), stopped);
                }
            },
            CourseEvent::Returned { audio_id, transport } => {
                if idle {
                    if !awaiting {
                        link.detach_audio(audio_id, transport);
                    }
                    return self.wait_on(link, CourseAnswer::Released, stopped);
                }
            },
            CourseEvent::ReplacementAsked(info) => {
                if idle {
                    return self.ask_replacement(link, info, stopped);
                }
            },
        }
        CourseStep { answer: None, errand: Errand::Wait }
    }
}

/// A connection that is to shut down begins no attempt, and one that is over does nothing
/// more.
pub proof fn stopped_connections_attempt_nothing(leg: Leg, event: CourseEvent, stopped: bool)
    requires
        leg.follows(event, stopped),
        stopped || leg.before is Over,
    ensures
        leg.step.errand !is Connect,
        leg.before is Over ==> leg.after is Over && leg.link_after == leg.link,
{
}

/// While fresh voice information is awaited no attempt is made, and nothing but such
/// information or the end of the connection ends the wait.
pub proof fn nothing_is_attempted_while_awaiting(leg: Leg, event: CourseEvent, stopped: bool)
    requires
        leg.follows(event, stopped),
        leg.before is Awaiting,
    ensures
        leg.after is Awaiting || leg.after is Replacing || leg.after is Over,
        leg.step.errand !is Connect,
        leg.after is Replacing ==> event is ReplacementAsked,
{
}

/// The next generation begins only behind a transport that admits no more sends.
pub proof fn replacements_wait_for_the_old_transport(leg: Leg, event: CourseEvent, stopped: bool)
    requires
        leg.follows(event, stopped),
        leg.link_after.generation() != leg.link.generation(),
    ensures
        leg.before is Replacing,
        event is Invalidated,
{
}

/// Every command that asks for something while no session runs is answered at once, but
/// for fresh voice information, which is answered once the old transport is out of the
/// way.
pub proof fn idle_commands_are_answered(leg: Leg, event: CourseEvent, stopped: bool)
    requires
        leg.follows(event, stopped),
        leg.idle() && (event is Asked || event is Returned || event is ReplacementAsked)
            || leg.before is Replacing && event is Invalidated,
    ensures
        leg.step.answer is None ==> leg.after is Replacing && event is ReplacementAsked,
{
}

/// A gateway that was not reached in time is reached for again at once; one that refused is
/// reached for after a pause. Beyond the budget of four attempts the connection is over.
pub proof fn unreached_gateways_are_reached_for_again(leg: Leg, timed_out: bool, stopped: bool)
    requires
        leg.follows(CourseEvent::NotConnected { timed_out }, stopped),
        leg.before is Connecting,
        !stopped,
    ensures
        leg.link.reconnect_attempts < 4 && timed_out ==> {
            &&& leg.step.errand is Connect
            &&& leg.after is Connecting
        },
        leg.link.reconnect_attempts < 4 && !timed_out ==> {
            &&& leg.step.errand matches Errand::Pause(millis)
            &&& 50 <= millis <= 600
            &&& leg.after is Pausing
        },
        leg.link.reconnect_attempts < 4 ==> {
            &&& leg.link_after.reconnect_attempts == leg.link.reconnect_attempts + 1
            &&& leg.link_after.latest_sequence == leg.link.latest_sequence
            &&& leg.link_after.transport == leg.link.transport
            &&& leg.link.latest_sequence is Some <==> leg.link_after.attempt == Attempt::Resume
        },
        leg.link.reconnect_attempts >= 4 ==> {
            &&& leg.step.errand is Finish
            &&& leg.after is Over
            &&& leg.link_after.store.current.phase == ConnectionPhase::Failed
        },
        leg.step.answer is None,
{
    crate::gateway::backoff::delays_double((leg.link.reconnect_attempts + 1) as u8, leg.link.info);
}

/// A gateway that was reached is spoken to, in the handshaking phase; a pause that is over,
/// and a first attempt, reach for the gateway.
pub proof fn reached_gateways_are_spoken_to(leg: Leg, stopped: bool)
    ensures
        leg.before is Connecting && leg.follows(CourseEvent::Connected, stopped) ==> {
            &&& leg.after is Conversing
            &&& leg.step.errand is Converse
            &&& leg.link_after.store.current.phase == ConnectionPhase::Handshaking
            &&& leg.link_after.attempt == leg.link.attempt
            &&& leg.link_after.latest_sequence == leg.link.latest_sequence
        },
        leg.before is Pausing && leg.follows(CourseEvent::Elapsed, stopped) && !stopped ==> {
            &&& leg.after is Connecting
            &&& leg.step.errand is Connect
            &&& leg.link_after.attempt == leg.link.attempt
        },
        leg.before is Setting && leg.follows(CourseEvent::Begin, stopped) && !stopped ==> {
            &&& leg.after is Connecting
            &&& leg.step.errand is Connect
        },
{
}

/// A connection that is shut down while no session runs is closed on request, unless it
/// failed before, and a caller who still waits to connect learns of it.
pub proof fn idle_connections_shut_down(leg: Leg, event: CourseEvent, stopped: bool)
    requires
        leg.follows(event, stopped),
        leg.idle(),
        event is Stopped || event is Forsaken,
    ensures
        leg.after is Over,
        leg.step.errand is Finish,
        leg.link.store.current.phase != ConnectionPhase::Failed
            && leg.link.store.current.phase != ConnectionPhase::Closed ==> {
            &&& leg.link_after.store.current.phase == ConnectionPhase::Closed
            &&& leg.link_after.store.current.close_reason == Some(CloseReason::ExplicitShutdown)
        },
        leg.link.initial is Waiting ==> leg.link_after.initial is Ready,
{
}

/// A command that only a session can carry out is refused, as one that needs fresh voice
/// information exactly where that is awaited; it cuts a pause short and nothing else.
pub proof fn idle_commands_cut_the_pause_short(
    leg: Leg,
    command: IdleCommand,
    stopped: bool,
)
    requires
        leg.follows(CourseEvent::Asked(command), stopped),
        leg.idle(),
        !stopped,
    ensures
        leg.step.answer matches Some(CourseAnswer::Refused(error)) && (error@.kind
            == ErrorKind::NeedsFreshVoiceInfo <==> leg.before is Awaiting),
        leg.before is Pausing ==> leg.after is Connecting && leg.step.errand is Connect,
        leg.before !is Pausing ==> leg.after == leg.before && leg.step.errand is Wait
            && leg.link_after == leg.link,
{
}

/// A transport that is given back while the gateway is reached for frees its place; while
/// fresh voice information is awaited it is dropped.
pub proof fn idle_returns_free_the_place(
    leg: Leg,
    audio_id: u64,
    transport: InstalledTransport,
    stopped: bool,
)
    requires
        leg.follows(CourseEvent::Returned { audio_id, transport }, stopped),
        leg.link.attachment == Some(audio_id),
        leg.idle(),
        !stopped,
    ensures
        leg.step.answer matches Some(CourseAnswer::Released),
        leg.before !is Awaiting ==> leg.link_after.attachment is None,
        leg.before is Awaiting ==> leg.link_after == leg.link,
{
}

/// Fresh voice information is in force once the old transport is out of the way: the link
/// starts over with it under the following generation, and an attempt identifies with it.
pub proof fn fresh_voice_information_takes_over(
    leg: Leg,
    info: ValidatedInfo,
    stopped: bool,
)
    ensures
        leg.idle() && leg.follows(CourseEvent::ReplacementAsked(info), stopped)
            && leg.link.generation().number() < u64::MAX ==> {
            &&& leg.after == Course::Replacing(info)
            &&& leg.step.errand is Invalidate
            &&& leg.step.answer is None
            &&& leg.link_after == leg.link
        },
        leg.before == Course::Replacing(info) && leg.follows(CourseEvent::Invalidated, stopped)
            && leg.link.generation().number() < u64::MAX && !stopped ==> {
            &&& leg.step.answer matches Some(CourseAnswer::Replaced(next))
            &&& next.number() == leg.link.generation().number() + 1
            &&& leg.link_after.generation() == next
            &&& leg.link_after.info == info@
            &&& leg.link_after.attempt == Attempt::Identify
            &&& leg.link_after.transport is None
            &&& leg.link_after.latest_sequence is None
            &&& leg.link_after.reconnect_attempts == 0
            &&& leg.step.errand is Connect
            &&& leg.after is Connecting
        },
{
}

/// A session that ended leads on as its outcome says: to an attempt after a pause where it is
/// to be resumed or identified afresh, to the wait for fresh voice information, or to the end.
pub proof fn ended_sessions_lead_on(leg: Leg, outcome: SessionOutcome, stopped: bool)
    requires
        leg.follows(CourseEvent::SessionEnded(outcome), stopped),
        leg.before is Conversing,
        leg.link.reconnect_attempts < 4,
        !stopped,
    ensures
        outcome is Resume || outcome is FreshIdentify <==> leg.after is Pausing,
        outcome is NeedsFresh <==> leg.after is Awaiting,
        outcome is Replace <==> leg.after is Connecting,
        outcome is Fatal || outcome is CleanRemote || outcome is Shutdown <==> leg.after is Over,
        leg.after is Pausing <==> leg.step.errand is Pause,
        leg.after is Awaiting <==> leg.step.errand is Await,
        leg.after is Over <==> leg.step.errand is Finish,
        leg.step.answer is None,
{
}

/// A connection that is to shut down is closed where its next attempt would have begun: at the
/// first one, after a pause, and after a gateway that was not reached in time.
pub proof fn shutdowns_take_the_place_of_attempts(leg: Leg, event: CourseEvent)
    requires
        leg.follows(event, true),
        ({
            ||| leg.before is Setting && event is Begin
            ||| leg.before is Pausing && event is Elapsed
            ||| leg.before is Connecting && event == (CourseEvent::NotConnected { timed_out: true })
                && leg.link.reconnect_attempts < 4
        }),
        leg.link.store.current.phase != ConnectionPhase::Failed,
        leg.link.store.current.phase != ConnectionPhase::Closed,
    ensures
        leg.after is Over,
        leg.step.errand is Finish,
        leg.step.answer is None,
        leg.link_after.store.current.phase == ConnectionPhase::Closed,
        leg.link_after.store.current.close_reason == Some(CloseReason::ExplicitShutdown),
{
}

/// An event that does not belong to where a connection stands changes nothing: during a
/// session only its end counts, before the first attempt only its beginning, and while a
/// transport is invalidated only that this is done.
pub proof fn events_out_of_place_change_nothing(leg: Leg, event: CourseEvent, stopped: bool)
    requires
        leg.follows(event, stopped),
        ({
            ||| leg.before is Conversing && event !is SessionEnded
            ||| leg.before is Setting && event !is Begin
            ||| leg.before is Replacing && event !is Invalidated
            ||| leg.before is Over
            ||| leg.before is Awaiting && (event is Begin || event is Connected || event
                is NotConnected || event is SessionEnded || event is Elapsed || event
                is Invalidated)
            ||| leg.before is Connecting && (event is Begin || event is SessionEnded || event
                is Elapsed || event is Invalidated)
            ||| leg.before is Pausing && (event is Begin || event is Connected || event
                is NotConnected || event is SessionEnded || event is Invalidated)
        }),
    ensures
        leg.after == leg.before,
        leg.link_after == leg.link,
        leg.step.errand is Wait,
        leg.step.answer is None,
{
}

/// Without a generation left, fresh voice information is refused for want of room and the
/// connection is marked as failed; the generation stays.
pub proof fn exhausted_generations_refuse_replacements(
    leg: Leg,
    info: ValidatedInfo,
    stopped: bool,
)
    requires
        leg.follows(CourseEvent::ReplacementAsked(info), stopped),
        leg.before is Connecting || leg.before is Awaiting,
        leg.link.generation().number() == u64::MAX,
    ensures
        leg.step.answer matches Some(CourseAnswer::Refused(error)) && error@.kind
            == ErrorKind::ResourceLimit,
        leg.link_after.generation() == leg.link.generation(),
        leg.link_after.store.current.phase == ConnectionPhase::Failed,
        leg.after == leg.before,
        leg.step.errand is Wait,
{
}

} // verus!
