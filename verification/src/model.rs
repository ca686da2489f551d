//! Values that callers see: connection information, generations, snapshots and events.
//!
//! Durations are whole nanoseconds.
use vstd::prelude::*;
use vstd::string::*;

use crate::error::{DaveContext, DaveFailure, Error, ErrorKind, Operation, RetryDisposition};
use crate::text::{decimal_text, quoted};

verus! {

/// A secret credential for one voice session.
///
/// The type has no textual form but the redacted one.
pub struct VoiceToken {
    secret: String,
}

impl VoiceToken {
    /// The secret itself.
    pub closed spec fn secret_text(self) -> Seq<char> {
        self.secret@
    }

    /// Takes ownership of a credential.
    pub fn new(value: String) -> (token: Self)
        ensures
            token.secret_text() == value@,
    {
        VoiceToken { secret: value }
    }

    /// Returns the secret, for the payload that needs it.
    pub fn expose(&self) -> (secret: &str)
        ensures
            secret@ == self.secret_text(),
    {
        self.secret.as_str()
    }

    /// Returns the textual form of any token; it is the same for all of them.
    pub fn redacted(&self) -> (text: &'static str)
        ensures
            text@ == "VoiceToken([REDACTED])"@,
    {
        "VoiceToken([REDACTED])"
    }

    /// Copies the token.
    pub fn duplicate(&self) -> (token: Self)
        ensures
            token.secret_text() == self.secret_text(),
    {
        VoiceToken { secret: self.secret.clone() }
    }
}

/// Everything that one voice connection needs from the main gateway.
pub struct VoiceConnectInfo {
    server_id: u64,
    user_id: u64,
    channel_id: u64,
    session_id: String,
    endpoint: String,
    token: VoiceToken,
}

/// The mathematical form of a [`VoiceConnectInfo`].
pub ghost struct ConnectInfo {
    pub server_id: u64,
    pub user_id: u64,
    pub channel_id: u64,
    pub session_id: Seq<char>,
    pub endpoint: Seq<char>,
    pub token: Seq<char>,
}

impl View for VoiceConnectInfo {
    type V = ConnectInfo;

    closed spec fn view(&self) -> ConnectInfo {
        ConnectInfo {
            server_id: self.server_id,
            user_id: self.user_id,
            channel_id: self.channel_id,
            session_id: self.session_id@,
            endpoint: self.endpoint@,
            token: self.token.secret_text(),
        }
    }
}

impl VoiceConnectInfo {
    /// Gathers the connection information.
    pub fn new(
        server_id: u64,
        user_id: u64,
        channel_id: u64,
        session_id: String,
        endpoint: String,
        token: VoiceToken,
    ) -> (info: Self)
        ensures
            info@ == (ConnectInfo {
                server_id,
                user_id,
                channel_id,
                session_id: session_id@,
                endpoint: endpoint@,
                token: token.secret_text(),
            }),
    {
        VoiceConnectInfo { server_id, user_id, channel_id, session_id, endpoint, token }
    }

    /// Returns the server (guild) identifier.
    pub fn server_id(&self) -> (id: u64)
        ensures
            id == self@.server_id,
    {
        self.server_id
    }

    /// Returns the user identifier.
    pub fn user_id(&self) -> (id: u64)
        ensures
            id == self@.user_id,
    {
        self.user_id
    }

    /// Returns the voice channel identifier.
    pub fn channel_id(&self) -> (id: u64)
        ensures
            id == self@.channel_id,
    {
        self.channel_id
    }

    /// Returns the session identifier.
    pub fn session_id(&self) -> (id: &str)
        ensures
            id@ == self@.session_id,
    {
        self.session_id.as_str()
    }

    /// Returns the endpoint.
    pub fn endpoint(&self) -> (endpoint: &str)
        ensures
            endpoint@ == self@.endpoint,
    {
        self.endpoint.as_str()
    }

    /// Returns the credential, for the payload that needs it.
    pub fn token(&self) -> (token: &str)
        ensures
            token@ == self@.token,
    {
        self.token.expose()
    }

    /// Copies the connection information.
    pub fn duplicate(&self) -> (info: Self)
        ensures
            info@ == self@,
    {
        VoiceConnectInfo {
            server_id: self.server_id,
            user_id: self.user_id,
            channel_id: self.channel_id,
            session_id: self.session_id.clone(),
            endpoint: self.endpoint.clone(),
            token: self.token.duplicate(),
        }
    }

    /// Returns the text that diagnostics may show: the identifiers and the endpoint,
    /// with the session identifier and the credential blotted out.
    pub fn redacted(&self) -> (text: String)
        ensures
            text@ == redacted_info(self@, crate::text::debug_text(self@.endpoint)),
    {
        self.redacted_around(quoted(self.endpoint.as_str()).as_str())
    }

    /// Returns the text that diagnostics may show, around an endpoint in its quotes.
    pub fn redacted_around(&self, endpoint: &str) -> (text: String)
        ensures
            text@ == redacted_info(self@, endpoint@),
    {
        let mut text = "VoiceConnectInfo { server_id: ".to_owned();
        text.append(decimal_text(self.server_id).as_str());
        text.append(", user_id: ");
        text.append(decimal_text(self.user_id).as_str());
        text.append(", channel_id: ");
        text.append(decimal_text(self.channel_id).as_str());
        text.append(", session_id: \"[REDACTED]\", endpoint: ");
        text.append(endpoint);
        text.append(", token: \"[REDACTED]\" }");
        text
    }
}

/// The text that diagnostics may show of connection information, around an endpoint in
/// its quotes.
pub open spec fn redacted_info(info: ConnectInfo, endpoint: Seq<char>) -> Seq<char> {
    "VoiceConnectInfo { server_id: "@ + crate::text::decimal(info.server_id as nat)
        + ", user_id: "@ + crate::text::decimal(info.user_id as nat) + ", channel_id: "@
        + crate::text::decimal(info.channel_id as nat)
        + ", session_id: \"[REDACTED]\", endpoint: "@ + endpoint + ", token: \"[REDACTED]\" }"@
}

/// What diagnostics show does not depend on the session identifier or the
/// credential.
pub proof fn secrets_are_not_shown(left: ConnectInfo, right: ConnectInfo)
    requires
        left.server_id == right.server_id,
        left.user_id == right.user_id,
        left.channel_id == right.channel_id,
        left.endpoint == right.endpoint,
    ensures
        redacted_info(left, crate::text::debug_text(left.endpoint)) == redacted_info(
            right,
            crate::text::debug_text(right.endpoint),
        ),
{
}

/// A strictly positive number that voice information replacement moves on.
#[derive(Clone, Copy, Debug, PartialEq, Eq, PartialOrd, Ord, Hash, Structural)]
pub struct ConnectionGeneration {
    value: u64,
}

impl ConnectionGeneration {
    #[verifier::type_invariant]
    spec fn positive(self) -> bool {
        self.value > 0
    }

    /// The number of the generation.
    pub closed spec fn number(self) -> nat {
        self.value as nat
    }

    /// The generation that every connection starts in.
    pub fn first() -> (generation: Self)
        ensures
            generation.number() == 1,
    {
        ConnectionGeneration { value: 1 }
    }

    /// Returns the following generation, or `None` once the counter is exhausted.
    pub fn next(self) -> (generation: Option<Self>)
        ensures
            match generation {
                Some(following) => following.number() == self.number() + 1 <= u64::MAX,
                None => self.number() == u64::MAX,
            },
    {
        match self.value.checked_add(1) {
            Some(value) => Some(ConnectionGeneration { value }),
            None => None,
        }
    }

    /// Returns the number of the generation.
    pub fn get(self) -> (value: u64)
        ensures
            value == self.number(),
            value > 0,
    {
        proof {
            use_type_invariant(&self);
        }
        self.value
    }

    /// Generations with the same number are the same.
    pub proof fn number_identifies(left: Self, right: Self)
        ensures
            left.number() == right.number() <==> left == right,
    {
    }

    /// Returns whether two generations are the same.
    pub fn same(self, other: Self) -> (same: bool)
        ensures
            same == (self == other),
    {
        self.value == other.value
    }
}

/// A strictly positive number that audio source replacement moves on.
#[derive(Clone, Copy, Debug, PartialEq, Eq, PartialOrd, Ord, Hash, Structural)]
pub struct SourceGeneration {
    value: u64,
}

impl SourceGeneration {
    #[verifier::type_invariant]
    spec fn positive(self) -> bool {
        self.value > 0
    }

    /// The number of the generation.
    pub closed spec fn number(self) -> nat {
        self.value as nat
    }

    /// The generation that every sender starts in.
    pub fn first() -> (generation: Self)
        ensures
            generation.number() == 1,
    {
        SourceGeneration { value: 1 }
    }

    /// The following generation, if there is one.
    pub closed spec fn following(self) -> Option<SourceGeneration> {
        if self.value == u64::MAX {
            None
        } else {
            Some(SourceGeneration { value: (self.value + 1) as u64 })
        }
    }

    /// The following generation has the following number.
    pub proof fn following_counts(self)
        ensures
            match self.following() {
                Some(following) => following.number() == self.number() + 1 <= u64::MAX,
                None => self.number() == u64::MAX,
            },
    {
    }

    /// Every generation has a number of 64 bits.
    pub proof fn number_is_bounded(self)
        ensures
            self.number() <= u64::MAX,
    {
    }

    /// Returns the following generation, or `None` once the counter is exhausted.
    pub fn next(self) -> (generation: Option<Self>)
        ensures
            generation == self.following(),
            match generation {
                Some(following) => following.number() == self.number() + 1 <= u64::MAX,
                None => self.number() == u64::MAX,
            },
    {
        match self.value.checked_add(1) {
            Some(value) => Some(SourceGeneration { value }),
            None => None,
        }
    }

    /// Returns the number of the generation.
    pub fn get(self) -> (value: u64)
        ensures
            value == self.number(),
            value > 0,
    {
        proof {
            use_type_invariant(&self);
        }
        self.value
    }

    /// Generations with the same number are the same.
    pub proof fn number_identifies(left: Self, right: Self)
        ensures
            left.number() == right.number() <==> left == right,
    {
    }

    /// Returns whether two generations are the same.
    pub fn same(self, other: Self) -> (same: bool)
        ensures
            same == (self == other),
    {
        self.value == other.value
    }
}

/// Phases of a connection.
#[derive(Clone, Copy, Debug, PartialEq, Eq, Structural)]
#[non_exhaustive]
pub enum ConnectionPhase {
    /// The WebSocket is being established.
    Connecting,
    /// The gateway handshake is running.
    Handshaking,
    /// UDP discovery and protocol selection are running.
    EstablishingTransport,
    /// The transport is up and encryption of media is being set up.
    EstablishingDave,
    /// Media can be sent.
    Connected,
    /// A buffered resume is running.
    Resuming,
    /// A fresh identification is running after a failure.
    Reconnecting,
    /// Only fresh voice information can recover the connection.
    NeedsFreshVoiceInfo,
    /// Shutdown is running.
    Closing,
    /// The connection ended.
    Closed,
    /// The connection failed for good.
    Failed,
}

/// Phases of a paced sender.
#[derive(Clone, Copy, Debug, PartialEq, Eq, Structural)]
#[non_exhaustive]
pub enum AudioPhase {
    /// No sender is attached.
    Detached,
    /// The source has no frame.
    WaitingForSource,
    /// A first frame waits for Speaking or for the connection.
    Starting,
    /// Frames are sent on schedule.
    Sending,
    /// Silence is sent after the last frame.
    DrainingSilence,
    /// The sender ended.
    Stopped,
    /// The sender failed.
    Failed,
}

/// Counters of a paced sender.
#[derive(Clone, Copy, Debug, PartialEq, Eq)]
pub struct AudioStats {
    pub frames_sent: u64,
    pub silence_frames_sent: u64,
    pub frames_unavailable: u64,
    pub skipped_deadlines: u64,
    pub send_failures: u64,
    pub source_overruns: u64,
    pub max_lateness: u64,
    pub last_source_overrun_wall: u64,
    /// Where the platform tells.
    pub last_source_overrun_cpu: Option<u64>,
    /// Gaps between packets of at least 40, 100 and 1000 milliseconds.
    pub active_send_gap_counts: [u64; 3],
    pub max_active_send_gap: u64,
    pub last_active_send_gap: u64,
    pub last_active_send_gap_unix_ms: u64,
}

impl AudioStats {
    /// The counters of a sender that did nothing yet.
    pub open spec fn zero(self) -> bool {
        &&& self.frames_sent == 0
        &&& self.silence_frames_sent == 0
        &&& self.frames_unavailable == 0
        &&& self.skipped_deadlines == 0
        &&& self.send_failures == 0
        &&& self.source_overruns == 0
        &&& self.max_lateness == 0
        &&& self.last_source_overrun_wall == 0
        &&& self.last_source_overrun_cpu is None
        &&& self.active_send_gap_counts@ == seq![0u64, 0u64, 0u64]
        &&& self.max_active_send_gap == 0
        &&& self.last_active_send_gap == 0
        &&& self.last_active_send_gap_unix_ms == 0
    }

    /// Creates counters from the values of a sender, without overruns and gaps.
    pub fn from_values(
        frames_sent: u64,
        silence_frames_sent: u64,
        frames_unavailable: u64,
        skipped_deadlines: u64,
        send_failures: u64,
        source_overruns: u64,
        max_lateness: u64,
    ) -> (stats: Self)
        ensures
            stats.active_send_gap_counts@ == seq![0u64, 0u64, 0u64],
            stats == (AudioStats {
                frames_sent,
                silence_frames_sent,
                frames_unavailable,
                skipped_deadlines,
                send_failures,
                source_overruns,
                max_lateness,
                last_source_overrun_wall: 0,
                last_source_overrun_cpu: None,
                active_send_gap_counts: stats.active_send_gap_counts,
                max_active_send_gap: 0,
                last_active_send_gap: 0,
                last_active_send_gap_unix_ms: 0,
            }),
    {
        let active_send_gap_counts = [0u64, 0u64, 0u64];
        assert(active_send_gap_counts@ =~= seq![0u64, 0u64, 0u64]);
        AudioStats {
            frames_sent,
            silence_frames_sent,
            frames_unavailable,
            skipped_deadlines,
            send_failures,
            source_overruns,
            max_lateness,
            last_source_overrun_wall: 0,
            last_source_overrun_cpu: None,
            active_send_gap_counts,
            max_active_send_gap: 0,
            last_active_send_gap: 0,
            last_active_send_gap_unix_ms: 0,
        }
    }

    /// Records the latest source overrun.
    pub fn with_source_overrun(self, wall: u64, cpu: Option<u64>) -> (stats: Self)
        ensures
            stats == (AudioStats {
                last_source_overrun_wall: wall,
                last_source_overrun_cpu: cpu,
                ..self
            }),
    {
        AudioStats { last_source_overrun_wall: wall, last_source_overrun_cpu: cpu, ..self }
    }

    /// Records the gaps between packets.
    pub fn with_send_gaps(self, counts: [u64; 3], max: u64, last: u64, unix_ms: u64) -> (stats:
        Self)
        ensures
            stats == (AudioStats {
                active_send_gap_counts: counts,
                max_active_send_gap: max,
                last_active_send_gap: last,
                last_active_send_gap_unix_ms: unix_ms,
                ..self
            }),
    {
        AudioStats {
            active_send_gap_counts: counts,
            max_active_send_gap: max,
            last_active_send_gap: last,
            last_active_send_gap_unix_ms: unix_ms,
            ..self
        }
    }

    /// Returns the number of source frames sent.
    pub fn frames_sent(self) -> (value: u64)
        ensures
            value == self.frames_sent,
    {
        self.frames_sent
    }

    /// Returns the number of silence frames sent.
    pub fn silence_frames_sent(self) -> (value: u64)
        ensures
            value == self.silence_frames_sent,
    {
        self.silence_frames_sent
    }

    /// Returns the number of deadlines without a source frame.
    pub fn frames_unavailable(self) -> (value: u64)
        ensures
            value == self.frames_unavailable,
    {
        self.frames_unavailable
    }

    /// Returns the number of deadlines that passed without an opportunity.
    pub fn skipped_deadlines(self) -> (value: u64)
        ensures
            value == self.skipped_deadlines,
    {
        self.skipped_deadlines
    }

    /// Returns the number of failed sends.
    pub fn send_failures(self) -> (value: u64)
        ensures
            value == self.send_failures,
    {
        self.send_failures
    }

    /// Returns the number of source polls that took too long.
    pub fn source_overruns(self) -> (value: u64)
        ensures
            value == self.source_overruns,
    {
        self.source_overruns
    }

    /// Returns the elapsed time of the latest overrun.
    pub fn last_source_overrun_wall(self) -> (value: u64)
        ensures
            value == self.last_source_overrun_wall,
    {
        self.last_source_overrun_wall
    }

    /// Returns the processor time of the latest overrun, if there was one and the platform
    /// tells.
    pub fn last_source_overrun_cpu(self) -> (value: Option<u64>)
        ensures
            value == (if self.source_overruns != 0 {
                self.last_source_overrun_cpu
            } else {
                None
            }),
    {
        if self.source_overruns != 0 {
            self.last_source_overrun_cpu
        } else {
            None
        }
    }

    /// Returns the largest lateness of a deadline.
    pub fn max_lateness(self) -> (value: u64)
        ensures
            value == self.max_lateness,
    {
        self.max_lateness
    }

    /// Returns how many gaps between packets reached 40, 100 and 1000 milliseconds.
    pub fn active_send_gap_counts(self) -> (value: [u64; 3])
        ensures
            value == self.active_send_gap_counts,
    {
        self.active_send_gap_counts
    }

    /// Returns the largest counted gap between packets.
    pub fn max_active_send_gap(self) -> (value: u64)
        ensures
            value == self.max_active_send_gap,
    {
        self.max_active_send_gap
    }

    /// Returns the latest counted gap between packets and the Unix time in
    /// milliseconds at which it ended.
    pub fn last_active_send_gap(self) -> (value: (u64, u64))
        ensures
            value == (self.last_active_send_gap, self.last_active_send_gap_unix_ms),
    {
        (self.last_active_send_gap, self.last_active_send_gap_unix_ms)
    }
}

impl Default for AudioStats {
    fn default() -> (stats: Self)
        ensures
            stats.zero(),
    {
        AudioStats::from_values(0, 0, 0, 0, 0, 0, 0)
    }
}

/// The durable state of a paced sender.
#[derive(Clone, Copy, Debug, PartialEq, Eq)]
pub struct AudioSnapshot {
    pub generation: SourceGeneration,
    pub phase: AudioPhase,
    pub failure: Option<ErrorKind>,
    pub dave_failure: Option<DaveFailure>,
    pub dave_context: Option<DaveContext>,
    pub stats: AudioStats,
}

impl AudioSnapshot {
    /// The state after a new source generation was admitted.
    pub open spec fn with_generation(self, generation: SourceGeneration) -> AudioSnapshot {
        AudioSnapshot {
            generation,
            failure: None,
            dave_failure: None,
            dave_context: None,
            ..self
        }
    }

    /// The state after a failure.
    pub open spec fn with_failure(self, error: crate::error::ErrorView) -> AudioSnapshot {
        AudioSnapshot {
            failure: Some(error.kind),
            dave_failure: error.dave_failure(),
            dave_context: error.dave_context,
            phase: AudioPhase::Failed,
            ..self
        }
    }

    /// Creates the state of a new sender.
    pub fn initial() -> (snapshot: Self)
        ensures
            snapshot.generation.number() == 1,
            snapshot.phase == AudioPhase::WaitingForSource,
            snapshot.failure is None,
            snapshot.dave_failure is None,
            snapshot.dave_context is None,
            snapshot.stats.zero(),
    {
        AudioSnapshot {
            generation: SourceGeneration::first(),
            phase: AudioPhase::WaitingForSource,
            failure: None,
            dave_failure: None,
            dave_context: None,
            stats: AudioStats::default(),
        }
    }

    /// Returns the current source generation.
    pub fn generation(&self) -> (value: SourceGeneration)
        ensures
            value == self.generation,
    {
        self.generation
    }

    /// Returns the phase.
    pub fn phase(&self) -> (value: AudioPhase)
        ensures
            value == self.phase,
    {
        self.phase
    }

    /// Returns the failure that ended the sender.
    pub fn failure(&self) -> (value: Option<ErrorKind>)
        ensures
            value == self.failure,
    {
        self.failure
    }

    /// Returns the DAVE cause of the failure.
    pub fn dave_failure(&self) -> (value: Option<DaveFailure>)
        ensures
            value == self.dave_failure,
    {
        self.dave_failure
    }

    /// Returns the DAVE state observed at the failure.
    pub fn dave_context(&self) -> (value: Option<DaveContext>)
        ensures
            value == self.dave_context,
    {
        self.dave_context
    }

    /// Returns the counters.
    pub fn stats(&self) -> (value: AudioStats)
        ensures
            value == self.stats,
    {
        self.stats
    }

    /// Admits a source generation; what an earlier source failed with is forgotten.
    pub fn set_generation(&mut self, generation: SourceGeneration)
        ensures
            *final(self) == old(self).with_generation(generation),
    {
        self.generation = generation;
        self.failure = None;
        self.dave_failure = None;
        self.dave_context = None;
    }

    /// Enters a phase.
    pub fn set_phase(&mut self, phase: AudioPhase)
        ensures
            *final(self) == (AudioSnapshot { phase, ..*old(self) }),
    {
        self.phase = phase;
    }

    /// Records a failure.
    pub fn set_failure(&mut self, failure: &Error)
        ensures
            *final(self) == old(self).with_failure(failure@),
    {
        self.failure = Some(failure.kind());
        self.dave_failure = failure.dave_failure();
        self.dave_context = failure.dave_context();
        self.phase = AudioPhase::Failed;
    }

    /// Replaces the counters.
    pub fn set_stats(&mut self, stats: AudioStats)
        ensures
            *final(self) == (AudioSnapshot { stats, ..*old(self) }),
    {
        self.stats = stats;
    }
}

/// Why a connection ended.
#[derive(Clone, Copy, Debug, PartialEq, Eq, Structural)]
#[non_exhaustive]
pub enum CloseReason {
    /// The caller shut the connection down.
    ExplicitShutdown,
    /// The gateway closed the connection cleanly.
    CleanRemote,
    /// The gateway closed the connection with a code.
    RemoteCode(u16),
    /// Fresh voice information replaced the connection.
    VoiceInfoReplaced,
    /// A failure ended the connection.
    TerminalFailure,
}

/// One more event on a counter, which stays at its maximum once it is reached.
pub open spec fn counted(counter: u64) -> u64 {
    if counter == u64::MAX {
        counter
    } else {
        (counter + 1) as u64
    }
}

/// Counters of a connection.
#[derive(Clone, Copy, Debug, PartialEq, Eq, Structural)]
pub struct ConnectionStats {
    pub reconnect_attempts: u64,
    pub resume_attempts: u64,
    pub resume_successes: u64,
    pub heartbeat_timeouts: u64,
    pub unknown_opcodes: u64,
    pub event_lagged: u64,
    pub discarded_udp_datagrams: u64,
}

impl ConnectionStats {
    /// The counters of a connection that did nothing yet.
    pub open spec fn zero() -> ConnectionStats {
        ConnectionStats {
            reconnect_attempts: 0,
            resume_attempts: 0,
            resume_successes: 0,
            heartbeat_timeouts: 0,
            unknown_opcodes: 0,
            event_lagged: 0,
            discarded_udp_datagrams: 0,
        }
    }

    /// Returns the number of fresh identifications after a failure.
    pub fn reconnect_attempts(self) -> (value: u64)
        ensures
            value == self.reconnect_attempts,
    {
        self.reconnect_attempts
    }

    /// Returns the number of buffered resumes started.
    pub fn resume_attempts(self) -> (value: u64)
        ensures
            value == self.resume_attempts,
    {
        self.resume_attempts
    }

    /// Returns the number of buffered resumes that succeeded.
    pub fn resume_successes(self) -> (value: u64)
        ensures
            value == self.resume_successes,
    {
        self.resume_successes
    }

    /// Returns the number of heartbeat timeouts.
    pub fn heartbeat_timeouts(self) -> (value: u64)
        ensures
            value == self.heartbeat_timeouts,
    {
        self.heartbeat_timeouts
    }

    /// Returns the number of messages with an unknown opcode.
    pub fn unknown_opcodes(self) -> (value: u64)
        ensures
            value == self.unknown_opcodes,
    {
        self.unknown_opcodes
    }

    /// Returns the number of events that subscribers missed.
    pub fn event_lagged(self) -> (value: u64)
        ensures
            value == self.event_lagged,
    {
        self.event_lagged
    }

    /// Returns the number of received datagrams that were discarded.
    pub fn discarded_udp_datagrams(self) -> (value: u64)
        ensures
            value == self.discarded_udp_datagrams,
    {
        self.discarded_udp_datagrams
    }

    /// Counts a fresh identification after a failure.
    pub fn reconnecting(&mut self)
        ensures
            *final(self) == (ConnectionStats {
                reconnect_attempts: counted(old(self).reconnect_attempts),
                ..*old(self)
            }),
    {
        self.reconnect_attempts = self.reconnect_attempts.saturating_add(1);
    }

    /// Counts a buffered resume.
    pub fn resuming(&mut self)
        ensures
            *final(self) == (ConnectionStats {
                resume_attempts: counted(old(self).resume_attempts),
                ..*old(self)
            }),
    {
        self.resume_attempts = self.resume_attempts.saturating_add(1);
    }

    /// Counts a buffered resume that succeeded.
    pub fn resumed(&mut self)
        ensures
            *final(self) == (ConnectionStats {
                resume_successes: counted(old(self).resume_successes),
                ..*old(self)
            }),
    {
        self.resume_successes = self.resume_successes.saturating_add(1);
    }

    /// Counts a heartbeat timeout.
    pub fn heartbeat_timeout(&mut self)
        ensures
            *final(self) == (ConnectionStats {
                heartbeat_timeouts: counted(old(self).heartbeat_timeouts),
                ..*old(self)
            }),
    {
        self.heartbeat_timeouts = self.heartbeat_timeouts.saturating_add(1);
    }

    /// Counts a message with an unknown opcode.
    pub fn unknown_opcode(&mut self)
        ensures
            *final(self) == (ConnectionStats {
                unknown_opcodes: counted(old(self).unknown_opcodes),
                ..*old(self)
            }),
    {
        self.unknown_opcodes = self.unknown_opcodes.saturating_add(1);
    }

    /// Sets the number of events that subscribers missed.
    pub fn set_event_lagged(&mut self, count: u64)
        ensures
            *final(self) == (ConnectionStats { event_lagged: count, ..*old(self) }),
    {
        self.event_lagged = count;
    }

    /// Counts discarded datagrams; the counter stays at its maximum once it is reached.
    pub fn add_discarded_udp_datagrams(&mut self, count: u64)
        ensures
            *final(self) == (ConnectionStats {
                discarded_udp_datagrams: if old(self).discarded_udp_datagrams + count > u64::MAX {
                    u64::MAX
                } else {
                    (old(self).discarded_udp_datagrams + count) as u64
                },
                ..*old(self)
            }),
    {
        self.discarded_udp_datagrams = self.discarded_udp_datagrams.saturating_add(count);
    }
}

impl Default for ConnectionStats {
    fn default() -> (stats: Self)
        ensures
            stats == ConnectionStats::zero(),
    {
        ConnectionStats {
            reconnect_attempts: 0,
            resume_attempts: 0,
            resume_successes: 0,
            heartbeat_timeouts: 0,
            unknown_opcodes: 0,
            event_lagged: 0,
            discarded_udp_datagrams: 0,
        }
    }
}

/// A failure as durable state shows it.
#[derive(Clone, Copy, Debug, PartialEq, Eq, Structural)]
pub struct FailureSnapshot {
    pub kind: ErrorKind,
    pub operation: Operation,
    pub generation: ConnectionGeneration,
    pub retry: RetryDisposition,
    pub safe_code: Option<u32>,
    pub dave_failure: Option<DaveFailure>,
    pub dave_context: Option<DaveContext>,
}

impl FailureSnapshot {
    /// What durable state shows of a failure in a generation.
    pub open spec fn of(
        error: crate::error::ErrorView,
        generation: ConnectionGeneration,
    ) -> FailureSnapshot {
        FailureSnapshot {
            kind: error.kind,
            operation: error.operation,
            generation,
            retry: error.retry,
            safe_code: error.safe_code,
            dave_failure: error.dave_failure(),
            dave_context: error.dave_context,
        }
    }

    /// Creates a failure without a DAVE cause.
    pub fn new(
        kind: ErrorKind,
        operation: Operation,
        generation: ConnectionGeneration,
        retry: RetryDisposition,
        safe_code: Option<u32>,
    ) -> (failure: Self)
        ensures
            failure == (FailureSnapshot {
                kind,
                operation,
                generation,
                retry,
                safe_code,
                dave_failure: None,
                dave_context: None,
            }),
    {
        FailureSnapshot {
            kind,
            operation,
            generation,
            retry,
            safe_code,
            dave_failure: None,
            dave_context: None,
        }
    }

    /// Sets the DAVE state observed at the failure.
    pub fn with_dave_context(self, context: Option<DaveContext>) -> (failure: Self)
        ensures
            failure == (FailureSnapshot { dave_context: context, ..self }),
    {
        FailureSnapshot { dave_context: context, ..self }
    }

    /// Sets the DAVE cause.
    pub fn with_dave_failure(self, cause: Option<DaveFailure>) -> (failure: Self)
        ensures
            failure == (FailureSnapshot { dave_failure: cause, ..self }),
    {
        FailureSnapshot { dave_failure: cause, ..self }
    }

    /// Returns the DAVE cause.
    pub fn dave_failure(&self) -> (value: Option<DaveFailure>)
        ensures
            value == self.dave_failure,
    {
        self.dave_failure
    }

    /// Returns the DAVE state observed at the failure.
    pub fn dave_context(&self) -> (value: Option<DaveContext>)
        ensures
            value == self.dave_context,
    {
        self.dave_context
    }

    /// Returns the classification.
    pub fn kind(&self) -> (value: ErrorKind)
        ensures
            value == self.kind,
    {
        self.kind
    }

    /// Returns the operation that observed the failure.
    pub fn operation(&self) -> (value: Operation)
        ensures
            value == self.operation,
    {
        self.operation
    }

    /// Returns the affected generation.
    pub fn generation(&self) -> (value: ConnectionGeneration)
        ensures
            value == self.generation,
    {
        self.generation
    }

    /// Returns the retry ownership.
    pub fn retry_disposition(&self) -> (value: RetryDisposition)
        ensures
            value == self.retry,
    {
        self.retry
    }

    /// Returns the redaction-safe code.
    pub fn safe_code(&self) -> (value: Option<u32>)
        ensures
            value == self.safe_code,
    {
        self.safe_code
    }
}

/// The durable state of a connection.
#[derive(Clone, Copy, Debug, PartialEq, Eq, Structural)]
pub struct ConnectionSnapshot {
    pub generation: ConnectionGeneration,
    pub phase: ConnectionPhase,
    pub failure: Option<FailureSnapshot>,
    pub close_reason: Option<CloseReason>,
    pub gateway_rtt: Option<u64>,
    pub stats: ConnectionStats,
}

impl ConnectionSnapshot {
    /// The state after a generation was replaced: what the earlier one failed or
    /// closed with is forgotten, the counters stay.
    pub open spec fn with_generation(self, generation: ConnectionGeneration) -> ConnectionSnapshot {
        ConnectionSnapshot {
            generation,
            failure: None,
            close_reason: None,
            gateway_rtt: None,
            ..self
        }
    }

    /// Creates the state of a new connection.
    pub fn initial() -> (snapshot: Self)
        ensures
            snapshot.generation.number() == 1,
            snapshot == (ConnectionSnapshot {
                generation: snapshot.generation,
                phase: ConnectionPhase::Connecting,
                failure: None,
                close_reason: None,
                gateway_rtt: None,
                stats: ConnectionStats::zero(),
            }),
    {
        ConnectionSnapshot {
            generation: ConnectionGeneration::first(),
            phase: ConnectionPhase::Connecting,
            failure: None,
            close_reason: None,
            gateway_rtt: None,
            stats: ConnectionStats::default(),
        }
    }

    /// Returns the current generation.
    pub fn generation(&self) -> (value: ConnectionGeneration)
        ensures
            value == self.generation,
    {
        self.generation
    }

    /// Returns the phase.
    pub fn phase(&self) -> (value: ConnectionPhase)
        ensures
            value == self.phase,
    {
        self.phase
    }

    /// Returns the failure that was recorded last in this generation.
    pub fn failure(&self) -> (failure: Option<&FailureSnapshot>)
        ensures
            match failure {
                Some(found) => self.failure == Some(*found),
                None => self.failure is None,
            },
    {
        self.failure.as_ref()
    }

    /// Returns why the connection ended.
    pub fn close_reason(&self) -> (value: Option<CloseReason>)
        ensures
            value == self.close_reason,
    {
        self.close_reason
    }

    /// Returns the latest heartbeat round trip.
    pub fn gateway_rtt(&self) -> (value: Option<u64>)
        ensures
            value == self.gateway_rtt,
    {
        self.gateway_rtt
    }

    /// Returns the counters.
    pub fn stats(&self) -> (value: ConnectionStats)
        ensures
            value == self.stats,
    {
        self.stats
    }

    /// Replaces the generation.
    pub fn set_generation(&mut self, generation: ConnectionGeneration)
        ensures
            *final(self) == old(self).with_generation(generation),
    {
        self.generation = generation;
        self.failure = None;
        self.close_reason = None;
        self.gateway_rtt = None;
    }

    /// Enters a phase.
    pub fn set_phase(&mut self, phase: ConnectionPhase)
        ensures
            *final(self) == (ConnectionSnapshot { phase, ..*old(self) }),
    {
        self.phase = phase;
    }

    /// Records a failure.
    pub fn set_failure(&mut self, failure: FailureSnapshot)
        ensures
            *final(self) == (ConnectionSnapshot { failure: Some(failure), ..*old(self) }),
    {
        self.failure = Some(failure);
    }

    /// Records why the connection ended.
    pub fn set_close_reason(&mut self, reason: CloseReason)
        ensures
            *final(self) == (ConnectionSnapshot { close_reason: Some(reason), ..*old(self) }),
    {
        self.close_reason = Some(reason);
    }

    /// Records a heartbeat round trip.
    pub fn set_rtt(&mut self, rtt: u64)
        ensures
            *final(self) == (ConnectionSnapshot { gateway_rtt: Some(rtt), ..*old(self) }),
    {
        self.gateway_rtt = Some(rtt);
    }
}

/// A transient lifecycle event.
#[derive(Clone, Copy, Debug, PartialEq, Eq, Structural)]
#[non_exhaustive]
#[allow(inconsistent_fields)]
pub enum ConnectionEvent {
    /// The connection entered a phase.
    StateChanged { generation: ConnectionGeneration, phase: ConnectionPhase },
    /// A buffered resume started.
    ResumeStarted { generation: ConnectionGeneration },
    /// A buffered resume succeeded.
    ResumeSucceeded { generation: ConnectionGeneration },
    /// Fresh voice information replaced a generation.
    VoiceInfoReplaced { old: ConnectionGeneration, new: ConnectionGeneration },
    /// The paced sender entered a phase.
    AudioChanged { generation: SourceGeneration, phase: AudioPhase },
    /// A failure was recorded.
    Failure(FailureSnapshot),
    /// The connection ended.
    Closed(CloseReason),
}

/// Why a subscriber got no event.
#[derive(Clone, Copy, Debug, PartialEq, Eq, Structural)]
pub enum EventReceiveError {
    /// The subscriber missed this many events.
    Lagged { skipped: u64 },
    /// No more events will come.
    Closed,
}

/// Replacing a generation forgets what an earlier one ended with and keeps the
/// counters; replacing a source generation likewise forgets its failure.
pub proof fn new_generations_start_clean(
    connection: ConnectionSnapshot,
    generation: ConnectionGeneration,
    audio: AudioSnapshot,
    source: SourceGeneration,
)
    ensures
        connection.with_generation(generation).failure is None,
        connection.with_generation(generation).close_reason is None,
        connection.with_generation(generation).gateway_rtt is None,
        connection.with_generation(generation).stats == connection.stats,
        audio.with_generation(source).failure is None,
        audio.with_generation(source).dave_failure is None,
        audio.with_generation(source).dave_context is None,
        audio.with_generation(source).stats == audio.stats,
{
}

/// Durable state keeps the DAVE cause and the observed DAVE state of a failure.
pub proof fn failures_keep_their_dave_cause(
    error: crate::error::ErrorView,
    generation: ConnectionGeneration,
    audio: AudioSnapshot,
)
    ensures
        FailureSnapshot::of(error, generation).dave_failure == error.dave_failure(),
        FailureSnapshot::of(error, generation).dave_context == error.dave_context,
        audio.with_failure(error).dave_failure == error.dave_failure(),
        audio.with_failure(error).dave_context == error.dave_context,
        audio.with_failure(error).phase == AudioPhase::Failed,
{
}

/// A counter goes up by one with every event and stays at its maximum.
pub proof fn counters_count_up(counter: u64)
    ensures
        counter < u64::MAX ==> counted(counter) - counter == 1,
        counted(u64::MAX) == u64::MAX,
{
}

/// What durable state shows of a failure is the failure's own kind, operation, disposition
/// and code, under the generation that is told.
pub proof fn failures_are_shown_as_they_are(
    error: crate::error::ErrorView,
    generation: ConnectionGeneration,
    audio: AudioSnapshot,
)
    ensures
        FailureSnapshot::of(error, generation).kind == error.kind,
        FailureSnapshot::of(error, generation).operation == error.operation,
        FailureSnapshot::of(error, generation).retry == error.retry,
        FailureSnapshot::of(error, generation).safe_code == error.safe_code,
        FailureSnapshot::of(error, generation).generation == generation,
        audio.with_failure(error).failure == Some(error.kind),
        audio.with_failure(error).generation == audio.generation,
        audio.with_failure(error).stats == audio.stats,
{
}

/// A new generation is the one that was admitted, in the phase that was current.
pub proof fn new_generations_are_admitted(
    connection: ConnectionSnapshot,
    generation: ConnectionGeneration,
    audio: AudioSnapshot,
    source: SourceGeneration,
)
    ensures
        connection.with_generation(generation).generation == generation,
        connection.with_generation(generation).phase == connection.phase,
        audio.with_generation(source).generation == source,
        audio.with_generation(source).phase == audio.phase,
{
}

/// The counters of a sender and of a connection that did nothing yet have counted nothing.
pub proof fn new_counters_have_counted_nothing(stats: AudioStats)
    ensures
        stats.zero() ==> {
            &&& stats.frames_sent == 0 && stats.silence_frames_sent == 0
            &&& stats.frames_unavailable == 0 && stats.skipped_deadlines == 0
            &&& stats.send_failures == 0 && stats.source_overruns == 0
            &&& stats.max_lateness == 0 && stats.max_active_send_gap == 0
            &&& stats.last_active_send_gap == 0 && stats.last_active_send_gap_unix_ms == 0
            &&& stats.last_source_overrun_wall == 0 && stats.last_source_overrun_cpu is None
            &&& forall|i: int| 0 <= i < 3 ==> stats.active_send_gap_counts@[i] == 0
        },
        ConnectionStats::zero().reconnect_attempts == 0,
        ConnectionStats::zero().resume_attempts == 0,
        ConnectionStats::zero().resume_successes == 0,
        ConnectionStats::zero().heartbeat_timeouts == 0,
        ConnectionStats::zero().unknown_opcodes == 0,
        ConnectionStats::zero().event_lagged == 0,
        ConnectionStats::zero().discarded_udp_datagrams == 0,
{
}

} // verus!
