//! The DAVE lifecycle: versions, transitions, membership and media encryption.
//!
//! The lifecycle fails closed. Media is encrypted only while protocol version one is
//! active and the session is ready; every other frame is refused and leaves no bytes.
use davey::DaveSession;
use vstd::prelude::*;

use crate::error::{DaveContext, DaveFailure};
use crate::mls::{
    session_encrypt, session_execute_transition, session_is_ready, session_key_package,
    session_new, session_prepare_transition, session_process_commit, session_process_proposals,
    session_process_welcome, session_set_external_sender, Attempt, ProposalsOutcome,
    ProposalsValue,
};
use crate::roster::Roster;
use crate::wire::{append_bytes, copy_bytes, read_be16};

verus! {

/// The only protocol version that is spoken.
pub const MAX_PROTOCOL_VERSION: u16 = 1;

/// What encrypting an Opus frame adds at most: an eight-byte tag, a nonce of up to
/// five bytes, one length byte and a two-byte marker.
pub const OPUS_MAX_ENCRYPTION_OVERHEAD_BYTES: usize = 16;

/// What the lifecycle shows of itself.
#[derive(Clone, Copy, Debug, PartialEq, Eq, Structural)]
pub struct Snapshot {
    pub active_version: u16,
    pub transition_id: Option<u16>,
    pub ready: bool,
}

impl vstd::std_specs::convert::FromSpecImpl<Snapshot> for DaveContext {
    open spec fn obeys_from_spec() -> bool {
        true
    }

    open spec fn from_spec(state: Snapshot) -> DaveContext {
        DaveContext {
            active_version: state.active_version,
            transition_pending: state.transition_id is Some,
            ready: state.ready,
        }
    }
}

impl From<Snapshot> for DaveContext {
    fn from(state: Snapshot) -> (context: Self) {
        DaveContext {
            active_version: state.active_version,
            transition_pending: state.transition_id.is_some(),
            ready: state.ready,
        }
    }
}

/// A message for the gateway.
#[derive(Debug)]
pub enum Outbound {
    /// A JSON message whose data is the transition identifier.
    Json { opcode: u8, transition_id: u16 },
    /// A binary message, opcode first.
    Binary(Vec<u8>),
}

/// The mathematical form of an [`Outbound`] message.
#[verifier::ext_equal]
pub ghost enum OutboundValue {
    Json { opcode: u8, transition_id: u16 },
    Binary(Seq<u8>),
}

impl Outbound {
    /// The message as a mathematical value.
    pub open spec fn value(self) -> OutboundValue {
        match self {
            Outbound::Json { opcode, transition_id } => OutboundValue::Json {
                opcode,
                transition_id,
            },
            Outbound::Binary(bytes) => OutboundValue::Binary(bytes@),
        }
    }
}

/// The values of a row of messages.
pub open spec fn outbound_values(messages: Seq<Outbound>) -> Seq<OutboundValue> {
    Seq::new(messages.len(), |i: int| messages[i].value())
}

/// The result of a control as a mathematical value.
pub open spec fn control_value(result: Result<Vec<Outbound>, DaveFailure>) -> Result<
    Seq<OutboundValue>,
    DaveFailure,
> {
    match result {
        Ok(messages) => Ok(outbound_values(messages@)),
        Err(failure) => Err(failure),
    }
}

/// A control message of the gateway.
#[derive(Debug)]
pub enum Control {
    PrepareTransition { protocol_version: u16, id: u16 },
    ExecuteTransition { id: u16 },
    PrepareEpoch { protocol_version: u16, epoch: u64 },
    ExternalSender(Vec<u8>),
    Proposals(Vec<u8>),
    Commit(Vec<u8>),
    Welcome(Vec<u8>),
    Roster(Vec<u64>),
    MemberDisconnected(u64),
}

impl Control {
    /// The gateway opcode that carries the control.
    pub open spec fn wire_opcode(self) -> u8 {
        match self {
            Control::Roster(_) => 11,
            Control::MemberDisconnected(_) => 13,
            Control::PrepareTransition { .. } => 21,
            Control::ExecuteTransition { .. } => 22,
            Control::PrepareEpoch { .. } => 24,
            Control::ExternalSender(_) => 25,
            Control::Proposals(_) => 27,
            Control::Commit(_) => 29,
            Control::Welcome(_) => 30,
        }
    }

    /// Returns the gateway opcode that carries the control.
    pub fn opcode(&self) -> (opcode: u8)
        ensures
            opcode == self.wire_opcode(),
    {
        match self {
            Control::Roster(_) => 11,
            Control::MemberDisconnected(_) => 13,
            Control::PrepareTransition { .. } => 21,
            Control::ExecuteTransition { .. } => 22,
            Control::PrepareEpoch { .. } => 24,
            Control::ExternalSender(_) => 25,
            Control::Proposals(_) => 27,
            Control::Commit(_) => 29,
            Control::Welcome(_) => 30,
        }
    }
}

/// Whether a frame was encrypted. Readiness is decided in the same turn as
/// encryption: an earlier look at a snapshot cannot rule out an epoch reset queued
/// ahead of the frame.
#[derive(Clone, Copy, Debug, PartialEq, Eq, Structural)]
pub enum MediaOutcome {
    Encrypted,
    NotReady,
}

/// A transition that the gateway announced.
#[derive(Clone, Copy, Debug, PartialEq, Eq, Structural)]
pub struct PendingTransition {
    pub id: u16,
    pub protocol_version: u16,
    /// Whether it may be executed.
    pub prepared: bool,
    /// Whether executing it switches the sender key.
    pub sender_ratchet_pending: bool,
}

/// The owner of a DAVE session.
pub struct Core {
    backend: DaveSession,
    user_id: u64,
    channel_id: u64,
    external_sender: Option<Vec<u8>>,
    active_version: u16,
    pending: Option<PendingTransition>,
    epoch_prepared: bool,
    roster: Roster,
}

/// The state of a [`Core`].
pub ghost struct CoreState {
    pub backend: DaveSession,
    pub user_id: u64,
    pub channel_id: u64,
    /// The external sender in force.
    pub external_sender: Option<Seq<u8>>,
    pub active_version: u16,
    pub pending: Option<PendingTransition>,
    pub epoch_prepared: bool,
    /// The users that proposals and welcomes may name.
    pub roster: Set<u64>,
}

impl View for Core {
    type V = CoreState;

    closed spec fn view(&self) -> CoreState {
        CoreState {
            backend: self.backend,
            user_id: self.user_id,
            channel_id: self.channel_id,
            external_sender: match self.external_sender {
                Some(payload) => Some(payload@),
                None => None,
            },
            active_version: self.active_version,
            pending: self.pending,
            epoch_prepared: self.epoch_prepared,
            roster: self.roster@,
        }
    }
}

/// The acknowledgement of a prepared transition.
pub open spec fn ready_message(id: u16) -> OutboundValue {
    OutboundValue::Json { opcode: 23, transition_id: id }
}

/// The notice that a commit or welcome could not be processed.
pub open spec fn invalid_message(id: u16) -> OutboundValue {
    OutboundValue::Json { opcode: 31, transition_id: id }
}

/// The message that carries a key package.
pub open spec fn key_package_message(package: Seq<u8>) -> OutboundValue {
    OutboundValue::Binary(seq![26u8] + package)
}

/// The message that carries a commit and, for added members, a welcome.
pub open spec fn commit_message(commit: Seq<u8>, welcome: Option<Seq<u8>>) -> OutboundValue {
    OutboundValue::Binary(
        seq![28u8] + commit + match welcome {
            Some(bytes) => bytes,
            None => Seq::empty(),
        },
    )
}

/// What is wrong with a protocol version.
pub open spec fn version_failure(version: u16) -> Option<DaveFailure> {
    if version == 0 {
        Some(DaveFailure::RequiredDowngrade)
    } else if version == MAX_PROTOCOL_VERSION {
        None
    } else {
        Some(DaveFailure::UnsupportedVersion)
    }
}

impl CoreState {
    /// What holds of the state at all times.
    pub open spec fn valid(self) -> bool {
        &&& self.active_version <= MAX_PROTOCOL_VERSION
        &&& self.roster.contains(self.user_id)
        &&& self.pending matches Some(pending) ==> pending.protocol_version == MAX_PROTOCOL_VERSION
        &&& crate::mls::dave_identity(self.backend) == (self.user_id, self.channel_id)
    }

    /// Whether this is the state of a new owner, around a session of the version that is
    /// spoken: no external sender, no version in force, nothing pending, and nobody but the
    /// user on the roster.
    pub open spec fn newly_owned(self, user_id: u64, channel_id: u64) -> bool {
        &&& self == (CoreState {
            backend: self.backend,
            user_id,
            channel_id,
            external_sender: None,
            active_version: 0,
            pending: None,
            epoch_prepared: false,
            roster: set![user_id],
        })
        &&& crate::mls::dave_session_outcome(
            MAX_PROTOCOL_VERSION,
            user_id,
            channel_id,
            Attempt::Done(self.backend),
        )
        &&& !crate::mls::dave_ready(self.backend)
    }

    /// Whether media may be encrypted.
    pub open spec fn ready(self) -> bool {
        self.active_version == MAX_PROTOCOL_VERSION && crate::mls::dave_ready(self.backend)
    }

    /// What the state shows of itself.
    pub open spec fn snapshot(self) -> Snapshot {
        Snapshot {
            active_version: self.active_version,
            transition_id: match self.pending {
                Some(pending) => Some(pending.id),
                None => None,
            },
            ready: self.ready(),
        }
    }

    /// Whether a transition with another identifier is pending.
    pub open spec fn other_pending(self, id: u16) -> bool {
        self.pending matches Some(pending) && pending.id != id
    }

    /// Whether the pending transition has this identifier.
    pub open spec fn awaits(self, id: u16) -> bool {
        self.pending matches Some(pending) && pending.id == id
    }

    /// Whether a transition announced now would need no new keys.
    pub open spec fn already_prepared(self, version: u16) -> bool {
        &&& self.active_version == version
        &&& crate::mls::dave_ready(self.backend)
        &&& !self.epoch_prepared
    }

    /// The state with an announced transition.
    pub open spec fn announced(self, version: u16, id: u16) -> CoreState {
        CoreState {
            pending: Some(
                PendingTransition {
                    id,
                    protocol_version: version,
                    prepared: self.already_prepared(version),
                    sender_ratchet_pending: false,
                },
            ),
            ..self
        }
    }

    /// Whether the pending transition may be executed under this identifier.
    pub open spec fn executable(self, id: u16) -> bool {
        self.pending matches Some(pending) && pending.id == id && pending.prepared
    }

    /// The state once the pending transition took effect.
    pub open spec fn executed(self) -> CoreState {
        CoreState {
            active_version: self.pending->0.protocol_version,
            pending: None,
            epoch_prepared: false,
            ..self
        }
    }

    /// The same state around another session value.
    pub open spec fn with_backend(self, backend: DaveSession) -> CoreState {
        CoreState { backend, ..self }
    }

    /// The state in which a fresh epoch begins.
    pub open spec fn reset(self) -> CoreState {
        CoreState { active_version: 0, pending: None, epoch_prepared: true, ..self }
    }

    /// Whether a commit or welcome with this identifier starts the first group.
    pub open spec fn initial_transition(self, id: u16) -> bool {
        &&& id == 0
        &&& self.pending is None
        &&& self.active_version == 0
        &&& self.external_sender is Some
        &&& !crate::mls::dave_ready(self.backend)
    }

    /// The state in which a commit or welcome is processed.
    pub open spec fn awaiting_keys(self, id: u16) -> CoreState {
        if self.initial_transition(id) {
            CoreState {
                pending: Some(
                    PendingTransition {
                        id,
                        protocol_version: MAX_PROTOCOL_VERSION,
                        prepared: false,
                        sender_ratchet_pending: false,
                    },
                ),
                ..self
            }
        } else {
            self
        }
    }

    /// The state once the keys of the pending transition are staged.
    pub open spec fn keys_staged(self) -> CoreState {
        CoreState {
            pending: Some(
                PendingTransition { prepared: true, sender_ratchet_pending: true, ..self.pending->0
                },
            ),
            ..self
        }
    }
}

/// How a control leads from one state to another, with its result.
pub ghost struct Step {
    pub before: CoreState,
    pub after: CoreState,
    pub result: Result<Seq<OutboundValue>, DaveFailure>,
}

impl Step {
    /// The control is refused and changes nothing.
    pub open spec fn refused(self, failure: DaveFailure) -> bool {
        self.result == Err::<Seq<OutboundValue>, DaveFailure>(failure) && self.after == self.before
    }

    /// The session value is replaced by one that is as ready as before.
    pub open spec fn backend_kept_ready(self) -> bool {
        crate::mls::dave_ready(self.after.backend) == crate::mls::dave_ready(self.before.backend)
    }

    /// A key package is made and sent; where the backend fails, nothing is sent.
    pub open spec fn key_package_sent(self) -> bool {
        &&& self.after == self.before.with_backend(self.after.backend)
        &&& self.backend_kept_ready()
        &&& exists|package: Attempt<Seq<u8>>|
            {
                &&& #[trigger] crate::mls::dave_key_package(
                    self.before.backend,
                    package,
                    self.after.backend,
                )
                &&& self.result == package_result(package)
            }
    }

    /// What follows the backend's answer to an execution: the pending transition is in
    /// force, or nothing changes.
    pub open spec fn execution_settled(self, outcome: Attempt<()>) -> bool {
        if self.before.pending is None {
            self.refused(DaveFailure::InvalidState)
        } else if outcome is Done {
            &&& self.result == Ok::<Seq<OutboundValue>, DaveFailure>(Seq::empty())
            &&& self.after == self.before.executed()
        } else {
            self.refused(outcome.failure()->0)
        }
    }

    /// An execute-transition control.
    pub open spec fn transition_executed(self, id: u16) -> bool {
        if !self.before.executable(id) {
            self.refused(DaveFailure::InvalidState)
        } else if self.before.pending->0.sender_ratchet_pending {
            &&& self.backend_kept_ready()
            &&& exists|outcome: Attempt<()>|
                {
                    &&& #[trigger] crate::mls::dave_execution(
                        self.before.backend,
                        id,
                        outcome,
                        self.after.backend,
                    )
                    &&& (Step { before: self.before.with_backend(self.after.backend), ..self })
                        .execution_settled(outcome)
                }
        } else {
            &&& self.result == Ok::<Seq<OutboundValue>, DaveFailure>(Seq::empty())
            &&& self.after == self.before.executed()
        }
    }

    /// A prepare-transition control.
    pub open spec fn transition_prepared(self, version: u16, id: u16) -> bool {
        if version_failure(version) is Some {
            self.refused(version_failure(version)->0)
        } else if self.before.other_pending(id) {
            self.refused(DaveFailure::InvalidState)
        } else if id == 0 && self.before.already_prepared(version) {
            (Step { before: self.before.announced(version, id), ..self }).transition_executed(id)
        } else {
            &&& self.after == self.before.announced(version, id)
            &&& self.result == Ok::<Seq<OutboundValue>, DaveFailure>(
                if self.before.already_prepared(version) {
                    seq![ready_message(id)]
                } else {
                    Seq::empty()
                },
            )
        }
    }

    /// A fresh session takes the place of the old one, under the external sender in
    /// force. Where the backend fails, the old session stays.
    pub open spec fn session_replaced(self) -> bool {
        match self.result {
            Ok(messages) => {
                &&& messages == Seq::<OutboundValue>::empty()
                &&& self.after == self.before.with_backend(self.after.backend)
                &&& fresh_session(self.before, self.after.backend)
            },
            Err(failure) => {
                &&& self.refused(failure)
                &&& no_fresh_session(self.before, failure)
            },
        }
    }

    /// A prepare-epoch control. The first epoch starts over with a fresh session.
    pub open spec fn epoch_prepared(self, version: u16, epoch: u64) -> bool {
        if version_failure(version) is Some {
            self.refused(version_failure(version)->0)
        } else {
            let marked = CoreState { epoch_prepared: true, ..self.before };
            if epoch != 1 {
                &&& self.result == Ok::<Seq<OutboundValue>, DaveFailure>(Seq::empty())
                &&& self.after == marked
            } else {
                ||| {
                    &&& self.result matches Err(failure)
                    &&& no_fresh_session(self.before, failure)
                    &&& self.after == marked
                }
                ||| exists|fresh: DaveSession|
                    {
                        &&& #[trigger] fresh_session(self.before, fresh)
                        &&& if self.before.external_sender is Some {
                            (Step { before: self.before.reset().with_backend(fresh), ..self })
                                .key_package_sent()
                        } else {
                            &&& self.result == Ok::<Seq<OutboundValue>, DaveFailure>(Seq::empty())
                            &&& self.after == self.before.reset().with_backend(fresh)
                        }
                    }
            }
        }
    }

    /// An external-sender control. Where the backend takes it, a key package follows.
    pub open spec fn external_sender_set(self, payload: Seq<u8>) -> bool {
        if payload.len() < 4 {
            self.refused(DaveFailure::Malformed)
        } else {
            exists|outcome: Attempt<()>, told: DaveSession|
                {
                    &&& #[trigger] crate::mls::dave_sender_outcome(
                        self.before.backend,
                        payload,
                        outcome,
                        told,
                    )
                    &&& crate::mls::dave_ready(told) == crate::mls::dave_ready(self.before.backend)
                    &&& if outcome is Done {
                        (Step {
                            before: CoreState {
                                external_sender: Some(payload),
                                ..self.before.with_backend(told)
                            },
                            ..self
                        }).key_package_sent()
                    } else {
                        (Step { before: self.before.with_backend(told), ..self }).refused(
                            outcome.failure()->0,
                        )
                    }
                }
        }
    }

    /// A proposals control: one operation byte, then the proposals.
    pub open spec fn proposals_processed(self, payload: Seq<u8>) -> bool {
        if payload.len() < 2 || payload[0] > 1 {
            self.refused(DaveFailure::Malformed)
        } else {
            &&& self.after == self.before.with_backend(self.after.backend)
            &&& self.backend_kept_ready()
            &&& exists|outcome: ProposalsValue|
                {
                    &&& #[trigger] proposals_outcome(
                        self.before,
                        payload,
                        outcome,
                        self.after.backend,
                    )
                    &&& self.result == proposals_result(outcome)
                }
        }
    }

    /// The recovery after a commit or welcome that could not be processed: a fresh
    /// session, the notice, and a key package.
    pub open spec fn recovered(self, id: u16) -> bool {
        ||| {
            &&& self.result matches Err(failure)
            &&& no_fresh_session(self.before, failure)
            &&& self.after == self.before
        }
        ||| exists|fresh: DaveSession|
            {
                let restarted = self.before.reset().with_backend(fresh);
                &&& #[trigger] fresh_session(self.before, fresh)
                &&& self.after == restarted.with_backend(self.after.backend)
                &&& !crate::mls::dave_ready(self.after.backend)
                &&& exists|package: Attempt<Seq<u8>>|
                    {
                        &&& #[trigger] crate::mls::dave_key_package(
                            fresh,
                            package,
                            self.after.backend,
                        )
                        &&& self.result == (match package_result(package) {
                            Ok(messages) => Ok(seq![invalid_message(id)] + messages),
                            Err(failure) => Err(failure),
                        })
                    }
            }
    }

    /// What follows the backend's answer to the keys of the pending transition: the
    /// transition is prepared, and executed at once under identifier zero, or the group
    /// starts over.
    pub open spec fn keys_settled(self, keyed: bool) -> bool {
        let id = self.before.pending->0.id;
        if self.before.pending is None {
            self.refused(DaveFailure::InvalidState)
        } else if !keyed {
            self.recovered(id)
        } else if id == 0 {
            (Step { before: self.before.keys_staged(), ..self }).transition_executed(id)
        } else {
            &&& self.after == self.before.keys_staged()
            &&& self.result == Ok::<Seq<OutboundValue>, DaveFailure>(seq![ready_message(id)])
        }
    }

    /// What follows a commit or welcome that left the session as `processed`. Keys that
    /// were accepted are derived for the pending transition.
    pub open spec fn keys_processed(
        self,
        awaiting: CoreState,
        processed: DaveSession,
        accepted: bool,
    ) -> bool {
        exists|keyed: bool, derived: DaveSession|
            {
                &&& #[trigger] keys_derived(
                    awaiting.pending->0,
                    processed,
                    accepted,
                    keyed,
                    derived,
                )
                &&& (Step { before: awaiting.with_backend(derived), ..self }).keys_settled(keyed)
            }
    }

    /// A commit or welcome control: two identifier bytes, then the MLS message.
    pub open spec fn keys_received(self, payload: Seq<u8>, welcome: bool) -> bool {
        let id = crate::wire::be16_value(payload[0], payload[1]);
        let awaiting = self.before.awaiting_keys(id);
        let body = payload.subrange(2, payload.len() as int);
        if payload.len() < 3 {
            self.refused(DaveFailure::Malformed)
        } else if !awaiting.awaits(id) {
            self.refused(DaveFailure::InvalidState)
        } else {
            exists|accepted: bool, processed: DaveSession|
                {
                    &&& #[trigger] keys_outcome(self.before, body, welcome, accepted, processed)
                    &&& crate::mls::dave_ready(processed) == crate::mls::dave_ready(
                        self.before.backend,
                    )
                    &&& self.keys_processed(awaiting, processed, accepted)
                }
        }
    }

    /// What a control does.
    pub open spec fn controlled(self, control: Control) -> bool {
        match control {
            Control::PrepareTransition { protocol_version, id } => self.transition_prepared(
                protocol_version,
                id,
            ),
            Control::ExecuteTransition { id } => self.transition_executed(id),
            Control::PrepareEpoch { protocol_version, epoch } => self.epoch_prepared(
                protocol_version,
                epoch,
            ),
            Control::ExternalSender(payload) => self.external_sender_set(payload@),
            Control::Proposals(payload) => self.proposals_processed(payload@),
            Control::Commit(payload) => self.keys_received(payload@, false),
            Control::Welcome(payload) => self.keys_received(payload@, true),
            Control::Roster(users) => {
                &&& self.result == Ok::<Seq<OutboundValue>, DaveFailure>(Seq::empty())
                &&& self.after == (CoreState {
                    roster: users@.to_set().insert(self.before.user_id),
                    ..self.before
                })
            },
            Control::MemberDisconnected(user) => {
                &&& self.result == Ok::<Seq<OutboundValue>, DaveFailure>(Seq::empty())
                &&& self.after == (CoreState {
                    roster: if user == self.before.user_id {
                        self.before.roster
                    } else {
                        self.before.roster.remove(user)
                    },
                    ..self.before
                })
            },
        }
    }
}

/// Whether the backend may answer a proposals control in this way, and leave the session
/// like that. Only users on the roster may be added.
pub open spec fn proposals_outcome(
    state: CoreState,
    payload: Seq<u8>,
    outcome: ProposalsValue,
    after: DaveSession,
) -> bool {
    crate::mls::dave_proposals_outcome(
        state.backend,
        payload[0] == 0,
        payload.subrange(1, payload.len() as int),
        crate::roster::listing(state.roster),
        outcome,
        after,
    )
}

/// What the backend's answer to proposals is turned into.
pub open spec fn proposals_result(outcome: ProposalsValue) -> Result<
    Seq<OutboundValue>,
    DaveFailure,
> {
    match outcome {
        ProposalsValue::Rejected => Err(DaveFailure::Backend),
        ProposalsValue::Panicked => Err(DaveFailure::BackendPanic),
        ProposalsValue::Nothing => Ok(Seq::empty()),
        ProposalsValue::Commit { commit, welcome } => Ok(seq![commit_message(commit, welcome)]),
    }
}

/// Whether the backend may take, or not take, a commit or a welcome, and leave the session
/// like that. A welcome is handed over with the recognized users. One that the backend
/// cannot get through is not taken.
pub open spec fn keys_outcome(
    state: CoreState,
    body: Seq<u8>,
    welcome: bool,
    accepted: bool,
    after: DaveSession,
) -> bool {
    if welcome {
        exists|outcome: Attempt<()>|
            {
                &&& #[trigger] crate::mls::dave_welcome_outcome(
                    state.backend,
                    body,
                    crate::roster::listing(state.roster),
                    outcome,
                    after,
                )
                &&& accepted == (outcome is Done)
            }
    } else {
        exists|taken: Attempt<bool>|
            {
                &&& #[trigger] crate::mls::dave_commit_outcome(state.backend, body, taken, after)
                &&& accepted == (taken == Attempt::Done(true))
            }
    }
}

/// Whether the backend may derive, or not derive, the keys of a pending transition, and
/// leave the session like that. With its keys, a session with an established group is
/// ready. Without new keys there is nothing to derive.
pub open spec fn keys_derived(
    pending: PendingTransition,
    processed: DaveSession,
    accepted: bool,
    keyed: bool,
    derived: DaveSession,
) -> bool {
    let ready = crate::mls::dave_ready(processed);
    let established = crate::mls::dave_established(processed);
    if accepted {
        &&& exists|outcome: Attempt<()>|
            {
                &&& #[trigger] crate::mls::dave_preparation(
                    processed,
                    pending.id,
                    pending.protocol_version,
                    outcome,
                    derived,
                )
                &&& keyed == (outcome is Done)
            }
        &&& ready ==> crate::mls::dave_ready(derived)
        &&& crate::mls::dave_ready(derived) ==> ready || established
        &&& keyed && established ==> crate::mls::dave_ready(derived)
    } else {
        !keyed && derived == processed
    }
}

/// Whether the backend may fail to make the session of an owner, in this way.
pub open spec fn no_session(user_id: u64, channel_id: u64, failure: DaveFailure) -> bool {
    exists|made: Attempt<DaveSession>|
        {
            &&& #[trigger] crate::mls::dave_session_outcome(
                MAX_PROTOCOL_VERSION,
                user_id,
                channel_id,
                made,
            )
            &&& made.failure() == Some(failure)
        }
}

/// Whether a session may be the fresh one of an owner: made for its user and channel,
/// not ready, and handed the external sender in force.
pub open spec fn fresh_session(state: CoreState, session: DaveSession) -> bool {
    &&& !crate::mls::dave_ready(session)
    &&& crate::mls::dave_identity(session) == (state.user_id, state.channel_id)
    &&& exists|blank: DaveSession|
        {
            &&& #[trigger] crate::mls::dave_session_outcome(
                MAX_PROTOCOL_VERSION,
                state.user_id,
                state.channel_id,
                Attempt::Done(blank),
            )
            &&& match state.external_sender {
                Some(sender) => crate::mls::dave_sender_outcome(
                    blank,
                    sender,
                    Attempt::Done(()),
                    session,
                ),
                None => session == blank,
            }
        }
}

/// Whether an owner may be left without a fresh session, for this failure: none was made,
/// or the one that was made did not take the external sender in force.
pub open spec fn no_fresh_session(state: CoreState, failure: DaveFailure) -> bool {
    ||| no_session(state.user_id, state.channel_id, failure)
    ||| exists|blank: DaveSession, outcome: Attempt<()>, told: DaveSession|
        {
            &&& #[trigger] crate::mls::dave_session_outcome(
                MAX_PROTOCOL_VERSION,
                state.user_id,
                state.channel_id,
                Attempt::Done(blank),
            )
            &&& state.external_sender is Some
            &&& #[trigger] crate::mls::dave_sender_outcome(
                blank,
                state.external_sender->0,
                outcome,
                told,
            )
            &&& outcome.failure() == Some(failure)
        }
}

/// What a key package, or its absence, is turned into.
pub open spec fn package_result(package: Attempt<Seq<u8>>) -> Result<
    Seq<OutboundValue>,
    DaveFailure,
> {
    match package {
        Attempt::Done(package) => Ok(seq![key_package_message(package)]),
        _ => Err(package.failure()->0),
    }
}

/// What became of a frame that the backend was handed: the output holds what it wrote, or
/// nothing.
pub open spec fn frame_sealed(
    before: DaveSession,
    frame: Seq<u8>,
    after: DaveSession,
    result: Result<(), DaveFailure>,
    output: Seq<u8>,
) -> bool {
    exists|sealed: Attempt<Seq<u8>>|
        {
            &&& #[trigger] crate::mls::dave_encryption(before, frame, sealed, after)
            &&& match sealed {
                Attempt::Done(bytes) => {
                    &&& result is Ok
                    &&& output == bytes
                    &&& output.len() <= frame.len() + OPUS_MAX_ENCRYPTION_OVERHEAD_BYTES
                },
                _ => {
                    &&& result == Err::<(), DaveFailure>(sealed.failure()->0)
                    &&& output.len() == 0
                },
            }
        }
}

fn no_messages() -> (messages: Vec<Outbound>)
    ensures
        outbound_values(messages@) == Seq::<OutboundValue>::empty(),
{
    let messages: Vec<Outbound> = Vec::new();
    assert(outbound_values(messages@) =~= Seq::<OutboundValue>::empty());
    messages
}

fn one_message(message: Outbound) -> (messages: Vec<Outbound>)
    ensures
        outbound_values(messages@) == seq![message.value()],
{
    let mut messages: Vec<Outbound> = Vec::new();
    messages.push(message);
    assert(outbound_values(messages@) =~= seq![message.value()]);
    messages
}

/// Refuses a downgrade and versions that are not spoken.
pub fn validate_version(version: u16) -> (result: Result<(), DaveFailure>)
    ensures
        result == (match version_failure(version) {
            Some(failure) => Err::<(), DaveFailure>(failure),
            None => Ok::<(), DaveFailure>(()),
        }),
{
    if version == 0 {
        Err(DaveFailure::RequiredDowngrade)
    } else if version == MAX_PROTOCOL_VERSION {
        Ok(())
    } else {
        Err(DaveFailure::UnsupportedVersion)
    }
}

fn ready(id: u16) -> (message: Outbound)
    ensures
        message.value() == ready_message(id),
{
    Outbound::Json { opcode: 23, transition_id: id }
}

/// Turns the backend's answer to proposals into a message for the gateway.
pub fn proposals_answer(outcome: ProposalsOutcome) -> (result: Result<Vec<Outbound>, DaveFailure>)
    ensures
        control_value(result) == proposals_result(outcome.value()),
{
    match outcome {
        ProposalsOutcome::Rejected => Err(DaveFailure::Backend),
        ProposalsOutcome::Panicked => Err(DaveFailure::BackendPanic),
        ProposalsOutcome::Nothing => Ok(no_messages()),
        ProposalsOutcome::Commit { commit, welcome } => {
            let mut message: Vec<u8> = Vec::new();
            message.push(28);
            append_bytes(&mut message, commit.as_slice());
            let ghost before_welcome = message@;
            match &welcome {
                Some(bytes) => append_bytes(&mut message, bytes.as_slice()),
                None => {
                    assert(before_welcome + Seq::<u8>::empty() =~= before_welcome);
                },
            }
            assert(before_welcome =~= seq![28u8] + commit@);
            Ok(one_message(Outbound::Binary(message)))
        },
    }
}

/// Turns a key package of the backend, or its failure, into a message for the gateway.
pub fn key_package_answer(package: Attempt<Vec<u8>>) -> (result: Result<Vec<Outbound>, DaveFailure>)
    ensures
        control_value(result) == package_result(crate::mls::bytes_value(package)),
{
    match package.into_result() {
        Ok(package) => {
            let mut message: Vec<u8> = Vec::new();
            message.push(26);
            append_bytes(&mut message, package.as_slice());
            assert(message@ =~= seq![26u8] + package@);
            Ok(one_message(Outbound::Binary(message)))
        },
        Err(failure) => Err(failure),
    }
}

impl Core {
    /// What holds of the owner at all times.
    pub closed spec fn well_formed(self) -> bool {
        &&& self@.valid()
        &&& self.roster.owned_by() == self.user_id
    }

    /// A well-formed owner is in a valid state.
    pub broadcast proof fn well_formed_is_valid(self)
        ensures
            #[trigger] self.well_formed() ==> self@.valid(),
    {
    }

    /// Creates the owner of a new session.
    pub fn new(user_id: u64, channel_id: u64) -> (core: Result<Self, DaveFailure>)
        ensures
            match core {
                Ok(core) => {
                    &&& core.well_formed()
                    &&& core@.newly_owned(user_id, channel_id)
                },
                Err(failure) => no_session(user_id, channel_id, failure),
            },
    {
        match session_new(MAX_PROTOCOL_VERSION, user_id, channel_id).into_result() {
            Ok(backend) => Ok(
                Core {
                    backend,
                    user_id,
                    channel_id,
                    external_sender: None,
                    active_version: 0,
                    pending: None,
                    epoch_prepared: false,
                    roster: Roster::new(user_id),
                },
            ),
            Err(failure) => Err(failure),
        }
    }

    /// Returns what the owner shows of its state.
    pub fn snapshot(&self) -> (snapshot: Snapshot)
        ensures
            snapshot == self@.snapshot(),
    {
        Snapshot {
            active_version: self.active_version,
            transition_id: match self.pending {
                Some(pending) => Some(pending.id),
                None => None,
            },
            ready: self.active_version == MAX_PROTOCOL_VERSION && session_is_ready(&self.backend),
        }
    }

    /// Returns the recognised users in ascending order.
    pub fn recognized(&self) -> (users: &Vec<u64>)
        ensures
            users@ == crate::roster::listing(self@.roster),
            users@.to_set() == self@.roster,
    {
        self.roster.ids()
    }

    /// Applies a control of the gateway and returns what to send back.
    pub fn control(&mut self, control: Control) -> (result: Result<Vec<Outbound>, DaveFailure>)
        requires
            old(self).well_formed(),
        ensures
            final(self).well_formed(),
            (Step {
                before: old(self)@,
                after: final(self)@,
                result: control_value(result),
            }).controlled(control),
    {
        match control {
            Control::PrepareTransition { protocol_version, id } => self.prepare_transition(
                protocol_version,
                id,
            ),
            Control::ExecuteTransition { id } => self.execute_transition(id),
            Control::PrepareEpoch { protocol_version, epoch } => self.prepare_epoch(
                protocol_version,
                epoch,
            ),
            Control::ExternalSender(payload) => self.external_sender(payload.as_slice()),
            Control::Proposals(payload) => self.proposals(payload.as_slice()),
            Control::Commit(payload) => self.commit_or_welcome(payload.as_slice(), false),
            Control::Welcome(payload) => self.commit_or_welcome(payload.as_slice(), true),
            Control::Roster(users) => {
                self.roster = Roster::with_users(self.user_id, users.as_slice());
                Ok(no_messages())
            },
            Control::MemberDisconnected(user) => {
                self.roster.disconnect(user);
                Ok(no_messages())
            },
        }
    }

    /// Announces a transition.
    pub fn prepare_transition(&mut self, version: u16, id: u16) -> (result: Result<
        Vec<Outbound>,
        DaveFailure,
    >)
        requires
            old(self).well_formed(),
        ensures
            final(self).well_formed(),
            (Step {
                before: old(self)@,
                after: final(self)@,
                result: control_value(result),
            }).transition_prepared(version, id),
    {
        if let Err(failure) = validate_version(version) {
            return Err(failure);
        }
        if let Some(pending) = self.pending {
            if pending.id != id {
                return Err(DaveFailure::InvalidState);
            }
        }
        let prepared = self.active_version == version && session_is_ready(&self.backend)
            && !self.epoch_prepared;
        self.pending = Some(
            PendingTransition {
                id,
                protocol_version: version,
                prepared,
                sender_ratchet_pending: false,
            },
        );
        assert(self@ == old(self)@.announced(version, id));
        if id == 0 && prepared {
            return self.execute_transition(id);
        }
        if prepared {
            Ok(one_message(ready(id)))
        } else {
            Ok(no_messages())
        }
    }

    /// Executes the pending transition.
    pub fn execute_transition(&mut self, id: u16) -> (result: Result<Vec<Outbound>, DaveFailure>)
        requires
            old(self).well_formed(),
        ensures
            final(self).well_formed(),
            (Step {
                before: old(self)@,
                after: final(self)@,
                result: control_value(result),
            }).transition_executed(id),
    {
        let pending = match self.pending {
            Some(pending) => pending,
            None => return Err(DaveFailure::InvalidState),
        };
        if pending.id != id || !pending.prepared {
            return Err(DaveFailure::InvalidState);
        }
        let outcome = if pending.sender_ratchet_pending {
            session_execute_transition(&mut self.backend, id)
        } else {
            Attempt::Done(())
        };
        self.settle_execution(outcome)
    }

    /// Puts the pending transition in force, where the backend executed it.
    pub fn settle_execution(&mut self, outcome: Attempt<()>) -> (result: Result<
        Vec<Outbound>,
        DaveFailure,
    >)
        requires
            old(self).well_formed(),
        ensures
            final(self).well_formed(),
            (Step {
                before: old(self)@,
                after: final(self)@,
                result: control_value(result),
            }).execution_settled(outcome),
    {
        let pending = match self.pending {
            Some(pending) => pending,
            None => return Err(DaveFailure::InvalidState),
        };
        if let Err(failure) = outcome.into_result() {
            return Err(failure);
        }
        self.active_version = pending.protocol_version;
        self.pending = None;
        self.epoch_prepared = false;
        Ok(no_messages())
    }

    /// Puts a fresh session, under the external sender in force, in the place of the
    /// old one. The keys of the old session are gone with it. `DaveSession::reinit` would
    /// not do: for the same user and channel it keeps the session ready, with its keys.
    fn replace_session(&mut self) -> (result: Result<Vec<Outbound>, DaveFailure>)
        requires
            old(self).well_formed(),
        ensures
            final(self).well_formed(),
            (Step {
                before: old(self)@,
                after: final(self)@,
                result: control_value(result),
            }).session_replaced(),
    {
        let made = session_new(MAX_PROTOCOL_VERSION, self.user_id, self.channel_id);
        let mut fresh = match made.into_result() {
            Ok(fresh) => fresh,
            Err(failure) => return Err(failure),
        };
        let ghost blank = fresh;
        assert(crate::mls::dave_session_outcome(
            MAX_PROTOCOL_VERSION,
            self.user_id,
            self.channel_id,
            Attempt::Done(blank),
        ));
        if let Some(payload) = &self.external_sender {
            let outcome = session_set_external_sender(&mut fresh, payload.as_slice());
            assert(crate::mls::dave_sender_outcome(
                blank,
                self@.external_sender->0,
                outcome,
                fresh,
            ));
            if let Err(failure) = outcome.into_result() {
                return Err(failure);
            }
        }
        assert(fresh_session(old(self)@, fresh));
        self.backend = fresh;
        Ok(no_messages())
    }

    /// Prepares an epoch; the first one starts over.
    pub fn prepare_epoch(&mut self, version: u16, epoch: u64) -> (result: Result<
        Vec<Outbound>,
        DaveFailure,
    >)
        requires
            old(self).well_formed(),
        ensures
            final(self).well_formed(),
            (Step {
                before: old(self)@,
                after: final(self)@,
                result: control_value(result),
            }).epoch_prepared(version, epoch),
    {
        if let Err(failure) = validate_version(version) {
            return Err(failure);
        }
        self.epoch_prepared = true;
        if epoch != 1 {
            return Ok(no_messages());
        }
        if let Err(failure) = self.replace_session() {
            return Err(failure);
        }
        self.active_version = 0;
        self.pending = None;
        let ghost fresh = self.backend;
        assert(self@ == old(self)@.reset().with_backend(fresh));
        assert(fresh_session(old(self)@, fresh));
        if self.external_sender.is_some() {
            self.key_package()
        } else {
            Ok(no_messages())
        }
    }

    /// Sets the external sender and answers with a key package.
    pub fn external_sender(&mut self, payload: &[u8]) -> (result: Result<
        Vec<Outbound>,
        DaveFailure,
    >)
        requires
            old(self).well_formed(),
        ensures
            final(self).well_formed(),
            (Step {
                before: old(self)@,
                after: final(self)@,
                result: control_value(result),
            }).external_sender_set(payload@),
    {
        if payload.len() < 4 {
            return Err(DaveFailure::Malformed);
        }
        let outcome = session_set_external_sender(&mut self.backend, payload);
        let ghost told = self.backend;
        assert(self@ == old(self)@.with_backend(told));
        if let Err(failure) = outcome.into_result() {
            return Err(failure);
        }
        self.external_sender = Some(copy_bytes(payload));
        assert(self@ == (CoreState {
            external_sender: Some(payload@),
            ..old(self)@.with_backend(told)
        }));
        self.key_package()
    }

    fn key_package(&mut self) -> (result: Result<Vec<Outbound>, DaveFailure>)
        requires
            old(self).well_formed(),
        ensures
            final(self).well_formed(),
            (Step {
                before: old(self)@,
                after: final(self)@,
                result: control_value(result),
            }).key_package_sent(),
    {
        let package = session_key_package(&mut self.backend);
        key_package_answer(package)
    }

    /// Hands proposals to the session and answers with a commit where one is due.
    pub fn proposals(&mut self, payload: &[u8]) -> (result: Result<Vec<Outbound>, DaveFailure>)
        requires
            old(self).well_formed(),
        ensures
            final(self).well_formed(),
            (Step {
                before: old(self)@,
                after: final(self)@,
                result: control_value(result),
            }).proposals_processed(payload@),
    {
        if payload.len() < 2 || payload[0] > 1 {
            return Err(DaveFailure::Malformed);
        }
        let append = payload[0] == 0;
        let body = &payload[1..payload.len()];
        let outcome = session_process_proposals(
            &mut self.backend,
            append,
            body,
            self.roster.ids().as_slice(),
        );
        assert(proposals_outcome(old(self)@, payload@, outcome.value(), self.backend));
        proposals_answer(outcome)
    }

    /// Hands a commit or a welcome to the session, and recovers where it fails.
    pub fn commit_or_welcome(&mut self, payload: &[u8], welcome: bool) -> (result: Result<
        Vec<Outbound>,
        DaveFailure,
    >)
        requires
            old(self).well_formed(),
        ensures
            final(self).well_formed(),
            (Step {
                before: old(self)@,
                after: final(self)@,
                result: control_value(result),
            }).keys_received(payload@, welcome),
    {
        if payload.len() < 3 {
            return Err(DaveFailure::Malformed);
        }
        let id: u16 = read_be16(payload[0], payload[1]);
        let initial = id == 0 && self.pending.is_none() && self.active_version == 0
            && self.external_sender.is_some() && !session_is_ready(&self.backend);
        if initial {
            self.pending = Some(
                PendingTransition {
                    id,
                    protocol_version: MAX_PROTOCOL_VERSION,
                    prepared: false,
                    sender_ratchet_pending: false,
                },
            );
        }
        let ghost awaiting = old(self)@.awaiting_keys(id);
        assert(self@ == awaiting);
        let pending = match self.pending {
            Some(pending) => pending,
            None => return Err(DaveFailure::InvalidState),
        };
        if pending.id != id {
            return Err(DaveFailure::InvalidState);
        }
        let body = &payload[2..payload.len()];
        let accepted = if welcome {
            match session_process_welcome(&mut self.backend, body, self.roster.ids().as_slice()) {
                Attempt::Done(()) => true,
                _ => false,
            }
        } else {
            match session_process_commit(&mut self.backend, body) {
                Attempt::Done(taken) => taken,
                _ => false,
            }
        };
        let ghost processed = self.backend;
        assert(keys_outcome(old(self)@, body@, welcome, accepted, processed));
        let keyed = if accepted {
            match session_prepare_transition(&mut self.backend, id, pending.protocol_version) {
                Attempt::Done(()) => true,
                _ => false,
            }
        } else {
            false
        };
        assert(self@ == awaiting.with_backend(self.backend));
        assert(keys_derived(pending, processed, accepted, keyed, self.backend));
        self.settle_keys(keyed)
    }

    /// Prepares the pending transition, where the backend holds its keys, and starts the
    /// group over where it does not.
    pub fn settle_keys(&mut self, keyed: bool) -> (result: Result<Vec<Outbound>, DaveFailure>)
        requires
            old(self).well_formed(),
        ensures
            final(self).well_formed(),
            (Step {
                before: old(self)@,
                after: final(self)@,
                result: control_value(result),
            }).keys_settled(keyed),
    {
        let pending = match self.pending {
            Some(pending) => pending,
            None => return Err(DaveFailure::InvalidState),
        };
        let id: u16 = pending.id;
        if !keyed {
            return self.recover_invalid(id);
        }
        self.pending = Some(
            PendingTransition {
                id,
                protocol_version: pending.protocol_version,
                prepared: true,
                sender_ratchet_pending: true,
            },
        );
        assert(self@ == old(self)@.keys_staged());
        if id == 0 {
            return self.execute_transition(id);
        }
        Ok(one_message(ready(id)))
    }

    fn recover_invalid(&mut self, id: u16) -> (result: Result<Vec<Outbound>, DaveFailure>)
        requires
            old(self).well_formed(),
        ensures
            final(self).well_formed(),
            (Step {
                before: old(self)@,
                after: final(self)@,
                result: control_value(result),
            }).recovered(id),
    {
        if let Err(failure) = self.replace_session() {
            return Err(failure);
        }
        self.active_version = 0;
        self.pending = None;
        self.epoch_prepared = true;
        let ghost fresh = self.backend;
        assert(self@ == old(self)@.reset().with_backend(fresh));
        assert(fresh_session(old(self)@, fresh));
        let mut package = match self.key_package() {
            Ok(package) => package,
            Err(failure) => return Err(failure),
        };
        let mut actions = one_message(Outbound::Json { opcode: 31, transition_id: id });
        let ghost sent = outbound_values(package@);
        let ghost notice = outbound_values(actions@);
        actions.append(&mut package);
        assert(outbound_values(actions@) =~= notice + sent);
        assert(forall|p: Seq<u8>|
            sent == seq![#[trigger] key_package_message(p)] ==> notice + sent =~= seq![
                invalid_message(id),
                key_package_message(p),
            ]);
        Ok(actions)
    }

    /// Encrypts a frame into `output`, which holds nothing else afterwards.
    pub fn encrypt_into(&mut self, frame: &[u8], output: &mut Vec<u8>) -> (result: Result<
        (),
        DaveFailure,
    >)
        requires
            old(self).well_formed(),
        ensures
            final(self).well_formed(),
            final(self)@ == old(self)@.with_backend(final(self)@.backend),
            final(self)@.snapshot() == old(self)@.snapshot(),
            if old(self)@.ready() {
                frame_sealed(
                    old(self)@.backend,
                    frame@,
                    final(self)@.backend,
                    result,
                    final(output)@,
                )
            } else {
                &&& result == Err::<(), DaveFailure>(DaveFailure::InvalidState)
                &&& final(self)@ == old(self)@
                &&& final(output)@.len() == 0
            },
    {
        output.clear();
        if self.active_version != MAX_PROTOCOL_VERSION || !session_is_ready(&self.backend) {
            return Err(DaveFailure::InvalidState);
        }
        let outcome = session_encrypt(&mut self.backend, frame, output);
        let result = outcome.into_result();
        if result.is_err() {
            output.clear();
        }
        result
    }

    /// Takes the turn of one media frame: encrypts its first `len` bytes when the
    /// session is ready, and holds it back otherwise.
    pub fn encrypt_media(
        &mut self,
        frame: &[u8],
        len: usize,
        output: &mut Vec<u8>,
    ) -> (result: Result<MediaOutcome, DaveFailure>)
        requires
            old(self).well_formed(),
        ensures
            final(self).well_formed(),
            final(self)@.snapshot() == old(self)@.snapshot(),
            if len > frame@.len() {
                &&& result == Err::<MediaOutcome, DaveFailure>(DaveFailure::Malformed)
                &&& final(self)@ == old(self)@
                &&& final(output)@ == old(output)@
            } else if !old(self)@.ready() {
                &&& result == Ok::<MediaOutcome, DaveFailure>(MediaOutcome::NotReady)
                &&& final(self)@ == old(self)@
                &&& final(output)@.len() == 0
            } else {
                &&& frame_sealed(
                    old(self)@.backend,
                    frame@.subrange(0, len as int),
                    final(self)@.backend,
                    match result {
                        Ok(_) => Ok(()),
                        Err(failure) => Err(failure),
                    },
                    final(output)@,
                )
                &&& result is Ok ==> result == Ok::<MediaOutcome, DaveFailure>(
                    MediaOutcome::Encrypted,
                )
                &&& final(self)@ == old(self)@.with_backend(final(self)@.backend)
            },
    {
        if len > frame.len() {
            return Err(DaveFailure::Malformed);
        }
        if !self.snapshot().ready {
            output.clear();
            return Ok(MediaOutcome::NotReady);
        }
        match self.encrypt_into(&frame[0..len], output) {
            Ok(()) => Ok(MediaOutcome::Encrypted),
            Err(failure) => Err(failure),
        }
    }
}

/// A session counts as ready only while protocol version one is active.
pub proof fn ready_needs_the_active_version(state: CoreState)
    ensures
        state.snapshot().ready ==> state.snapshot().active_version == MAX_PROTOCOL_VERSION,
        state.active_version == 0 ==> !state.snapshot().ready,
{
}

/// The identifier that a control names, if it names one.
pub open spec fn named_transition(control: Control) -> Option<u16> {
    match control {
        Control::PrepareTransition { protocol_version, id } => if protocol_version
            == MAX_PROTOCOL_VERSION {
            Some(id)
        } else {
            None
        },
        Control::ExecuteTransition { id } => Some(id),
        Control::Commit(payload) => if payload@.len() >= 3 {
            Some(crate::wire::be16_value(payload@[0], payload@[1]))
        } else {
            None
        },
        Control::Welcome(payload) => if payload@.len() >= 3 {
            Some(crate::wire::be16_value(payload@[0], payload@[1]))
        } else {
            None
        },
        _ => None,
    }
}

/// While a transition is pending, a control that names another one is refused and
/// changes nothing.
pub proof fn other_transitions_preserve_the_pending_one(step: Step, control: Control)
    requires
        step.controlled(control),
        step.before.pending is Some,
        named_transition(control) is Some,
        named_transition(control)->0 != step.before.pending->0.id,
    ensures
        step.refused(DaveFailure::InvalidState),
{
}

/// A control for a version that is not spoken is refused and changes nothing, so a
/// ready sender stays ready.
pub proof fn refused_versions_preserve_the_sender(step: Step, version: u16, id: u16, epoch: u64)
    requires
        version != MAX_PROTOCOL_VERSION,
        step.controlled(Control::PrepareTransition { protocol_version: version, id })
            || step.controlled(Control::PrepareEpoch { protocol_version: version, epoch }),
    ensures
        step.refused(
            if version == 0 {
                DaveFailure::RequiredDowngrade
            } else {
                DaveFailure::UnsupportedVersion
            },
        ),
{
}

/// After a commit or a welcome of the pending transition that the backend does not take,
/// whether it rejects the message or panics on it, the group starts over: no version is
/// active, and no media can be encrypted.
pub proof fn untaken_keys_start_the_group_over(step: Step, processed: DaveSession, id: u16)
    requires
        step.before.awaits(id),
        step.keys_processed(step.before, processed, false),
    ensures
        (Step { before: step.before.with_backend(processed), ..step }).recovered(id),
        step.result is Ok ==> {
            &&& step.after.active_version == 0
            &&& step.after.pending is None
            &&& !step.after.ready()
        },
{
}

/// Once the keys of an established group were derived for transition zero, and the
/// transition took effect, media can be encrypted at once.
pub proof fn initial_keys_make_the_sender_ready(
    step: Step,
    processed: DaveSession,
    derived: DaveSession,
)
    requires
        step.before.valid(),
        step.before.awaits(0),
        crate::mls::dave_established(processed),
        keys_derived(step.before.pending->0, processed, true, true, derived),
        (Step { before: step.before.with_backend(derived), ..step }).keys_settled(true),
        step.result is Ok,
    ensures
        step.result == Ok::<Seq<OutboundValue>, DaveFailure>(Seq::empty()),
        step.after.pending is None,
        step.after.ready(),
{
}

/// Once the first epoch was prepared, nothing of the earlier group is in force: no
/// version is active, no transition is pending, and no media can be encrypted.
pub proof fn first_epoch_replaces_everything(step: Step)
    requires
        step.controlled(Control::PrepareEpoch { protocol_version: MAX_PROTOCOL_VERSION, epoch: 1 }),
        step.result is Ok,
    ensures
        step.after.active_version == 0,
        step.after.pending is None,
        step.after.epoch_prepared,
        !crate::mls::dave_ready(step.after.backend),
        !step.after.ready(),
        step.after.roster == step.before.roster,
        step.after.external_sender == step.before.external_sender,
{
}

/// A later epoch keeps the sender as it is, and a transition announced for it needs
/// new keys before it may be executed.
pub proof fn later_epochs_keep_the_sender(step: Step, epoch: u64, id: u16)
    requires
        epoch != 1,
        step.controlled(Control::PrepareEpoch { protocol_version: MAX_PROTOCOL_VERSION, epoch }),
    ensures
        step.result is Ok,
        step.after.snapshot() == step.before.snapshot(),
        !step.after.announced(MAX_PROTOCOL_VERSION, id).executable(id),
{
}

/// No control but the execution of a prepared transition activates a version; a
/// commit or welcome executes one only under identifier zero.
pub proof fn only_executed_transitions_activate(step: Step, control: Control)
    requires
        step.controlled(control),
        step.before.active_version == 0,
        step.after.active_version != 0,
    ensures
        match control {
            Control::ExecuteTransition { id } => step.before.executable(id),
            Control::Commit(_) | Control::Welcome(_) => named_transition(control) == Some(0u16),
            _ => false,
        },
{
}

/// A session that is not ready stays so unless a transition is executed or its keys
/// arrive.
pub proof fn readiness_comes_from_transitions(step: Step, control: Control)
    requires
        step.controlled(control),
        !step.before.ready(),
        step.after.ready(),
    ensures
        control is ExecuteTransition || control is Commit || control is Welcome,
{
}

/// The local user stays on the roster, whatever the gateway says of the members.
pub proof fn the_local_user_stays_on_the_roster(step: Step, control: Control)
    requires
        step.controlled(control),
        step.before.valid(),
    ensures
        step.after.roster.contains(step.before.user_id),
        step.after.user_id == step.before.user_id,
{
}

/// A transition that is announced to a ready sender, with no epoch prepared, needs no new
/// keys: it is acknowledged at once under its identifier, or takes effect at once under
/// identifier zero. Any other one is kept silently until its keys arrive.
pub proof fn announced_transitions_wait_for_their_keys(step: Step, id: u16)
    requires
        step.controlled(Control::PrepareTransition { protocol_version: 1, id }),
        step.before.pending is None,
    ensures
        ({
            let ready = step.before.active_version == 1 && crate::mls::dave_ready(
                step.before.backend,
            ) && !step.before.epoch_prepared;
            &&& step.result is Ok
            &&& ready && id != 0 ==> {
                &&& step.result->Ok_0 == seq![
                    (OutboundValue::Json { opcode: 23, transition_id: id }),
                ]
                &&& step.after.executable(id)
            }
            &&& ready && id == 0 ==> {
                &&& step.result->Ok_0.len() == 0
                &&& step.after.pending is None
                &&& step.after.active_version == 1
            }
            &&& !ready ==> {
                &&& step.result->Ok_0.len() == 0
                &&& step.after.awaits(id)
                &&& !step.after.executable(id)
            }
            &&& id != 0 || !ready ==> step.after.snapshot().transition_id == Some(id)
            &&& step.after.backend == step.before.backend
            &&& step.after.roster == step.before.roster
            &&& step.after.external_sender == step.before.external_sender
            &&& step.after.active_version == step.before.active_version
        }),
{
}

/// A transition takes effect only once it was prepared, and only under its own identifier.
/// Then its version is active, nothing is pending, and no epoch is prepared any more; what
/// the backend does not execute changes none of that.
pub proof fn prepared_transitions_take_effect(step: Step, id: u16)
    requires
        step.controlled(Control::ExecuteTransition { id }),
    ensures
        step.result is Ok ==> {
            &&& step.before.pending matches Some(pending)
            &&& pending.id == id
            &&& pending.prepared
            &&& step.result->Ok_0.len() == 0
            &&& step.after.active_version == pending.protocol_version
            &&& step.after.pending is None
            &&& !step.after.epoch_prepared
        },
        step.result is Err ==> {
            &&& step.after.active_version == step.before.active_version
            &&& step.after.pending == step.before.pending
            &&& step.after.epoch_prepared == step.before.epoch_prepared
        },
        step.before.pending matches Some(pending) ==> pending.id == id && pending.prepared
            && !pending.sender_ratchet_pending ==> step.result is Ok,
        step.before.pending is None || step.before.pending->0.id != id
            || !step.before.pending->0.prepared ==> step.result == Err::<
            Seq<OutboundValue>,
            DaveFailure,
        >(DaveFailure::InvalidState),
        step.after.roster == step.before.roster,
        step.after.external_sender == step.before.external_sender,
{
}

/// The first epoch of an owner with an external sender is answered with a key package and
/// nothing else; of one without, with nothing.
pub proof fn first_epochs_are_answered_with_a_key_package(step: Step)
    requires
        step.controlled(Control::PrepareEpoch { protocol_version: 1, epoch: 1 }),
        step.result is Ok,
    ensures
        step.before.external_sender is None ==> step.result->Ok_0.len() == 0,
        step.before.external_sender is Some ==> {
            &&& step.result->Ok_0.len() == 1
            &&& step.result->Ok_0[0] matches OutboundValue::Binary(bytes)
            &&& bytes.len() > 0
            &&& bytes[0] == 26
        },
{
}

/// An external sender of four bytes or more that the backend takes is in force from then on,
/// and is answered with a key package. A shorter one is malformed and changes nothing.
pub proof fn external_senders_are_answered_with_a_key_package(step: Step, payload: Vec<u8>)
    requires
        step.controlled(Control::ExternalSender(payload)),
    ensures
        payload@.len() < 4 ==> step.refused(DaveFailure::Malformed),
        step.result is Ok ==> {
            &&& payload@.len() >= 4
            &&& step.after.external_sender == Some(payload@)
            &&& step.result->Ok_0.len() == 1
            &&& step.result->Ok_0[0] matches OutboundValue::Binary(bytes)
            &&& bytes.len() > 0
            &&& bytes[0] == 26
        },
        step.after.active_version == step.before.active_version,
        step.after.pending == step.before.pending,
        step.after.roster == step.before.roster,
{
}

/// A key package follows its opcode, and a commit follows its own; the welcome for added
/// members follows the commit in the same message.
pub proof fn backend_messages_follow_their_opcode(
    package: Seq<u8>,
    commit: Seq<u8>,
    welcome: Seq<u8>,
)
    ensures
        package_result(Attempt::Done(package)) == Ok::<Seq<OutboundValue>, DaveFailure>(
            seq![OutboundValue::Binary(seq![26u8] + package)],
        ),
        proposals_result(ProposalsValue::Commit { commit, welcome: Some(welcome) }) == Ok::<
            Seq<OutboundValue>,
            DaveFailure,
        >(seq![OutboundValue::Binary(seq![28u8] + commit + welcome)]),
        proposals_result(ProposalsValue::Commit { commit, welcome: None }) == Ok::<
            Seq<OutboundValue>,
            DaveFailure,
        >(seq![OutboundValue::Binary(seq![28u8] + commit)]),
        proposals_result(ProposalsValue::Nothing) == Ok::<Seq<OutboundValue>, DaveFailure>(
            Seq::empty(),
        ),
        proposals_result(ProposalsValue::Rejected) is Err,
        proposals_result(ProposalsValue::Panicked) is Err,
        proposals_result(ProposalsValue::Rejected) != proposals_result(ProposalsValue::Panicked),
{
    assert(seq![28u8] + commit + Seq::<u8>::empty() =~= seq![28u8] + commit);
}

/// Proposals leave the lifecycle where it is. They are malformed without a body, and with an
/// operation other than to append and to revoke.
pub proof fn proposals_leave_the_lifecycle(step: Step, payload: Vec<u8>)
    requires
        step.controlled(Control::Proposals(payload)),
    ensures
        payload@.len() < 2 || payload@[0] > 1 ==> step.refused(DaveFailure::Malformed),
        step.after.snapshot() == step.before.snapshot(),
        step.after.pending == step.before.pending,
        step.after.epoch_prepared == step.before.epoch_prepared,
        step.after.external_sender == step.before.external_sender,
        step.after.roster == step.before.roster,
        step.result is Ok ==> step.result->Ok_0.len() <= 1,
{
}

/// The keys of a pending transition, once the backend holds them, make it ready to execute
/// and are acknowledged under its identifier; the version in force stays until then.
pub proof fn received_keys_are_acknowledged(step: Step, id: u16)
    requires
        step.keys_settled(true),
        step.before.awaits(id),
        id != 0,
    ensures
        step.result == Ok::<Seq<OutboundValue>, DaveFailure>(
            seq![(OutboundValue::Json { opcode: 23, transition_id: id })],
        ),
        step.after.executable(id),
        step.after.pending->0.sender_ratchet_pending,
        step.after.pending->0.protocol_version == step.before.pending->0.protocol_version,
        step.after.active_version == step.before.active_version,
        step.after.backend == step.before.backend,
        step.after.roster == step.before.roster,
{
}

/// Keys that the backend does not hold are reported under the identifier of the transition,
/// and followed by a key package for the group that starts over.
pub proof fn lost_keys_are_reported(step: Step, id: u16)
    requires
        step.keys_settled(false),
        step.before.awaits(id),
        step.result is Ok,
    ensures
        step.result->Ok_0.len() == 2,
        step.result->Ok_0[0] == (OutboundValue::Json { opcode: 31, transition_id: id }),
        step.result->Ok_0[1] matches OutboundValue::Binary(bytes) && bytes.len() > 0 && bytes[0]
            == 26,
        step.after.active_version == 0,
        step.after.pending is None,
        step.after.epoch_prepared,
        !step.after.ready(),
        step.after.external_sender == step.before.external_sender,
        step.after.roster == step.before.roster,
{
}

/// A commit or a welcome carries its transition in front, the high byte first, and is taken
/// only for the transition that is pending, or as the first keys of an owner that has an
/// external sender and nothing in force. A shorter one is malformed.
pub proof fn keys_belong_to_a_transition(step: Step, payload: Vec<u8>)
    requires
        step.controlled(Control::Commit(payload)) || step.controlled(Control::Welcome(payload)),
    ensures
        payload@.len() < 3 ==> step.refused(DaveFailure::Malformed),
        payload@.len() >= 3 ==> {
            let id = payload@[0] * 256 + payload@[1];
            let pending = step.before.pending is Some && step.before.pending->0.id == id;
            let first = id == 0 && step.before.pending is None && step.before.active_version == 0
                && step.before.external_sender is Some && !crate::mls::dave_ready(
                step.before.backend,
            );
            !pending && !first ==> step.refused(DaveFailure::InvalidState)
        },
        step.after.user_id == step.before.user_id,
        step.after.channel_id == step.before.channel_id,
        step.after.roster == step.before.roster,
        step.after.external_sender == step.before.external_sender,
{
}

/// A roster that the gateway lists is the roster from then on, with the local user. A member
/// that left is not on it any more, and every other one stays. Neither sends anything.
pub proof fn rosters_follow_the_gateway(step: Step, users: Vec<u64>, left: u64, member: u64)
    ensures
        step.controlled(Control::Roster(users)) ==> {
            &&& step.after.roster.contains(member) <==> users@.contains(member) || member
                == step.before.user_id
            &&& step.result == Ok::<Seq<OutboundValue>, DaveFailure>(Seq::empty())
            &&& step.after.snapshot() == step.before.snapshot()
            &&& step.after.backend == step.before.backend
        },
        step.controlled(Control::MemberDisconnected(left)) ==> {
            &&& left != step.before.user_id ==> !step.after.roster.contains(left)
            &&& member != left ==> (step.after.roster.contains(member)
                <==> step.before.roster.contains(member))
            &&& step.result == Ok::<Seq<OutboundValue>, DaveFailure>(Seq::empty())
            &&& step.after.snapshot() == step.before.snapshot()
            &&& step.after.backend == step.before.backend
        },
{
}

/// Version one is spoken; version zero is a downgrade, and every other one is not supported.
pub proof fn one_version_is_spoken(version: u16)
    ensures
        version_failure(version) is None <==> version == 1,
        version_failure(version) == Some(DaveFailure::RequiredDowngrade) <==> version == 0,
        version_failure(version) == Some(DaveFailure::UnsupportedVersion) <==> version > 1,
{
}

/// What an owner shows of itself: its version, the transition that is pending, and whether
/// media may be encrypted, which takes version one and a ready session. A failure is told
/// with the same.
pub proof fn snapshots_show_the_lifecycle(state: CoreState, id: u16)
    ensures
        state.snapshot().active_version == state.active_version,
        state.snapshot().transition_id == Some(id) <==> state.pending is Some
            && state.pending->0.id == id,
        state.snapshot().transition_id is None <==> state.pending is None,
        state.snapshot().ready <==> state.active_version == 1 && crate::mls::dave_ready(
            state.backend,
        ),
        ({
            let context = <DaveContext as vstd::std_specs::convert::FromSpec<
                Snapshot,
            >>::from_spec(state.snapshot());
            &&& context.active_version == state.active_version
            &&& context.transition_pending <==> state.pending is Some
            &&& context.ready == state.snapshot().ready
        }),
{
}

/// A frame that the backend seals is what it wrote, at most sixteen bytes longer; one that it
/// does not seal leaves nothing.
pub proof fn sealed_frames_stay_within_bounds(
    before: DaveSession,
    frame: Seq<u8>,
    after: DaveSession,
    result: Result<(), DaveFailure>,
    output: Seq<u8>,
)
    requires
        frame_sealed(before, frame, after, result, output),
    ensures
        result is Ok ==> output.len() <= frame.len() + 16,
        result is Ok ==> crate::mls::dave_encryption(before, frame, Attempt::Done(output), after),
        result is Err ==> output.len() == 0,
{
}

/// A new owner has nothing in force: no version, no transition, no external sender, nobody
/// but itself on the roster, and a session for its user and channel that is not ready.
pub proof fn new_owners_have_nothing_in_force(state: CoreState, user_id: u64, channel_id: u64)
    requires
        state.newly_owned(user_id, channel_id),
    ensures
        !state.ready(),
        state.snapshot().active_version == 0,
        state.snapshot().transition_id is None,
        state.external_sender is None,
        !state.epoch_prepared,
        state.user_id == user_id,
        state.channel_id == channel_id,
        forall|member: u64| #[trigger] state.roster.contains(member) <==> member == user_id,
{
}

/// Proposals reach the session without their operation byte, which says whether they are
/// appended, and with the roster in ascending order as the users that may be added. What the
/// session answers is the result, and its refusal and its panic are told apart.
pub proof fn proposals_reach_the_session(step: Step, payload: Vec<u8>, append: bool)
    requires
        step.controlled(Control::Proposals(payload)),
        payload@.len() >= 2,
        payload@[0] <= 1,
        append <==> payload@[0] == 0,
    ensures
        exists|outcome: ProposalsValue|
            {
                &&& #[trigger] crate::mls::dave_proposals_outcome(
                    step.before.backend,
                    append,
                    payload@.skip(1),
                    crate::roster::listing(step.before.roster),
                    outcome,
                    step.after.backend,
                )
                &&& outcome is Rejected ==> step.result == Err::<Seq<OutboundValue>, DaveFailure>(
                    DaveFailure::Backend,
                )
                &&& outcome is Panicked ==> step.result == Err::<Seq<OutboundValue>, DaveFailure>(
                    DaveFailure::BackendPanic,
                )
                &&& outcome is Nothing ==> step.result is Ok && step.result->Ok_0.len() == 0
                &&& outcome matches ProposalsValue::Commit { commit, welcome } ==> {
                    &&& step.result is Ok
                    &&& step.result->Ok_0.len() == 1
                    &&& step.result->Ok_0[0] matches OutboundValue::Binary(bytes)
                    &&& bytes[0] == 28
                    &&& welcome is None ==> bytes.skip(1) == commit
                    &&& welcome matches Some(added) ==> bytes.skip(1) == commit + added
                }
            },
{
    let body = payload@.subrange(1, payload@.len() as int);
    assert(body =~= payload@.skip(1));
    let outcome = choose|outcome: ProposalsValue|
        {
            &&& #[trigger] proposals_outcome(step.before, payload@, outcome, step.after.backend)
            &&& step.result == proposals_result(outcome)
        };
    assert(crate::mls::dave_proposals_outcome(
        step.before.backend,
        append,
        payload@.skip(1),
        crate::roster::listing(step.before.roster),
        outcome,
        step.after.backend,
    ));
    if let ProposalsValue::Commit { commit, welcome } = outcome {
        let bytes = step.result->Ok_0[0]->Binary_0;
        match welcome {
            Some(added) => {
                assert(bytes.skip(1) =~= commit + added);
            },
            None => {
                assert(bytes.skip(1) =~= commit);
            },
        }
    }
}

/// A commit or a welcome of the pending transition reaches the session without its
/// identifier, a welcome with the roster. One that the session does not take is reported and
/// the group starts over; the keys of one that it takes are derived for the transition.
pub proof fn keys_reach_the_session(step: Step, payload: Vec<u8>, id: u16)
    requires
        payload@.len() >= 3,
        id == payload@[0] * 256 + payload@[1],
        step.before.awaits(id),
    ensures
        step.controlled(Control::Commit(payload)) ==> exists|
            taken: Attempt<bool>,
            processed: DaveSession,
        |
            {
                &&& #[trigger] crate::mls::dave_commit_outcome(
                    step.before.backend,
                    payload@.skip(2),
                    taken,
                    processed,
                )
                &&& taken != Attempt::Done(true) && step.result is Ok ==> {
                    &&& step.result->Ok_0.len() == 2
                    &&& step.result->Ok_0[0] == (OutboundValue::Json {
                        opcode: 31,
                        transition_id: id,
                    })
                    &&& !step.after.ready()
                }
                &&& taken == Attempt::Done(true) ==> exists|
                    outcome: Attempt<()>,
                    derived: DaveSession,
                |
                    {
                        &&& #[trigger] crate::mls::dave_preparation(
                            processed,
                            id,
                            step.before.pending->0.protocol_version,
                            outcome,
                            derived,
                        )
                        &&& outcome is Done && id != 0 ==> step.result == Ok::<
                            Seq<OutboundValue>,
                            DaveFailure,
                        >(seq![(OutboundValue::Json { opcode: 23, transition_id: id })])
                            && step.after.executable(id)
                    }
            },
        step.controlled(Control::Welcome(payload)) ==> exists|
            outcome: Attempt<()>,
            processed: DaveSession,
        |
            {
                &&& #[trigger] crate::mls::dave_welcome_outcome(
                    step.before.backend,
                    payload@.skip(2),
                    crate::roster::listing(step.before.roster),
                    outcome,
                    processed,
                )
                &&& outcome !is Done && step.result is Ok ==> {
                    &&& step.result->Ok_0.len() == 2
                    &&& step.result->Ok_0[0] == (OutboundValue::Json {
                        opcode: 31,
                        transition_id: id,
                    })
                    &&& !step.after.ready()
                }
            },
{
    let body = payload@.subrange(2, payload@.len() as int);
    assert(body =~= payload@.skip(2));
    assert(crate::wire::be16_value(payload@[0], payload@[1]) == id);
    assert(step.before.awaiting_keys(id) == step.before);
}

/// The first keys of an owner with an external sender and nothing in force are taken under
/// identifier zero, though no transition was announced for them.
pub proof fn first_keys_need_no_announcement(step: Step, payload: Vec<u8>)
    requires
        payload@.len() >= 3,
        payload@[0] == 0,
        payload@[1] == 0,
        step.before.pending is None,
        step.before.active_version == 0,
        step.before.external_sender is Some,
        !crate::mls::dave_ready(step.before.backend),
        step.controlled(Control::Commit(payload)),
    ensures
        exists|taken: Attempt<bool>, processed: DaveSession| #[trigger]
            crate::mls::dave_commit_outcome(
                step.before.backend,
                payload@.skip(2),
                taken,
                processed,
            ),
        step.result is Ok ==> step.after.pending is None,
{
    let body = payload@.subrange(2, payload@.len() as int);
    assert(body =~= payload@.skip(2));
    assert(crate::wire::be16_value(payload@[0], payload@[1]) == 0);
}

/// An external sender reaches the session whole. Where the session does not take it, the one
/// before stays in force and the failure of the session is the result.
pub proof fn external_senders_reach_the_session(step: Step, payload: Vec<u8>)
    requires
        step.controlled(Control::ExternalSender(payload)),
        payload@.len() >= 4,
    ensures
        exists|outcome: Attempt<()>, told: DaveSession|
            {
                &&& #[trigger] crate::mls::dave_sender_outcome(
                    step.before.backend,
                    payload@,
                    outcome,
                    told,
                )
                &&& outcome is Done ==> step.after.external_sender == Some(payload@)
                &&& outcome !is Done ==> step.after.external_sender == step.before.external_sender
                &&& outcome is Failed ==> step.result == Err::<Seq<OutboundValue>, DaveFailure>(
                    DaveFailure::Backend,
                )
                &&& outcome is Panicked ==> step.result == Err::<Seq<OutboundValue>, DaveFailure>(
                    DaveFailure::BackendPanic,
                )
            },
{
}

/// A transition whose sender key is pending takes effect exactly where the session executes it
/// under its identifier.
pub proof fn executions_reach_the_session(step: Step, id: u16)
    requires
        step.controlled(Control::ExecuteTransition { id }),
        step.before.executable(id),
        step.before.pending->0.sender_ratchet_pending,
    ensures
        exists|outcome: Attempt<()>|
            {
                &&& #[trigger] crate::mls::dave_execution(
                    step.before.backend,
                    id,
                    outcome,
                    step.after.backend,
                )
                &&& step.result is Ok <==> outcome is Done
                &&& outcome is Failed ==> step.result == Err::<Seq<OutboundValue>, DaveFailure>(
                    DaveFailure::Backend,
                )
                &&& outcome is Panicked ==> step.result == Err::<Seq<OutboundValue>, DaveFailure>(
                    DaveFailure::BackendPanic,
                )
            },
        step.after.active_version == if step.result is Ok {
            step.before.pending->0.protocol_version
        } else {
            step.before.active_version
        },
{
}

/// A fresh session is one of version one for the user and the channel of its owner, is not
/// ready, and was handed the external sender in force.
pub proof fn fresh_sessions_belong_to_their_owner(state: CoreState, session: DaveSession)
    requires
        fresh_session(state, session),
    ensures
        !crate::mls::dave_ready(session),
        crate::mls::dave_identity(session) == (state.user_id, state.channel_id),
        state.external_sender is None ==> crate::mls::dave_session_outcome(
            1,
            state.user_id,
            state.channel_id,
            Attempt::Done(session),
        ),
        state.external_sender matches Some(sender) ==> exists|blank: DaveSession|
            {
                &&& #[trigger] crate::mls::dave_session_outcome(
                    1,
                    state.user_id,
                    state.channel_id,
                    Attempt::Done(blank),
                )
                &&& crate::mls::dave_sender_outcome(blank, sender, Attempt::Done(()), session)
            },
{
}

} // verus!
