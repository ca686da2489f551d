//! The `davey` session behind the DAVE lifecycle.
//!
//! Every call into the crate stands in one function here. A session is opaque: what
//! is known of it is whether it is ready, whose it is, whether it has a group, and what the
//! calls come to.
//!
//! The crate can panic on what it is handed: with debug assertions its decoder does so on
//! a length that announces too much, and with overflow checks its encryptor does so when
//! its frame counter is used up. Each call is therefore made inside a future of the
//! `futures_util` crate under `remote_handle`, whose `Remote` half catches an unwind. The
//! future is ready at its first poll; where the call unwinds, the future leaves the
//! outcome at [`Attempt::Panicked`]. The session stays in use after that.
use std::num::NonZeroU16;

use davey::{Codec, DaveSession, MediaType, ProposalsOperationType};
use futures_util::future::{lazy, FutureExt};
use vstd::prelude::*;

use crate::error::DaveFailure;

verus! {

/// An MLS session of the `davey` crate.
#[verifier::external_type_specification]
#[verifier::external_body]
pub struct ExDaveSession(davey::DaveSession);

/// How a call into the backend ended.
#[derive(Debug)]
pub enum Attempt<T> {
    /// It returned this.
    Done(T),
    /// It reported an error.
    Failed,
    /// It panicked.
    Panicked,
}

impl<T> Attempt<T> {
    /// What is wrong with a call that came to nothing.
    pub open spec fn failure(self) -> Option<DaveFailure> {
        match self {
            Attempt::Done(_) => None,
            Attempt::Failed => Some(DaveFailure::Backend),
            Attempt::Panicked => Some(DaveFailure::BackendPanic),
        }
    }

    /// Returns what the call returned, or what is wrong with it.
    pub fn into_result(self) -> (result: Result<T, DaveFailure>)
        ensures
            match self {
                Attempt::Done(value) => result == Ok::<T, DaveFailure>(value),
                _ => result == Err::<T, DaveFailure>(self.failure()->0),
            },
    {
        match self {
            Attempt::Done(value) => Ok(value),
            Attempt::Failed => Err(DaveFailure::Backend),
            Attempt::Panicked => Err(DaveFailure::BackendPanic),
        }
    }
}

/// A call that returned bytes, as a mathematical value.
pub open spec fn bytes_value(attempt: Attempt<Vec<u8>>) -> Attempt<Seq<u8>> {
    match attempt {
        Attempt::Done(bytes) => Attempt::Done(bytes@),
        Attempt::Failed => Attempt::Failed,
        Attempt::Panicked => Attempt::Panicked,
    }
}

/// What `DaveSession::is_ready` returns for a session.
pub uninterp spec fn dave_ready(session: davey::DaveSession) -> bool;

/// The user and the channel of a session, which `DaveSession::user_id` and
/// `DaveSession::channel_id` return.
pub uninterp spec fn dave_identity(session: davey::DaveSession) -> (u64, u64);

/// Whether a session has a group past its first epoch, which `DaveSession::epoch` returns.
pub uninterp spec fn dave_established(session: davey::DaveSession) -> bool;

/// Whether `DaveSession::new` may come to this for these arguments. The signing key is
/// drawn at random.
pub uninterp spec fn dave_session_outcome(
    version: u16,
    user_id: u64,
    channel_id: u64,
    made: Attempt<davey::DaveSession>,
) -> bool;

/// Whether `DaveSession::set_external_sender` may come to this for these bytes, and leave
/// the session like that. The group that it makes holds fresh key material.
pub uninterp spec fn dave_sender_outcome(
    before: davey::DaveSession,
    data: Seq<u8>,
    outcome: Attempt<()>,
    after: davey::DaveSession,
) -> bool;

/// Whether `DaveSession::create_key_package` may come to this, and leave the session like
/// that. A key package holds fresh key material, so no two need be alike.
pub uninterp spec fn dave_key_package(
    before: davey::DaveSession,
    package: Attempt<Seq<u8>>,
    after: davey::DaveSession,
) -> bool;

/// Whether `DaveSession::process_proposals` may come to this, and leave the session like
/// that. A commit holds fresh key material, so no two need be alike.
pub uninterp spec fn dave_proposals_outcome(
    before: davey::DaveSession,
    append: bool,
    body: Seq<u8>,
    expected: Seq<u64>,
    outcome: ProposalsValue,
    after: davey::DaveSession,
) -> bool;

/// Whether `DaveSession::process_welcome` may come to this for these arguments, and leave
/// the session like that. Lifetimes of members are held against the time of the call.
pub uninterp spec fn dave_welcome_outcome(
    before: davey::DaveSession,
    body: Seq<u8>,
    recognized: Seq<u64>,
    outcome: Attempt<()>,
    after: davey::DaveSession,
) -> bool;

/// Whether `DaveSession::process_commit` may come to this for these bytes, and leave the
/// session like that. Lifetimes of members are held against the time of the call.
pub uninterp spec fn dave_commit_outcome(
    before: davey::DaveSession,
    body: Seq<u8>,
    taken: Attempt<bool>,
    after: davey::DaveSession,
) -> bool;

/// Whether `DaveSession::prepare_transition` may come to this, and leave the session like
/// that.
pub uninterp spec fn dave_preparation(
    before: davey::DaveSession,
    id: u16,
    version: u16,
    outcome: Attempt<()>,
    after: davey::DaveSession,
) -> bool;

/// Whether `DaveSession::execute_transition` may come to this, and leave the session like
/// that.
pub uninterp spec fn dave_execution(
    before: davey::DaveSession,
    id: u16,
    outcome: Attempt<()>,
    after: davey::DaveSession,
) -> bool;

/// Whether `DaveSession::encrypt_into` may write this for a whole frame of audio, and leave
/// the session like that.
pub uninterp spec fn dave_encryption(
    before: davey::DaveSession,
    frame: Seq<u8>,
    sealed: Attempt<Seq<u8>>,
    after: davey::DaveSession,
) -> bool;

/// What became of a batch of proposals.
#[derive(Debug)]
pub enum ProposalsOutcome {
    /// The backend rejected the batch.
    Rejected,
    /// The backend panicked.
    Panicked,
    /// The batch leaves nothing to commit.
    Nothing,
    /// A commit to send, with a welcome for added members.
    Commit { commit: Vec<u8>, welcome: Option<Vec<u8>> },
}

/// The mathematical form of a [`ProposalsOutcome`].
pub ghost enum ProposalsValue {
    Rejected,
    Panicked,
    Nothing,
    Commit { commit: Seq<u8>, welcome: Option<Seq<u8>> },
}

impl ProposalsOutcome {
    /// The outcome as a mathematical value.
    pub open spec fn value(self) -> ProposalsValue {
        match self {
            ProposalsOutcome::Rejected => ProposalsValue::Rejected,
            ProposalsOutcome::Panicked => ProposalsValue::Panicked,
            ProposalsOutcome::Nothing => ProposalsValue::Nothing,
            ProposalsOutcome::Commit { commit, welcome } => ProposalsValue::Commit {
                commit: commit@,
                welcome: match welcome {
                    Some(bytes) => Some(bytes@),
                    None => None,
                },
            },
        }
    }
}

/// Creates a session with `davey::DaveSession::new` and a fresh signing key.
///
/// Claimed of the crate: a new session belongs to the user and the channel that it
/// was made for, and is not ready. Whether there is one is left open: the signing key is
/// drawn at random. Version zero makes none.
#[verifier::external_body]
pub(crate) fn session_new(version: u16, user_id: u64, channel_id: u64) -> (made: Attempt<
    DaveSession,
>)
    ensures
        dave_session_outcome(version, user_id, channel_id, made),
        made matches Attempt::Done(fresh) ==> {
            &&& !dave_ready(fresh)
            &&& dave_identity(fresh) == (user_id, channel_id)
        },
{
    let mut made = Attempt::Panicked;
    let (call, _handle) = lazy(|_| {
        let version = NonZeroU16::new(version);
        made = match version.map(|v| DaveSession::new(v, user_id, channel_id, None)) {
            Some(Ok(session)) => Attempt::Done(session),
            _ => Attempt::Failed,
        };
    }).remote_handle();
    call.now_or_never();
    made
}

/// Asks `davey::DaveSession::is_ready`.
#[verifier::external_body]
pub(crate) fn session_is_ready(session: &DaveSession) -> (ready: bool)
    ensures
        ready == dave_ready(*session),
{
    session.is_ready()
}

/// Hands an external sender to `davey::DaveSession::set_external_sender`.
///
/// Claimed of the crate: readiness and identity stay as they are, however the call ends.
#[verifier::external_body]
pub(crate) fn session_set_external_sender(session: &mut DaveSession, data: &[u8]) -> (outcome:
    Attempt<()>)
    ensures
        dave_sender_outcome(*old(session), data@, outcome, *final(session)),
        dave_ready(*final(session)) == dave_ready(*old(session)),
        dave_identity(*final(session)) == dave_identity(*old(session)),
{
    let mut outcome = Attempt::Panicked;
    let (call, _handle) = lazy(|_| {
        outcome = match session.set_external_sender(data) {
            Ok(()) => Attempt::Done(()),
            Err(_) => Attempt::Failed,
        };
    }).remote_handle();
    call.now_or_never();
    outcome
}

/// Creates a key package with `davey::DaveSession::create_key_package`.
///
/// Claimed of the crate: readiness and identity stay as they are, however the call ends.
#[verifier::external_body]
pub(crate) fn session_key_package(session: &mut DaveSession) -> (package: Attempt<Vec<u8>>)
    ensures
        dave_key_package(*old(session), bytes_value(package), *final(session)),
        dave_ready(*final(session)) == dave_ready(*old(session)),
        dave_identity(*final(session)) == dave_identity(*old(session)),
{
    let mut package = Attempt::Panicked;
    let (call, _handle) = lazy(|_| {
        package = match session.create_key_package() {
            Ok(bytes) => Attempt::Done(bytes),
            Err(_) => Attempt::Failed,
        };
    }).remote_handle();
    call.now_or_never();
    package
}

/// Hands proposals to `davey::DaveSession::process_proposals`, which admits only the
/// expected users.
///
/// Claimed of the crate: readiness and identity stay as they are, however the call ends.
#[verifier::external_body]
pub(crate) fn session_process_proposals(
    session: &mut DaveSession,
    append: bool,
    body: &[u8],
    expected: &[u64],
) -> (outcome: ProposalsOutcome)
    ensures
        dave_proposals_outcome(
            *old(session),
            append,
            body@,
            expected@,
            outcome.value(),
            *final(session),
        ),
        dave_ready(*final(session)) == dave_ready(*old(session)),
        dave_identity(*final(session)) == dave_identity(*old(session)),
{
    let mut outcome = ProposalsOutcome::Panicked;
    let (call, _handle) = lazy(|_| {
        let operation =
            if append { ProposalsOperationType::APPEND } else { ProposalsOperationType::REVOKE };
        outcome = match session.process_proposals(operation, body, Some(expected)) {
            Err(_) => ProposalsOutcome::Rejected,
            Ok(None) => ProposalsOutcome::Nothing,
            Ok(Some(c)) => ProposalsOutcome::Commit { commit: c.commit, welcome: c.welcome },
        };
    }).remote_handle();
    call.now_or_never();
    outcome
}

/// Hands a welcome to `davey::DaveSession::process_welcome`, which admits only the
/// recognized users.
///
/// Claimed of the crate: readiness and identity stay as they are, however the call ends.
#[verifier::external_body]
pub(crate) fn session_process_welcome(
    session: &mut DaveSession,
    body: &[u8],
    recognized: &[u64],
) -> (outcome: Attempt<()>)
    ensures
        dave_welcome_outcome(*old(session), body@, recognized@, outcome, *final(session)),
        dave_ready(*final(session)) == dave_ready(*old(session)),
        dave_identity(*final(session)) == dave_identity(*old(session)),
{
    let mut outcome = Attempt::Panicked;
    let (call, _handle) = lazy(|_| {
        outcome = match session.process_welcome(body, Some(recognized)) {
            Ok(()) => Attempt::Done(()),
            Err(_) => Attempt::Failed,
        };
    }).remote_handle();
    call.now_or_never();
    outcome
}

/// Hands a commit to `davey::DaveSession::process_commit`, which says whether it
/// took the commit or ignored it.
///
/// Claimed of the crate: readiness and identity stay as they are, however the call ends.
#[verifier::external_body]
pub(crate) fn session_process_commit(session: &mut DaveSession, body: &[u8]) -> (taken: Attempt<
    bool,
>)
    ensures
        dave_commit_outcome(*old(session), body@, taken, *final(session)),
        dave_ready(*final(session)) == dave_ready(*old(session)),
        dave_identity(*final(session)) == dave_identity(*old(session)),
{
    let mut taken = Attempt::Panicked;
    let (call, _handle) = lazy(|_| {
        taken = match session.process_commit(body) {
            Ok(merged) => Attempt::Done(merged),
            Err(_) => Attempt::Failed,
        };
    }).remote_handle();
    call.now_or_never();
    taken
}

/// Prepares a transition with `davey::DaveSession::prepare_transition`, which derives
/// the keys of the group.
///
/// Claimed of the crate: preparing a version other than zero makes a session with an
/// established group ready, and no other; a ready session stays ready, and identity stays
/// as it is. A call that comes to nothing may have made the session ready before.
#[verifier::external_body]
pub(crate) fn session_prepare_transition(
    session: &mut DaveSession,
    id: u16,
    version: u16,
) -> (outcome: Attempt<()>)
    ensures
        dave_preparation(*old(session), id, version, outcome, *final(session)),
        dave_ready(*old(session)) ==> dave_ready(*final(session)),
        dave_ready(*final(session)) ==> dave_ready(*old(session)) || dave_established(
            *old(session),
        ),
        outcome is Done && version != 0 && dave_established(*old(session)) ==> dave_ready(
            *final(session),
        ),
        dave_identity(*final(session)) == dave_identity(*old(session)),
{
    let mut outcome = Attempt::Panicked;
    let (call, _handle) = lazy(|_| {
        outcome = match session.prepare_transition(id, version) {
            Ok(()) => Attempt::Done(()),
            Err(_) => Attempt::Failed,
        };
    }).remote_handle();
    call.now_or_never();
    outcome
}

/// Executes a prepared transition with `davey::DaveSession::execute_transition`, which
/// switches the sender key.
///
/// Claimed of the crate: readiness and identity stay as they are, however the call ends.
#[verifier::external_body]
pub(crate) fn session_execute_transition(session: &mut DaveSession, id: u16) -> (outcome: Attempt<
    (),
>)
    ensures
        dave_execution(*old(session), id, outcome, *final(session)),
        dave_ready(*final(session)) == dave_ready(*old(session)),
        dave_identity(*final(session)) == dave_identity(*old(session)),
{
    let mut outcome = Attempt::Panicked;
    let (call, _handle) = lazy(|_| {
        outcome = match session.execute_transition(id) {
            Ok(_) => Attempt::Done(()),
            Err(_) => Attempt::Failed,
        };
    }).remote_handle();
    call.now_or_never();
    outcome
}

/// Encrypts a frame with `davey::DaveSession::encrypt_into`.
///
/// The frame is handed over with an unknown codec: the crate encrypts such a frame
/// whole, silence included, as it encrypts any other audio frame.
///
/// Claimed of the crate: what is written is longer than the frame by an eight-byte tag, a
/// nonce of one to five bytes and three bytes more; readiness and identity stay as they
/// are, however the call ends. What the output holds after a call that came to nothing is
/// left open.
#[verifier::external_body]
pub(crate) fn session_encrypt(
    session: &mut DaveSession,
    frame: &[u8],
    output: &mut Vec<u8>,
) -> (outcome: Attempt<()>)
    ensures
        dave_encryption(
            *old(session),
            frame@,
            match outcome {
                Attempt::Done(_) => Attempt::Done(final(output)@),
                Attempt::Failed => Attempt::Failed,
                Attempt::Panicked => Attempt::Panicked,
            },
            *final(session),
        ),
        outcome is Done ==> frame@.len() + 12 <= final(output)@.len() <= frame@.len() + 16,
        dave_ready(*final(session)) == dave_ready(*old(session)),
        dave_identity(*final(session)) == dave_identity(*old(session)),
{
    let mut outcome = Attempt::Panicked;
    let (call, _handle) = lazy(|_| {
        outcome = match session.encrypt_into(MediaType::AUDIO, Codec::UNKNOWN, frame, output) {
            Ok(()) => Attempt::Done(()),
            Err(_) => Attempt::Failed,
        };
    }).remote_handle();
    call.now_or_never();
    outcome
}

/// A call that reported an error is told apart from one that panicked, and one that returned
/// has no failure.
pub proof fn failed_calls_are_told_apart(value: u64)
    ensures
        Attempt::<u64>::Done(value).failure() is None,
        Attempt::<u64>::Failed.failure() == Some(DaveFailure::Backend),
        Attempt::<u64>::Panicked.failure() == Some(DaveFailure::BackendPanic),
{
}

} // verus!
