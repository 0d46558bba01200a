//! One join request: an attempt at the session server, one refresh of the
//! credential where the attempt calls for it, and one more attempt.
//!
//! The task does no I/O itself. It is a state machine: the caller performs
//! each action it asks for and reports what came of it.

use vstd::prelude::*;
use crate::answer::{
    answer_to, build_custom_query_answer, view_of, AnswerView, CustomQueryAnswer,
};

verus! {

/// Why the session server refused a join.
#[derive(Clone, Copy, Debug, PartialEq, Eq, Structural)]
pub enum JoinError {
    /// The session is invalid or has expired.
    InvalidSession,
    /// The operation is forbidden, as with an expired session.
    ForbiddenOperation,
    /// Anything else.
    Other,
}

/// Where a join request stands.
#[derive(Clone, Copy, Debug, PartialEq, Eq, Structural)]
pub enum JoinPhase {
    /// The first attempt is under way.
    Joining,
    /// The credential is being refreshed.
    Refreshing,
    /// The second attempt is under way.
    Retrying,
    /// The request has ended: authenticated or not, or, with `None`, without
    /// an answer.
    Finished(Option<bool>),
}

/// What the caller reports back, without the credential it may carry.
#[derive(Clone, Copy, Debug, PartialEq, Eq)]
pub enum JoinSignal {
    /// How an attempt at the session server ended.
    Joined(Result<(), JoinError>),
    /// Whether the refresh gave a credential.
    Refreshed(bool),
}

/// What the caller reports back.
#[derive(Debug, PartialEq, Eq)]
pub enum JoinEvent {
    /// How an attempt at the session server ended.
    Joined(Result<(), JoinError>),
    /// What the refresh gave: the new credential, or `None` where it failed.
    Refreshed(Option<String>),
}

/// What the caller is to do next.
#[derive(Clone, Copy, Debug, PartialEq, Eq)]
pub enum JoinAction {
    /// Attempt the join at the session server, with the task's credential.
    Join,
    /// Refresh the account's credential.
    Refresh,
    /// Stop: the request has ended, with this outcome.
    Finish(Option<bool>),
    /// Nothing new: the event answers no action that is under way.
    Nothing,
}

/// An in-flight join request of one connection.
#[derive(Clone, Debug, PartialEq, Eq)]
pub struct OpenAuthModJoinTask {
    /// The transaction that the answer will reply to.
    pub transaction_id: u32,
    /// The challenge that the server issued.
    pub hash: String,
    /// The account's identifier.
    pub uuid: u128,
    /// The credential to join with.
    pub token: String,
    /// Where the request stands.
    pub phase: JoinPhase,
}

/// Whether a refusal of this kind is answered by refreshing the credential.
pub open spec fn calls_for_refresh(error: JoinError) -> bool {
    error is InvalidSession || error is ForbiddenOperation
}

/// The request ended with `outcome`.
pub open spec fn join_finish(outcome: Option<bool>) -> (JoinPhase, JoinAction) {
    (JoinPhase::Finished(outcome), JoinAction::Finish(outcome))
}

/// The phase after `signal`, and the action that the signal calls for.
///
/// A first attempt that succeeds ends the request. One that is refused for
/// an invalid session or a forbidden operation leads to a refresh; any other
/// refusal ends the request as a failure. A refresh that fails ends the
/// request without an answer. After a refresh the join is attempted once
/// more, and however that ends is final.
pub open spec fn join_step(phase: JoinPhase, signal: JoinSignal) -> (JoinPhase, JoinAction) {
    match (phase, signal) {
        (JoinPhase::Joining, JoinSignal::Joined(Ok(()))) => join_finish(Some(true)),
        (JoinPhase::Joining, JoinSignal::Joined(Err(error))) => if calls_for_refresh(error) {
            (JoinPhase::Refreshing, JoinAction::Refresh)
        } else {
            join_finish(Some(false))
        },
        (JoinPhase::Refreshing, JoinSignal::Refreshed(true)) => (
            JoinPhase::Retrying,
            JoinAction::Join,
        ),
        (JoinPhase::Refreshing, JoinSignal::Refreshed(false)) => join_finish(None),
        (JoinPhase::Retrying, JoinSignal::Joined(result)) => join_finish(Some(result is Ok)),
        _ => (phase, JoinAction::Nothing),
    }
}

/// The answer that a request in `phase` has for the transaction, if it has
/// one.
pub open spec fn answer_in(transaction_id: u32, phase: JoinPhase) -> Option<AnswerView> {
    match phase {
        JoinPhase::Finished(Some(success)) => Some(answer_to(transaction_id, success)),
        _ => None,
    }
}

impl JoinEvent {
    /// The event without the credential it may carry.
    pub open spec fn signal(self) -> JoinSignal {
        match self {
            JoinEvent::Joined(result) => JoinSignal::Joined(result),
            JoinEvent::Refreshed(token) => JoinSignal::Refreshed(token is Some),
        }
    }
}

impl OpenAuthModJoinTask {
    /// A request for the transaction `transaction_id`, to answer the
    /// challenge `hash` for the account `uuid` with the credential `token`.
    /// Its first action is an attempt at the session server.
    pub fn start(transaction_id: u32, hash: String, uuid: u128, token: String) -> (begun: (
        OpenAuthModJoinTask,
        JoinAction,
    ))
        ensures
            begun.0 == (OpenAuthModJoinTask {
                transaction_id,
                hash,
                uuid,
                token,
                phase: JoinPhase::Joining,
            }),
            begun.1 == JoinAction::Join,
    {
        (
            OpenAuthModJoinTask { transaction_id, hash, uuid, token, phase: JoinPhase::Joining },
            JoinAction::Join,
        )
    }

    /// The credential of the task after `event`: the one that a refresh
    /// gave, where the task was waiting for it, and else the one it had.
    pub open spec fn token_after(self, event: JoinEvent) -> String {
        match (self.phase, event) {
            (JoinPhase::Refreshing, JoinEvent::Refreshed(Some(token))) => token,
            _ => self.token,
        }
    }

    /// Takes what the caller reports, and gives the action that it calls for.
    pub fn advance(&mut self, event: JoinEvent) -> (action: JoinAction)
        ensures
            (final(self).phase, action) == join_step(old(self).phase, event.signal()),
            final(self).token == old(self).token_after(event),
            final(self).transaction_id == old(self).transaction_id,
            final(self).hash == old(self).hash,
            final(self).uuid == old(self).uuid,
    {
        match (self.phase, event) {
            (JoinPhase::Joining, JoinEvent::Joined(Ok(()))) => self.finish(Some(true)),
            (JoinPhase::Joining, JoinEvent::Joined(Err(error))) => match error {
                JoinError::InvalidSession | JoinError::ForbiddenOperation => {
                    self.phase = JoinPhase::Refreshing;
                    JoinAction::Refresh
                },
                JoinError::Other => self.finish(Some(false)),
            },
            (JoinPhase::Refreshing, JoinEvent::Refreshed(Some(token))) => {
                self.token = token;
                self.phase = JoinPhase::Retrying;
                JoinAction::Join
            },
            (JoinPhase::Refreshing, JoinEvent::Refreshed(None)) => self.finish(None),
            (JoinPhase::Retrying, JoinEvent::Joined(result)) => self.finish(Some(result.is_ok())),
            _ => JoinAction::Nothing,
        }
    }

    /// Ends the request with `outcome`.
    fn finish(&mut self, outcome: Option<bool>) -> (action: JoinAction)
        ensures
            (final(self).phase, action) == join_finish(outcome),
            final(self).token == old(self).token,
            final(self).transaction_id == old(self).transaction_id,
            final(self).hash == old(self).hash,
            final(self).uuid == old(self).uuid,
    {
        self.phase = JoinPhase::Finished(outcome);
        JoinAction::Finish(outcome)
    }

    /// The answer of the request: the packet that reports its outcome for
    /// its transaction. There is none while the request is under way, and
    /// none where it ended without an answer.
    pub fn answer(&self) -> (answer: Option<CustomQueryAnswer>)
        ensures
            view_of(answer) == answer_in(self.transaction_id, self.phase),
    {
        match self.phase {
            JoinPhase::Finished(Some(success)) => Some(
                build_custom_query_answer(self.transaction_id, success),
            ),
            _ => None,
        }
    }
}

/// The phase after all of `signals`, from `phase` on.
pub open spec fn join_phase_after(phase: JoinPhase, signals: Seq<JoinSignal>) -> JoinPhase
    decreases signals.len(),
{
    if signals.len() == 0 {
        phase
    } else {
        join_step(join_phase_after(phase, signals.drop_last()), signals.last()).0
    }
}

/// How often `signals` call for `action`, from `phase` on.
pub open spec fn join_action_count(phase: JoinPhase, signals: Seq<JoinSignal>, action: JoinAction) -> nat
    decreases signals.len(),
{
    if signals.len() == 0 {
        0
    } else {
        let before = join_action_count(phase, signals.drop_last(), action);
        if join_step(join_phase_after(phase, signals.drop_last()), signals.last()).1 == action {
            before + 1
        } else {
            before
        }
    }
}

/// How often `signals` end the request, from `phase` on.
pub open spec fn join_finish_count(phase: JoinPhase, signals: Seq<JoinSignal>) -> nat
    decreases signals.len(),
{
    if signals.len() == 0 {
        0
    } else {
        let before = join_finish_count(phase, signals.drop_last());
        if join_step(join_phase_after(phase, signals.drop_last()), signals.last()).1 is Finish {
            before + 1
        } else {
            before
        }
    }
}

/// Whatever is reported to a new request, and in whatever order: besides
/// its first attempt it asks for at most one more, so that the session
/// server is tried at most twice; it asks for at most one refresh; and it
/// ends at most once.
pub proof fn lemma_join_is_bounded(signals: Seq<JoinSignal>)
    ensures
        1 + join_action_count(JoinPhase::Joining, signals, JoinAction::Join) <= 2,
        join_action_count(JoinPhase::Joining, signals, JoinAction::Refresh) <= 1,
        join_finish_count(JoinPhase::Joining, signals) <= 1,
{
    lemma_join_counts(signals);
}

/// What each phase says of the actions that led to it.
pub proof fn lemma_join_counts(signals: Seq<JoinSignal>)
    ensures
        ({
            let joins = join_action_count(JoinPhase::Joining, signals, JoinAction::Join);
            let refreshes = join_action_count(JoinPhase::Joining, signals, JoinAction::Refresh);
            let finishes = join_finish_count(JoinPhase::Joining, signals);
            match join_phase_after(JoinPhase::Joining, signals) {
                JoinPhase::Joining => joins == 0 && refreshes == 0 && finishes == 0,
                JoinPhase::Refreshing => joins == 0 && refreshes == 1 && finishes == 0,
                JoinPhase::Retrying => joins == 1 && refreshes == 1 && finishes == 0,
                JoinPhase::Finished(_) => joins <= 1 && refreshes <= 1 && joins <= refreshes
                    && finishes == 1,
            }
        }),
    decreases signals.len(),
{
    if signals.len() > 0 {
        lemma_join_counts(signals.drop_last());
    }
}

/// A request that has ended stays as it is and asks for nothing more.
pub proof fn lemma_join_finished_is_final(outcome: Option<bool>, signal: JoinSignal)
    ensures
        join_step(JoinPhase::Finished(outcome), signal) == (
            JoinPhase::Finished(outcome),
            JoinAction::Nothing,
        ),
{
}

} // verus!
