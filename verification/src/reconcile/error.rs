//! Why a reconciliation stopped, and the response each failure is answered with.
use vstd::prelude::*;

use crate::ids::ReservationId;
use crate::output::envelope::answers;
use crate::output::envelope::ledger_error_text;
use crate::output::envelope::ledger_unreadable_message;
use crate::output::envelope::ConfigError;
use crate::output::envelope::LedgerError;
use crate::output::envelope::OutputEnvelope;
use crate::output::hook::hook_facing_presents;
use crate::output::hook::EngineAnswerOccasion;
use crate::output::hook::HookCondition;
use crate::output::payload::OutputFacts;
use crate::output::replay::ReservationReplayError;
use crate::output::status::CommandVerb;
use crate::output::status::OutputStatus;
use crate::text::concat3;

verus! {

/// Why a ledger transaction did not commit.
#[derive(Debug, PartialEq, Eq)]
pub enum LedgerTransactionError {
    /// The bounded ledger-lock wait ran out; `description` is the failure's own account.
    LockContention { description: String },
    /// The caller can correct the request; `description` says how.
    CorrectableInput { description: String },
    /// A derived record would exceed its size bound; `description` is the failure's account.
    DerivedRecordTooLarge { description: String },
    /// The ledger could not be read.
    LedgerUnreadable(LedgerError),
}

/// Why a reconciliation pass stopped.
///
/// Failures raised by git, replay or the worktree registry carry their own account of
/// themselves as `description`.
#[derive(Debug, PartialEq, Eq)]
pub enum ReconcileError {
    /// The configuration could not be accepted.
    Config(ConfigError),
    /// A git query failed.
    Git { description: String },
    /// The ledger could not be read.
    Ledger(LedgerError),
    /// Reservation replay rejected the journal.
    Replay { error: ReservationReplayError, description: String },
    /// Ordering-edge replay rejected the journal.
    EdgeReplay { description: String },
    /// A readiness fact the ordering graph needs was missing.
    MissingReadinessFact { description: String },
    /// The ledger transaction did not commit.
    Transaction(LedgerTransactionError),
    /// The worktree registry could not be read.
    WorktreeRegistry { description: String },
    /// A concurrent drift observation worker stopped abnormally.
    ConcurrentObservationWorkerPanicked,
    /// The drift marker preflight appended to the journal when it must not.
    UnexpectedDriftPreflightMutation,
    /// A concurrent mutation requires rewrite acceptance to be evaluated again.
    RewriteSubjectChanged(ReservationId),
}

/// The sentence asking for reconciliation to be retried after a rewrite subject changed.
pub open spec fn subject_changed_text(reservation_id: Seq<char>) -> Seq<char> {
    "reservation "@ + reservation_id + " changed during rewrite acceptance; retry reconciliation"@
}

/// The status and message a reconciliation failure is answered with.
pub open spec fn failure_response(error: ReconcileError) -> (OutputStatus, Seq<char>) {
    match error {
        ReconcileError::Transaction(LedgerTransactionError::LockContention { description }) => (
            OutputStatus::Contention,
            description@,
        ),
        ReconcileError::Transaction(LedgerTransactionError::CorrectableInput { description }) => (
            OutputStatus::InvalidInput,
            description@,
        ),
        ReconcileError::Transaction(LedgerTransactionError::DerivedRecordTooLarge { description }) => (
            OutputStatus::LedgerUnreadable,
            ledger_unreadable_message(description@),
        ),
        ReconcileError::Transaction(LedgerTransactionError::LedgerUnreadable(error)) => (
            OutputStatus::LedgerUnreadable,
            ledger_unreadable_message(ledger_error_text(error)),
        ),
        ReconcileError::Config(error) => (
            OutputStatus::LedgerUnreadable,
            ledger_unreadable_message(ledger_error_text(LedgerError::Config(error))),
        ),
        ReconcileError::Git { description } => (
            OutputStatus::LedgerUnreadable,
            ledger_unreadable_message(description@),
        ),
        ReconcileError::Ledger(error) => (
            OutputStatus::LedgerUnreadable,
            ledger_unreadable_message(ledger_error_text(error)),
        ),
        ReconcileError::Replay { description, .. } => (
            OutputStatus::LedgerUnreadable,
            "The reservation ledger could not be replayed: "@ + description@,
        ),
        ReconcileError::EdgeReplay { description } => (
            OutputStatus::LedgerUnreadable,
            ledger_unreadable_message(description@),
        ),
        ReconcileError::MissingReadinessFact { description } => (
            OutputStatus::LedgerUnreadable,
            ledger_unreadable_message(description@),
        ),
        ReconcileError::WorktreeRegistry { description } => (
            OutputStatus::LedgerUnreadable,
            ledger_unreadable_message(description@),
        ),
        ReconcileError::ConcurrentObservationWorkerPanicked => (
            OutputStatus::LedgerUnreadable,
            ledger_unreadable_message("concurrent drift observation worker panicked"@),
        ),
        ReconcileError::RewriteSubjectChanged(reservation_id) => (
            OutputStatus::Contention,
            subject_changed_text(reservation_id@),
        ),
        ReconcileError::UnexpectedDriftPreflightMutation => (
            OutputStatus::LedgerUnreadable,
            ledger_unreadable_message(
                "drift marker preflight unexpectedly appended a journal event"@,
            ),
        ),
    }
}

/// The condition a failure states to a harness hook, for the verbs a hook reads.
pub open spec fn failure_condition(error: ReconcileError, message: Seq<char>) -> Option<HookCondition> {
    match failure_response(error).0 {
        OutputStatus::Contention => Some(HookCondition::Contention(message)),
        OutputStatus::InvalidInput => Some(HookCondition::InvalidInput(message)),
        _ => if error is Replay {
            None
        } else {
            Some(HookCondition::LedgerUnreadable(message))
        },
    }
}

/// The account a reconciliation failure gives of itself.
pub open spec fn failure_text(error: ReconcileError) -> Seq<char> {
    match error {
        ReconcileError::Config(error) => ledger_error_text(LedgerError::Config(error)),
        ReconcileError::Git { description } => description@,
        ReconcileError::Ledger(error) => ledger_error_text(error),
        ReconcileError::Replay { description, .. } => description@,
        ReconcileError::EdgeReplay { description } => description@,
        ReconcileError::MissingReadinessFact { description } => description@,
        ReconcileError::Transaction(LedgerTransactionError::LockContention { description }) =>
            description@,
        ReconcileError::Transaction(LedgerTransactionError::CorrectableInput { description }) =>
            description@,
        ReconcileError::Transaction(LedgerTransactionError::DerivedRecordTooLarge { description }) =>
            description@,
        ReconcileError::Transaction(LedgerTransactionError::LedgerUnreadable(error)) =>
            ledger_error_text(error),
        ReconcileError::WorktreeRegistry { description } => description@,
        ReconcileError::ConcurrentObservationWorkerPanicked =>
            "concurrent drift observation worker panicked"@,
        ReconcileError::RewriteSubjectChanged(reservation_id) => subject_changed_text(
            reservation_id@,
        ),
        ReconcileError::UnexpectedDriftPreflightMutation =>
            "drift marker preflight unexpectedly mutated the journal"@,
    }
}

impl ReconcileError {
    /// The account this failure gives of itself.
    pub fn message(&self) -> (text: String)
        ensures
            text@ == failure_text(*self),
    {
        match self {
            ReconcileError::Config(error) => LedgerError::Config(clone_config_error(error)).message(),
            ReconcileError::Git { description } => description.clone(),
            ReconcileError::Ledger(error) => error.message(),
            ReconcileError::Replay { description, .. } => description.clone(),
            ReconcileError::EdgeReplay { description } => description.clone(),
            ReconcileError::MissingReadinessFact { description } => description.clone(),
            ReconcileError::Transaction(LedgerTransactionError::LockContention { description }) =>
                description.clone(),
            ReconcileError::Transaction(LedgerTransactionError::CorrectableInput { description }) =>
                description.clone(),
            ReconcileError::Transaction(
                LedgerTransactionError::DerivedRecordTooLarge { description },
            ) => description.clone(),
            ReconcileError::Transaction(LedgerTransactionError::LedgerUnreadable(error)) =>
                error.message(),
            ReconcileError::WorktreeRegistry { description } => description.clone(),
            ReconcileError::ConcurrentObservationWorkerPanicked =>
                "concurrent drift observation worker panicked".to_owned(),
            ReconcileError::RewriteSubjectChanged(reservation_id) => concat3(
                "reservation ",
                reservation_id.as_str(),
                " changed during rewrite acceptance; retry reconciliation",
            ),
            ReconcileError::UnexpectedDriftPreflightMutation =>
                "drift marker preflight unexpectedly mutated the journal".to_owned(),
        }
    }

    /// Convert a failed prerequisite into the requesting verb's public response.
    ///
    /// `occasion` names the event a hook answers on, and `retry_budget_seconds` is the single
    /// lock wait the engine already spent.
    pub fn into_output(
        self,
        command_verb: CommandVerb,
        occasion: EngineAnswerOccasion,
        retry_budget_seconds: u64,
    ) -> (envelope: OutputEnvelope)
        ensures
            answers(
                envelope,
                command_verb,
                failure_response(self).0,
                Seq::empty(),
                Seq::empty(),
                failure_response(self).1,
            ),
            match failure_condition(self, envelope.message@) {
                Some(condition) => hook_facing_presents(
                    envelope.presentation,
                    command_verb,
                    condition,
                    occasion,
                    retry_budget_seconds as nat,
                ),
                None => envelope.payload.facts is ReplayFailure,
            },
            self matches ReconcileError::Replay { error, .. } ==> envelope.payload.facts matches OutputFacts::ReplayFailure(
                payload,
            ) && (payload.reason, payload.subject) == crate::output::replay::reservation_failure(error)
                && payload.effect is HardStop,
    {
        match self {
            ReconcileError::Transaction(LedgerTransactionError::LockContention { description }) => {
                OutputEnvelope::contention_on(
                    command_verb,
                    description.as_str(),
                    occasion,
                    retry_budget_seconds,
                )
            },
            ReconcileError::Transaction(LedgerTransactionError::CorrectableInput { description }) => {
                OutputEnvelope::invalid_input_on(command_verb, description.as_str(), occasion)
            },
            ReconcileError::RewriteSubjectChanged(reservation_id) => {
                let diagnostic = concat3(
                    "reservation ",
                    reservation_id.as_str(),
                    " changed during rewrite acceptance; retry reconciliation",
                );
                OutputEnvelope::contention_on(
                    command_verb,
                    diagnostic.as_str(),
                    occasion,
                    retry_budget_seconds,
                )
            },
            ReconcileError::Replay { error, description } => {
                OutputEnvelope::replay_failure(command_verb, &error, description.as_str())
            },
            ReconcileError::UnexpectedDriftPreflightMutation => OutputEnvelope::ledger_unreadable_on(
                command_verb,
                "drift marker preflight unexpectedly appended a journal event",
                occasion,
            ),
            other => {
                let description = other.message();
                OutputEnvelope::ledger_unreadable_on(command_verb, description.as_str(), occasion)
            },
        }
    }
}

/// Copy a configuration failure.
fn clone_config_error(error: &ConfigError) -> (copy: ConfigError)
    ensures
        copy == *error,
{
    match error {
        ConfigError::UnknownKey(key) => ConfigError::UnknownKey(key.clone()),
    }
}

/// Exhausting the rewrite retries is answered as lock contention that asks for a retry, never
/// as a broken ledger.
pub proof fn changed_rewrite_subjects_ask_for_a_retry(reservation_id: ReservationId)
    ensures
        failure_response(ReconcileError::RewriteSubjectChanged(reservation_id)).0
            == OutputStatus::Contention,
        failure_response(ReconcileError::RewriteSubjectChanged(reservation_id)).1 == subject_changed_text(
            reservation_id@,
        ),
{
}

} // verus!
