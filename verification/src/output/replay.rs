//! Typed journal replay failures that stop every command.
use vstd::prelude::*;

use crate::ids::ForcedIntegrationPermitId;
use crate::ids::IncursionIncidentId;
use crate::ids::ReservationId;
use crate::reservation::lifecycle::LifecycleTransitionError;
use crate::text::concat2;

verus! {

/// An invariant violation that stopped reservation replay, with the subject it names.
#[derive(Debug, PartialEq, Eq)]
pub enum ReservationReplayError {
    /// The `duplicate_claim` invariant rejected this reservation.
    DuplicateClaim(ReservationId),
    /// The `unknown_reservation` invariant rejected this reservation.
    UnknownReservation(ReservationId),
    /// The `empty_scope_set` invariant rejected this reservation.
    EmptyScopeSet(ReservationId),
    /// The `widen_requires_unreleased` invariant rejected this reservation.
    WidenRequiresUnreleased(ReservationId),
    /// The `revision_exhausted` invariant rejected this reservation.
    RevisionExhausted(ReservationId),
    /// The `integration_proof_subject_revision_exhausted` invariant rejected this reservation.
    IntegrationProofSubjectRevisionExhausted(ReservationId),
    /// The `snapshot_state_mismatch` invariant rejected this reservation.
    SnapshotStateMismatch(ReservationId),
    /// The `integrated_release_without_evidence` invariant rejected this reservation.
    IntegratedReleaseWithoutEvidence(ReservationId),
    /// The `active_evidence_revalidation` invariant rejected this reservation.
    ActiveEvidenceRevalidation(ReservationId),
    /// The `active_scoped_patch_comparison` invariant rejected this reservation.
    ActiveScopedPatchComparison(ReservationId),
    /// The `integration_proof_subject_mismatch` invariant rejected this reservation.
    IntegrationProofSubjectMismatch(ReservationId),
    /// The `decision_has_no_git_evidence` invariant rejected this reservation.
    DecisionHasNoGitEvidence(ReservationId),
    /// The `missing_protected_tip` invariant rejected this reservation.
    MissingProtectedTip(ReservationId),
    /// The `missing_trunk_snapshot` invariant rejected this reservation.
    MissingTrunkSnapshot(ReservationId),
    /// The `worktree_relocation_mismatch` invariant rejected this reservation.
    WorktreeRelocationMismatch(ReservationId),
    /// The `worktree_rebinding_mismatch` invariant rejected this reservation.
    WorktreeRebindingMismatch(ReservationId),
    /// The `invalid_replacement_disposition` invariant rejected this reservation.
    InvalidReplacementDisposition(ReservationId),
    /// The `duplicate_incursion_incident` invariant rejected this incursion incident.
    DuplicateIncursionIncident(IncursionIncidentId),
    /// The `unknown_incursion_incident` invariant rejected this incursion incident.
    UnknownIncursionIncident(IncursionIncidentId),
    /// The `incursion_incident_already_resolved` invariant rejected this incursion incident.
    IncursionIncidentAlreadyResolved(IncursionIncidentId),
    /// A journal operation requested a lifecycle transition from the wrong state.
    InvalidLifecycleTransition(ReservationId, LifecycleTransitionError),
}

/// An invariant violation that stopped forced-integration permit replay.
#[derive(Debug, PartialEq, Eq)]
pub enum ForcedIntegrationPermitReplayError {
    /// The `duplicate_permit` invariant rejected this permit.
    DuplicatePermit(ForcedIntegrationPermitId),
    /// The `unknown_permit` invariant rejected this permit.
    UnknownPermit(ForcedIntegrationPermitId),
    /// The `already_consumed` invariant rejected this permit.
    AlreadyConsumed(ForcedIntegrationPermitId),
    /// The `reservation_mismatch` invariant rejected this permit.
    ReservationMismatch(ForcedIntegrationPermitId),
}

/// The exact invariant that stopped replay.
#[derive(Clone, Copy, Debug, PartialEq, Eq, Structural)]
pub enum ReplayFailureReason {
    /// `duplicate_claim`
    DuplicateClaim,
    /// `unknown_reservation`
    UnknownReservation,
    /// `empty_scope_set`
    EmptyScopeSet,
    /// `widen_requires_unreleased`
    WidenRequiresUnreleased,
    /// `revision_exhausted`
    RevisionExhausted,
    /// `integration_proof_subject_revision_exhausted`
    IntegrationProofSubjectRevisionExhausted,
    /// `snapshot_state_mismatch`
    SnapshotStateMismatch,
    /// `integrated_release_without_evidence`
    IntegratedReleaseWithoutEvidence,
    /// `active_evidence_revalidation`
    ActiveEvidenceRevalidation,
    /// `active_scoped_patch_comparison`
    ActiveScopedPatchComparison,
    /// `integration_proof_subject_mismatch`
    IntegrationProofSubjectMismatch,
    /// `decision_has_no_git_evidence`
    DecisionHasNoGitEvidence,
    /// `missing_protected_tip`
    MissingProtectedTip,
    /// `missing_trunk_snapshot`
    MissingTrunkSnapshot,
    /// `worktree_relocation_mismatch`
    WorktreeRelocationMismatch,
    /// `worktree_rebinding_mismatch`
    WorktreeRebindingMismatch,
    /// `invalid_replacement_disposition`
    InvalidReplacementDisposition,
    /// `duplicate_incursion_incident`
    DuplicateIncursionIncident,
    /// `unknown_incursion_incident`
    UnknownIncursionIncident,
    /// `incursion_incident_already_resolved`
    IncursionIncidentAlreadyResolved,
    /// `checkpoint_requires_active`
    CheckpointRequiresActive,
    /// `resnapshot_requires_outstanding`
    ResnapshotRequiresOutstanding,
    /// `release_requires_checkpoint`
    ReleaseRequiresCheckpoint,
    /// `already_released`
    AlreadyReleased,
    /// `superseded_disposition_mismatch`
    SupersededDispositionMismatch,
    /// `replacement_requires_release`
    ReplacementRequiresRelease,
    /// `duplicate_permit`
    DuplicatePermit,
    /// `unknown_permit`
    UnknownPermit,
    /// `already_consumed`
    AlreadyConsumed,
    /// `reservation_mismatch`
    ReservationMismatch,
}

impl ReplayFailureReason {
    /// The stable wire spelling of this reason.
    pub fn wire_name(&self) -> (name: &'static str)
        ensures
            name@ == reason_wire_name(*self),
    {
        match self {
            ReplayFailureReason::DuplicateClaim => "duplicate_claim",
            ReplayFailureReason::UnknownReservation => "unknown_reservation",
            ReplayFailureReason::EmptyScopeSet => "empty_scope_set",
            ReplayFailureReason::WidenRequiresUnreleased => "widen_requires_unreleased",
            ReplayFailureReason::RevisionExhausted => "revision_exhausted",
            ReplayFailureReason::IntegrationProofSubjectRevisionExhausted => "integration_proof_subject_revision_exhausted",
            ReplayFailureReason::SnapshotStateMismatch => "snapshot_state_mismatch",
            ReplayFailureReason::IntegratedReleaseWithoutEvidence => "integrated_release_without_evidence",
            ReplayFailureReason::ActiveEvidenceRevalidation => "active_evidence_revalidation",
            ReplayFailureReason::ActiveScopedPatchComparison => "active_scoped_patch_comparison",
            ReplayFailureReason::IntegrationProofSubjectMismatch => "integration_proof_subject_mismatch",
            ReplayFailureReason::DecisionHasNoGitEvidence => "decision_has_no_git_evidence",
            ReplayFailureReason::MissingProtectedTip => "missing_protected_tip",
            ReplayFailureReason::MissingTrunkSnapshot => "missing_trunk_snapshot",
            ReplayFailureReason::WorktreeRelocationMismatch => "worktree_relocation_mismatch",
            ReplayFailureReason::WorktreeRebindingMismatch => "worktree_rebinding_mismatch",
            ReplayFailureReason::InvalidReplacementDisposition => "invalid_replacement_disposition",
            ReplayFailureReason::DuplicateIncursionIncident => "duplicate_incursion_incident",
            ReplayFailureReason::UnknownIncursionIncident => "unknown_incursion_incident",
            ReplayFailureReason::IncursionIncidentAlreadyResolved => "incursion_incident_already_resolved",
            ReplayFailureReason::CheckpointRequiresActive => "checkpoint_requires_active",
            ReplayFailureReason::ResnapshotRequiresOutstanding => "resnapshot_requires_outstanding",
            ReplayFailureReason::ReleaseRequiresCheckpoint => "release_requires_checkpoint",
            ReplayFailureReason::AlreadyReleased => "already_released",
            ReplayFailureReason::SupersededDispositionMismatch => "superseded_disposition_mismatch",
            ReplayFailureReason::ReplacementRequiresRelease => "replacement_requires_release",
            ReplayFailureReason::DuplicatePermit => "duplicate_permit",
            ReplayFailureReason::UnknownPermit => "unknown_permit",
            ReplayFailureReason::AlreadyConsumed => "already_consumed",
            ReplayFailureReason::ReservationMismatch => "reservation_mismatch",
        }
    }
}

/// The stable wire spelling of a replay failure reason.
pub open spec fn reason_wire_name(reason: ReplayFailureReason) -> Seq<char> {
    match reason {
        ReplayFailureReason::DuplicateClaim => "duplicate_claim"@,
        ReplayFailureReason::UnknownReservation => "unknown_reservation"@,
        ReplayFailureReason::EmptyScopeSet => "empty_scope_set"@,
        ReplayFailureReason::WidenRequiresUnreleased => "widen_requires_unreleased"@,
        ReplayFailureReason::RevisionExhausted => "revision_exhausted"@,
        ReplayFailureReason::IntegrationProofSubjectRevisionExhausted => "integration_proof_subject_revision_exhausted"@,
        ReplayFailureReason::SnapshotStateMismatch => "snapshot_state_mismatch"@,
        ReplayFailureReason::IntegratedReleaseWithoutEvidence => "integrated_release_without_evidence"@,
        ReplayFailureReason::ActiveEvidenceRevalidation => "active_evidence_revalidation"@,
        ReplayFailureReason::ActiveScopedPatchComparison => "active_scoped_patch_comparison"@,
        ReplayFailureReason::IntegrationProofSubjectMismatch => "integration_proof_subject_mismatch"@,
        ReplayFailureReason::DecisionHasNoGitEvidence => "decision_has_no_git_evidence"@,
        ReplayFailureReason::MissingProtectedTip => "missing_protected_tip"@,
        ReplayFailureReason::MissingTrunkSnapshot => "missing_trunk_snapshot"@,
        ReplayFailureReason::WorktreeRelocationMismatch => "worktree_relocation_mismatch"@,
        ReplayFailureReason::WorktreeRebindingMismatch => "worktree_rebinding_mismatch"@,
        ReplayFailureReason::InvalidReplacementDisposition => "invalid_replacement_disposition"@,
        ReplayFailureReason::DuplicateIncursionIncident => "duplicate_incursion_incident"@,
        ReplayFailureReason::UnknownIncursionIncident => "unknown_incursion_incident"@,
        ReplayFailureReason::IncursionIncidentAlreadyResolved => "incursion_incident_already_resolved"@,
        ReplayFailureReason::CheckpointRequiresActive => "checkpoint_requires_active"@,
        ReplayFailureReason::ResnapshotRequiresOutstanding => "resnapshot_requires_outstanding"@,
        ReplayFailureReason::ReleaseRequiresCheckpoint => "release_requires_checkpoint"@,
        ReplayFailureReason::AlreadyReleased => "already_released"@,
        ReplayFailureReason::SupersededDispositionMismatch => "superseded_disposition_mismatch"@,
        ReplayFailureReason::ReplacementRequiresRelease => "replacement_requires_release"@,
        ReplayFailureReason::DuplicatePermit => "duplicate_permit"@,
        ReplayFailureReason::UnknownPermit => "unknown_permit"@,
        ReplayFailureReason::AlreadyConsumed => "already_consumed"@,
        ReplayFailureReason::ReservationMismatch => "reservation_mismatch"@,
    }
}

/// The subject whose journal replay failed.
#[derive(Debug, PartialEq, Eq)]
pub enum ReplayFailureSubject {
    /// A retained reservation or reservation mutation was invalid.
    Reservation(ReservationId),
    /// A retained incursion-incident record was invalid.
    IncursionIncident(IncursionIncidentId),
    /// A retained forced-integration permit record was invalid.
    ForcedIntegrationPermit(ForcedIntegrationPermitId),
}

/// The command-level effect of a replay failure.
#[derive(Clone, Copy, Debug, PartialEq, Eq, Structural)]
pub enum ReplayFailureEffect {
    /// No command can safely continue from the rejected journal sequence.
    HardStop,
}

/// A typed ledger replay failure that does not require parsing `message`.
#[derive(Debug, PartialEq, Eq)]
pub struct ReplayFailurePayload {
    /// The exact replay invariant that rejected the journal.
    pub reason: ReplayFailureReason,
    /// The reservation or incursion incident identified by that invariant.
    pub subject: ReplayFailureSubject,
    /// The command-level consequence shared by every replay failure.
    pub effect: ReplayFailureEffect,
}

/// The reason a lifecycle transition failure is reported under.
pub open spec fn transition_reason(error: LifecycleTransitionError) -> ReplayFailureReason {
    match error {
        LifecycleTransitionError::CheckpointRequiresActive => ReplayFailureReason::CheckpointRequiresActive,
        LifecycleTransitionError::ResnapshotRequiresOutstanding => ReplayFailureReason::ResnapshotRequiresOutstanding,
        LifecycleTransitionError::ReleaseRequiresCheckpoint => ReplayFailureReason::ReleaseRequiresCheckpoint,
        LifecycleTransitionError::AlreadyReleased => ReplayFailureReason::AlreadyReleased,
        LifecycleTransitionError::SupersededDispositionMismatch => ReplayFailureReason::SupersededDispositionMismatch,
        LifecycleTransitionError::ReplacementRequiresRelease => ReplayFailureReason::ReplacementRequiresRelease,
    }
}

/// The reason and subject a reservation replay error is reported under.
pub open spec fn reservation_failure(error: ReservationReplayError) -> (ReplayFailureReason, ReplayFailureSubject) {
    match error {
        ReservationReplayError::DuplicateClaim(id) => (ReplayFailureReason::DuplicateClaim, ReplayFailureSubject::Reservation(id)),
        ReservationReplayError::UnknownReservation(id) => (ReplayFailureReason::UnknownReservation, ReplayFailureSubject::Reservation(id)),
        ReservationReplayError::EmptyScopeSet(id) => (ReplayFailureReason::EmptyScopeSet, ReplayFailureSubject::Reservation(id)),
        ReservationReplayError::WidenRequiresUnreleased(id) => (ReplayFailureReason::WidenRequiresUnreleased, ReplayFailureSubject::Reservation(id)),
        ReservationReplayError::RevisionExhausted(id) => (ReplayFailureReason::RevisionExhausted, ReplayFailureSubject::Reservation(id)),
        ReservationReplayError::IntegrationProofSubjectRevisionExhausted(id) => (ReplayFailureReason::IntegrationProofSubjectRevisionExhausted, ReplayFailureSubject::Reservation(id)),
        ReservationReplayError::SnapshotStateMismatch(id) => (ReplayFailureReason::SnapshotStateMismatch, ReplayFailureSubject::Reservation(id)),
        ReservationReplayError::IntegratedReleaseWithoutEvidence(id) => (ReplayFailureReason::IntegratedReleaseWithoutEvidence, ReplayFailureSubject::Reservation(id)),
        ReservationReplayError::ActiveEvidenceRevalidation(id) => (ReplayFailureReason::ActiveEvidenceRevalidation, ReplayFailureSubject::Reservation(id)),
        ReservationReplayError::ActiveScopedPatchComparison(id) => (ReplayFailureReason::ActiveScopedPatchComparison, ReplayFailureSubject::Reservation(id)),
        ReservationReplayError::IntegrationProofSubjectMismatch(id) => (ReplayFailureReason::IntegrationProofSubjectMismatch, ReplayFailureSubject::Reservation(id)),
        ReservationReplayError::DecisionHasNoGitEvidence(id) => (ReplayFailureReason::DecisionHasNoGitEvidence, ReplayFailureSubject::Reservation(id)),
        ReservationReplayError::MissingProtectedTip(id) => (ReplayFailureReason::MissingProtectedTip, ReplayFailureSubject::Reservation(id)),
        ReservationReplayError::MissingTrunkSnapshot(id) => (ReplayFailureReason::MissingTrunkSnapshot, ReplayFailureSubject::Reservation(id)),
        ReservationReplayError::WorktreeRelocationMismatch(id) => (ReplayFailureReason::WorktreeRelocationMismatch, ReplayFailureSubject::Reservation(id)),
        ReservationReplayError::WorktreeRebindingMismatch(id) => (ReplayFailureReason::WorktreeRebindingMismatch, ReplayFailureSubject::Reservation(id)),
        ReservationReplayError::InvalidReplacementDisposition(id) => (ReplayFailureReason::InvalidReplacementDisposition, ReplayFailureSubject::Reservation(id)),
        ReservationReplayError::DuplicateIncursionIncident(id) => (ReplayFailureReason::DuplicateIncursionIncident, ReplayFailureSubject::IncursionIncident(id)),
        ReservationReplayError::UnknownIncursionIncident(id) => (ReplayFailureReason::UnknownIncursionIncident, ReplayFailureSubject::IncursionIncident(id)),
        ReservationReplayError::IncursionIncidentAlreadyResolved(id) => (ReplayFailureReason::IncursionIncidentAlreadyResolved, ReplayFailureSubject::IncursionIncident(id)),
        ReservationReplayError::InvalidLifecycleTransition(id, error) => (
            transition_reason(error),
            ReplayFailureSubject::Reservation(id),
        ),
    }
}

/// The reason a permit replay error is reported under.
pub open spec fn permit_failure_reason(error: ForcedIntegrationPermitReplayError) -> ReplayFailureReason {
    match error {
        ForcedIntegrationPermitReplayError::DuplicatePermit(_) => ReplayFailureReason::DuplicatePermit,
        ForcedIntegrationPermitReplayError::UnknownPermit(_) => ReplayFailureReason::UnknownPermit,
        ForcedIntegrationPermitReplayError::AlreadyConsumed(_) => ReplayFailureReason::AlreadyConsumed,
        ForcedIntegrationPermitReplayError::ReservationMismatch(_) => ReplayFailureReason::ReservationMismatch,
    }
}

/// The permit a permit replay error names.
pub open spec fn permit_failure_subject(error: ForcedIntegrationPermitReplayError) -> ForcedIntegrationPermitId {
    match error {
        ForcedIntegrationPermitReplayError::DuplicatePermit(id) => id,
        ForcedIntegrationPermitReplayError::UnknownPermit(id) => id,
        ForcedIntegrationPermitReplayError::AlreadyConsumed(id) => id,
        ForcedIntegrationPermitReplayError::ReservationMismatch(id) => id,
    }
}

/// How a replay failure subject is named in prose.
pub open spec fn subject_phrase(subject: ReplayFailureSubject) -> Seq<char> {
    match subject {
        ReplayFailureSubject::Reservation(id) => "reservation "@ + id@,
        ReplayFailureSubject::IncursionIncident(id) => "incursion incident "@ + id@,
        ReplayFailureSubject::ForcedIntegrationPermit(id) => "forced-integration permit "@ + id@,
    }
}

impl ReplayFailurePayload {
    /// Report a reservation replay failure as a hard stop naming its reason and subject.
    pub fn from_reservation_replay_error(error: &ReservationReplayError) -> (payload: Self)
        ensures
            (payload.reason, payload.subject) == reservation_failure(*error),
            payload.effect is HardStop,
    {
        let (reason, subject) = match error {
            ReservationReplayError::DuplicateClaim(id) => (ReplayFailureReason::DuplicateClaim, ReplayFailureSubject::Reservation(id.clone())),
            ReservationReplayError::UnknownReservation(id) => (ReplayFailureReason::UnknownReservation, ReplayFailureSubject::Reservation(id.clone())),
            ReservationReplayError::EmptyScopeSet(id) => (ReplayFailureReason::EmptyScopeSet, ReplayFailureSubject::Reservation(id.clone())),
            ReservationReplayError::WidenRequiresUnreleased(id) => (ReplayFailureReason::WidenRequiresUnreleased, ReplayFailureSubject::Reservation(id.clone())),
            ReservationReplayError::RevisionExhausted(id) => (ReplayFailureReason::RevisionExhausted, ReplayFailureSubject::Reservation(id.clone())),
            ReservationReplayError::IntegrationProofSubjectRevisionExhausted(id) => (ReplayFailureReason::IntegrationProofSubjectRevisionExhausted, ReplayFailureSubject::Reservation(id.clone())),
            ReservationReplayError::SnapshotStateMismatch(id) => (ReplayFailureReason::SnapshotStateMismatch, ReplayFailureSubject::Reservation(id.clone())),
            ReservationReplayError::IntegratedReleaseWithoutEvidence(id) => (ReplayFailureReason::IntegratedReleaseWithoutEvidence, ReplayFailureSubject::Reservation(id.clone())),
            ReservationReplayError::ActiveEvidenceRevalidation(id) => (ReplayFailureReason::ActiveEvidenceRevalidation, ReplayFailureSubject::Reservation(id.clone())),
            ReservationReplayError::ActiveScopedPatchComparison(id) => (ReplayFailureReason::ActiveScopedPatchComparison, ReplayFailureSubject::Reservation(id.clone())),
            ReservationReplayError::IntegrationProofSubjectMismatch(id) => (ReplayFailureReason::IntegrationProofSubjectMismatch, ReplayFailureSubject::Reservation(id.clone())),
            ReservationReplayError::DecisionHasNoGitEvidence(id) => (ReplayFailureReason::DecisionHasNoGitEvidence, ReplayFailureSubject::Reservation(id.clone())),
            ReservationReplayError::MissingProtectedTip(id) => (ReplayFailureReason::MissingProtectedTip, ReplayFailureSubject::Reservation(id.clone())),
            ReservationReplayError::MissingTrunkSnapshot(id) => (ReplayFailureReason::MissingTrunkSnapshot, ReplayFailureSubject::Reservation(id.clone())),
            ReservationReplayError::WorktreeRelocationMismatch(id) => (ReplayFailureReason::WorktreeRelocationMismatch, ReplayFailureSubject::Reservation(id.clone())),
            ReservationReplayError::WorktreeRebindingMismatch(id) => (ReplayFailureReason::WorktreeRebindingMismatch, ReplayFailureSubject::Reservation(id.clone())),
            ReservationReplayError::InvalidReplacementDisposition(id) => (ReplayFailureReason::InvalidReplacementDisposition, ReplayFailureSubject::Reservation(id.clone())),
            ReservationReplayError::DuplicateIncursionIncident(id) => (ReplayFailureReason::DuplicateIncursionIncident, ReplayFailureSubject::IncursionIncident(id.clone())),
            ReservationReplayError::UnknownIncursionIncident(id) => (ReplayFailureReason::UnknownIncursionIncident, ReplayFailureSubject::IncursionIncident(id.clone())),
            ReservationReplayError::IncursionIncidentAlreadyResolved(id) => (ReplayFailureReason::IncursionIncidentAlreadyResolved, ReplayFailureSubject::IncursionIncident(id.clone())),
            ReservationReplayError::InvalidLifecycleTransition(id, error) => {
                let reason = match error {
                    LifecycleTransitionError::CheckpointRequiresActive => ReplayFailureReason::CheckpointRequiresActive,
                    LifecycleTransitionError::ResnapshotRequiresOutstanding => ReplayFailureReason::ResnapshotRequiresOutstanding,
                    LifecycleTransitionError::ReleaseRequiresCheckpoint => ReplayFailureReason::ReleaseRequiresCheckpoint,
                    LifecycleTransitionError::AlreadyReleased => ReplayFailureReason::AlreadyReleased,
                    LifecycleTransitionError::SupersededDispositionMismatch => ReplayFailureReason::SupersededDispositionMismatch,
                    LifecycleTransitionError::ReplacementRequiresRelease => ReplayFailureReason::ReplacementRequiresRelease,
                };
                (reason, ReplayFailureSubject::Reservation(id.clone()))
            },
        };
        ReplayFailurePayload { reason, subject, effect: ReplayFailureEffect::HardStop }
    }

    /// Report a permit replay failure as a hard stop naming the permit.
    pub fn from_permit_replay_error(error: &ForcedIntegrationPermitReplayError) -> (payload: Self)
        ensures
            payload.reason == permit_failure_reason(*error),
            payload.subject == ReplayFailureSubject::ForcedIntegrationPermit(
                permit_failure_subject(*error),
            ),
            payload.effect is HardStop,
    {
        let (reason, permit_id) = match error {
            ForcedIntegrationPermitReplayError::DuplicatePermit(id) => (ReplayFailureReason::DuplicatePermit, id.clone()),
            ForcedIntegrationPermitReplayError::UnknownPermit(id) => (ReplayFailureReason::UnknownPermit, id.clone()),
            ForcedIntegrationPermitReplayError::AlreadyConsumed(id) => (ReplayFailureReason::AlreadyConsumed, id.clone()),
            ForcedIntegrationPermitReplayError::ReservationMismatch(id) => (ReplayFailureReason::ReservationMismatch, id.clone()),
        };
        ReplayFailurePayload {
            reason,
            subject: ReplayFailureSubject::ForcedIntegrationPermit(permit_id),
            effect: ReplayFailureEffect::HardStop,
        }
    }

    /// The reason's wire spelling, as prose names it.
    pub fn rendered_reason(&self) -> (text: String)
        ensures
            text@ == reason_wire_name(self.reason),
    {
        self.reason.wire_name().to_owned()
    }

    /// The subject, as prose names it.
    pub fn rendered_subject(&self) -> (text: String)
        ensures
            text@ == subject_phrase(self.subject),
    {
        match &self.subject {
            ReplayFailureSubject::Reservation(id) => concat2("reservation ", id.as_str()),
            ReplayFailureSubject::IncursionIncident(id) => concat2("incursion incident ", id.as_str()),
            ReplayFailureSubject::ForcedIntegrationPermit(id) => concat2(
                "forced-integration permit ",
                id.as_str(),
            ),
        }
    }
}

} // verus!
