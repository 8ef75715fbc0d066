use cargo_berth::output::replay::ReservationReplayError;
use cargo_berth::recovery::reservation_resolution_validation;
use cargo_berth::recovery::CommittedActionValidation;
use cargo_berth::recovery::JournalOperation;
use cargo_berth::recovery::RecoveryAction;
use cargo_berth::recovery::RecoveryRejection;
use cargo_berth::recovery::ReplayFault;
use cargo_berth::recovery::ReservationEvidenceState;
use cargo_berth::recovery::ReservationRecoveryDecision;
use cargo_berth::recovery::ResolvePayloadSeed;
use cargo_berth::reservation::evidence::ProtectedReservationTip;
use cargo_berth::reservation::lifecycle::AbandonmentReason;
use cargo_berth::reservation::lifecycle::ReservationLifecycle;
use cargo_berth::reservation::merge_extent::MergeExtent;
use cargo_berth::reservation::record::CoordinationIdentityProvenance;
use cargo_berth::reservation::record::JournalActor;
use cargo_berth::reservation::record::RecordedTarget;
use cargo_berth::reservation::record::Reservation;
use cargo_berth::scope::ReservationScope;
use cargo_berth::scope::ReservationScopeSet;
use cargo_berth::scope::ScopeKind;

const RESERVATION_ID: &str = "01991f4d-77d8-7f5f-9a1f-000000000002";

fn scopes() -> ReservationScopeSet {
    ReservationScopeSet::try_from_scopes(vec![ReservationScope {
        path: "src/lib.rs".to_owned(),
        kind: ScopeKind::File,
    }])
    .unwrap_or_else(|_| panic!("one scope"))
}

fn reservation(lifecycle: ReservationLifecycle) -> Reservation {
    Reservation {
        id: RESERVATION_ID.to_owned(),
        actor: JournalActor { worktree: "worktree-old".to_owned(), run: "run-a".to_owned() },
        provenance: CoordinationIdentityProvenance::Presented,
        lifecycle,
        scopes: scopes(),
        merge_extent: MergeExtent::NotDerived { protection: scopes() },
        target: RecordedTarget::Unrecorded,
    }
}

fn fault(error: ReservationReplayError) -> ReplayFault {
    ReplayFault { error, description: "replay failed".to_owned() }
}

fn abandon() -> ReservationRecoveryDecision {
    ReservationRecoveryDecision::Abandon(AbandonmentReason::parse("superseded").unwrap_or_else(|_| panic!("reason")))
}

fn validate(
    validated: Result<ReservationRecoveryDecision, RecoveryRejection>,
    reservations: Result<Result<&Reservation, ReplayFault>, ReplayFault>,
    ordering: Result<(), String>,
    evidence: ReservationEvidenceState,
    deletions: Result<Vec<String>, ReplayFault>,
) -> CommittedActionValidation<RecoveryRejection, cargo_berth::recovery::RecoveryCommittedAction> {
    reservation_resolution_validation(
        validated,
        reservations,
        ordering,
        RESERVATION_ID.to_owned(),
        "worktree-new".to_owned(),
        "/repo/new".to_owned(),
        "/repo/.git/worktrees/new".to_owned(),
        Ok(evidence),
        deletions,
    )
}

#[test]
fn resolution_rejections_come_in_request_replay_edge_lookup_order() {
    let active = reservation(ReservationLifecycle::Active);
    let refused = validate(
        Err(RecoveryRejection::CheckpointRequired),
        Err(fault(ReservationReplayError::DuplicateClaim("x".to_owned()))),
        Err("cycle".to_owned()),
        ReservationEvidenceState::Active,
        Ok(Vec::new()),
    );
    assert_eq!(refused, CommittedActionValidation::Reject(RecoveryRejection::CheckpointRequired));
    let replay = validate(
        Ok(ReservationRecoveryDecision::Recovered),
        Err(fault(ReservationReplayError::DuplicateClaim("x".to_owned()))),
        Err("cycle".to_owned()),
        ReservationEvidenceState::Active,
        Ok(Vec::new()),
    );
    assert_eq!(
        replay,
        CommittedActionValidation::Reject(RecoveryRejection::Replay(fault(ReservationReplayError::DuplicateClaim(
            "x".to_owned()
        ))))
    );
    let edge = validate(
        Ok(ReservationRecoveryDecision::Recovered),
        Ok(Err(fault(ReservationReplayError::UnknownReservation(RESERVATION_ID.to_owned())))),
        Err("cycle".to_owned()),
        ReservationEvidenceState::Active,
        Ok(Vec::new()),
    );
    assert_eq!(edge, CommittedActionValidation::Reject(RecoveryRejection::EdgeReplay { description: "cycle".to_owned() }));
    let unknown = validate(
        Ok(ReservationRecoveryDecision::Recovered),
        Ok(Err(fault(ReservationReplayError::UnknownReservation(RESERVATION_ID.to_owned())))),
        Ok(()),
        ReservationEvidenceState::Active,
        Ok(Vec::new()),
    );
    assert_eq!(unknown, CommittedActionValidation::Reject(RecoveryRejection::UnknownReservation));
    let other = validate(
        Ok(ReservationRecoveryDecision::Recovered),
        Ok(Err(fault(ReservationReplayError::EmptyScopeSet(RESERVATION_ID.to_owned())))),
        Ok(()),
        ReservationEvidenceState::Active,
        Ok(Vec::new()),
    );
    assert_eq!(
        other,
        CommittedActionValidation::Reject(RecoveryRejection::Replay(fault(ReservationReplayError::EmptyScopeSet(
            RESERVATION_ID.to_owned()
        ))))
    );
    let same_worktree = reservation_resolution_validation(
        Ok(ReservationRecoveryDecision::Recovered),
        Ok(Ok(&active)),
        Ok(()),
        RESERVATION_ID.to_owned(),
        "worktree-old".to_owned(),
        "/repo".to_owned(),
        "/repo/.git".to_owned(),
        Ok(ReservationEvidenceState::Active),
        Ok(Vec::new()),
    );
    assert_eq!(same_worktree, CommittedActionValidation::Reject(RecoveryRejection::SameWorktreeRecovery));
}

#[test]
fn a_recovery_appends_a_rebind_and_retires_no_ordering_reference() {
    let active = reservation(ReservationLifecycle::Active);
    let verdict = validate(
        Ok(ReservationRecoveryDecision::Recovered),
        Ok(Ok(&active)),
        Ok(()),
        ReservationEvidenceState::Active,
        Err(fault(ReservationReplayError::DuplicateClaim("x".to_owned()))),
    );
    let CommittedActionValidation::Append { operation, action } = verdict else {
        panic!("active work in another worktree is recoverable");
    };
    assert!(matches!(operation, JournalOperation::RebindWorktree { .. }));
    assert_eq!(action.committed_action, RecoveryAction::PublishMarker("run-a".to_owned()));
    assert_eq!(
        action.resolve_payload_seed,
        ResolvePayloadSeed::Recovered {
            reservation_id: RESERVATION_ID.to_owned(),
            worktree_id: "worktree-new".to_owned()
        }
    );
    assert!(action.retention_deletions.is_empty());
}

#[test]
fn a_release_retires_the_ordering_references_or_is_refused_without_them() {
    let outstanding = reservation(ReservationLifecycle::Outstanding {
        protected_tip: ProtectedReservationTip::new("tip".to_owned()),
    });
    let verdict = validate(
        Ok(abandon()),
        Ok(Ok(&outstanding)),
        Ok(()),
        ReservationEvidenceState::Outstanding,
        Ok(vec!["successor".to_owned()]),
    );
    let CommittedActionValidation::Append { operation, action } = verdict else {
        panic!("outstanding work may be abandoned");
    };
    assert!(matches!(operation, JournalOperation::Release { .. }));
    assert_eq!(action.committed_action, RecoveryAction::NoAction);
    assert_eq!(action.retention_deletions, vec!["successor".to_owned()]);
    let refused = validate(
        Ok(abandon()),
        Ok(Ok(&outstanding)),
        Ok(()),
        ReservationEvidenceState::Outstanding,
        Err(fault(ReservationReplayError::RevisionExhausted(RESERVATION_ID.to_owned()))),
    );
    assert_eq!(
        refused,
        CommittedActionValidation::Reject(RecoveryRejection::Replay(fault(
            ReservationReplayError::RevisionExhausted(RESERVATION_ID.to_owned())
        )))
    );
}
