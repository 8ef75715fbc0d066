use cargo_berth::output::hook::EngineAnswerOccasion;
use cargo_berth::output::payload::OutputFacts;
use cargo_berth::output::payload::ResolvePayload;
use cargo_berth::output::payload::SessionIdentityMappingPublication;
use cargo_berth::output::replay::ReplayFailureEffect;
use cargo_berth::output::replay::ReplayFailureReason;
use cargo_berth::output::replay::ReplayFailureSubject;
use cargo_berth::output::replay::ReservationReplayError;
use cargo_berth::output::status::CommandVerb;
use cargo_berth::output::status::OutputStatus;
use cargo_berth::reconcile::error::ReconcileError;
use cargo_berth::recovery::every_incursion_resolution;
use cargo_berth::recovery::one_incursion_resolution;
use cargo_berth::recovery::planned_release;
use cargo_berth::recovery::recovery_operation;
use cargo_berth::recovery::renewal_validation;
use cargo_berth::recovery::resolution_enrollment_from_outcome;
use cargo_berth::recovery::validate_recovery_request;
use cargo_berth::recovery::Enrollment;
use cargo_berth::recovery::IncursionIncident;
use cargo_berth::recovery::IncursionIncidentStatus;
use cargo_berth::recovery::IncursionResolutionNotAppended;
use cargo_berth::recovery::JournalOperation;
use cargo_berth::recovery::LedgerCommittedActionOutcome;
use cargo_berth::recovery::ReconciliationValidation;
use cargo_berth::recovery::RecoveryAction;
use cargo_berth::recovery::RecoveryError;
use cargo_berth::recovery::RecoveryRejection;
use cargo_berth::recovery::ReplayFault;
use cargo_berth::recovery::ReservationEvidenceState;
use cargo_berth::recovery::ReservationRecoveryDecision;
use cargo_berth::recovery::ResolvePayloadSeed;
use cargo_berth::recovery::TransactionValidation;
use cargo_berth::reservation::evidence::ProtectedReservationTip;
use cargo_berth::reservation::lifecycle::AbandonmentReason;
use cargo_berth::reservation::lifecycle::IntegrationEvidenceStatus;
use cargo_berth::reservation::lifecycle::Reachability;
use cargo_berth::reservation::lifecycle::ReleaseDisposition;
use cargo_berth::reservation::lifecycle::ReservationLifecycle;
use cargo_berth::reservation::lifecycle::RewrittenIntegrationTrunkCommit;
use cargo_berth::reservation::merge_extent::MergeExtent;
use cargo_berth::reservation::record::CoordinationIdentityProvenance;
use cargo_berth::reservation::record::JournalActor;
use cargo_berth::reservation::record::RecordedTarget;
use cargo_berth::reservation::record::Reservation;
use cargo_berth::scope::ReservationScope;
use cargo_berth::scope::ReservationScopeSet;
use cargo_berth::scope::ScopeKind;

const RESERVATION_ID: &str = "01991f4d-77d8-7f5f-9a1f-000000000001";

fn scopes() -> ReservationScopeSet {
    ReservationScopeSet::try_from_scopes(vec![ReservationScope {
        path: "src/lib.rs".to_owned(),
        kind: ScopeKind::File,
    }])
    .unwrap_or_else(|_| panic!("one scope"))
}

fn reservation(lifecycle: ReservationLifecycle) -> Reservation {
    Reservation {
        id: RESERVATION_ID.to_owned(),
        actor: JournalActor { worktree: "worktree-old".to_owned(), run: "run-a".to_owned() },
        provenance: CoordinationIdentityProvenance::Presented,
        lifecycle,
        scopes: scopes(),
        merge_extent: MergeExtent::NotDerived { protection: scopes() },
        target: RecordedTarget::Unrecorded,
    }
}

fn abandonment() -> AbandonmentReason {
    AbandonmentReason::parse("superseded").unwrap_or_else(|_| panic!("reason"))
}

fn outstanding() -> ReservationLifecycle {
    ReservationLifecycle::Outstanding { protected_tip: ProtectedReservationTip::new("tip".to_owned()) }
}

#[test]
fn recovery_replay_rejection_preserves_reason_and_subject() {
    let output_envelope = RecoveryError::Rejected(RecoveryRejection::Replay(ReplayFault {
        error: ReservationReplayError::UnknownReservation(RESERVATION_ID.to_owned()),
        description: "unknown reservation".to_owned(),
    }))
    .into_output(CommandVerb::Resolve, EngineAnswerOccasion::DirectInvocation, 5);
    match &output_envelope.payload.facts {
        OutputFacts::ReplayFailure(payload) => {
            assert_eq!(payload.reason, ReplayFailureReason::UnknownReservation);
            assert_eq!(payload.reason.wire_name(), "unknown_reservation");
            assert_eq!(payload.subject, ReplayFailureSubject::Reservation(RESERVATION_ID.to_owned()));
            assert_eq!(payload.effect, ReplayFailureEffect::HardStop);
        },
        other => panic!("expected replay failure facts, found {other:?}"),
    }
}

#[test]
fn reconciliation_replay_failures_keep_reason_subject_and_hard_stop() {
    let output_envelope = ReconcileError::Replay {
        error: ReservationReplayError::WidenRequiresUnreleased(RESERVATION_ID.to_owned()),
        description: "widen after release".to_owned(),
    }
    .into_output(CommandVerb::Drift, EngineAnswerOccasion::DirectInvocation, 5);
    assert_eq!(output_envelope.status, OutputStatus::LedgerUnreadable);
    match &output_envelope.payload.facts {
        OutputFacts::ReplayFailure(payload) => {
            assert_eq!(payload.reason, ReplayFailureReason::WidenRequiresUnreleased);
            assert_eq!(payload.subject, ReplayFailureSubject::Reservation(RESERVATION_ID.to_owned()));
            assert_eq!(payload.effect, ReplayFailureEffect::HardStop);
        },
        other => panic!("expected replay failure facts, found {other:?}"),
    }
}

#[test]
fn recovery_moves_active_work_and_republishes_its_run_marker() {
    let plan = recovery_operation(
        &reservation(ReservationLifecycle::Active),
        RESERVATION_ID.to_owned(),
        ReservationRecoveryDecision::Recovered,
        "worktree-new".to_owned(),
        "/repo/new".to_owned(),
        "/repo/.git/worktrees/new".to_owned(),
        Ok(ReservationEvidenceState::Active),
    );
    let Ok((operation, seed, action)) = plan else {
        panic!("active work in another worktree is recoverable");
    };
    assert_eq!(
        operation,
        JournalOperation::RebindWorktree {
            reservation_id: RESERVATION_ID.to_owned(),
            previous_worktree_id: "worktree-old".to_owned(),
            current_worktree_id: "worktree-new".to_owned(),
            current_worktree_root: "/repo/new".to_owned(),
            current_worktree_administrative_locator: "/repo/.git/worktrees/new".to_owned(),
        }
    );
    assert_eq!(
        seed,
        ResolvePayloadSeed::Recovered {
            reservation_id: RESERVATION_ID.to_owned(),
            worktree_id: "worktree-new".to_owned()
        }
    );
    assert_eq!(action, RecoveryAction::PublishMarker("run-a".to_owned()));
}

#[test]
fn recovery_refuses_its_own_worktree_and_ended_work() {
    let same = recovery_operation(
        &reservation(ReservationLifecycle::Active),
        RESERVATION_ID.to_owned(),
        ReservationRecoveryDecision::Recovered,
        "worktree-old".to_owned(),
        "/repo".to_owned(),
        "/repo/.git".to_owned(),
        Ok(ReservationEvidenceState::Active),
    );
    assert_eq!(same, Err(RecoveryRejection::SameWorktreeRecovery));
    let ended = recovery_operation(
        &reservation(ReservationLifecycle::Released { disposition: ReleaseDisposition::Integrated }),
        RESERVATION_ID.to_owned(),
        ReservationRecoveryDecision::Abandon(abandonment()),
        "worktree-new".to_owned(),
        "/repo".to_owned(),
        "/repo/.git".to_owned(),
        Ok(ReservationEvidenceState::ReleasedWithoutCheckpoint),
    );
    assert_eq!(ended, Err(RecoveryRejection::AlreadyResolved));
}

#[test]
fn rewritten_integration_needs_a_checkpoint_and_replaces_lapsed_evidence() {
    let witness = || RewrittenIntegrationTrunkCommit::new("3333".to_owned());
    let active = recovery_operation(
        &reservation(ReservationLifecycle::Active),
        RESERVATION_ID.to_owned(),
        ReservationRecoveryDecision::IntegratedAs(witness()),
        "worktree-new".to_owned(),
        "/repo".to_owned(),
        "/repo/.git".to_owned(),
        Ok(ReservationEvidenceState::Active),
    );
    assert_eq!(active, Err(RecoveryRejection::CheckpointRequired));
    let lapsed = recovery_operation(
        &reservation(ReservationLifecycle::Released { disposition: ReleaseDisposition::Integrated }),
        RESERVATION_ID.to_owned(),
        ReservationRecoveryDecision::IntegratedAs(witness()),
        "worktree-new".to_owned(),
        "/repo".to_owned(),
        "/repo/.git".to_owned(),
        Ok(ReservationEvidenceState::Released {
            disposition: ReleaseDisposition::Integrated,
            integration_status: IntegrationEvidenceStatus::TrunkRewritten,
        }),
    );
    let Ok((operation, _, _)) = lapsed else {
        panic!("lapsed evidence is replaceable");
    };
    assert_eq!(
        operation,
        JournalOperation::ReplaceReleaseDisposition {
            reservation_id: RESERVATION_ID.to_owned(),
            superseded: ReleaseDisposition::Integrated,
            replacement: ReleaseDisposition::RewrittenIntegration(witness()),
        }
    );
    let outstanding_plan = recovery_operation(
        &reservation(outstanding()),
        RESERVATION_ID.to_owned(),
        ReservationRecoveryDecision::IntegratedAs(witness()),
        "worktree-new".to_owned(),
        "/repo".to_owned(),
        "/repo/.git".to_owned(),
        Ok(ReservationEvidenceState::Outstanding),
    );
    let Ok((operation, _, _)) = outstanding_plan else {
        panic!("outstanding work may record rewritten integration");
    };
    assert_eq!(
        operation,
        JournalOperation::Release {
            reservation_id: RESERVATION_ID.to_owned(),
            disposition: ReleaseDisposition::RewrittenIntegration(witness()),
        }
    );
}

#[test]
fn an_integrated_as_commit_must_be_in_trunk_history() {
    let request = || ReservationRecoveryDecision::IntegratedAs(RewrittenIntegrationTrunkCommit::new("3333".to_owned()));
    assert_eq!(
        validate_recovery_request(request(), |_: &RewrittenIntegrationTrunkCommit| Ok(Reachability::NotAncestor)),
        Err(RecoveryRejection::UnreachableIntegrationEvidence)
    );
    assert_eq!(
        validate_recovery_request(request(), |_: &RewrittenIntegrationTrunkCommit| Err("git failed".to_owned())),
        Err(RecoveryRejection::Git { description: "git failed".to_owned() })
    );
    assert_eq!(
        validate_recovery_request(request(), |_: &RewrittenIntegrationTrunkCommit| Ok(Reachability::Ancestor)),
        Ok(request())
    );
    assert_eq!(
        validate_recovery_request(ReservationRecoveryDecision::Recovered, |_: &RewrittenIntegrationTrunkCommit| {
            panic!("only rewritten integration asks git")
        }),
        Ok(ReservationRecoveryDecision::Recovered)
    );
}

fn incident(id: &str, reservation_id: &str, status: IncursionIncidentStatus) -> IncursionIncident {
    IncursionIncident { id: id.to_owned(), reservation_id: reservation_id.to_owned(), status }
}

#[test]
fn one_incursion_answer_distinguishes_who_resolved_it() {
    let worktree = "worktree-a".to_owned();
    let run = "run-a".to_owned();
    let open = incident("incident-a", RESERVATION_ID, IncursionIncidentStatus::Outstanding);
    assert_eq!(
        one_incursion_resolution(Ok(&open), RESERVATION_ID.to_owned(), "incident-a".to_owned(), &worktree, &run),
        TransactionValidation::Append(JournalOperation::ResolveIncursion { incident_id: "incident-a".to_owned() })
    );
    let mine = incident(
        "incident-a",
        RESERVATION_ID,
        IncursionIncidentStatus::Resolved {
            resolving_actor: JournalActor { worktree: worktree.clone(), run: run.clone() },
            resolution_event_id: "event-1".to_owned(),
            resolved_at: "2024-01-01T00:00:00Z".to_owned(),
        },
    );
    assert_eq!(
        one_incursion_resolution(Ok(&mine), RESERVATION_ID.to_owned(), "incident-a".to_owned(), &worktree, &run),
        TransactionValidation::Reject(IncursionResolutionNotAppended::AlreadyRecordedBySameCoordinationActor)
    );
    let other_run = "run-b".to_owned();
    let TransactionValidation::Reject(IncursionResolutionNotAppended::Rejected(rejection)) =
        one_incursion_resolution(Ok(&mine), RESERVATION_ID.to_owned(), "incident-a".to_owned(), &worktree, &other_run)
    else {
        panic!("another run's answer is a rejection");
    };
    assert_eq!(
        rejection.message(),
        "incursion incident incident-a was already resolved by worktree worktree-a in coordination run run-a, event event-1 at 2024-01-01T00:00:00Z"
    );
    let output = RecoveryError::Rejected(rejection).into_output(
        CommandVerb::Resolve,
        EngineAnswerOccasion::DirectInvocation,
        5,
    );
    assert_eq!(output.status, OutputStatus::InvalidInput);
    assert_eq!(
        output.message,
        "Incursion incident incident-a was already resolved by worktree worktree-a in coordination run run-a, event event-1 at 2024-01-01T00:00:00Z."
    );
    let foreign = incident("incident-a", "other-reservation", IncursionIncidentStatus::Outstanding);
    assert_eq!(
        one_incursion_resolution(Ok(&foreign), RESERVATION_ID.to_owned(), "incident-a".to_owned(), &worktree, &run),
        TransactionValidation::Reject(IncursionResolutionNotAppended::Rejected(
            RecoveryRejection::IncursionReservationMismatch {
                incident_id: "incident-a".to_owned(),
                reservation_id: RESERVATION_ID.to_owned(),
            }
        ))
    );
    assert_eq!(
        one_incursion_resolution(
            Err(ReplayFault {
                error: ReservationReplayError::UnknownIncursionIncident("incident-z".to_owned()),
                description: "unknown".to_owned(),
            }),
            RESERVATION_ID.to_owned(),
            "incident-z".to_owned(),
            &worktree,
            &run
        ),
        TransactionValidation::Reject(IncursionResolutionNotAppended::Rejected(
            RecoveryRejection::UnknownIncursionIncident("incident-z".to_owned())
        ))
    );
}

#[test]
fn every_incursion_answer_covers_only_the_named_reservation() {
    let outstanding = vec![
        incident("incident-a", RESERVATION_ID, IncursionIncidentStatus::Outstanding),
        incident("incident-b", "other", IncursionIncidentStatus::Outstanding),
        incident("incident-c", RESERVATION_ID, IncursionIncidentStatus::Outstanding),
    ];
    let verdict = every_incursion_resolution(&outstanding, &RESERVATION_ID.to_owned());
    let ReconciliationValidation::Apply { operations, action } = verdict else {
        panic!("two incidents are outstanding");
    };
    assert_eq!(action, vec!["incident-a".to_owned(), "incident-c".to_owned()]);
    assert_eq!(
        operations,
        vec![
            JournalOperation::ResolveIncursion { incident_id: "incident-a".to_owned() },
            JournalOperation::ResolveIncursion { incident_id: "incident-c".to_owned() },
        ]
    );
    assert_eq!(
        every_incursion_resolution(&outstanding, &"quiet".to_owned()),
        ReconciliationValidation::Reject(RecoveryRejection::NoOutstandingIncursion("quiet".to_owned()))
    );
}

#[test]
fn renewal_refuses_ended_work() {
    let active = reservation(ReservationLifecycle::Active);
    assert_eq!(
        renewal_validation(Ok(&active), RESERVATION_ID.to_owned()),
        TransactionValidation::Append(JournalOperation::Renew { reservation_id: RESERVATION_ID.to_owned() })
    );
    let ended = reservation(ReservationLifecycle::Released { disposition: ReleaseDisposition::Integrated });
    assert_eq!(
        renewal_validation(Ok(&ended), RESERVATION_ID.to_owned()),
        TransactionValidation::Reject(RecoveryRejection::AlreadyResolved)
    );
    assert_eq!(
        renewal_validation(
            Err(ReplayFault {
                error: ReservationReplayError::UnknownReservation(RESERVATION_ID.to_owned()),
                description: "unknown".to_owned(),
            }),
            RESERVATION_ID.to_owned()
        ),
        TransactionValidation::Reject(RecoveryRejection::UnknownReservation)
    );
}

#[test]
fn committed_recoveries_complete_their_payload_and_git_failures_stay_git_failures() {
    let appended = resolution_enrollment_from_outcome(LedgerCommittedActionOutcome::Appended {
        output: ResolvePayloadSeed::Released {
            reservation_id: RESERVATION_ID.to_owned(),
            disposition: ReleaseDisposition::Integrated,
        },
        session_mapping_publication: SessionIdentityMappingPublication::Published,
    });
    assert_eq!(
        appended,
        Ok(Enrollment::Enrolled(ResolvePayload::Released {
            reservation_id: RESERVATION_ID.to_owned(),
            disposition: ReleaseDisposition::Integrated,
            session_mapping_publication: SessionIdentityMappingPublication::Published,
        }))
    );
    assert_eq!(
        resolution_enrollment_from_outcome(LedgerCommittedActionOutcome::Rejected(
            RecoveryRejection::Git { description: "git failed".to_owned() }
        )),
        Err(RecoveryError::Git { description: "git failed".to_owned() })
    );
    assert_eq!(
        resolution_enrollment_from_outcome(LedgerCommittedActionOutcome::Rejected(
            RecoveryRejection::AlreadyResolved
        )),
        Err(RecoveryError::Rejected(RecoveryRejection::AlreadyResolved))
    );
}

#[test]
fn refusals_are_answered_as_invalid_input_in_their_own_words() {
    let output = RecoveryError::Rejected(RecoveryRejection::CheckpointRequired).into_output(
        CommandVerb::Resolve,
        EngineAnswerOccasion::DirectInvocation,
        5,
    );
    assert_eq!(output.status, OutputStatus::InvalidInput);
    assert_eq!(
        output.message,
        "the reservation must have a protected checkpoint first; cargo-berth release records one"
    );
    let root = RecoveryError::NonUtf8WorktreeRoot.into_output(
        CommandVerb::Resolve,
        EngineAnswerOccasion::DirectInvocation,
        5,
    );
    assert_eq!(root.status, OutputStatus::LedgerUnreadable);
    assert_eq!(
        root.message,
        "The reservation ledger could not be read: the replacement worktree root is not UTF-8"
    );
}

#[test]
fn planned_release_finds_the_first_release_of_the_reservation() {
    let operations = vec![
        JournalOperation::Release { reservation_id: "r2".to_owned(), disposition: ReleaseDisposition::Integrated },
        JournalOperation::Release {
            reservation_id: "r1".to_owned(),
            disposition: ReleaseDisposition::RewrittenIntegration(RewrittenIntegrationTrunkCommit("w1".to_owned())),
        },
        JournalOperation::Release { reservation_id: "r1".to_owned(), disposition: ReleaseDisposition::Integrated },
    ];
    assert_eq!(
        planned_release(&"r1".to_owned(), &operations),
        Some(&ReleaseDisposition::RewrittenIntegration(RewrittenIntegrationTrunkCommit("w1".to_owned())))
    );
    assert_eq!(planned_release(&"r3".to_owned(), &operations), None);
}
