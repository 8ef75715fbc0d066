use std::cell::RefCell;

use cargo_berth::output::hook::EngineAnswerOccasion;
use cargo_berth::output::status::CommandVerb;
use cargo_berth::output::status::OutputStatus;
use cargo_berth::reconcile::budget::ReconciliationScopedPatchEvaluationBudget;
use cargo_berth::reconcile::budget::ReconciliationSuccessorScopedPatchEvaluationBudget;
use cargo_berth::reconcile::budget::ScopedPatchComparisonDestination;
use cargo_berth::reconcile::budget::ScopedPatchEvaluationKey;
use cargo_berth::reconcile::budget::SuccessorScopedPatchComparisonObservation;
use cargo_berth::reconcile::error::ReconcileError;
use cargo_berth::reconcile::evaluation::evaluate_historical_then_current_trunk;
use cargo_berth::reconcile::evaluation::HistoricalIntegrationCandidateDiscovery;
use cargo_berth::reconcile::evaluation::HistoricalIntegrationCandidateDiscovery as Discovery;
use cargo_berth::reconcile::rewrite::deferred_rewrite_enters;
use cargo_berth::reconcile::rewrite::retry_rewrite_reconciliation;
use cargo_berth::reconcile::rewrite::rewrite_target_judgment;
use cargo_berth::reconcile::rewrite::rewrite_target_tip;
use cargo_berth::reconcile::rewrite::BranchRewrite;
use cargo_berth::reconcile::rewrite::DeferredRewriteIntegrationSubject;
use cargo_berth::reconcile::rewrite::PendingBranchRewriteMarker;
use cargo_berth::reconcile::rewrite::RewritePair;
use cargo_berth::reconcile::rewrite::RewriteSubjectValidation;
use cargo_berth::reconcile::rewrite::RewriteTargetJudgment;
use cargo_berth::reconcile::rewrite::TargetCache;
use cargo_berth::reconcile::evaluation::IntegrationProofSubjectRevision;
use cargo_berth::reconcile::settlement::has_unproven_merge_work;
use cargo_berth::reconcile::settlement::settlement_selection as select_settlement;
use cargo_berth::reconcile::settlement::CommittedMergeEvidence;
use cargo_berth::reconcile::settlement::JudgedTargetTip;
use cargo_berth::reconcile::settlement::SettlementSelection;
use cargo_berth::reservation::evidence::observe_outstanding_integration_status;
use cargo_berth::reservation::evidence::IntegrationEvidenceObservation;
use cargo_berth::reservation::evidence::ProtectedReservationTip;
use cargo_berth::reservation::evidence::ScopedPatchComparison;
use cargo_berth::reservation::evidence::ScopedPatchComparison as Comparison;
use cargo_berth::reservation::evidence::ScopedPatchComparisonObservation;
use cargo_berth::reservation::evidence::ScopedPatchIntegrationEvaluation;
use cargo_berth::reservation::evidence::ScopedPatchIntegrationEvaluation as Evaluation;
use cargo_berth::reservation::lifecycle::AbandonmentReason;
use cargo_berth::reservation::lifecycle::IntegrationEvidenceStatus;
use cargo_berth::reservation::lifecycle::IntegrationProof;
use cargo_berth::reservation::lifecycle::IntegrationWitness;
use cargo_berth::reservation::lifecycle::Reachability;
use cargo_berth::reservation::lifecycle::ReleaseDisposition;
use cargo_berth::reservation::lifecycle::ReservationLifecycle;
use cargo_berth::reservation::lifecycle::RewrittenIntegrationTrunkCommit;
use cargo_berth::reservation::merge_extent::MergeExtent;
use cargo_berth::reservation::merge_extent::MergeExtentKey;
use cargo_berth::reservation::merge_extent::WorkingTreeFingerprint;
use cargo_berth::reservation::record::CoordinationIdentityProvenance;
use cargo_berth::reservation::record::IntegrationTarget;
use cargo_berth::reservation::record::JournalActor;
use cargo_berth::reservation::record::RecordedTarget;
use cargo_berth::reservation::record::Reservation;
use cargo_berth::scope::ReservationScope;
use cargo_berth::scope::ReservationScopeSet;
use cargo_berth::scope::ScopeKind;

const RESERVATION_ID: &str = "01900a1b-2c3d-7e4f-8a5b-6c7d8e9f0a1f";
const TRUNK: &str = "1111111111111111111111111111111111111111";
const TIP: &str = "2222222222222222222222222222222222222222";

fn trunk_key(phase_start_head: &str, protected_tip: &str, target_trunk: &str) -> ScopedPatchEvaluationKey {
    ScopedPatchEvaluationKey {
        phase_start_head: phase_start_head.to_owned(),
        protected_tip: protected_tip.to_owned(),
        target_trunk: target_trunk.to_owned(),
        scopes: Vec::new(),
        destination: ScopedPatchComparisonDestination::Trunk,
    }
}

#[test]
fn rewrite_target_tips_are_resolved_once_per_distinct_branch() {
    let integration = IntegrationTarget::from_branch_argument("integration");
    let other = IntegrationTarget::from_branch_argument("other");
    let integration_tip = TRUNK.to_owned();
    let other_tip = TIP.to_owned();
    let mut judgments = TargetCache::new();
    let mut existence_checks = 0;
    for _ in 0..2 {
        let judgment = rewrite_target_judgment(&mut judgments, &integration, |target| {
            existence_checks += 1;
            Ok::<_, ()>(target.clone())
        });
        assert!(
            matches!(judgment, RewriteTargetJudgment::Available(target) if target == &integration)
        );
    }
    let mut tips = TargetCache::<Result<String, ()>>::new();
    let mut calls = 0;
    assert_eq!(
        rewrite_target_tip(&mut tips, &integration, &mut calls, |_| Ok(integration_tip.clone())),
        &Ok(integration_tip.clone())
    );
    assert_eq!(
        rewrite_target_tip(&mut tips, &integration, &mut calls, |_| Err(())),
        &Ok(integration_tip)
    );
    assert_eq!(
        rewrite_target_tip(&mut tips, &other, &mut calls, |_| Ok(other_tip.clone())),
        &Ok(other_tip)
    );
    assert_eq!(calls, 2);
    assert_eq!(existence_checks, 1);
    let repository_trunk = IntegrationTarget::from_branch_argument("main");
    assert!(!tips.contains_key(&repository_trunk));
}

#[test]
fn ancestry_precedes_candidate_and_current_trunk_inside_one_admitted_evaluation() {
    let target = TRUNK.to_owned();
    let candidate = TIP.to_owned();
    let key = || trunk_key(&candidate, &candidate, &target);
    let mut budget = ReconciliationScopedPatchEvaluationBudget::new();
    let calls = RefCell::new(Vec::new());
    let observation = observe_outstanding_integration_status(
        {
            calls.borrow_mut().push("ancestry");
            Reachability::NotAncestor
        },
        Reachability::Ancestor,
        &target,
        || {
            budget.evaluate(key(), || {
                calls.borrow_mut().push("admitted");
                evaluate_historical_then_current_trunk(
                    &target,
                    || {
                        calls.borrow_mut().push("candidate");
                        HistoricalIntegrationCandidateDiscovery::Nominated(candidate.clone())
                    },
                    |destination: &String| {
                        calls.borrow_mut().push(if destination == &candidate {
                            "certify"
                        } else {
                            "current_trunk"
                        });
                        ScopedPatchComparison::Different
                    },
                )
            })
        },
    );
    assert_eq!(
        *calls.borrow(),
        ["ancestry", "admitted", "candidate", "certify", "current_trunk"]
    );
    assert!(matches!(
        observation,
        IntegrationEvidenceObservation::ScopedPatchComparison {
            status: IntegrationEvidenceStatus::NotIntegrated,
            evaluation: ScopedPatchIntegrationEvaluation::Different,
        }
    ));
    assert_eq!(budget.evaluated_target_count(), 1);
    let cached = budget.evaluate(key(), || {
        calls.borrow_mut().push("unexpected_duplicate");
        ScopedPatchIntegrationEvaluation::Unavailable
    });
    assert!(matches!(
        cached,
        ScopedPatchComparisonObservation::Observed(ScopedPatchIntegrationEvaluation::Different)
    ));
    let mut other = key();
    other.protected_tip = target.clone();
    let deferred = budget.evaluate(other, || {
        calls.borrow_mut().push("unexpected_second_subject");
        ScopedPatchIntegrationEvaluation::Unavailable
    });
    assert!(matches!(deferred, ScopedPatchComparisonObservation::Deferred));
    assert_eq!(calls.borrow().len(), 5);
}

#[test]
fn historical_witness_is_cached_and_unavailable_history_keeps_negatives_retryable() {
    let target = TRUNK.to_owned();
    let candidate = TIP.to_owned();
    let certified = evaluate_historical_then_current_trunk(
        &target,
        || Discovery::Nominated(candidate.clone()),
        |destination: &String| {
            assert_eq!(destination, &candidate);
            Comparison::Equivalent
        },
    );
    assert_eq!(
        certified,
        Evaluation::Equivalent(IntegrationWitness::Historical(RewrittenIntegrationTrunkCommit::new(
            candidate.clone()
        )))
    );
    let key = || trunk_key(&target, &target, &target);
    let mut budget = ReconciliationScopedPatchEvaluationBudget::new();
    let first = budget.evaluate(key(), || certified.clone());
    let reused = budget.evaluate(key(), || Evaluation::Unavailable);
    for observation in [first, reused] {
        let ScopedPatchComparisonObservation::Observed(evaluation) = observation else {
            panic!("identical subject should reuse admitted result");
        };
        assert_eq!(evaluation, certified);
    }
    let retryable = evaluate_historical_then_current_trunk(
        &target,
        || Discovery::Unavailable,
        |_: &String| Comparison::Different,
    );
    assert_eq!(retryable, Evaluation::HistoricalEvidenceUnavailable);
}

#[test]
fn scoped_patch_budget_admits_one_subject_per_target() {
    let first = TRUNK.to_owned();
    let second = TIP.to_owned();
    let key = |target: &str, tip: &str| trunk_key(&first, tip, target);
    let mut budget = ReconciliationScopedPatchEvaluationBudget::new();
    assert!(matches!(
        budget.evaluate(key(&first, &first), || Evaluation::Different),
        ScopedPatchComparisonObservation::Observed(Evaluation::Different)
    ));
    assert!(matches!(
        budget.evaluate(key(&first, &second), || Evaluation::Different),
        ScopedPatchComparisonObservation::Deferred
    ));
    assert!(matches!(
        budget.evaluate(key(&second, &second), || Evaluation::Different),
        ScopedPatchComparisonObservation::Observed(Evaluation::Different)
    ));
    assert_eq!(budget.evaluated_target_count(), 2);
}

#[test]
fn rewrite_subject_races_retry_but_other_failures_do_not() {
    let id = RESERVATION_ID.to_owned();
    let changed = |error: &ReconcileError| matches!(error, ReconcileError::RewriteSubjectChanged(_));
    let mut attempts = 0;
    let result = retry_rewrite_reconciliation(
        || {
            attempts += 1;
            if attempts < 3 {
                Err(ReconcileError::RewriteSubjectChanged(id.clone()))
            } else {
                Ok(())
            }
        },
        changed,
    );
    assert!(result.is_ok());
    assert_eq!(attempts, 3);
    attempts = 0;
    let result = retry_rewrite_reconciliation::<(), _, _, _>(
        || {
            attempts += 1;
            Err(ReconcileError::UnexpectedDriftPreflightMutation)
        },
        changed,
    );
    assert_eq!(attempts, 1);
    assert!(matches!(
        result,
        Err(ReconcileError::UnexpectedDriftPreflightMutation)
    ));
}

#[test]
fn persistent_rewrite_subject_races_report_contention() {
    let id = RESERVATION_ID.to_owned();
    let mut attempts = 0;
    let result = retry_rewrite_reconciliation::<(), _, _, _>(
        || {
            attempts += 1;
            Err(ReconcileError::RewriteSubjectChanged(id.clone()))
        },
        |error: &ReconcileError| matches!(error, ReconcileError::RewriteSubjectChanged(_)),
    );
    assert_eq!(attempts, 3);
    let Err(error) = result else {
        panic!("persistent subject changes must remain retryable errors");
    };
    let output = error.into_output(CommandVerb::Board, EngineAnswerOccasion::DirectInvocation, 5);
    assert_eq!(output.status, OutputStatus::Contention);
    assert!(output.message.contains("retry"));
}

fn marker(pairs: &[(&str, &str)], new_tips: &[&str]) -> PendingBranchRewriteMarker {
    PendingBranchRewriteMarker {
        rewrite: BranchRewrite {
            pairs: pairs
                .iter()
                .map(|(old, new)| RewritePair { old: (*old).to_owned(), new: (*new).to_owned() })
                .collect(),
            new_tips: new_tips.iter().map(|tip| (*tip).to_owned()).collect(),
        },
    }
}

fn deferred_subject(rewritten_tips: Vec<String>) -> DeferredRewriteIntegrationSubject {
    DeferredRewriteIntegrationSubject {
        validation: RewriteSubjectValidation {
            reservation_id: RESERVATION_ID.to_owned(),
            subject: IntegrationProofSubjectRevision(1),
        },
        rewritten_tips,
    }
}

#[test]
fn deferred_rewrite_entry_follows_later_markers() {
    let first = "3333333333333333333333333333333333333333";
    let second = "4444444444444444444444444444444444444444";
    let third = "5555555555555555555555555555555555555555";
    let branch_tip = "6666666666666666666666666666666666666666";
    let mut subject = deferred_subject(vec![first.to_owned()]);
    let validation = RewriteSubjectValidation {
        reservation_id: RESERVATION_ID.to_owned(),
        subject: IntegrationProofSubjectRevision(1),
    };
    for (old, new, new_tips) in [
        (TRUNK, TIP, Vec::new()),
        (first, second, Vec::new()),
        (second, third, vec![branch_tip]),
    ] {
        subject.follow_rewrite(&marker(&[(old, new)], &new_tips));
    }
    assert_eq!(
        subject.rewritten_tips,
        vec![first.to_owned(), second.to_owned(), third.to_owned(), branch_tip.to_owned()]
    );
    assert_eq!(subject.validation, validation);
}

#[test]
fn deferred_rewrite_entry_ignores_an_independent_branch_marker() {
    let deferred_tip = "3333333333333333333333333333333333333333".to_owned();
    let independent_old = "4444444444444444444444444444444444444444";
    let independent_new = "5555555555555555555555555555555555555555";
    let independent_tip = "6666666666666666666666666666666666666666";
    let original_tips = vec![deferred_tip];
    let mut subject = deferred_subject(original_tips.clone());
    subject.follow_rewrite(&marker(&[(independent_old, independent_new)], &[independent_tip]));
    assert_eq!(subject.rewritten_tips, original_tips);
}

fn settlement_holder(lifecycle: ReservationLifecycle) -> Reservation {
    let declared = || {
        ReservationScopeSet::try_from_scopes(vec![ReservationScope { path: "src".to_owned(), kind: ScopeKind::Tree }])
            .unwrap_or_else(|_| panic!("one scope"))
    };
    Reservation {
        id: RESERVATION_ID.to_owned(),
        actor: JournalActor { worktree: "w1".to_owned(), run: "run".to_owned() },
        provenance: CoordinationIdentityProvenance::Presented,
        lifecycle,
        scopes: declared(),
        merge_extent: MergeExtent::NotDerived { protection: declared() },
        target: RecordedTarget::Unrecorded,
    }
}

fn later_work_extent() -> MergeExtent {
    MergeExtent::Protected {
        key: MergeExtentKey {
            trunk: TRUNK.to_owned(),
            head: "3333333333333333333333333333333333333333".to_owned(),
            working_tree: WorkingTreeFingerprint { tracked_paths: Vec::new(), untracked_paths: Vec::new() },
        },
        scopes: ReservationScopeSet::try_from_scopes(vec![ReservationScope {
            path: "src/later.rs".to_owned(),
            kind: ScopeKind::File,
        }])
        .unwrap_or_else(|_| panic!("one scope")),
    }
}

#[test]
fn settlement_selection() {
    let actual_trunk = JudgedTargetTip::Resolved(TRUNK.to_owned());
    let other_trunk = JudgedTargetTip::Resolved(TIP.to_owned());
    let reservation = settlement_holder(ReservationLifecycle::Outstanding {
        protected_tip: ProtectedReservationTip::new(TIP.to_owned()),
    });
    let extent = later_work_extent();
    let unavailable_extent = extent.unavailable("holder missing".to_owned());
    for proof in [IntegrationProof::ProtectedTipAncestor, IntegrationProof::ScopedPatchEquivalent] {
        let integration_status = IntegrationEvidenceStatus::Integrated {
            trunk_oid: TRUNK.to_owned(),
            proof,
            witness: IntegrationWitness::EvaluatedTrunk,
        };
        let disposition = || match proof {
            IntegrationProof::ProtectedTipAncestor => ReleaseDisposition::Integrated,
            IntegrationProof::ScopedPatchEquivalent | IntegrationProof::RewrittenWitnessAncestor => {
                ReleaseDisposition::RewrittenIntegration(RewrittenIntegrationTrunkCommit::new(
                    TRUNK.to_owned(),
                ))
            },
        };
        assert_eq!(
            select_settlement(
                &reservation,
                &integration_status,
                &actual_trunk,
                &reservation.merge_extent,
                &CommittedMergeEvidence::Unavailable,
            ),
            SettlementSelection::Release(disposition())
        );
        for (status, trunk, extent) in [
            (&integration_status, &other_trunk, &reservation.merge_extent),
            (&integration_status, &actual_trunk, &extent),
            (&integration_status, &actual_trunk, &unavailable_extent),
            (&IntegrationEvidenceStatus::NotIntegrated, &actual_trunk, &reservation.merge_extent),
        ] {
            assert_eq!(
                select_settlement(&reservation, status, trunk, extent, &CommittedMergeEvidence::Unavailable),
                SettlementSelection::Unchanged
            );
        }
        let released = settlement_holder(ReservationLifecycle::Released { disposition: disposition() });
        assert_eq!(
            select_settlement(
                &released,
                &integration_status,
                &actual_trunk,
                &released.merge_extent,
                &CommittedMergeEvidence::Unavailable,
            ),
            SettlementSelection::Unchanged
        );
    }
}

#[test]
fn observed_committed_paths_decide_unproven_merge_work() {
    let reservation = settlement_holder(ReservationLifecycle::Outstanding {
        protected_tip: ProtectedReservationTip::new(TIP.to_owned()),
    });
    let extent = later_work_extent();
    let empty = CommittedMergeEvidence::Observed(Vec::new());
    let later = CommittedMergeEvidence::Observed(vec!["src/later.rs".to_owned()]);
    assert!(has_unproven_merge_work(&extent, &later));
    assert!(!has_unproven_merge_work(&extent, &empty));
    assert!(has_unproven_merge_work(&extent, &CommittedMergeEvidence::Unavailable));
    assert!(!has_unproven_merge_work(&reservation.merge_extent, &CommittedMergeEvidence::Unavailable));
    let integrated = IntegrationEvidenceStatus::Integrated {
        trunk_oid: TRUNK.to_owned(),
        proof: IntegrationProof::ProtectedTipAncestor,
        witness: IntegrationWitness::EvaluatedTrunk,
    };
    let actual_trunk = JudgedTargetTip::Resolved(TRUNK.to_owned());
    assert_eq!(
        select_settlement(&reservation, &integrated, &actual_trunk, &extent, &empty),
        SettlementSelection::Release(ReleaseDisposition::Integrated)
    );
    assert_eq!(
        select_settlement(&reservation, &integrated, &actual_trunk, &reservation.merge_extent, &later),
        SettlementSelection::Unchanged
    );
}

#[test]
fn settlement_preserves_historical_witness_only_for_actual_trunk() {
    let reservation = settlement_holder(ReservationLifecycle::Outstanding {
        protected_tip: ProtectedReservationTip::new(TIP.to_owned()),
    });
    let witness =
        RewrittenIntegrationTrunkCommit::new("3333333333333333333333333333333333333333".to_owned());
    let evidence = IntegrationEvidenceStatus::Integrated {
        trunk_oid: TRUNK.to_owned(),
        proof: IntegrationProof::ScopedPatchEquivalent,
        witness: IntegrationWitness::Historical(witness.clone()),
    };
    for (trunk, expected) in [
        (TRUNK, SettlementSelection::Release(ReleaseDisposition::RewrittenIntegration(witness))),
        (TIP, SettlementSelection::Unchanged),
    ] {
        assert_eq!(
            select_settlement(
                &reservation,
                &evidence,
                &JudgedTargetTip::Resolved(trunk.to_owned()),
                &reservation.merge_extent,
                &CommittedMergeEvidence::Unavailable,
            ),
            expected,
        );
    }
}

#[test]
fn user_decisions_never_settle_and_unknown_trunks_never_release() {
    let outstanding = settlement_holder(ReservationLifecycle::Outstanding {
        protected_tip: ProtectedReservationTip::new(TIP.to_owned()),
    });
    let integrated = IntegrationEvidenceStatus::Integrated {
        trunk_oid: TRUNK.to_owned(),
        proof: IntegrationProof::ProtectedTipAncestor,
        witness: IntegrationWitness::EvaluatedTrunk,
    };
    assert_eq!(
        select_settlement(
            &outstanding,
            &integrated,
            &JudgedTargetTip::ObjectUnknown,
            &outstanding.merge_extent,
            &CommittedMergeEvidence::Unavailable,
        ),
        SettlementSelection::Unchanged
    );
    let abandoned = settlement_holder(ReservationLifecycle::Released {
        disposition: ReleaseDisposition::Abandoned(
            AbandonmentReason::parse("no longer needed").unwrap_or_else(|_| panic!("reason")),
        ),
    });
    assert_eq!(
        select_settlement(
            &abandoned,
            &integrated,
            &JudgedTargetTip::Resolved(TRUNK.to_owned()),
            &abandoned.merge_extent,
            &CommittedMergeEvidence::Unavailable,
        ),
        SettlementSelection::Unchanged
    );
}

#[test]
fn the_successor_budget_admits_one_comparison_per_pass() {
    let mut budget = ReconciliationSuccessorScopedPatchEvaluationBudget::default();
    assert_eq!(
        budget.evaluate(|| Comparison::Equivalent),
        SuccessorScopedPatchComparisonObservation::Observed(Comparison::Equivalent)
    );
    assert_eq!(
        budget.evaluate(|| panic!("the spent budget must not compare again")),
        SuccessorScopedPatchComparisonObservation::Deferred
    );
    assert_eq!(budget, ReconciliationSuccessorScopedPatchEvaluationBudget::Spent);
}

#[test]
fn mapped_destinations_are_distinct_evaluation_subjects() {
    let mapped = ScopedPatchEvaluationKey {
        destination: ScopedPatchComparisonDestination::Mapped {
            tip: TIP.to_owned(),
            destinations: vec![TIP.to_owned()],
        },
        ..trunk_key(TRUNK, TIP, TRUNK)
    };
    assert!(!mapped.same_as(&trunk_key(TRUNK, TIP, TRUNK)));
    assert!(trunk_key(TRUNK, TIP, TRUNK).same_as(&trunk_key(TRUNK, TIP, TRUNK)));
}

#[test]
fn a_rewrite_subject_is_accepted_only_while_its_phase_is_outstanding() {
    let validation = RewriteSubjectValidation {
        reservation_id: "r1".to_owned(),
        subject: IntegrationProofSubjectRevision(4),
    };
    let outstanding = ReservationLifecycle::Outstanding { protected_tip: ProtectedReservationTip("t1".to_owned()) };
    assert!(validation.accepts(Some((&outstanding, IntegrationProofSubjectRevision(4)))));
    assert!(!validation.accepts(Some((&outstanding, IntegrationProofSubjectRevision(5)))));
    assert!(!validation.accepts(Some((&ReservationLifecycle::Active, IntegrationProofSubjectRevision(4)))));
    assert!(!validation.accepts(None));
}

#[test]
fn resnapshot_validation() {
    let outstanding = ReservationLifecycle::Outstanding { protected_tip: ProtectedReservationTip("t1".to_owned()) };
    let validation = RewriteSubjectValidation::capture(&RESERVATION_ID.to_owned(), IntegrationProofSubjectRevision(2));
    assert_eq!(validation.reservation_id, RESERVATION_ID.to_owned());
    assert!(validation.accepts(Some((&outstanding, IntegrationProofSubjectRevision(2)))));
    let resnapshotted =
        ReservationLifecycle::Outstanding { protected_tip: ProtectedReservationTip("t2".to_owned()) };
    assert!(!validation.accepts(Some((&resnapshotted, IntegrationProofSubjectRevision(3)))));
    let released = ReservationLifecycle::Released { disposition: ReleaseDisposition::Integrated };
    assert!(!validation.accepts(Some((&released, IntegrationProofSubjectRevision(2)))));
    assert!(!validation.accepts(None));
}

#[test]
fn a_deferred_rewrite_enters_when_a_nominated_tip_becomes_reachable() {
    let subjects = vec![DeferredRewriteIntegrationSubject {
        validation: RewriteSubjectValidation { reservation_id: "r1".to_owned(), subject: IntegrationProofSubjectRevision(1) },
        rewritten_tips: vec!["n1".to_owned(), "n2".to_owned()],
    }];
    assert!(deferred_rewrite_enters(&subjects, &"r1".to_owned(), &vec!["x".to_owned(), "n2".to_owned()]));
    assert!(!deferred_rewrite_enters(&subjects, &"r1".to_owned(), &vec!["x".to_owned()]));
    assert!(!deferred_rewrite_enters(&subjects, &"r2".to_owned(), &vec!["n1".to_owned()]));
}
