use std::cell::Cell;

use cargo_berth::reconcile::budget::ReconciliationScopedPatchEvaluationBudget;
use cargo_berth::reconcile::evaluation::DurableScopedPatchComparison;
use cargo_berth::reconcile::evaluation::EvidenceRevalidationObservation;
use cargo_berth::reconcile::evaluation::IntegrationProofSubjectRevision;
use cargo_berth::reconcile::evaluation::ScopedPatchComparisonJournalUpdate;
use cargo_berth::reconcile::evaluation::ScopedPatchEquivalenceVerdict;
use cargo_berth::reconcile::reachability::TargetIntegrationReachability;
use cargo_berth::reconcile::revalidation::integration_status_with_retained_verdict;
use cargo_berth::reconcile::revalidation::revalidate_protected_tip;
use cargo_berth::reconcile::revalidation::revalidate_released_evidence;
use cargo_berth::reconcile::settlement::JudgedTargetTip;
use cargo_berth::reservation::lifecycle::ReleaseDisposition;
use cargo_berth::reservation::lifecycle::RewrittenIntegrationTrunkCommit;
use cargo_berth::reservation::lifecycle::OrphanRetirementReason;
use cargo_berth::reconcile::revalidation::ScopedPatchTargetVerdictAvailability;
use cargo_berth::reservation::evidence::ScopedPatchIntegrationEvaluation;
use cargo_berth::reservation::lifecycle::IntegrationEvidenceStatus;
use cargo_berth::reservation::lifecycle::IntegrationProof;
use cargo_berth::reservation::lifecycle::IntegrationWitness;
use cargo_berth::reservation::lifecycle::Reachability;
use cargo_berth::scope::ReservationScope;
use cargo_berth::scope::ReservationScopeSet;
use cargo_berth::scope::ScopeKind;

fn scopes() -> ReservationScopeSet {
    ReservationScopeSet::try_from_scopes(vec![ReservationScope {
        path: "src".to_owned(),
        kind: ScopeKind::Tree,
    }])
    .unwrap_or_else(|_| panic!("one scope"))
}

fn reachability(tip: Reachability, previous: Reachability) -> TargetIntegrationReachability {
    TargetIntegrationReachability::classified(
        vec!["tip".to_owned(), "previous".to_owned()],
        Some(vec![tip, previous]),
    )
}

#[test]
fn a_retained_verdict_answers_without_spending_the_budget() {
    let mut budget = ReconciliationScopedPatchEvaluationBudget::new();
    let evaluated = Cell::new(false);
    let observation = integration_status_with_retained_verdict(
        &mut budget,
        &reachability(Reachability::NotAncestor, Reachability::Ancestor),
        ScopedPatchTargetVerdictAvailability::Hit {
            comparison: DurableScopedPatchComparison::Equivalent,
            witness: IntegrationWitness::EvaluatedTrunk,
        },
        IntegrationProofSubjectRevision(4),
        &"start".to_owned(),
        &scopes(),
        &"tip".to_owned(),
        &"main".to_owned(),
        &"previous".to_owned(),
        IntegrationEvidenceStatus::NotIntegrated,
        || {
            evaluated.set(true);
            ScopedPatchIntegrationEvaluation::Different
        },
    );
    assert!(!evaluated.get());
    assert_eq!(budget.evaluated_target_count(), 0);
    assert_eq!(
        observation.status,
        IntegrationEvidenceStatus::Integrated {
            trunk_oid: "main".to_owned(),
            proof: IntegrationProof::ScopedPatchEquivalent,
            witness: IntegrationWitness::EvaluatedTrunk,
        }
    );
    assert_eq!(observation.revalidation, EvidenceRevalidationObservation::Apply);
    assert_eq!(observation.scoped_patch_comparison, ScopedPatchComparisonJournalUpdate::Unchanged);

    let different = integration_status_with_retained_verdict(
        &mut budget,
        &reachability(Reachability::NotAncestor, Reachability::NotAncestor),
        ScopedPatchTargetVerdictAvailability::Hit {
            comparison: DurableScopedPatchComparison::Different,
            witness: IntegrationWitness::EvaluatedTrunk,
        },
        IntegrationProofSubjectRevision(4),
        &"start".to_owned(),
        &scopes(),
        &"tip".to_owned(),
        &"main".to_owned(),
        &"previous".to_owned(),
        IntegrationEvidenceStatus::NotIntegrated,
        || ScopedPatchIntegrationEvaluation::Different,
    );
    assert_eq!(different.status, IntegrationEvidenceStatus::TrunkRewritten);
}

#[test]
fn a_tip_on_trunk_needs_no_comparison() {
    let mut budget = ReconciliationScopedPatchEvaluationBudget::new();
    let evaluated = Cell::new(false);
    let observation = integration_status_with_retained_verdict(
        &mut budget,
        &reachability(Reachability::Ancestor, Reachability::Ancestor),
        ScopedPatchTargetVerdictAvailability::Miss,
        IntegrationProofSubjectRevision(1),
        &"start".to_owned(),
        &scopes(),
        &"tip".to_owned(),
        &"main".to_owned(),
        &"previous".to_owned(),
        IntegrationEvidenceStatus::NotIntegrated,
        || {
            evaluated.set(true);
            ScopedPatchIntegrationEvaluation::Different
        },
    );
    assert!(!evaluated.get());
    assert_eq!(budget.evaluated_target_count(), 0);
    assert_eq!(
        observation.status,
        IntegrationEvidenceStatus::Integrated {
            trunk_oid: "main".to_owned(),
            proof: IntegrationProof::ProtectedTipAncestor,
            witness: IntegrationWitness::EvaluatedTrunk,
        }
    );
    assert_eq!(observation.revalidation, EvidenceRevalidationObservation::Apply);
}

#[test]
fn one_comparison_per_target_and_a_deferred_one_keeps_what_is_materialized() {
    let mut budget = ReconciliationScopedPatchEvaluationBudget::new();
    let first = integration_status_with_retained_verdict(
        &mut budget,
        &reachability(Reachability::NotAncestor, Reachability::Ancestor),
        ScopedPatchTargetVerdictAvailability::Miss,
        IntegrationProofSubjectRevision(2),
        &"start".to_owned(),
        &scopes(),
        &"tip".to_owned(),
        &"main".to_owned(),
        &"previous".to_owned(),
        IntegrationEvidenceStatus::NotIntegrated,
        || ScopedPatchIntegrationEvaluation::Different,
    );
    assert_eq!(budget.evaluated_target_count(), 1);
    assert_eq!(first.status, IntegrationEvidenceStatus::NotIntegrated);
    assert_eq!(first.revalidation, EvidenceRevalidationObservation::Apply);
    assert_eq!(
        first.scoped_patch_comparison,
        ScopedPatchComparisonJournalUpdate::Checked {
            subject: IntegrationProofSubjectRevision(2),
            target: "main".to_owned(),
            verdict: ScopedPatchEquivalenceVerdict::NotIntegrated,
            witness: IntegrationWitness::EvaluatedTrunk,
        }
    );

    let materialized = IntegrationEvidenceStatus::Integrated {
        trunk_oid: "older".to_owned(),
        proof: IntegrationProof::ScopedPatchEquivalent,
        witness: IntegrationWitness::EvaluatedTrunk,
    };
    let evaluated = Cell::new(false);
    let second = integration_status_with_retained_verdict(
        &mut budget,
        &reachability(Reachability::NotAncestor, Reachability::Ancestor),
        ScopedPatchTargetVerdictAvailability::Miss,
        IntegrationProofSubjectRevision(3),
        &"other-start".to_owned(),
        &scopes(),
        &"tip".to_owned(),
        &"main".to_owned(),
        &"previous".to_owned(),
        materialized,
        || {
            evaluated.set(true);
            ScopedPatchIntegrationEvaluation::Different
        },
    );
    assert!(!evaluated.get());
    assert_eq!(budget.evaluated_target_count(), 1);
    assert_eq!(second.status, IntegrationEvidenceStatus::NotIntegrated);
    assert_eq!(second.revalidation, EvidenceRevalidationObservation::PreserveMaterialized);
    assert_eq!(second.scoped_patch_comparison, ScopedPatchComparisonJournalUpdate::Unchanged);
}

fn proven_on(trunk: &str) -> IntegrationEvidenceStatus {
    IntegrationEvidenceStatus::Integrated {
        trunk_oid: trunk.to_owned(),
        proof: IntegrationProof::ScopedPatchEquivalent,
        witness: IntegrationWitness::EvaluatedTrunk,
    }
}

/// Classify the protected tip and the proving trunk `previous`.
fn classified(tip: Reachability, proving: Reachability) -> TargetIntegrationReachability {
    reachability(tip, proving)
}

#[test]
fn a_standing_proof_is_carried_onto_the_observed_trunk_without_a_comparison() {
    let mut budget = ReconciliationScopedPatchEvaluationBudget::new();
    let evaluated = Cell::new(false);
    let observation = revalidate_protected_tip(
        &JudgedTargetTip::Resolved("main2".to_owned()),
        &mut budget,
        &classified(Reachability::Ancestor, Reachability::Ancestor),
        ScopedPatchTargetVerdictAvailability::Miss,
        IntegrationProofSubjectRevision(1),
        &"start".to_owned(),
        &scopes(),
        &"tip".to_owned(),
        &"snapshot".to_owned(),
        proven_on("previous"),
        || {
            evaluated.set(true);
            ScopedPatchIntegrationEvaluation::Different
        },
    );
    assert!(!evaluated.get());
    assert_eq!(
        observation.status,
        IntegrationEvidenceStatus::Integrated {
            trunk_oid: "main2".to_owned(),
            proof: IntegrationProof::ProtectedTipAncestor,
            witness: IntegrationWitness::EvaluatedTrunk,
        }
    );
    assert_eq!(observation.revalidation, EvidenceRevalidationObservation::Apply);
}

#[test]
fn an_unresolved_trunk_or_proving_trunk_leaves_the_status_unknown() {
    let mut budget = ReconciliationScopedPatchEvaluationBudget::new();
    let unresolved = revalidate_protected_tip(
        &JudgedTargetTip::ObjectUnknown,
        &mut budget,
        &classified(Reachability::Ancestor, Reachability::Ancestor),
        ScopedPatchTargetVerdictAvailability::Miss,
        IntegrationProofSubjectRevision(1),
        &"start".to_owned(),
        &scopes(),
        &"tip".to_owned(),
        &"snapshot".to_owned(),
        proven_on("previous"),
        || ScopedPatchIntegrationEvaluation::Different,
    );
    assert_eq!(unresolved.status, IntegrationEvidenceStatus::ObjectUnknown);
    let lost = revalidate_protected_tip(
        &JudgedTargetTip::Resolved("main2".to_owned()),
        &mut budget,
        &classified(Reachability::Ancestor, Reachability::ObjectUnknown),
        ScopedPatchTargetVerdictAvailability::Miss,
        IntegrationProofSubjectRevision(1),
        &"start".to_owned(),
        &scopes(),
        &"tip".to_owned(),
        &"snapshot".to_owned(),
        proven_on("previous"),
        || ScopedPatchIntegrationEvaluation::Different,
    );
    assert_eq!(lost.status, IntegrationEvidenceStatus::ObjectUnknown);
    assert_eq!(budget.evaluated_target_count(), 0);
}

#[test]
fn released_work_revalidates_by_its_disposition() {
    let mut budget = ReconciliationScopedPatchEvaluationBudget::new();
    let reach = TargetIntegrationReachability::classified(vec!["w1".to_owned()], Some(vec![Reachability::Ancestor]));
    let witness = RewrittenIntegrationTrunkCommit("w1".to_owned());
    let rewritten = revalidate_released_evidence(
        &JudgedTargetTip::Resolved("main2".to_owned()),
        &mut budget,
        &reach,
        ScopedPatchTargetVerdictAvailability::Miss,
        IntegrationProofSubjectRevision(1),
        &"start".to_owned(),
        &scopes(),
        &"tip".to_owned(),
        &"snapshot".to_owned(),
        &ReleaseDisposition::RewrittenIntegration(RewrittenIntegrationTrunkCommit("w1".to_owned())),
        IntegrationEvidenceStatus::NotIntegrated,
        || ScopedPatchIntegrationEvaluation::Different,
    );
    assert_eq!(
        rewritten.status,
        IntegrationEvidenceStatus::Integrated {
            trunk_oid: "main2".to_owned(),
            proof: IntegrationProof::RewrittenWitnessAncestor,
            witness: IntegrationWitness::Historical(witness),
        }
    );
    let retired = revalidate_released_evidence(
        &JudgedTargetTip::Resolved("main2".to_owned()),
        &mut budget,
        &reach,
        ScopedPatchTargetVerdictAvailability::Miss,
        IntegrationProofSubjectRevision(1),
        &"start".to_owned(),
        &scopes(),
        &"tip".to_owned(),
        &"snapshot".to_owned(),
        &ReleaseDisposition::RetiredOrphan(OrphanRetirementReason::parse("gone").unwrap_or_else(|_| panic!("a reason"))),
        IntegrationEvidenceStatus::TrunkRewritten,
        || ScopedPatchIntegrationEvaluation::Different,
    );
    assert_eq!(retired.status, IntegrationEvidenceStatus::TrunkRewritten);
    assert_eq!(retired.revalidation, EvidenceRevalidationObservation::NotApplicable);
    assert_eq!(budget.evaluated_target_count(), 0);
}
