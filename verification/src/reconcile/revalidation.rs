//! One pass's integration status for an outstanding reservation: a retained durable verdict
//! for the target answers at once, and otherwise ancestry and at most one budgeted scoped
//! comparison decide.
use vstd::prelude::*;

use crate::ids::GitObjectId;
use crate::reconcile::budget::evaluation_scope_kind;
use crate::reconcile::budget::evaluation_step;
use crate::reconcile::budget::EvaluationKeyView;
use crate::reconcile::budget::ReconciliationScopedPatchEvaluationBudget;
use crate::reconcile::budget::ScopedPatchComparisonDestination;
use crate::reconcile::budget::ScopedPatchEvaluationKey;
use crate::reconcile::budget::ScopedPatchEvaluationScope;
use crate::reconcile::budget::ScopedPatchEvaluationScopeKind;
use crate::reconcile::evaluation::deferred_integration_status;
use crate::reconcile::evaluation::deferred_status;
use crate::reconcile::evaluation::integration_status_from_retained_scoped_patch_comparison;
use crate::reconcile::evaluation::journal_update_for;
use crate::reconcile::evaluation::proof_standing;
use crate::reconcile::evaluation::proving_trunk_of;
use crate::reconcile::evaluation::reanchored;
use crate::reconcile::evaluation::reanchored_proof;
use crate::reconcile::evaluation::IntegrationProofStanding;
use crate::reconcile::evaluation::retained_verdict_status;
use crate::reconcile::evaluation::scoped_patch_journal_update;
use crate::reconcile::evaluation::DurableScopedPatchComparison;
use crate::reconcile::evaluation::EvidenceRevalidationObservation;
use crate::reconcile::evaluation::IntegrationProofSubjectRevision;
use crate::reconcile::evaluation::IntegrationStatusObservation;
use crate::reconcile::evaluation::ScopedPatchComparisonJournalUpdate;
use crate::reconcile::reachability::TargetIntegrationReachability;
use crate::reconcile::settlement::JudgedTargetTip;
use crate::reservation::evidence::observe_outstanding_integration_status;
use crate::reservation::evidence::observed_outstanding_integration;
use crate::reservation::evidence::IntegrationEvidenceObservation;
use crate::reservation::evidence::ScopedPatchComparisonObservation;
use crate::reservation::evidence::ScopedPatchIntegrationEvaluation;
use crate::reservation::lifecycle::IntegrationEvidenceStatus;
use crate::reservation::lifecycle::IntegrationWitness;
use crate::reservation::lifecycle::Reachability;
use crate::reservation::lifecycle::ReleaseDisposition;
use crate::reservation::lifecycle::witness_ancestry_status;
use crate::scope::ReservationScope;
use crate::scope::ReservationScopeSet;
use crate::scope::ScopeKind;

verus! {

/// Whether a reservation retains a durable verdict for this proof subject and target.
#[derive(Debug, PartialEq, Eq)]
pub enum ScopedPatchTargetVerdictAvailability {
    /// A durable comparison verdict for exactly this subject and target is retained.
    Hit {
        /// The retained verdict.
        comparison: DurableScopedPatchComparison,
        /// The commit that witnessed it.
        witness: IntegrationWitness,
    },
    /// No verdict for this subject and target is retained.
    Miss,
}

/// The key of a comparison against the trunk itself, taken as text.
pub open spec fn trunk_comparison_key(
    phase_start_head: Seq<char>,
    protected_tip: Seq<char>,
    target: Seq<char>,
    scopes: Seq<ReservationScope>,
) -> EvaluationKeyView {
    EvaluationKeyView {
        phase_start_head,
        protected_tip,
        target_trunk: target,
        scopes: scopes.map_values(
            |scope: ReservationScope| (scope.path@, evaluation_scope_kind(scope.kind)),
        ),
        destination: None,
    }
}

impl ScopedPatchEvaluationKey {
    /// The key of a comparison of a reservation's protected work against the trunk itself.
    pub fn trunk_comparison(
        phase_start_head: &GitObjectId,
        protected_tip: &GitObjectId,
        target: &GitObjectId,
        scopes: &ReservationScopeSet,
    ) -> (key: Self)
        ensures
            key@ == trunk_comparison_key(
                phase_start_head@,
                protected_tip@,
                target@,
                scopes.scopes(),
            ),
            key.target_trunk@ == target@,
    {
        let slice = scopes.as_slice();
        let mut compared: Vec<ScopedPatchEvaluationScope> = Vec::new();
        let mut index: usize = 0;
        while index < slice.len()
            invariant
                index <= slice@.len(),
                compared@.map_values(
                    |scope: ScopedPatchEvaluationScope| (scope.path@, scope.scope_kind),
                ) == slice@.take(index as int).map_values(
                    |scope: ReservationScope| (scope.path@, evaluation_scope_kind(scope.kind)),
                ),
            decreases slice@.len() - index,
        {
            let scope = &slice[index];
            let scope_kind = match scope.kind {
                ScopeKind::File => ScopedPatchEvaluationScopeKind::File,
                ScopeKind::Tree => ScopedPatchEvaluationScopeKind::Tree,
            };
            let ghost before = compared@;
            compared.push(ScopedPatchEvaluationScope { path: scope.path.clone(), scope_kind });
            proof {
                assert(compared@ =~= before.push(compared@.last()));
                assert(slice@.take(index + 1) =~= slice@.take(index as int).push(*scope));
                assert(compared@.map_values(
                    |scope: ScopedPatchEvaluationScope| (scope.path@, scope.scope_kind),
                ) =~= before.map_values(
                    |scope: ScopedPatchEvaluationScope| (scope.path@, scope.scope_kind),
                ).push((scope.path@, evaluation_scope_kind(scope.kind))));
            }
            assert(compared@.map_values(
                |scope: ScopedPatchEvaluationScope| (scope.path@, scope.scope_kind),
            ) =~= slice@.take(index + 1).map_values(
                |scope: ReservationScope| (scope.path@, evaluation_scope_kind(scope.kind)),
            ));
            index += 1;
        }
        assert(slice@.take(slice@.len() as int) =~= slice@);
        ScopedPatchEvaluationKey {
            phase_start_head: phase_start_head.clone(),
            protected_tip: protected_tip.clone(),
            target_trunk: target.clone(),
            scopes: compared,
            destination: ScopedPatchComparisonDestination::Trunk,
        }
    }
}

/// One pass's status from what ancestry and the scoped comparison observed: a comparison
/// that ran is applied with the journal record it calls for, and a comparison the budget
/// deferred keeps what is materialized, giving up any proof it can no longer support.
pub open spec fn observed_status(
    observation: IntegrationEvidenceObservation,
    subject: IntegrationProofSubjectRevision,
    target: GitObjectId,
    materialized: IntegrationEvidenceStatus,
    previous_trunk_reachability: Reachability,
) -> IntegrationStatusObservation {
    match observation {
        IntegrationEvidenceObservation::Reachability(status) => IntegrationStatusObservation {
            status,
            revalidation: EvidenceRevalidationObservation::Apply,
            scoped_patch_comparison: ScopedPatchComparisonJournalUpdate::Unchanged,
        },
        IntegrationEvidenceObservation::ScopedPatchComparison { status, evaluation } =>
            IntegrationStatusObservation {
            status,
            revalidation: EvidenceRevalidationObservation::Apply,
            scoped_patch_comparison: journal_update_for(subject, target, status, evaluation),
        },
        IntegrationEvidenceObservation::ScopedPatchComparisonDeferred => IntegrationStatusObservation {
            status: deferred_status(materialized, previous_trunk_reachability),
            revalidation: EvidenceRevalidationObservation::PreserveMaterialized,
            scoped_patch_comparison: ScopedPatchComparisonJournalUpdate::Unchanged,
        },
    }
}

/// The status a retained verdict supplies, applied with nothing new to record.
pub open spec fn retained_status(
    comparison: DurableScopedPatchComparison,
    witness: IntegrationWitness,
    target: GitObjectId,
    previous_trunk_reachability: Reachability,
) -> IntegrationStatusObservation {
    IntegrationStatusObservation {
        status: retained_verdict_status(comparison, witness, target, previous_trunk_reachability),
        revalidation: EvidenceRevalidationObservation::Apply,
        scoped_patch_comparison: ScopedPatchComparisonJournalUpdate::Unchanged,
    }
}

/// Whether a pass with no retained verdict decided as it must: the comparison was asked of the
/// budget under this key exactly when the protected tip is not an ancestor of the target, and
/// the status follows from ancestry and that comparison.
pub open spec fn decided_without_retained_verdict<Evaluate: FnOnce() -> ScopedPatchIntegrationEvaluation>(
    before: ReconciliationScopedPatchEvaluationBudget,
    after: ReconciliationScopedPatchEvaluationBudget,
    key: ScopedPatchEvaluationKey,
    evaluate: Evaluate,
    comparison: ScopedPatchComparisonObservation,
    observation: IntegrationStatusObservation,
    protected_tip_reachability: Reachability,
    previous_trunk_reachability: Reachability,
    expected_key: EvaluationKeyView,
    subject: IntegrationProofSubjectRevision,
    target: GitObjectId,
    materialized: IntegrationEvidenceStatus,
) -> bool {
    &&& key@ == expected_key
    &&& if protected_tip_reachability is NotAncestor {
        evaluation_step(before, after, key, evaluate, comparison)
    } else {
        &&& comparison == ScopedPatchComparisonObservation::Deferred
        &&& after.admitted() == before.admitted()
        &&& after.spent_targets() == before.spent_targets()
    }
    &&& observation == observed_status(
        observed_outstanding_integration(
            protected_tip_reachability,
            previous_trunk_reachability,
            target,
            comparison,
        ),
        subject,
        target,
        materialized,
        previous_trunk_reachability,
    )
}

/// Whether one pass decided an outstanding reservation's status against a target as it must:
/// a verdict retained for this subject and target answers and leaves the budget alone;
/// without one, ancestry and at most one budgeted comparison decide.
pub open spec fn decided_with_retained_verdict<Evaluate: FnOnce() -> ScopedPatchIntegrationEvaluation>(
    before: ReconciliationScopedPatchEvaluationBudget,
    after: ReconciliationScopedPatchEvaluationBudget,
    integration_reachability: &TargetIntegrationReachability,
    retained: ScopedPatchTargetVerdictAvailability,
    subject: IntegrationProofSubjectRevision,
    phase_start_head: GitObjectId,
    scopes: ReservationScopeSet,
    protected_tip: GitObjectId,
    target: GitObjectId,
    previous_trunk: GitObjectId,
    materialized: IntegrationEvidenceStatus,
    evaluate: Evaluate,
    observation: IntegrationStatusObservation,
) -> bool {
    match retained {
        ScopedPatchTargetVerdictAvailability::Hit { comparison, witness } => {
            &&& observation == retained_status(
                comparison,
                witness,
                target,
                integration_reachability.reachability_of(previous_trunk@),
            )
            &&& after.admitted() == before.admitted()
            &&& after.spent_targets() == before.spent_targets()
        },
        ScopedPatchTargetVerdictAvailability::Miss => {
            exists|key: ScopedPatchEvaluationKey, comparison: ScopedPatchComparisonObservation|
                #[trigger] decided_without_retained_verdict(
                    before,
                    after,
                    key,
                    evaluate,
                    comparison,
                    observation,
                    integration_reachability.reachability_of(protected_tip@),
                    integration_reachability.reachability_of(previous_trunk@),
                    trunk_comparison_key(phase_start_head@, protected_tip@, target@, scopes.scopes()),
                    subject,
                    target,
                    materialized,
                )
        },
    }
}

/// Decide one pass's integration status for an outstanding reservation against a target.
///
/// A durable verdict retained for this proof subject and target answers at once and leaves
/// the budget alone. Otherwise the protected tip's ancestry decides, and only when the tip is
/// not an ancestor of the target is the budget asked for the scoped comparison, keyed by the
/// phase start, the protected tip, the target and the protected scopes.
pub fn integration_status_with_retained_verdict<Evaluate: FnOnce() -> ScopedPatchIntegrationEvaluation>(
    budget: &mut ReconciliationScopedPatchEvaluationBudget,
    integration_reachability: &TargetIntegrationReachability,
    retained: ScopedPatchTargetVerdictAvailability,
    subject: IntegrationProofSubjectRevision,
    phase_start_head: &GitObjectId,
    scopes: &ReservationScopeSet,
    protected_tip: &GitObjectId,
    target: &GitObjectId,
    previous_trunk: &GitObjectId,
    materialized: IntegrationEvidenceStatus,
    evaluate: Evaluate,
) -> (observation: IntegrationStatusObservation)
    requires
        old(budget).wf(),
        call_requires(evaluate, ()),
    ensures
        final(budget).wf(),
        decided_with_retained_verdict(
            *old(budget),
            *final(budget),
            integration_reachability,
            retained,
            subject,
            *phase_start_head,
            *scopes,
            *protected_tip,
            *target,
            *previous_trunk,
            materialized,
            evaluate,
            observation,
        ),
{
    match retained {
        ScopedPatchTargetVerdictAvailability::Hit { comparison, witness } => {
            let status = integration_status_from_retained_scoped_patch_comparison(
                comparison,
                witness,
                target,
                previous_trunk,
                integration_reachability,
            );
            let observation = IntegrationStatusObservation::new(
                status,
                EvidenceRevalidationObservation::Apply,
                ScopedPatchComparisonJournalUpdate::Unchanged,
            );
            assert(observation == retained_status(
                comparison,
                witness,
                *target,
                integration_reachability.reachability_of(previous_trunk@),
            ));
            observation
        },
        ScopedPatchTargetVerdictAvailability::Miss => {
            let key = ScopedPatchEvaluationKey::trunk_comparison(
                phase_start_head,
                protected_tip,
                target,
                scopes,
            );
            let ghost named_key = key;
            let protected_tip_reachability = integration_reachability.for_ancestor(protected_tip);
            let previous_trunk_reachability = integration_reachability.for_ancestor(previous_trunk);
            let comparison = match protected_tip_reachability {
                Reachability::NotAncestor => budget.evaluate(key, evaluate),
                _ => ScopedPatchComparisonObservation::Deferred,
            };
            let ghost observed = comparison;
            let answer_comparison = || -> (answer: ScopedPatchComparisonObservation)
                ensures
                    answer == observed,
                { comparison };
            let evidence_observation = observe_outstanding_integration_status(
                protected_tip_reachability,
                previous_trunk_reachability,
                target,
                answer_comparison,
            );
            let observation = match evidence_observation {
                IntegrationEvidenceObservation::Reachability(status) => IntegrationStatusObservation::new(
                    status,
                    EvidenceRevalidationObservation::Apply,
                    ScopedPatchComparisonJournalUpdate::Unchanged,
                ),
                IntegrationEvidenceObservation::ScopedPatchComparison { status, evaluation } => {
                    let update = scoped_patch_journal_update(subject, target, &status, &evaluation);
                    IntegrationStatusObservation::new(
                        status,
                        EvidenceRevalidationObservation::Apply,
                        update,
                    )
                },
                IntegrationEvidenceObservation::ScopedPatchComparisonDeferred => IntegrationStatusObservation::new(
                    deferred_integration_status(
                        materialized,
                        previous_trunk,
                        integration_reachability,
                    ),
                    EvidenceRevalidationObservation::PreserveMaterialized,
                    ScopedPatchComparisonJournalUpdate::Unchanged,
                ),
            };
            proof {
                assert(observation == observed_status(
                    observed_outstanding_integration(
                        protected_tip_reachability,
                        previous_trunk_reachability,
                        *target,
                        observed,
                    ),
                    subject,
                    *target,
                    materialized,
                    previous_trunk_reachability,
                ));
                assert(decided_without_retained_verdict(
                    *old(budget),
                    *budget,
                    named_key,
                    evaluate,
                    observed,
                    observation,
                    protected_tip_reachability,
                    previous_trunk_reachability,
                    trunk_comparison_key(phase_start_head@, protected_tip@, target@, scopes.scopes()),
                    subject,
                    *target,
                    materialized,
                ));
            }
            observation
        },
    }
}

/// Whether one pass revalidated an outstanding checkpoint against the observed trunk as it
/// must: an unresolved trunk leaves the status unknown; a proof whose proving trunk is still
/// in the observed history is carried onto it; a proving trunk git cannot classify leaves the
/// status unknown; and otherwise the status is derived from the lost proof's trunk, or from
/// the last snapshot when there was no proof. Only that derivation touches the budget.
pub open spec fn revalidated<Evaluate: FnOnce() -> ScopedPatchIntegrationEvaluation>(
    repository_trunk: JudgedTargetTip,
    before: ReconciliationScopedPatchEvaluationBudget,
    after: ReconciliationScopedPatchEvaluationBudget,
    integration_reachability: &TargetIntegrationReachability,
    retained: ScopedPatchTargetVerdictAvailability,
    subject: IntegrationProofSubjectRevision,
    phase_start_head: GitObjectId,
    scopes: ReservationScopeSet,
    protected_tip: GitObjectId,
    trunk_snapshot: GitObjectId,
    materialized: IntegrationEvidenceStatus,
    evaluate: Evaluate,
    observation: IntegrationStatusObservation,
) -> bool {
    let unknown = IntegrationStatusObservation {
        status: IntegrationEvidenceStatus::ObjectUnknown,
        revalidation: EvidenceRevalidationObservation::Apply,
        scoped_patch_comparison: ScopedPatchComparisonJournalUpdate::Unchanged,
    };
    let untouched = after.admitted() == before.admitted() && after.spent_targets() == before.spent_targets();
    match repository_trunk {
        JudgedTargetTip::ObjectUnknown => observation == unknown && untouched,
        JudgedTargetTip::Resolved(current) => match proof_standing(
            materialized,
            trunk_snapshot,
            match proving_trunk_of(materialized) {
                Some(trunk_oid) => integration_reachability.reachability_of(trunk_oid@),
                None => Reachability::ObjectUnknown,
            },
        ) {
            IntegrationProofStanding::Holds => observation == IntegrationStatusObservation {
                status: reanchored(materialized, current, integration_reachability.reachability_of(protected_tip@)),
                revalidation: EvidenceRevalidationObservation::Apply,
                scoped_patch_comparison: ScopedPatchComparisonJournalUpdate::Unchanged,
            } && untouched,
            IntegrationProofStanding::ProvingTrunkUnknown => observation == unknown && untouched,
            IntegrationProofStanding::Derive { previous_trunk } => decided_with_retained_verdict(
                before,
                after,
                integration_reachability,
                retained,
                subject,
                phase_start_head,
                scopes,
                protected_tip,
                current,
                previous_trunk,
                materialized,
                evaluate,
                observation,
            ),
        },
    }
}

/// Answer one outstanding checkpoint's integration against the observed trunk, re-deriving
/// only when the proof on file no longer stands. `retained` is what the reservation retains
/// for its proof subject at the observed trunk.
pub fn revalidate_protected_tip<Evaluate: FnOnce() -> ScopedPatchIntegrationEvaluation>(
    repository_trunk: &JudgedTargetTip,
    budget: &mut ReconciliationScopedPatchEvaluationBudget,
    integration_reachability: &TargetIntegrationReachability,
    retained: ScopedPatchTargetVerdictAvailability,
    subject: IntegrationProofSubjectRevision,
    phase_start_head: &GitObjectId,
    scopes: &ReservationScopeSet,
    protected_tip: &GitObjectId,
    trunk_snapshot: &GitObjectId,
    materialized: IntegrationEvidenceStatus,
    evaluate: Evaluate,
) -> (observation: IntegrationStatusObservation)
    requires
        old(budget).wf(),
        call_requires(evaluate, ()),
    ensures
        final(budget).wf(),
        revalidated(
            *repository_trunk,
            *old(budget),
            *final(budget),
            integration_reachability,
            retained,
            subject,
            *phase_start_head,
            *scopes,
            *protected_tip,
            *trunk_snapshot,
            materialized,
            evaluate,
            observation,
        ),
{
    let current = match repository_trunk {
        JudgedTargetTip::Resolved(current) => current,
        JudgedTargetTip::ObjectUnknown => {
            return IntegrationStatusObservation::new(
                IntegrationEvidenceStatus::ObjectUnknown,
                EvidenceRevalidationObservation::Apply,
                ScopedPatchComparisonJournalUpdate::Unchanged,
            );
        },
    };
    match IntegrationProofStanding::observe(&materialized, trunk_snapshot, integration_reachability) {
        IntegrationProofStanding::Holds => {
            let reachability = integration_reachability.for_ancestor(protected_tip);
            IntegrationStatusObservation::new(
                reanchored_proof(materialized, current, reachability),
                EvidenceRevalidationObservation::Apply,
                ScopedPatchComparisonJournalUpdate::Unchanged,
            )
        },
        IntegrationProofStanding::ProvingTrunkUnknown => IntegrationStatusObservation::new(
            IntegrationEvidenceStatus::ObjectUnknown,
            EvidenceRevalidationObservation::Apply,
            ScopedPatchComparisonJournalUpdate::Unchanged,
        ),
        IntegrationProofStanding::Derive { previous_trunk } => integration_status_with_retained_verdict(
            budget,
            integration_reachability,
            retained,
            subject,
            phase_start_head,
            scopes,
            protected_tip,
            current,
            &previous_trunk,
            materialized,
            evaluate,
        ),
    }
}

/// Answer released work's integration against the observed trunk by what its disposition
/// can still be revalidated against: an integrated release revalidates its checkpoint like
/// outstanding work, a rewritten integration re-asks only its witness's ancestry, and a
/// retirement keeps what is on file with nothing to revalidate.
pub fn revalidate_released_evidence<Evaluate: FnOnce() -> ScopedPatchIntegrationEvaluation>(
    repository_trunk: &JudgedTargetTip,
    budget: &mut ReconciliationScopedPatchEvaluationBudget,
    integration_reachability: &TargetIntegrationReachability,
    retained: ScopedPatchTargetVerdictAvailability,
    subject: IntegrationProofSubjectRevision,
    phase_start_head: &GitObjectId,
    scopes: &ReservationScopeSet,
    protected_tip: &GitObjectId,
    trunk_snapshot: &GitObjectId,
    disposition: &ReleaseDisposition,
    materialized: IntegrationEvidenceStatus,
    evaluate: Evaluate,
) -> (observation: IntegrationStatusObservation)
    requires
        old(budget).wf(),
        call_requires(evaluate, ()),
    ensures
        final(budget).wf(),
        match *disposition {
            ReleaseDisposition::Integrated => revalidated(
                *repository_trunk,
                *old(budget),
                *final(budget),
                integration_reachability,
                retained,
                subject,
                *phase_start_head,
                *scopes,
                *protected_tip,
                *trunk_snapshot,
                materialized,
                evaluate,
                observation,
            ),
            ReleaseDisposition::RewrittenIntegration(witness) => {
                &&& observation == IntegrationStatusObservation {
                    status: match *repository_trunk {
                        JudgedTargetTip::Resolved(trunk) => witness_ancestry_status(
                            witness,
                            trunk,
                            integration_reachability.reachability_of(witness.commit()@),
                        ),
                        JudgedTargetTip::ObjectUnknown => IntegrationEvidenceStatus::ObjectUnknown,
                    },
                    revalidation: EvidenceRevalidationObservation::Apply,
                    scoped_patch_comparison: ScopedPatchComparisonJournalUpdate::Unchanged,
                }
                &&& *final(budget) == *old(budget)
            },
            _ => {
                &&& observation == IntegrationStatusObservation {
                    status: materialized,
                    revalidation: EvidenceRevalidationObservation::NotApplicable,
                    scoped_patch_comparison: ScopedPatchComparisonJournalUpdate::Unchanged,
                }
                &&& *final(budget) == *old(budget)
            },
        },
{
    match disposition {
        ReleaseDisposition::Integrated => revalidate_protected_tip(
            repository_trunk,
            budget,
            integration_reachability,
            retained,
            subject,
            phase_start_head,
            scopes,
            protected_tip,
            trunk_snapshot,
            materialized,
            evaluate,
        ),
        ReleaseDisposition::RewrittenIntegration(witness) => {
            let status = match repository_trunk {
                JudgedTargetTip::Resolved(trunk) => {
                    let ancestry = |commit: &GitObjectId| -> (answer: Reachability)
                        ensures
                            answer == integration_reachability.reachability_of(commit@),
                        { integration_reachability.for_ancestor(commit) };
                    witness.revalidate_ancestry(trunk, ancestry)
                },
                JudgedTargetTip::ObjectUnknown => IntegrationEvidenceStatus::ObjectUnknown,
            };
            IntegrationStatusObservation::new(
                status,
                EvidenceRevalidationObservation::Apply,
                ScopedPatchComparisonJournalUpdate::Unchanged,
            )
        },
        _ => IntegrationStatusObservation::new(
            materialized,
            EvidenceRevalidationObservation::NotApplicable,
            ScopedPatchComparisonJournalUpdate::Unchanged,
        ),
    }
}

} // verus!
