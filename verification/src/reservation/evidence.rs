//! Protected commit roles and git-backed integration evidence.
use vstd::prelude::*;

use crate::ids::GitObjectId;
use crate::reservation::lifecycle::IntegrationEvidenceStatus;
use crate::reservation::lifecycle::IntegrationProof;
use crate::reservation::lifecycle::IntegrationWitness;
use crate::reservation::lifecycle::Reachability;

verus! {

/// The fixed checkpoint commit used for ordinary integration evidence.
#[derive(Debug, PartialEq, Eq)]
pub struct ProtectedReservationTip(pub GitObjectId);

impl ProtectedReservationTip {
    /// The commit this tip protects.
    pub open spec fn commit(self) -> GitObjectId {
        self.0
    }

    /// Protect this commit.
    pub fn new(commit: GitObjectId) -> (tip: Self)
        ensures
            tip.commit() == commit,
    {
        ProtectedReservationTip(commit)
    }

    /// Borrow the protected commit.
    pub fn as_commit(&self) -> (commit: &GitObjectId)
        ensures
            *commit == self.commit(),
    {
        &self.0
    }
}

impl Clone for ProtectedReservationTip {
    fn clone(&self) -> (copy: Self)
        ensures
            copy == *self,
    {
        ProtectedReservationTip(self.0.clone())
    }
}

/// Whether this reservation previously had verified integration evidence.
#[derive(Clone, Copy, Debug, PartialEq, Eq, Structural)]
pub enum PriorIntegrationStatus {
    /// No earlier stateful check proved integration.
    Unproven,
    /// An earlier stateful check proved integration.
    Proven,
}

/// What a scoped patch replay found when it compared protected changes with a trunk.
#[derive(Clone, Copy, Debug, PartialEq, Eq, Structural)]
pub enum ScopedPatchComparison {
    /// Every protected scoped patch is present under an equivalent commit identity.
    Equivalent,
    /// The trunk does not carry the protected scoped patches.
    Different,
    /// The replay could not be completed.
    Unavailable,
}

/// The semantic result of one admitted scoped integration evaluation.
#[derive(Debug, PartialEq, Eq)]
pub enum ScopedPatchIntegrationEvaluation {
    /// Replay certifies the entire phase at this integration witness.
    Equivalent(IntegrationWitness),
    /// Discovery and replay definitively reject integration.
    Different,
    /// Current-trunk replay differs, but unavailable historical evidence needs a retry.
    HistoricalEvidenceUnavailable,
    /// Scoped replay could not be completed.
    Unavailable,
}

/// The evaluation a single current-trunk comparison amounts to.
pub open spec fn evaluation_of_comparison(
    comparison: ScopedPatchComparison,
) -> ScopedPatchIntegrationEvaluation {
    match comparison {
        ScopedPatchComparison::Equivalent => ScopedPatchIntegrationEvaluation::Equivalent(
            IntegrationWitness::EvaluatedTrunk,
        ),
        ScopedPatchComparison::Different => ScopedPatchIntegrationEvaluation::Different,
        ScopedPatchComparison::Unavailable => ScopedPatchIntegrationEvaluation::Unavailable,
    }
}

impl From<ScopedPatchComparison> for ScopedPatchIntegrationEvaluation {
    fn from(comparison: ScopedPatchComparison) -> (evaluation: Self) {
        match comparison {
            ScopedPatchComparison::Equivalent => ScopedPatchIntegrationEvaluation::Equivalent(
                IntegrationWitness::EvaluatedTrunk,
            ),
            ScopedPatchComparison::Different => ScopedPatchIntegrationEvaluation::Different,
            ScopedPatchComparison::Unavailable => ScopedPatchIntegrationEvaluation::Unavailable,
        }
    }
}

impl vstd::std_specs::convert::FromSpecImpl<ScopedPatchComparison> for ScopedPatchIntegrationEvaluation {
    open spec fn obeys_from_spec() -> bool {
        true
    }

    open spec fn from_spec(comparison: ScopedPatchComparison) -> Self {
        evaluation_of_comparison(comparison)
    }
}

impl Clone for ScopedPatchIntegrationEvaluation {
    fn clone(&self) -> (copy: Self)
        ensures
            copy == *self,
    {
        match self {
            ScopedPatchIntegrationEvaluation::Equivalent(witness) => {
                ScopedPatchIntegrationEvaluation::Equivalent(witness.clone())
            },
            ScopedPatchIntegrationEvaluation::Different => ScopedPatchIntegrationEvaluation::Different,
            ScopedPatchIntegrationEvaluation::HistoricalEvidenceUnavailable => {
                ScopedPatchIntegrationEvaluation::HistoricalEvidenceUnavailable
            },
            ScopedPatchIntegrationEvaluation::Unavailable => ScopedPatchIntegrationEvaluation::Unavailable,
        }
    }
}

/// Whether the bounded reconciliation slot supplied a scoped patch comparison.
#[derive(Debug, PartialEq, Eq)]
pub enum ScopedPatchComparisonObservation {
    /// Git produced this comparison during the current reconciliation.
    Observed(ScopedPatchIntegrationEvaluation),
    /// Another proof subject received the target's comparison slot.
    Deferred,
}

/// Whether reconciliation observed the integration status without or through a scoped comparison.
#[derive(Debug, PartialEq, Eq)]
pub enum IntegrationEvidenceObservation {
    /// Reachability alone produced the status.
    Reachability(IntegrationEvidenceStatus),
    /// A scoped patch comparison contributed to the status.
    ScopedPatchComparison {
        /// Status evaluated against the observed trunk.
        status: IntegrationEvidenceStatus,
        /// Certified witness and whether a negative remains retryable.
        evaluation: ScopedPatchIntegrationEvaluation,
    },
    /// The bounded comparison did not run, so nothing this pass judged the materialized status.
    ScopedPatchComparisonDeferred,
}

/// The status a scoped evaluation supports against the observed trunk.
pub open spec fn scoped_evaluation_status(
    evaluation: ScopedPatchIntegrationEvaluation,
    trunk_oid: GitObjectId,
    prior: PriorIntegrationStatus,
) -> IntegrationEvidenceStatus {
    match evaluation {
        ScopedPatchIntegrationEvaluation::Equivalent(witness) => IntegrationEvidenceStatus::Integrated {
            trunk_oid,
            proof: IntegrationProof::ScopedPatchEquivalent,
            witness,
        },
        ScopedPatchIntegrationEvaluation::Unavailable => IntegrationEvidenceStatus::ObjectUnknown,
        _ => match prior {
            PriorIntegrationStatus::Unproven => IntegrationEvidenceStatus::NotIntegrated,
            PriorIntegrationStatus::Proven => IntegrationEvidenceStatus::TrunkRewritten,
        },
    }
}

/// Integrated evidence established by the protected tip's own ancestry.
pub open spec fn tip_ancestry_status(trunk_oid: GitObjectId) -> IntegrationEvidenceStatus {
    IntegrationEvidenceStatus::Integrated {
        trunk_oid,
        proof: IntegrationProof::ProtectedTipAncestor,
        witness: IntegrationWitness::EvaluatedTrunk,
    }
}

/// What one reconciliation observes, given the protected tip's reachability and, when that
/// reachability leaves the question open, what the bounded comparison slot supplied.
pub open spec fn observed_integration(
    protected_tip_reachability: Reachability,
    trunk_oid: GitObjectId,
    prior: PriorIntegrationStatus,
    comparison: ScopedPatchComparisonObservation,
) -> IntegrationEvidenceObservation {
    match protected_tip_reachability {
        Reachability::Ancestor => IntegrationEvidenceObservation::Reachability(
            tip_ancestry_status(trunk_oid),
        ),
        Reachability::NotAncestor => match comparison {
            ScopedPatchComparisonObservation::Observed(evaluation) => {
                IntegrationEvidenceObservation::ScopedPatchComparison {
                    status: scoped_evaluation_status(evaluation, trunk_oid, prior),
                    evaluation,
                }
            },
            ScopedPatchComparisonObservation::Deferred => {
                IntegrationEvidenceObservation::ScopedPatchComparisonDeferred
            },
        },
        Reachability::ObjectUnknown => IntegrationEvidenceObservation::Reachability(
            IntegrationEvidenceStatus::ObjectUnknown,
        ),
    }
}

/// Separate ordinary non-integration from trunk replacement by the earlier trunk's ancestry.
pub open spec fn previous_trunk_status(previous_trunk_reachability: Reachability) -> IntegrationEvidenceStatus {
    match previous_trunk_reachability {
        Reachability::Ancestor => IntegrationEvidenceStatus::NotIntegrated,
        Reachability::NotAncestor => IntegrationEvidenceStatus::TrunkRewritten,
        Reachability::ObjectUnknown => IntegrationEvidenceStatus::ObjectUnknown,
    }
}

/// What one reconciliation observes for an outstanding reservation: the ordinary observation,
/// except that a compared non-integration is refined by the previous trunk's ancestry.
pub open spec fn observed_outstanding_integration(
    protected_tip_reachability: Reachability,
    previous_trunk_reachability: Reachability,
    current_trunk_oid: GitObjectId,
    comparison: ScopedPatchComparisonObservation,
) -> IntegrationEvidenceObservation {
    let observation = observed_integration(
        protected_tip_reachability,
        current_trunk_oid,
        PriorIntegrationStatus::Unproven,
        comparison,
    );
    match observation {
        IntegrationEvidenceObservation::ScopedPatchComparison {
            status: IntegrationEvidenceStatus::NotIntegrated,
            evaluation,
        } => IntegrationEvidenceObservation::ScopedPatchComparison {
            status: previous_trunk_status(previous_trunk_reachability),
            evaluation,
        },
        _ => observation,
    }
}

/// Turn a scoped evaluation into the status it supports against the observed trunk.
pub fn status_from_scoped_patch_evaluation(
    evaluation: &ScopedPatchIntegrationEvaluation,
    trunk_oid: &GitObjectId,
    prior_integration_status: PriorIntegrationStatus,
) -> (status: IntegrationEvidenceStatus)
    ensures
        status == scoped_evaluation_status(*evaluation, *trunk_oid, prior_integration_status),
{
    match evaluation {
        ScopedPatchIntegrationEvaluation::Equivalent(witness) => IntegrationEvidenceStatus::Integrated {
            trunk_oid: trunk_oid.clone(),
            proof: IntegrationProof::ScopedPatchEquivalent,
            witness: witness.clone(),
        },
        ScopedPatchIntegrationEvaluation::Unavailable => IntegrationEvidenceStatus::ObjectUnknown,
        _ => match prior_integration_status {
            PriorIntegrationStatus::Unproven => IntegrationEvidenceStatus::NotIntegrated,
            PriorIntegrationStatus::Proven => IntegrationEvidenceStatus::TrunkRewritten,
        },
    }
}

/// Observe integration while allowing reconciliation to defer only the scoped comparison.
///
/// The comparison slot is consulted only when the protected tip is not an ancestor of trunk.
pub fn observe_integration_status<Compare: FnOnce() -> ScopedPatchComparisonObservation>(
    protected_tip_reachability: Reachability,
    trunk_oid: &GitObjectId,
    prior_integration_status: PriorIntegrationStatus,
    observe_scoped_patch_comparison: Compare,
) -> (observation: IntegrationEvidenceObservation)
    requires
        protected_tip_reachability is NotAncestor ==> observe_scoped_patch_comparison.requires(()),
    ensures
        protected_tip_reachability is NotAncestor ==> exists|comparison: ScopedPatchComparisonObservation|
            observe_scoped_patch_comparison.ensures((), comparison) && observation
                == observed_integration(
                protected_tip_reachability,
                *trunk_oid,
                prior_integration_status,
                comparison,
            ),
        !(protected_tip_reachability is NotAncestor) ==> observation == observed_integration(
            protected_tip_reachability,
            *trunk_oid,
            prior_integration_status,
            ScopedPatchComparisonObservation::Deferred,
        ),
{
    match protected_tip_reachability {
        Reachability::Ancestor => IntegrationEvidenceObservation::Reachability(
            IntegrationEvidenceStatus::Integrated {
                trunk_oid: trunk_oid.clone(),
                proof: IntegrationProof::ProtectedTipAncestor,
                witness: IntegrationWitness::EvaluatedTrunk,
            },
        ),
        Reachability::NotAncestor => {
            let comparison = observe_scoped_patch_comparison();
            let observation = match comparison {
                ScopedPatchComparisonObservation::Observed(evaluation) => {
                    let status = status_from_scoped_patch_evaluation(
                        &evaluation,
                        trunk_oid,
                        prior_integration_status,
                    );
                    IntegrationEvidenceObservation::ScopedPatchComparison { status, evaluation }
                },
                ScopedPatchComparisonObservation::Deferred => {
                    IntegrationEvidenceObservation::ScopedPatchComparisonDeferred
                },
            };
            assert(observe_scoped_patch_comparison.ensures((), comparison) && observation
                == observed_integration(
                protected_tip_reachability,
                *trunk_oid,
                prior_integration_status,
                comparison,
            ));
            observation
        },
        Reachability::ObjectUnknown => IntegrationEvidenceObservation::Reachability(
            IntegrationEvidenceStatus::ObjectUnknown,
        ),
    }
}

/// Observe outstanding integration while deferring only its scoped comparison when bounded.
pub fn observe_outstanding_integration_status<Compare: FnOnce() -> ScopedPatchComparisonObservation>(
    protected_tip_reachability: Reachability,
    previous_trunk_reachability: Reachability,
    current_trunk_oid: &GitObjectId,
    observe_scoped_patch_comparison: Compare,
) -> (observation: IntegrationEvidenceObservation)
    requires
        protected_tip_reachability is NotAncestor ==> observe_scoped_patch_comparison.requires(()),
    ensures
        protected_tip_reachability is NotAncestor ==> exists|comparison: ScopedPatchComparisonObservation|
            observe_scoped_patch_comparison.ensures((), comparison) && observation
                == observed_outstanding_integration(
                protected_tip_reachability,
                previous_trunk_reachability,
                *current_trunk_oid,
                comparison,
            ),
        !(protected_tip_reachability is NotAncestor) ==> observation
            == observed_outstanding_integration(
            protected_tip_reachability,
            previous_trunk_reachability,
            *current_trunk_oid,
            ScopedPatchComparisonObservation::Deferred,
        ),
{
    let observation = observe_integration_status(
        protected_tip_reachability,
        current_trunk_oid,
        PriorIntegrationStatus::Unproven,
        observe_scoped_patch_comparison,
    );
    let ghost plain = observation;
    let refined = match observation {
        IntegrationEvidenceObservation::ScopedPatchComparison {
            status: IntegrationEvidenceStatus::NotIntegrated,
            evaluation,
        } => {
            let status = match previous_trunk_reachability {
                Reachability::Ancestor => IntegrationEvidenceStatus::NotIntegrated,
                Reachability::NotAncestor => IntegrationEvidenceStatus::TrunkRewritten,
                Reachability::ObjectUnknown => IntegrationEvidenceStatus::ObjectUnknown,
            };
            IntegrationEvidenceObservation::ScopedPatchComparison { status, evaluation }
        },
        _ => observation,
    };
    proof {
        if protected_tip_reachability is NotAncestor {
            let comparison = choose|comparison: ScopedPatchComparisonObservation|
                observe_scoped_patch_comparison.ensures((), comparison) && plain
                    == observed_integration(
                    protected_tip_reachability,
                    *current_trunk_oid,
                    PriorIntegrationStatus::Unproven,
                    comparison,
                );
            assert(refined == observed_outstanding_integration(
                protected_tip_reachability,
                previous_trunk_reachability,
                *current_trunk_oid,
                comparison,
            ));
        }
    }
    refined
}

/// The status ordinary revalidation reports once git has answered: the tip's reachability,
/// and when it is not an ancestor, the scoped comparison that was then run.
pub open spec fn revalidated_status<GitError>(
    protected_tip_reachability: Reachability,
    comparison: Result<ScopedPatchComparison, GitError>,
    trunk_oid: GitObjectId,
    prior: PriorIntegrationStatus,
) -> Result<IntegrationEvidenceStatus, GitError> {
    match protected_tip_reachability {
        Reachability::Ancestor => Ok(tip_ancestry_status(trunk_oid)),
        Reachability::NotAncestor => match comparison {
            Ok(comparison) => Ok(
                scoped_evaluation_status(evaluation_of_comparison(comparison), trunk_oid, prior),
            ),
            Err(error) => Err(error),
        },
        Reachability::ObjectUnknown => Ok(IntegrationEvidenceStatus::ObjectUnknown),
    }
}

/// Revalidate a protected tip against current trunk from git's answers.
///
/// `protected_tip_reachability` is git's answer to whether the protected tip is in the
/// history of `trunk_oid`; the scoped patch comparison is asked for only when it is not.
pub fn integration_status<GitError, Compare: FnOnce() -> Result<ScopedPatchComparison, GitError>>(
    protected_tip_reachability: Result<Reachability, GitError>,
    compare_scoped_patches: Compare,
    trunk_oid: &GitObjectId,
    prior_integration_status: PriorIntegrationStatus,
) -> (status: Result<IntegrationEvidenceStatus, GitError>)
    requires
        protected_tip_reachability matches Ok(Reachability::NotAncestor)
            ==> compare_scoped_patches.requires(()),
    ensures
        match protected_tip_reachability {
            Err(error) => status == Err::<IntegrationEvidenceStatus, GitError>(error),
            Ok(Reachability::NotAncestor) => exists|comparison: Result<ScopedPatchComparison, GitError>|
                compare_scoped_patches.ensures((), comparison) && status == revalidated_status(
                    Reachability::NotAncestor,
                    comparison,
                    *trunk_oid,
                    prior_integration_status,
                ),
            Ok(reachability) => status == revalidated_status::<GitError>(
                reachability,
                Err(arbitrary()),
                *trunk_oid,
                prior_integration_status,
            ),
        },
{
    match protected_tip_reachability {
        Err(error) => Err(error),
        Ok(Reachability::Ancestor) => Ok(
            IntegrationEvidenceStatus::Integrated {
                trunk_oid: trunk_oid.clone(),
                proof: IntegrationProof::ProtectedTipAncestor,
                witness: IntegrationWitness::EvaluatedTrunk,
            },
        ),
        Ok(Reachability::NotAncestor) => {
            let comparison = compare_scoped_patches();
            let status = match comparison {
                Ok(ScopedPatchComparison::Equivalent) => Ok(
                    IntegrationEvidenceStatus::Integrated {
                        trunk_oid: trunk_oid.clone(),
                        proof: IntegrationProof::ScopedPatchEquivalent,
                        witness: IntegrationWitness::EvaluatedTrunk,
                    },
                ),
                Ok(ScopedPatchComparison::Different) => match prior_integration_status {
                    PriorIntegrationStatus::Unproven => Ok(IntegrationEvidenceStatus::NotIntegrated),
                    PriorIntegrationStatus::Proven => Ok(IntegrationEvidenceStatus::TrunkRewritten),
                },
                Ok(ScopedPatchComparison::Unavailable) => Ok(IntegrationEvidenceStatus::ObjectUnknown),
                Err(error) => Err(error),
            };
            assert(compare_scoped_patches.ensures((), comparison) && status == revalidated_status(
                Reachability::NotAncestor,
                comparison,
                *trunk_oid,
                prior_integration_status,
            ));
            status
        },
        Ok(Reachability::ObjectUnknown) => Ok(IntegrationEvidenceStatus::ObjectUnknown),
    }
}

/// The outstanding status once git has answered: ordinary revalidation against the current
/// trunk, with a plain non-integration refined by the previous trunk's ancestry.
pub open spec fn refined_outstanding_status<GitError>(
    ordinary: Result<IntegrationEvidenceStatus, GitError>,
    previous_trunk_reachability: Result<Reachability, GitError>,
) -> Result<IntegrationEvidenceStatus, GitError> {
    match ordinary {
        Ok(IntegrationEvidenceStatus::NotIntegrated) => match previous_trunk_reachability {
            Ok(reachability) => Ok(previous_trunk_status(reachability)),
            Err(error) => Err(error),
        },
        _ => ordinary,
    }
}

/// Revalidate an outstanding tip and distinguish trunk replacement from ordinary
/// non-integration.
///
/// The previous trunk's ancestry is asked for only when the current trunk plainly does not
/// contain the protected work.
pub fn outstanding_integration_status<
    GitError,
    Compare: FnOnce() -> Result<ScopedPatchComparison, GitError>,
    Previous: FnOnce() -> Result<Reachability, GitError>,
>(
    protected_tip_reachability: Result<Reachability, GitError>,
    compare_scoped_patches: Compare,
    previous_trunk_reachability: Previous,
    current_trunk_oid: &GitObjectId,
) -> (status: Result<IntegrationEvidenceStatus, GitError>)
    requires
        protected_tip_reachability matches Ok(Reachability::NotAncestor)
            ==> compare_scoped_patches.requires(()),
        previous_trunk_reachability.requires(()),
    ensures
        match protected_tip_reachability {
            Err(error) => status == Err::<IntegrationEvidenceStatus, GitError>(error),
            Ok(reachability) => exists|
                comparison: Result<ScopedPatchComparison, GitError>,
                previous: Result<Reachability, GitError>,
            |
                (reachability is NotAncestor ==> compare_scoped_patches.ensures((), comparison))
                    && (revalidated_status(
                    reachability,
                    comparison,
                    *current_trunk_oid,
                    PriorIntegrationStatus::Unproven,
                ) == Ok::<IntegrationEvidenceStatus, GitError>(
                    IntegrationEvidenceStatus::NotIntegrated,
                ) ==> previous_trunk_reachability.ensures((), previous)) && status
                    == refined_outstanding_status(
                    revalidated_status(
                        reachability,
                        comparison,
                        *current_trunk_oid,
                        PriorIntegrationStatus::Unproven,
                    ),
                    previous,
                ),
        },
{
    let is_error = protected_tip_reachability.is_err();
    let ghost tip = protected_tip_reachability;
    let ordinary = integration_status(
        protected_tip_reachability,
        compare_scoped_patches,
        current_trunk_oid,
        PriorIntegrationStatus::Unproven,
    );
    if is_error {
        return ordinary;
    }
    let ghost comparison: Result<ScopedPatchComparison, GitError> = if tip matches Ok(
        Reachability::NotAncestor,
    ) {
        choose|comparison: Result<ScopedPatchComparison, GitError>|
            compare_scoped_patches.ensures((), comparison) && ordinary == revalidated_status(
                Reachability::NotAncestor,
                comparison,
                *current_trunk_oid,
                PriorIntegrationStatus::Unproven,
            )
    } else {
        Err(arbitrary())
    };
    match ordinary {
        Ok(IntegrationEvidenceStatus::NotIntegrated) => {
            let previous = previous_trunk_reachability();
            let status = match previous {
                Ok(Reachability::Ancestor) => Ok(IntegrationEvidenceStatus::NotIntegrated),
                Ok(Reachability::NotAncestor) => Ok(IntegrationEvidenceStatus::TrunkRewritten),
                Ok(Reachability::ObjectUnknown) => Ok(IntegrationEvidenceStatus::ObjectUnknown),
                Err(error) => Err(error),
            };
            assert(status == refined_outstanding_status(
                revalidated_status(
                    tip->Ok_0,
                    comparison,
                    *current_trunk_oid,
                    PriorIntegrationStatus::Unproven,
                ),
                previous,
            ));
            status
        },
        _ => {
            assert(ordinary == refined_outstanding_status(
                revalidated_status(
                    tip->Ok_0,
                    comparison,
                    *current_trunk_oid,
                    PriorIntegrationStatus::Unproven,
                ),
                Err::<Reachability, GitError>(arbitrary()),
            ));
            ordinary
        },
    }
}

/// When the protected tip is in trunk's history, that ancestry alone settles the evidence as
/// integrated at the evaluated trunk, whatever a scoped comparison would have said.
pub proof fn tip_ancestry_settles_integration(
    trunk_oid: GitObjectId,
    prior: PriorIntegrationStatus,
    comparison: ScopedPatchComparisonObservation,
    previous_trunk_reachability: Reachability,
)
    ensures
        observed_integration(Reachability::Ancestor, trunk_oid, prior, comparison)
            == IntegrationEvidenceObservation::Reachability(tip_ancestry_status(trunk_oid)),
        observed_outstanding_integration(
            Reachability::Ancestor,
            previous_trunk_reachability,
            trunk_oid,
            comparison,
        ) == IntegrationEvidenceObservation::Reachability(tip_ancestry_status(trunk_oid)),
{
}

/// A comparison the budget deferred judges nothing: the observation says so and carries no
/// status, so the materialized status stands.
pub proof fn deferred_comparison_judges_nothing(
    trunk_oid: GitObjectId,
    prior: PriorIntegrationStatus,
    previous_trunk_reachability: Reachability,
)
    ensures
        observed_integration(
            Reachability::NotAncestor,
            trunk_oid,
            prior,
            ScopedPatchComparisonObservation::Deferred,
        ) == IntegrationEvidenceObservation::ScopedPatchComparisonDeferred,
        observed_outstanding_integration(
            Reachability::NotAncestor,
            previous_trunk_reachability,
            trunk_oid,
            ScopedPatchComparisonObservation::Deferred,
        ) == IntegrationEvidenceObservation::ScopedPatchComparisonDeferred,
{
}

/// The outstanding observation differs from the ordinary one only by refining a compared
/// non-integration: it never invents integration, and whenever it reports integrated evidence
/// the ordinary observation reports the same.
pub proof fn outstanding_refinement_never_invents_integration(
    protected_tip_reachability: Reachability,
    previous_trunk_reachability: Reachability,
    trunk_oid: GitObjectId,
    comparison: ScopedPatchComparisonObservation,
)
    ensures
        ({
            let ordinary = observed_integration(
                protected_tip_reachability,
                trunk_oid,
                PriorIntegrationStatus::Unproven,
                comparison,
            );
            let outstanding = observed_outstanding_integration(
                protected_tip_reachability,
                previous_trunk_reachability,
                trunk_oid,
                comparison,
            );
            &&& (ordinary matches IntegrationEvidenceObservation::ScopedPatchComparison {
                status: IntegrationEvidenceStatus::NotIntegrated,
                ..
            }) || outstanding == ordinary
            &&& outstanding matches IntegrationEvidenceObservation::ScopedPatchComparison {
                status: IntegrationEvidenceStatus::Integrated { .. },
                ..
            } ==> outstanding == ordinary
        }),
{
}

/// Once integration was proven, a scoped comparison can no longer report plain
/// non-integration: a negative answer means trunk was rewritten.
pub proof fn proven_evidence_is_never_plainly_unintegrated(
    evaluation: ScopedPatchIntegrationEvaluation,
    trunk_oid: GitObjectId,
)
    ensures
        scoped_evaluation_status(evaluation, trunk_oid, PriorIntegrationStatus::Proven)
            != IntegrationEvidenceStatus::NotIntegrated,
{
}

/// When the protected tip is not in trunk's history, the scoped comparison decides: an
/// equivalent phase is integrated at the evaluated trunk under its witness, an unavailable
/// comparison leaves the objects unknown, and a definitive difference is plain
/// non-integration for work never proven and a rewritten trunk for work once proven; an
/// unresolvable protected tip is unknown whatever the comparison said.
pub proof fn the_scoped_comparison_decides_unreached_tips(
    trunk_oid: GitObjectId,
    witness: IntegrationWitness,
    prior: PriorIntegrationStatus,
    comparison: ScopedPatchComparisonObservation,
)
    ensures
        observed_integration(
            Reachability::NotAncestor,
            trunk_oid,
            prior,
            ScopedPatchComparisonObservation::Observed(ScopedPatchIntegrationEvaluation::Equivalent(witness)),
        ) matches IntegrationEvidenceObservation::ScopedPatchComparison { status, .. } && status
            == (IntegrationEvidenceStatus::Integrated {
            trunk_oid,
            proof: IntegrationProof::ScopedPatchEquivalent,
            witness,
        }),
        observed_integration(
            Reachability::NotAncestor,
            trunk_oid,
            prior,
            ScopedPatchComparisonObservation::Observed(ScopedPatchIntegrationEvaluation::Unavailable),
        ) matches IntegrationEvidenceObservation::ScopedPatchComparison { status, .. } && status
            == IntegrationEvidenceStatus::ObjectUnknown,
        observed_integration(
            Reachability::NotAncestor,
            trunk_oid,
            PriorIntegrationStatus::Unproven,
            ScopedPatchComparisonObservation::Observed(ScopedPatchIntegrationEvaluation::Different),
        ) matches IntegrationEvidenceObservation::ScopedPatchComparison { status, .. } && status
            == IntegrationEvidenceStatus::NotIntegrated,
        observed_integration(
            Reachability::NotAncestor,
            trunk_oid,
            PriorIntegrationStatus::Proven,
            ScopedPatchComparisonObservation::Observed(ScopedPatchIntegrationEvaluation::Different),
        ) matches IntegrationEvidenceObservation::ScopedPatchComparison { status, .. } && status
            == IntegrationEvidenceStatus::TrunkRewritten,
        observed_integration(Reachability::ObjectUnknown, trunk_oid, prior, comparison)
            == IntegrationEvidenceObservation::Reachability(IntegrationEvidenceStatus::ObjectUnknown),
{
}

/// For outstanding work, a definitive difference is told apart by the previous trunk: still
/// in current trunk's history it is plain non-integration, gone from it the trunk was
/// rewritten, and unresolvable it is unknown.
pub proof fn the_previous_trunk_separates_rewrites(trunk_oid: GitObjectId)
    ensures
        observed_outstanding_integration(
            Reachability::NotAncestor,
            Reachability::Ancestor,
            trunk_oid,
            ScopedPatchComparisonObservation::Observed(ScopedPatchIntegrationEvaluation::Different),
        ) matches IntegrationEvidenceObservation::ScopedPatchComparison { status, .. } && status
            == IntegrationEvidenceStatus::NotIntegrated,
        observed_outstanding_integration(
            Reachability::NotAncestor,
            Reachability::NotAncestor,
            trunk_oid,
            ScopedPatchComparisonObservation::Observed(ScopedPatchIntegrationEvaluation::Different),
        ) matches IntegrationEvidenceObservation::ScopedPatchComparison { status, .. } && status
            == IntegrationEvidenceStatus::TrunkRewritten,
        observed_outstanding_integration(
            Reachability::NotAncestor,
            Reachability::ObjectUnknown,
            trunk_oid,
            ScopedPatchComparisonObservation::Observed(ScopedPatchIntegrationEvaluation::Different),
        ) matches IntegrationEvidenceObservation::ScopedPatchComparison { status, .. } && status
            == IntegrationEvidenceStatus::ObjectUnknown,
{
}

} // verus!
