//! Scoped integration evidence: historical witnesses, durable verdicts and proofs that stand.
use vstd::prelude::*;

use crate::ids::GitObjectId;
use crate::reconcile::reachability::TargetIntegrationReachability;
use crate::reservation::evidence::evaluation_of_comparison;
use crate::reservation::evidence::ScopedPatchComparison;
use crate::reservation::evidence::ScopedPatchIntegrationEvaluation;
use crate::reservation::lifecycle::IntegrationEvidenceStatus;
use crate::reservation::lifecycle::IntegrationProof;
use crate::reservation::lifecycle::IntegrationWitness;
use crate::reservation::lifecycle::Reachability;
use crate::reservation::lifecycle::RewrittenIntegrationTrunkCommit;

verus! {

/// What the search for an earlier trunk commit carrying the protected work found.
#[derive(Debug, PartialEq, Eq)]
pub enum HistoricalIntegrationCandidateDiscovery {
    /// This earlier trunk commit may carry the protected work.
    Nominated(GitObjectId),
    /// No earlier trunk commit carries the protected paths' changes.
    NoMatch,
    /// The search could not be completed.
    Unavailable,
}

/// The evaluation a discovery and the comparisons it led to amount to: a certified candidate
/// is the witness; otherwise current trunk decides, except that a negative stays retryable
/// while the historical search could not be completed.
pub open spec fn historical_then_current(
    discovery: HistoricalIntegrationCandidateDiscovery,
    candidate_comparison: ScopedPatchComparison,
    trunk_comparison: ScopedPatchComparison,
) -> ScopedPatchIntegrationEvaluation {
    let historical_unavailable = match discovery {
        HistoricalIntegrationCandidateDiscovery::Nominated(_) => candidate_comparison
            == ScopedPatchComparison::Unavailable,
        HistoricalIntegrationCandidateDiscovery::NoMatch => false,
        HistoricalIntegrationCandidateDiscovery::Unavailable => true,
    };
    if certified(discovery, candidate_comparison) {
        ScopedPatchIntegrationEvaluation::Equivalent(
            IntegrationWitness::Historical(RewrittenIntegrationTrunkCommit(discovery->0)),
        )
    } else if trunk_comparison == ScopedPatchComparison::Different && historical_unavailable {
        ScopedPatchIntegrationEvaluation::HistoricalEvidenceUnavailable
    } else {
        evaluation_of_comparison(trunk_comparison)
    }
}

/// Whether the nominated candidate itself was certified.
pub open spec fn certified(
    discovery: HistoricalIntegrationCandidateDiscovery,
    candidate_comparison: ScopedPatchComparison,
) -> bool {
    discovery is Nominated && candidate_comparison == ScopedPatchComparison::Equivalent
}

/// Certify a nominated historical witness before falling back to current trunk replay.
///
/// Discovery runs first; a nominated candidate is compared next, and current trunk is compared
/// only when the candidate was not certified.
pub fn evaluate_historical_then_current_trunk<
    Discover: FnOnce() -> HistoricalIntegrationCandidateDiscovery,
    Compare: Fn(&GitObjectId) -> ScopedPatchComparison,
>(target: &GitObjectId, discover: Discover, compare: Compare) -> (evaluation:
    ScopedPatchIntegrationEvaluation)
    requires
        call_requires(discover, ()),
        forall|commit: &GitObjectId| call_requires(compare, (commit,)),
    ensures
        exists|
            discovery: HistoricalIntegrationCandidateDiscovery,
            candidate_comparison: ScopedPatchComparison,
            trunk_comparison: ScopedPatchComparison,
        |
            #![trigger historical_then_current(discovery, candidate_comparison, trunk_comparison)]
            {
                &&& call_ensures(discover, (), discovery)
                &&& discovery matches HistoricalIntegrationCandidateDiscovery::Nominated(candidate)
                    ==> call_ensures(compare, (&candidate,), candidate_comparison)
                &&& certified(discovery, candidate_comparison) || call_ensures(
                    compare,
                    (target,),
                    trunk_comparison,
                )
                &&& evaluation == historical_then_current(
                    discovery,
                    candidate_comparison,
                    trunk_comparison,
                )
            },
{
    let discovery = discover();
    let ghost observed_discovery = discovery;
    let mut candidate_comparison = ScopedPatchComparison::Different;
    let historical_unavailable = match discovery {
        HistoricalIntegrationCandidateDiscovery::Nominated(candidate) => {
            candidate_comparison = compare(&candidate);
            match candidate_comparison {
                ScopedPatchComparison::Equivalent => {
                    let evaluation = ScopedPatchIntegrationEvaluation::Equivalent(
                        IntegrationWitness::Historical(RewrittenIntegrationTrunkCommit(candidate)),
                    );
                    assert(evaluation == historical_then_current(
                        observed_discovery,
                        candidate_comparison,
                        ScopedPatchComparison::Different,
                    ));
                    return evaluation;
                },
                ScopedPatchComparison::Different => false,
                ScopedPatchComparison::Unavailable => true,
            }
        },
        HistoricalIntegrationCandidateDiscovery::NoMatch => false,
        HistoricalIntegrationCandidateDiscovery::Unavailable => true,
    };
    let trunk_comparison = compare(target);
    let evaluation = match trunk_comparison {
        ScopedPatchComparison::Different => {
            if historical_unavailable {
                ScopedPatchIntegrationEvaluation::HistoricalEvidenceUnavailable
            } else {
                ScopedPatchIntegrationEvaluation::Different
            }
        },
        comparison => ScopedPatchIntegrationEvaluation::from(comparison),
    };
    assert(evaluation == historical_then_current(
        observed_discovery,
        candidate_comparison,
        trunk_comparison,
    ));
    evaluation
}

/// The revision of the inputs an integration proof rests on: phase start, protected tip and
/// scopes. It advances whenever any of them changes.
#[derive(Clone, Copy, Debug, PartialEq, Eq, Structural)]
pub struct IntegrationProofSubjectRevision(pub u64);

/// A definitive scoped comparison verdict retained in the journal.
#[derive(Clone, Copy, Debug, PartialEq, Eq, Structural)]
pub enum ScopedPatchEquivalenceVerdict {
    /// The protected work is in the target.
    Integrated,
    /// The target dropped work an earlier trunk carried.
    TrunkRewritten,
    /// The protected work is not in the target.
    NotIntegrated,
}

/// A retained comparison answer for one subject and target.
#[derive(Clone, Copy, Debug, PartialEq, Eq, Structural)]
pub enum DurableScopedPatchComparison {
    /// The protected scoped patches are present in the target.
    Equivalent,
    /// The target does not carry them.
    Different,
}

/// What a comparison this pass ran leaves for the journal.
#[derive(Debug, PartialEq, Eq)]
pub enum ScopedPatchComparisonJournalUpdate {
    /// No new definitive verdict needs a journal record.
    Unchanged,
    /// A comparison ran but produced no durable verdict to retain.
    Attempted {
        /// The proof subject compared.
        subject: IntegrationProofSubjectRevision,
        /// The target compared against.
        target: GitObjectId,
    },
    /// No retained verdict existed, and the comparison produced a definitive result.
    Checked {
        /// The proof subject compared.
        subject: IntegrationProofSubjectRevision,
        /// The target compared against.
        target: GitObjectId,
        /// The definitive verdict.
        verdict: ScopedPatchEquivalenceVerdict,
        /// The commit witnessing integration.
        witness: IntegrationWitness,
    },
}

/// The journal record a scoped comparison calls for: a retryable or unanswered comparison is
/// only an attempt, a definitive answer is a checked verdict, and an ancestry proof needs none.
pub open spec fn journal_update_for(
    subject: IntegrationProofSubjectRevision,
    target: GitObjectId,
    status: IntegrationEvidenceStatus,
    evaluation: ScopedPatchIntegrationEvaluation,
) -> ScopedPatchComparisonJournalUpdate {
    if evaluation is HistoricalEvidenceUnavailable {
        ScopedPatchComparisonJournalUpdate::Attempted { subject, target }
    } else {
        match status {
            IntegrationEvidenceStatus::Integrated { proof, witness, .. } => {
                if proof == IntegrationProof::ScopedPatchEquivalent {
                    ScopedPatchComparisonJournalUpdate::Checked {
                        subject,
                        target,
                        verdict: ScopedPatchEquivalenceVerdict::Integrated,
                        witness,
                    }
                } else {
                    ScopedPatchComparisonJournalUpdate::Unchanged
                }
            },
            IntegrationEvidenceStatus::TrunkRewritten => ScopedPatchComparisonJournalUpdate::Checked {
                subject,
                target,
                verdict: ScopedPatchEquivalenceVerdict::TrunkRewritten,
                witness: IntegrationWitness::EvaluatedTrunk,
            },
            IntegrationEvidenceStatus::NotIntegrated => ScopedPatchComparisonJournalUpdate::Checked {
                subject,
                target,
                verdict: ScopedPatchEquivalenceVerdict::NotIntegrated,
                witness: IntegrationWitness::EvaluatedTrunk,
            },
            IntegrationEvidenceStatus::ObjectUnknown => ScopedPatchComparisonJournalUpdate::Attempted {
                subject,
                target,
            },
        }
    }
}

/// Decide what a scoped comparison leaves for the journal.
pub fn scoped_patch_journal_update(
    subject: IntegrationProofSubjectRevision,
    target: &GitObjectId,
    status: &IntegrationEvidenceStatus,
    evaluation: &ScopedPatchIntegrationEvaluation,
) -> (update: ScopedPatchComparisonJournalUpdate)
    ensures
        update == journal_update_for(subject, *target, *status, *evaluation),
{
    if let ScopedPatchIntegrationEvaluation::HistoricalEvidenceUnavailable = evaluation {
        return ScopedPatchComparisonJournalUpdate::Attempted { subject, target: target.clone() };
    }
    match status {
        IntegrationEvidenceStatus::Integrated { proof: integration_proof, witness, .. } => {
            if let IntegrationProof::ScopedPatchEquivalent = integration_proof {
                ScopedPatchComparisonJournalUpdate::Checked {
                    subject,
                    target: target.clone(),
                    verdict: ScopedPatchEquivalenceVerdict::Integrated,
                    witness: witness.clone(),
                }
            } else {
                ScopedPatchComparisonJournalUpdate::Unchanged
            }
        },
        IntegrationEvidenceStatus::TrunkRewritten => ScopedPatchComparisonJournalUpdate::Checked {
            subject,
            target: target.clone(),
            verdict: ScopedPatchEquivalenceVerdict::TrunkRewritten,
            witness: IntegrationWitness::EvaluatedTrunk,
        },
        IntegrationEvidenceStatus::NotIntegrated => ScopedPatchComparisonJournalUpdate::Checked {
            subject,
            target: target.clone(),
            verdict: ScopedPatchEquivalenceVerdict::NotIntegrated,
            witness: IntegrationWitness::EvaluatedTrunk,
        },
        IntegrationEvidenceStatus::ObjectUnknown => ScopedPatchComparisonJournalUpdate::Attempted {
            subject,
            target: target.clone(),
        },
    }
}

/// The trunk commit an affirmative proof names, whose ancestry decides whether the proof stands.
pub open spec fn proving_trunk_of(materialized: IntegrationEvidenceStatus) -> Option<GitObjectId> {
    match materialized {
        IntegrationEvidenceStatus::Integrated { trunk_oid, .. } => Some(trunk_oid),
        _ => None,
    }
}

/// Borrow the trunk commit an affirmative proof names.
pub fn proving_trunk(materialized: &IntegrationEvidenceStatus) -> (trunk: Option<&GitObjectId>)
    ensures
        match trunk {
            Some(trunk) => proving_trunk_of(*materialized) == Some(*trunk),
            None => proving_trunk_of(*materialized) is None,
        },
{
    match materialized {
        IntegrationEvidenceStatus::Integrated { trunk_oid, .. } => Some(trunk_oid),
        _ => None,
    }
}

/// The status no proof supports: ordinary non-integration while the trunk this reservation was
/// last measured against is still in trunk's history, a rewritten trunk when it left it.
pub open spec fn unproven_status(previous_trunk_reachability: Reachability) -> IntegrationEvidenceStatus {
    match previous_trunk_reachability {
        Reachability::Ancestor => IntegrationEvidenceStatus::NotIntegrated,
        Reachability::NotAncestor => IntegrationEvidenceStatus::TrunkRewritten,
        Reachability::ObjectUnknown => IntegrationEvidenceStatus::ObjectUnknown,
    }
}

/// Separate work trunk never took from work a rewritten trunk dropped.
pub fn unproven_integration_status(
    previous_trunk: &GitObjectId,
    integration_reachability: &TargetIntegrationReachability,
) -> (status: IntegrationEvidenceStatus)
    ensures
        status == unproven_status(integration_reachability.reachability_of(previous_trunk@)),
{
    match integration_reachability.for_ancestor(previous_trunk) {
        Reachability::Ancestor => IntegrationEvidenceStatus::NotIntegrated,
        Reachability::NotAncestor => IntegrationEvidenceStatus::TrunkRewritten,
        Reachability::ObjectUnknown => IntegrationEvidenceStatus::ObjectUnknown,
    }
}

/// The status a retained verdict supports against the observed trunk.
pub open spec fn retained_verdict_status(
    comparison: DurableScopedPatchComparison,
    witness: IntegrationWitness,
    target: GitObjectId,
    previous_trunk_reachability: Reachability,
) -> IntegrationEvidenceStatus {
    match comparison {
        DurableScopedPatchComparison::Equivalent => IntegrationEvidenceStatus::Integrated {
            trunk_oid: target,
            proof: IntegrationProof::ScopedPatchEquivalent,
            witness,
        },
        DurableScopedPatchComparison::Different => unproven_status(previous_trunk_reachability),
    }
}

/// Answer from a verdict the journal already retains for this subject and target.
pub fn integration_status_from_retained_scoped_patch_comparison(
    scoped_patch_comparison: DurableScopedPatchComparison,
    witness: IntegrationWitness,
    target: &GitObjectId,
    previous_trunk: &GitObjectId,
    integration_reachability: &TargetIntegrationReachability,
) -> (status: IntegrationEvidenceStatus)
    ensures
        status == retained_verdict_status(
            scoped_patch_comparison,
            witness,
            *target,
            integration_reachability.reachability_of(previous_trunk@),
        ),
{
    match scoped_patch_comparison {
        DurableScopedPatchComparison::Equivalent => IntegrationEvidenceStatus::Integrated {
            trunk_oid: target.clone(),
            proof: IntegrationProof::ScopedPatchEquivalent,
            witness,
        },
        DurableScopedPatchComparison::Different => unproven_integration_status(
            previous_trunk,
            integration_reachability,
        ),
    }
}

/// What a pass that admitted no comparison reports: a status naming no proving trunk is
/// repeated verbatim, and an affirmative proof gives way to what ancestry alone supports.
pub open spec fn deferred_status(
    materialized: IntegrationEvidenceStatus,
    previous_trunk_reachability: Reachability,
) -> IntegrationEvidenceStatus {
    if proving_trunk_of(materialized) is None {
        materialized
    } else {
        unproven_status(previous_trunk_reachability)
    }
}

/// Report what a pass that admitted no comparison may say.
pub fn deferred_integration_status(
    materialized: IntegrationEvidenceStatus,
    previous_trunk: &GitObjectId,
    integration_reachability: &TargetIntegrationReachability,
) -> (status: IntegrationEvidenceStatus)
    ensures
        status == deferred_status(
            materialized,
            integration_reachability.reachability_of(previous_trunk@),
        ),
{
    if proving_trunk(&materialized).is_none() {
        return materialized;
    }
    unproven_integration_status(previous_trunk, integration_reachability)
}

/// The proof a standing affirmative status carries onto the observed trunk: the same proof and
/// witness, unless the observed trunk now contains the protected tip itself.
pub open spec fn reanchored(
    materialized: IntegrationEvidenceStatus,
    observed_trunk: GitObjectId,
    protected_tip_reachability: Reachability,
) -> IntegrationEvidenceStatus {
    match materialized {
        IntegrationEvidenceStatus::Integrated { proof, witness, .. } => {
            if protected_tip_reachability == Reachability::Ancestor {
                IntegrationEvidenceStatus::Integrated {
                    trunk_oid: observed_trunk,
                    proof: IntegrationProof::ProtectedTipAncestor,
                    witness: IntegrationWitness::EvaluatedTrunk,
                }
            } else {
                IntegrationEvidenceStatus::Integrated { trunk_oid: observed_trunk, proof, witness }
            }
        },
        _ => materialized,
    }
}

/// Carry a proof that still stands forward onto the trunk this pass observed.
pub fn reanchored_proof(
    materialized: IntegrationEvidenceStatus,
    observed_trunk: &GitObjectId,
    protected_tip_reachability: Reachability,
) -> (status: IntegrationEvidenceStatus)
    ensures
        status == reanchored(materialized, *observed_trunk, protected_tip_reachability),
{
    match materialized {
        IntegrationEvidenceStatus::Integrated { proof, witness, .. } => {
            let (proof, witness) = match protected_tip_reachability {
                Reachability::Ancestor => (
                    IntegrationProof::ProtectedTipAncestor,
                    IntegrationWitness::EvaluatedTrunk,
                ),
                _ => (proof, witness),
            };
            IntegrationEvidenceStatus::Integrated { trunk_oid: observed_trunk.clone(), proof, witness }
        },
        _ => materialized,
    }
}

/// Whether an affirmative proof on file still stands against the observed trunk.
#[derive(Debug, PartialEq, Eq)]
pub enum IntegrationProofStanding {
    /// The trunk that proved integration is still in the observed trunk's history.
    Holds,
    /// No proof covers the observed trunk, so evidence is derived against `previous_trunk`.
    Derive {
        /// The trunk the derivation measures from.
        previous_trunk: GitObjectId,
    },
    /// Git could not classify the trunk commit the proof names.
    ProvingTrunkUnknown,
}

/// Whether a proof stands, given the materialized status, the trunk last snapshotted, and the
/// proving trunk's classification.
pub open spec fn proof_standing(
    materialized: IntegrationEvidenceStatus,
    trunk_snapshot: GitObjectId,
    proving_trunk_reachability: Reachability,
) -> IntegrationProofStanding {
    match proving_trunk_of(materialized) {
        None => IntegrationProofStanding::Derive { previous_trunk: trunk_snapshot },
        Some(trunk_oid) => match proving_trunk_reachability {
            Reachability::Ancestor => IntegrationProofStanding::Holds,
            Reachability::NotAncestor => IntegrationProofStanding::Derive { previous_trunk: trunk_oid },
            Reachability::ObjectUnknown => IntegrationProofStanding::ProvingTrunkUnknown,
        },
    }
}

impl IntegrationProofStanding {
    /// Decide whether the proof on file stands: with no proof, derive from the last snapshot;
    /// with one, its proving trunk's ancestry decides, and a lost proving trunk becomes the
    /// baseline a new derivation measures from.
    pub fn observe(
        materialized: &IntegrationEvidenceStatus,
        trunk_snapshot: &GitObjectId,
        integration_reachability: &TargetIntegrationReachability,
    ) -> (standing: Self)
        ensures
            standing == proof_standing(
                *materialized,
                *trunk_snapshot,
                match proving_trunk_of(*materialized) {
                    Some(trunk_oid) => integration_reachability.reachability_of(trunk_oid@),
                    None => Reachability::ObjectUnknown,
                },
            ),
    {
        let trunk_oid = match proving_trunk(materialized) {
            Some(trunk_oid) => trunk_oid,
            None => {
                return IntegrationProofStanding::Derive { previous_trunk: trunk_snapshot.clone() };
            },
        };
        match integration_reachability.for_ancestor(trunk_oid) {
            Reachability::Ancestor => IntegrationProofStanding::Holds,
            Reachability::NotAncestor => IntegrationProofStanding::Derive {
                previous_trunk: trunk_oid.clone(),
            },
            Reachability::ObjectUnknown => IntegrationProofStanding::ProvingTrunkUnknown,
        }
    }
}

/// A pass that judged no content never invents a proof: a deferred status is integrated only
/// when the status on file already was, and then it is that very status.
pub proof fn deferral_never_invents_integration(
    materialized: IntegrationEvidenceStatus,
    previous_trunk_reachability: Reachability,
)
    ensures
        deferred_status(materialized, previous_trunk_reachability) is Integrated
            ==> deferred_status(materialized, previous_trunk_reachability) == materialized,
        !(materialized is Integrated) ==> deferred_status(materialized, previous_trunk_reachability)
            == materialized,
{
}

/// Re-anchoring keeps integration and only moves the trunk it is measured against.
pub proof fn reanchoring_keeps_integration(
    materialized: IntegrationEvidenceStatus,
    observed_trunk: GitObjectId,
    protected_tip_reachability: Reachability,
)
    ensures
        (reanchored(materialized, observed_trunk, protected_tip_reachability) is Integrated)
            == (materialized is Integrated),
        materialized is Integrated ==> proving_trunk_of(
            reanchored(materialized, observed_trunk, protected_tip_reachability),
        ) == Some(observed_trunk),
{
}

/// A durable negative verdict and a deferred affirmative proof fall back to the same answer:
/// what the previous trunk's ancestry supports.
pub proof fn negative_verdicts_and_lost_proofs_agree(
    witness: IntegrationWitness,
    target: GitObjectId,
    materialized: IntegrationEvidenceStatus,
    previous_trunk_reachability: Reachability,
)
    requires
        materialized is Integrated,
    ensures
        retained_verdict_status(
            DurableScopedPatchComparison::Different,
            witness,
            target,
            previous_trunk_reachability,
        ) == deferred_status(materialized, previous_trunk_reachability),
        !(deferred_status(materialized, previous_trunk_reachability) is Integrated),
{
}

/// Whether a pass's evidence replaces what is materialized for a reservation.
#[derive(Clone, Copy, Debug, PartialEq, Eq, Structural)]
pub enum EvidenceRevalidationObservation {
    /// Current git evidence or a retained durable verdict supplies the status.
    Apply,
    /// The bounded scoped comparison did not run, so materialized evidence was retained.
    PreserveMaterialized,
    /// The lifecycle has no git evidence subject to revalidate.
    NotApplicable,
}

/// One pass's integration status for a reservation, with what to do with it.
#[derive(Debug, PartialEq, Eq)]
pub struct IntegrationStatusObservation {
    /// The status this pass supports.
    pub status: IntegrationEvidenceStatus,
    /// Whether it replaces the materialized status.
    pub revalidation: EvidenceRevalidationObservation,
    /// What the journal must record of a comparison this pass ran.
    pub scoped_patch_comparison: ScopedPatchComparisonJournalUpdate,
}

impl IntegrationStatusObservation {
    /// Gather one pass's status, revalidation decision and journal update.
    pub fn new(
        status: IntegrationEvidenceStatus,
        revalidation: EvidenceRevalidationObservation,
        scoped_patch_comparison: ScopedPatchComparisonJournalUpdate,
    ) -> (observation: Self)
        ensures
            observation.status == status,
            observation.revalidation == revalidation,
            observation.scoped_patch_comparison == scoped_patch_comparison,
    {
        IntegrationStatusObservation { status, revalidation, scoped_patch_comparison }
    }
}

} // verus!
