//! Settlement: when outstanding work has provably reached the actual trunk.
use vstd::prelude::*;

use crate::ids::same_text;
use crate::ids::GitObjectId;
use crate::reservation::lifecycle::IntegrationEvidenceStatus;
use crate::reservation::lifecycle::IntegrationProof;
use crate::reservation::lifecycle::IntegrationWitness;
use crate::reservation::lifecycle::ReleaseDisposition;
use crate::reservation::lifecycle::ReservationLifecycle;
use crate::reservation::merge_extent::standing_evidence;
use crate::reservation::merge_extent::MergeExtent;
use crate::reservation::merge_extent::RetainedMergeEvidence;
use crate::reservation::record::Reservation;
use crate::ids::ReservationScopePath;

verus! {

/// The tip a judged target resolved to, or why it did not resolve.
#[derive(Debug, PartialEq, Eq)]
pub enum JudgedTargetTip {
    /// The target branch points at this commit.
    Resolved(GitObjectId),
    /// Git could not resolve the target branch.
    ObjectUnknown,
}

/// Whether a reservation settles now, and under which disposition.
#[derive(Debug, PartialEq, Eq)]
pub enum SettlementSelection {
    /// The lifecycle, target, or remaining branch work prevents settlement.
    Unchanged,
    /// The complete protected work reached the actual trunk under this disposition.
    Release(ReleaseDisposition),
}

/// The settlement a reservation is owed: outstanding work with no unproven branch work left,
/// whose integration proof names exactly the actual trunk, is released as integrated when the
/// tip itself is in trunk and as rewritten integration at its witness otherwise.
pub open spec fn settlement(
    lifecycle: ReservationLifecycle,
    evidence: IntegrationEvidenceStatus,
    actual_trunk: JudgedTargetTip,
    has_unproven_merge_work: bool,
) -> SettlementSelection {
    if !(lifecycle is Outstanding) || has_unproven_merge_work {
        SettlementSelection::Unchanged
    } else {
        match (evidence, actual_trunk) {
            (
                IntegrationEvidenceStatus::Integrated { trunk_oid, proof, witness },
                JudgedTargetTip::Resolved(actual),
            ) => if trunk_oid@ != actual@ {
                SettlementSelection::Unchanged
            } else if proof == IntegrationProof::ProtectedTipAncestor {
                SettlementSelection::Release(ReleaseDisposition::Integrated)
            } else {
                SettlementSelection::Release(
                    ReleaseDisposition::RewrittenIntegration(witness.resolved(trunk_oid)),
                )
            },
            _ => SettlementSelection::Unchanged,
        }
    }
}

/// The committed paths one observation pass read for a holder's branch, apart from its
/// dirty paths.
#[derive(Debug, PartialEq, Eq)]
pub enum CommittedMergeEvidence {
    /// No current committed-path observation can support settlement of a protected extent.
    Unavailable,
    /// The merge-base query produced these committed paths before dirty paths were added.
    Observed(Vec<ReservationScopePath>),
}

/// Whether the holder's branch still carries work that settlement cannot prove: committed
/// paths the branch has not merged, when they were observed; otherwise a retained answer that
/// protects paths the branch itself established.
pub open spec fn unproven_merge_work(extent: MergeExtent, committed_paths: CommittedMergeEvidence) -> bool {
    match committed_paths {
        CommittedMergeEvidence::Observed(paths) => paths@.len() > 0,
        CommittedMergeEvidence::Unavailable => standing_evidence(extent) is Protected,
    }
}

/// Whether the holder's branch still carries work that settlement cannot prove.
///
/// With observed committed paths, any unmerged committed path is unproven work. Without them
/// only the extent's standing answer speaks: an observed protected surface, kept directly or
/// through a failure, is unproven; an empty answer or a mere declaration is not.
pub fn has_unproven_merge_work(extent: &MergeExtent, committed_paths: &CommittedMergeEvidence) -> (unproven: bool)
    ensures
        unproven == unproven_merge_work(*extent, *committed_paths),
{
    match committed_paths {
        CommittedMergeEvidence::Observed(paths) => paths.len() > 0,
        CommittedMergeEvidence::Unavailable => match extent {
            MergeExtent::Protected { .. } => true,
            MergeExtent::Unavailable { retained_evidence: RetainedMergeEvidence::Protected { .. }, .. } => true,
            _ => false,
        },
    }
}

/// Select from state so a previously appended proof can finish settlement after a restart.
///
/// Whether the holder's branch still carries unproven work is derived from `merge_extent`
/// and the committed-path evidence of the current pass, as `has_unproven_merge_work` does.
pub fn settlement_selection(
    reservation: &Reservation,
    evidence: &IntegrationEvidenceStatus,
    actual_trunk: &JudgedTargetTip,
    merge_extent: &MergeExtent,
    committed_paths: &CommittedMergeEvidence,
) -> (selection: SettlementSelection)
    ensures
        selection == settlement(
            reservation.lifecycle,
            *evidence,
            *actual_trunk,
            unproven_merge_work(*merge_extent, *committed_paths),
        ),
{
    match reservation.lifecycle {
        ReservationLifecycle::Outstanding { .. } => {},
        _ => {
            return SettlementSelection::Unchanged;
        },
    }
    if has_unproven_merge_work(merge_extent, committed_paths) {
        return SettlementSelection::Unchanged;
    }
    match (evidence, actual_trunk) {
        (
            IntegrationEvidenceStatus::Integrated { trunk_oid, proof: integration_proof, witness },
            JudgedTargetTip::Resolved(actual),
        ) => {
            if !same_text(trunk_oid, actual) {
                return SettlementSelection::Unchanged;
            }
            match integration_proof {
                IntegrationProof::ProtectedTipAncestor => SettlementSelection::Release(
                    ReleaseDisposition::Integrated,
                ),
                _ => SettlementSelection::Release(
                    ReleaseDisposition::RewrittenIntegration(witness.resolve(trunk_oid)),
                ),
            }
        },
        _ => SettlementSelection::Unchanged,
    }
}

/// Settlement only ever records git evidence: it never abandons or retires work, and it
/// releases only outstanding work whose proof names the actual trunk.
pub proof fn settlement_releases_only_proven_outstanding_work(
    lifecycle: ReservationLifecycle,
    evidence: IntegrationEvidenceStatus,
    actual_trunk: JudgedTargetTip,
    has_unproven_merge_work: bool,
)
    ensures
        settlement(lifecycle, evidence, actual_trunk, has_unproven_merge_work) matches SettlementSelection::Release(
            disposition,
        ) ==> {
            &&& lifecycle is Outstanding
            &&& !has_unproven_merge_work
            &&& evidence is Integrated
            &&& actual_trunk matches JudgedTargetTip::Resolved(actual) && actual@
                == evidence->trunk_oid@
            &&& (disposition is Integrated || disposition is RewrittenIntegration)
        },
{
}

/// Proven outstanding work settles at the actual trunk: an outstanding reservation with no
/// unproven branch work, whose evidence proves integration at exactly the trunk the target
/// resolved to, is released as integrated when the tip itself is in trunk and as rewritten
/// integration at its resolved witness otherwise; a proof naming another trunk, or a target
/// that did not resolve, leaves it unchanged.
pub proof fn proven_outstanding_work_settles_at_the_actual_trunk(
    lifecycle: ReservationLifecycle,
    trunk_oid: GitObjectId,
    proof: IntegrationProof,
    witness: IntegrationWitness,
    actual: GitObjectId,
)
    requires
        lifecycle is Outstanding,
    ensures
        trunk_oid@ == actual@ && proof == IntegrationProof::ProtectedTipAncestor ==> settlement(
            lifecycle,
            IntegrationEvidenceStatus::Integrated { trunk_oid, proof, witness },
            JudgedTargetTip::Resolved(actual),
            false,
        ) == SettlementSelection::Release(ReleaseDisposition::Integrated),
        trunk_oid@ == actual@ && proof != IntegrationProof::ProtectedTipAncestor ==> settlement(
            lifecycle,
            IntegrationEvidenceStatus::Integrated { trunk_oid, proof, witness },
            JudgedTargetTip::Resolved(actual),
            false,
        ) == SettlementSelection::Release(ReleaseDisposition::RewrittenIntegration(witness.resolved(trunk_oid))),
        trunk_oid@ != actual@ ==> settlement(
            lifecycle,
            IntegrationEvidenceStatus::Integrated { trunk_oid, proof, witness },
            JudgedTargetTip::Resolved(actual),
            false,
        ) == SettlementSelection::Unchanged,
        settlement(
            lifecycle,
            IntegrationEvidenceStatus::Integrated { trunk_oid, proof, witness },
            JudgedTargetTip::ObjectUnknown,
            false,
        ) == SettlementSelection::Unchanged,
        settlement(
            lifecycle,
            IntegrationEvidenceStatus::Integrated { trunk_oid, proof, witness },
            JudgedTargetTip::Resolved(actual),
            true,
        ) == SettlementSelection::Unchanged,
{
}

/// Unproven branch work: observed unmerged committed paths always are, an empty observation
/// never is; without an observation only a protected surface the branch itself established,
/// kept directly or through a failure, is.
pub proof fn unproven_work_follows_committed_paths(
    extent: MergeExtent,
    paths: Vec<ReservationScopePath>,
)
    ensures
        unproven_merge_work(extent, CommittedMergeEvidence::Observed(paths)) <==> paths@.len() > 0,
        extent is Protected ==> unproven_merge_work(extent, CommittedMergeEvidence::Unavailable),
        extent is Empty || extent is NotDerived ==> !unproven_merge_work(extent, CommittedMergeEvidence::Unavailable),
        extent matches MergeExtent::Unavailable { retained_evidence, .. } ==> (unproven_merge_work(
            extent,
            CommittedMergeEvidence::Unavailable,
        ) <==> retained_evidence is Protected),
{
}

} // verus!
