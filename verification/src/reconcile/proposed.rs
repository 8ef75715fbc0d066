//! The repository observation a proposed branch update would make: the reservations it
//! judges take the evidence evaluated at the proposed tip, and every other reservation keeps
//! what the actual observation recorded.
use vstd::prelude::*;

use crate::ids::same_text;
use crate::ids::GitObjectId;
use crate::ids::ReservationId;
use crate::reconcile::cover::copy_targets;
use crate::reconcile::cover::judged_at_proposed;
use crate::reconcile::cover::judged_at_proposed_target;
use crate::reconcile::cover::judged_entry_is_retained;
use crate::reconcile::cover::judged_ids;
use crate::reconcile::cover::judged_reservation_is_listed;
use crate::reconcile::cover::reservations_judged_at_proposed_target;
use crate::reconcile::cover::RepositoryTargetFacts;
use crate::reconcile::cover::TargetObservation;
use crate::reconcile::evaluation::proving_trunk;
use crate::reconcile::evaluation::proving_trunk_of;
use crate::reconcile::reachability::TargetIntegrationReachability;
use crate::reconcile::settlement::JudgedTargetTip;
use crate::reservation::lifecycle::IntegrationEvidenceStatus;
use crate::reservation::lifecycle::Reachability;
use crate::reconcile::successor::RepositoryReservationEvidence;
use crate::reservation::record::IntegrationTarget;
use crate::reservation::record::Reservation;

verus! {

/// How a reservation's worktree stands in git's worktree registry.
#[derive(Clone, Copy, Debug, PartialEq, Eq, Structural)]
pub enum WorktreeLiveness {
    /// The worktree is registered and present.
    Live,
    /// The worktree is gone.
    Orphaned,
    /// git would prune the registration.
    OrphanCandidate,
    /// The registration could not be read now.
    Unavailable,
    /// The worktree's identity could not be established.
    Unknown,
}

/// One reservation as a repository observation recorded it.
#[derive(Debug, PartialEq, Eq)]
pub struct ReservationSnapshot {
    /// The reservation.
    pub reservation_id: ReservationId,
    /// How its worktree stands.
    pub worktree_liveness: WorktreeLiveness,
    /// Its worktree's head, when it resolved.
    pub worktree_head: Option<GitObjectId>,
    /// Its evidence.
    pub evidence: RepositoryReservationEvidence,
}

/// What a proposed branch update would observe.
pub struct ProposedTargetObservation<CrossTarget> {
    /// One snapshot per retained reservation: the judged ones first, then the others, each
    /// in retained order.
    pub snapshots: Vec<ReservationSnapshot>,
    /// The branch observations, with the proposed branch at the proposed tip.
    pub targets: Vec<(IntegrationTarget, TargetObservation)>,
    /// The reservations the update judges, in retained order.
    pub judged: Vec<ReservationId>,
    /// The cross-target predecessor evidence.
    pub cross_target_predecessors: CrossTarget,
}

/// The actual snapshot recorded for a reservation: its first entry.
pub open spec fn snapshot_of(snapshots: Seq<ReservationSnapshot>, reservation_id: Seq<char>) -> Option<ReservationSnapshot>
    decreases snapshots.len(),
{
    if snapshots.len() == 0 {
        None
    } else if snapshots[0].reservation_id@ == reservation_id {
        Some(snapshots[0])
    } else {
        snapshot_of(snapshots.drop_first(), reservation_id)
    }
}

/// The snapshot of a judged reservation: the actual worktree standing with new evidence.
pub open spec fn judged_snapshot(
    actual: Seq<ReservationSnapshot>,
    reservation_id: ReservationId,
    evidence: RepositoryReservationEvidence,
) -> ReservationSnapshot {
    ReservationSnapshot {
        reservation_id,
        worktree_liveness: snapshot_of(actual, reservation_id@)->0.worktree_liveness,
        worktree_head: snapshot_of(actual, reservation_id@)->0.worktree_head,
        evidence,
    }
}

/// Whether the actual observation recorded every retained reservation.
pub open spec fn all_recorded(reservations: Seq<Reservation>, actual: Seq<ReservationSnapshot>) -> bool {
    forall|position: int| 0 <= position < reservations.len() ==> snapshot_of(actual, (#[trigger] reservations[position]).id@) is Some
}

/// The reservations a proposed update does not judge, in retained order.
pub open spec fn unjudged(reservations: Seq<Reservation>, facts: RepositoryTargetFacts, proposed: Seq<char>) -> Seq<Reservation>
    decreases reservations.len(),
{
    if reservations.len() == 0 {
        Seq::empty()
    } else {
        let earlier = unjudged(reservations.drop_last(), facts, proposed);
        if judged_at_proposed(facts, reservations.last().id@, proposed) {
            earlier
        } else {
            earlier.push(reservations.last())
        }
    }
}

/// The branch observations with one branch set to a tip: its entry replaced, or a new entry
/// at the end.
pub open spec fn with_target_tip(
    targets: Seq<(IntegrationTarget, TargetObservation)>,
    target: IntegrationTarget,
    tip: GitObjectId,
) -> Seq<(IntegrationTarget, TargetObservation)> {
    if exists|position: int| 0 <= position < targets.len() && (#[trigger] targets[position]).0.branch() == target.branch() {
        targets.map_values(
            |entry: (IntegrationTarget, TargetObservation)| if entry.0.branch() == target.branch() {
                (entry.0, TargetObservation::Resolved(tip))
            } else {
                entry
            },
        )
    } else {
        targets.push((target, TargetObservation::Resolved(tip)))
    }
}

/// Copy a recorded evidence.
fn copy_evidence(evidence: &RepositoryReservationEvidence) -> (copy: RepositoryReservationEvidence)
    ensures
        copy == *evidence,
{
    match evidence {
        RepositoryReservationEvidence::Active => RepositoryReservationEvidence::Active,
        RepositoryReservationEvidence::Outstanding { protected_tip, integration_status } => RepositoryReservationEvidence::Outstanding {
            protected_tip: protected_tip.clone(),
            integration_status: integration_status.clone(),
        },
        RepositoryReservationEvidence::Released { protected_tip, disposition, integration_status } => RepositoryReservationEvidence::Released {
            protected_tip: protected_tip.clone(),
            disposition: disposition.clone(),
            integration_status: integration_status.clone(),
        },
        RepositoryReservationEvidence::ReleasedWithoutCheckpoint => RepositoryReservationEvidence::ReleasedWithoutCheckpoint,
    }
}

/// Copy a recorded worktree head.
fn copy_head(head: &Option<GitObjectId>) -> (copy: Option<GitObjectId>)
    ensures
        copy == *head,
{
    match head {
        Some(commit) => Some(commit.clone()),
        None => None,
    }
}

/// The actual snapshot recorded for a reservation.
fn actual_snapshot<'snapshots>(actual: &'snapshots Vec<ReservationSnapshot>, reservation_id: &ReservationId) -> (found: Option<
    &'snapshots ReservationSnapshot,
>)
    ensures
        match found {
            Some(snapshot) => snapshot_of(actual@, reservation_id@) == Some(*snapshot),
            None => snapshot_of(actual@, reservation_id@) is None,
        },
{
    let mut index: usize = 0;
    assert(actual@.skip(0) =~= actual@);
    while index < actual.len()
        invariant
            index <= actual@.len(),
            snapshot_of(actual@, reservation_id@) == snapshot_of(actual@.skip(index as int), reservation_id@),
        decreases actual@.len() - index,
    {
        assert(actual@.skip(index as int)[0] == actual@[index as int]);
        if same_text(&actual[index].reservation_id, reservation_id) {
            return Some(&actual[index]);
        }
        assert(actual@.skip(index as int).drop_first() =~= actual@.skip(index + 1));
        index += 1;
    }
    None
}

/// Set one branch's observation to a resolved tip.
fn set_target_tip(targets: &mut Vec<(IntegrationTarget, TargetObservation)>, target: &IntegrationTarget, tip: &GitObjectId)
    ensures
        final(targets)@ == with_target_tip(old(targets)@, *target, *tip),
{
    let ghost original = targets@;
    let mut found = false;
    let mut index: usize = 0;
    while index < targets.len()
        invariant
            index <= targets@.len(),
            targets@.len() == original.len(),
            forall|position: int|
                0 <= position < index ==> #[trigger] targets@[position] == (if original[position].0.branch() == target.branch() {
                    (original[position].0, TargetObservation::Resolved(*tip))
                } else {
                    original[position]
                }),
            forall|position: int| index <= position < original.len() ==> #[trigger] targets@[position] == original[position],
            found == exists|position: int| 0 <= position < index && #[trigger] original[position].0.branch() == target.branch(),
        decreases original.len() - index,
    {
        if targets[index].0.same_as(target) {
            let branch = targets[index].0.clone();
            targets.set(index, (branch, TargetObservation::Resolved(tip.clone())));
            found = true;
        }
        index += 1;
    }
    if found {
        assert(targets@ =~= original.map_values(
            |entry: (IntegrationTarget, TargetObservation)| if entry.0.branch() == target.branch() {
                (entry.0, TargetObservation::Resolved(*tip))
            } else {
                entry
            },
        ));
    } else {
        assert(targets@ =~= original);
        targets.push((target.clone(), TargetObservation::Resolved(tip.clone())));
    }
}

/// The observation a proposed update of `proposed_target` to `proposed_tip` would make.
///
/// The reservations the update judges take, in retained order, the evidence evaluated for
/// them at the proposed tip (`evidence_in_order`) with the worktree standing the actual
/// observation recorded; every other reservation keeps its actual snapshot. The proposed
/// branch is observed at the proposed tip. Cross-target predecessor evidence is recomputed
/// from the new snapshots only when the proposed branch is the trunk, and is otherwise the
/// actual observation's. A reservation the actual observation did not record is refused
/// with its identity.
pub fn proposed_target_snapshot<CrossTarget, Recompute: FnOnce(&Vec<ReservationSnapshot>) -> CrossTarget>(
    reservations: &[Reservation],
    facts: &RepositoryTargetFacts,
    actual: &Vec<ReservationSnapshot>,
    actual_cross_target_predecessors: CrossTarget,
    proposed_target: &IntegrationTarget,
    proposed_tip: &GitObjectId,
    evidence_in_order: Vec<RepositoryReservationEvidence>,
    recompute_cross_target_predecessors: Recompute,
) -> (observed: Result<ProposedTargetObservation<CrossTarget>, ReservationId>)
    requires
        evidence_in_order@.len() == judged_ids(reservations@, *facts, proposed_target.branch()).len(),
        forall|snapshots: &Vec<ReservationSnapshot>| call_requires(recompute_cross_target_predecessors, (snapshots,)),
    ensures
        match observed {
            Err(missing) => snapshot_of(actual@, missing@) is None && !all_recorded(reservations@, actual@),
            Ok(observation) => {
                let judged = judged_ids(reservations@, *facts, proposed_target.branch());
                let others = unjudged(reservations@, *facts, proposed_target.branch());
                &&& all_recorded(reservations@, actual@)
                &&& observation.judged@ == judged
                &&& observation.snapshots@.len() == judged.len() + others.len()
                &&& forall|position: int|
                    0 <= position < judged.len() ==> (#[trigger] observation.snapshots@[position]) == judged_snapshot(actual@, judged[position], evidence_in_order@[position])
                &&& forall|position: int|
                    0 <= position < others.len() ==> observation.snapshots@[judged.len() + position]
                        == snapshot_of(actual@, (#[trigger] others[position]).id@)->0
                &&& observation.targets@ == with_target_tip(facts.targets@, *proposed_target, *proposed_tip)
                &&& if proposed_target.branch() == facts.repository_trunk.branch() {
                    call_ensures(
                        recompute_cross_target_predecessors,
                        (&observation.snapshots,),
                        observation.cross_target_predecessors,
                    )
                } else {
                    observation.cross_target_predecessors == actual_cross_target_predecessors
                }
            },
        },
{
    let judged = reservations_judged_at_proposed_target(reservations, facts, proposed_target);
    let ghost judged_view = judged@;
    let ghost all = evidence_in_order@;
    let mut evidence = evidence_in_order;
    let count = evidence.len();
    let mut snapshots: Vec<ReservationSnapshot> = Vec::new();
    let mut position: usize = 0;
    while position < judged.len()
        invariant
            judged@ == judged_view,
            judged_view == judged_ids(reservations@, *facts, proposed_target.branch()),
            all.len() == judged_view.len(),
            count == all.len(),
            position <= judged_view.len(),
            evidence@ == all.skip(position as int),
            evidence@.len() + position == all.len(),
            snapshots@.len() == position,
            forall|earlier: int| 0 <= earlier < position ==> snapshot_of(actual@, (#[trigger] judged_view[earlier])@) is Some,
            forall|earlier: int|
                0 <= earlier < position ==> (#[trigger] snapshots@[earlier]) == judged_snapshot(actual@, judged_view[earlier], all[earlier]),
        decreases judged_view.len() - position,
    {
        let found = actual_snapshot(actual, &judged[position]);
        let recorded = match found {
            Some(recorded) => recorded,
            None => {
                proof {
                    judged_entry_is_retained(reservations@, *facts, proposed_target.branch(), position as int);
                    let index = choose|index: int| 0 <= index < reservations@.len() && (#[trigger] reservations@[index]).id == judged_view[position as int];
                    assert(snapshot_of(actual@, reservations@[index].id@) is None);
                }
                return Err(judged[position].clone());
            },
        };
        let fresh = evidence.remove(0);
        assert(fresh == all[position as int]);
        assert(evidence@ =~= all.skip(position + 1));
        snapshots.push(ReservationSnapshot {
            reservation_id: judged[position].clone(),
            worktree_liveness: recorded.worktree_liveness,
            worktree_head: copy_head(&recorded.worktree_head),
            evidence: fresh,
        });
        position += 1;
    }
    let ghost others = unjudged(reservations@, *facts, proposed_target.branch());
    let ghost judged_count = judged_view.len();
    let mut index: usize = 0;
    while index < reservations.len()
        invariant
            index <= reservations@.len(),
            judged_view == judged_ids(reservations@, *facts, proposed_target.branch()),
            others == unjudged(reservations@, *facts, proposed_target.branch()),
            judged_count == judged_view.len(),
            forall|earlier: int| 0 <= earlier < judged_count ==> snapshot_of(actual@, (#[trigger] judged_view[earlier])@) is Some,
            forall|earlier: int| 0 <= earlier < index ==> snapshot_of(actual@, (#[trigger] reservations@[earlier]).id@) is Some,
            snapshots@.len() == judged_count + unjudged(reservations@.take(index as int), *facts, proposed_target.branch()).len(),
            forall|earlier: int|
                0 <= earlier < judged_count ==> (#[trigger] snapshots@[earlier]) == judged_snapshot(actual@, judged_view[earlier], all[earlier]),
            forall|earlier: int|
                0 <= earlier < unjudged(reservations@.take(index as int), *facts, proposed_target.branch()).len()
                    ==> snapshots@[judged_count + earlier] == snapshot_of(
                    actual@,
                    (#[trigger] unjudged(reservations@.take(index as int), *facts, proposed_target.branch())[earlier]).id@,
                )->0,
        decreases reservations@.len() - index,
    {
        let ghost before = unjudged(reservations@.take(index as int), *facts, proposed_target.branch());
        assert(reservations@.take(index + 1).drop_last() =~= reservations@.take(index as int));
        let reservation = &reservations[index];
        let is_judged = judged_at_proposed_target(facts, &reservation.id, proposed_target);
        if !is_judged {
            let found = actual_snapshot(actual, &reservation.id);
            let recorded = match found {
                Some(recorded) => recorded,
                None => {
                    assert(snapshot_of(actual@, reservations@[index as int].id@) is None);
                    return Err(reservation.id.clone());
                },
            };
            let ghost length = snapshots@.len();
            snapshots.push(ReservationSnapshot {
                reservation_id: recorded.reservation_id.clone(),
                worktree_liveness: recorded.worktree_liveness,
                worktree_head: copy_head(&recorded.worktree_head),
                evidence: copy_evidence(&recorded.evidence),
            });
            assert(unjudged(reservations@.take(index + 1), *facts, proposed_target.branch()) == before.push(reservations@[index as int]));
        } else {
            assert(unjudged(reservations@.take(index + 1), *facts, proposed_target.branch()) == before);
            proof {
                judged_reservation_is_listed(reservations@, *facts, proposed_target.branch(), index as int);
                let position = choose|position: int| 0 <= position < judged_view.len() && #[trigger] judged_view[position] == reservations@[index as int].id;
                assert(snapshot_of(actual@, judged_view[position]@) is Some);
            }
        }
        index += 1;
    }
    assert(reservations@.take(reservations@.len() as int) =~= reservations@);
    let mut targets = copy_targets(&facts.targets);
    set_target_tip(&mut targets, proposed_target, proposed_tip);
    let cross_target_predecessors = if proposed_target.same_as(&facts.repository_trunk) {
        recompute_cross_target_predecessors(&snapshots)
    } else {
        actual_cross_target_predecessors
    };
    Ok(ProposedTargetObservation { snapshots, targets, judged, cross_target_predecessors })
}

/// Whether a cross-target predecessor's checkpointed work is on the repository trunk.
#[derive(Debug, PartialEq, Eq)]
pub enum CrossTargetPredecessorReachability {
    /// The work is in this trunk commit's history.
    OnTrunk(GitObjectId),
    /// Every commit that could prove it is known and none is in trunk's history.
    NotOnTrunk,
    /// The trunk, or a commit that could prove the work, could not be resolved.
    ObjectUnknown,
}

/// The checkpoint a recorded evidence names, with what trunk proved of it.
pub open spec fn checkpoint_of(evidence: RepositoryReservationEvidence) -> Option<(GitObjectId, IntegrationEvidenceStatus)> {
    match evidence {
        RepositoryReservationEvidence::Outstanding { protected_tip, integration_status } => Some(
            (protected_tip.commit(), integration_status),
        ),
        RepositoryReservationEvidence::Released { protected_tip, integration_status, .. } => Some(
            (protected_tip.commit(), integration_status),
        ),
        _ => None,
    }
}

/// The target proof commits recorded for a reservation: its first entry's, or none.
pub open spec fn proof_commits_of(table: Seq<(ReservationId, Vec<GitObjectId>)>, reservation_id: Seq<char>) -> Seq<
    GitObjectId,
>
    decreases table.len(),
{
    if table.len() == 0 {
        Seq::empty()
    } else if table[0].0@ == reservation_id {
        table[0].1@
    } else {
        proof_commits_of(table.drop_first(), reservation_id)
    }
}

/// The commits whose ancestry can prove a predecessor's work on trunk besides its tip: its
/// target proof commits, then the trunk its integration evidence names, if any.
pub open spec fn proof_candidates(proofs: Seq<GitObjectId>, status: IntegrationEvidenceStatus) -> Seq<GitObjectId> {
    match proving_trunk_of(status) {
        Some(trunk) => proofs.push(trunk),
        None => proofs,
    }
}

/// Whether some commit of a list has this reachability from trunk.
pub open spec fn some_reaches(reachability: TargetIntegrationReachability, commits: Seq<GitObjectId>, kind: Reachability) -> bool {
    exists|index: int| 0 <= index < commits.len() && reachability.reachability_of(#[trigger] commits[index]@) == kind
}

/// A predecessor's standing on trunk: on trunk when its tip or a proof commit is in trunk's
/// history, unknown when the trunk or one of those commits could not be resolved, and
/// otherwise not on trunk.
pub open spec fn predecessor_outcome(
    trunk: JudgedTargetTip,
    reachability: TargetIntegrationReachability,
    tip: GitObjectId,
    proofs: Seq<GitObjectId>,
) -> CrossTargetPredecessorReachability {
    match trunk {
        JudgedTargetTip::Resolved(trunk_oid) => if reachability.reachability_of(tip@) == Reachability::Ancestor
            || some_reaches(reachability, proofs, Reachability::Ancestor) {
            CrossTargetPredecessorReachability::OnTrunk(trunk_oid)
        } else if reachability.reachability_of(tip@) == Reachability::ObjectUnknown || some_reaches(
            reachability,
            proofs,
            Reachability::ObjectUnknown,
        ) {
            CrossTargetPredecessorReachability::ObjectUnknown
        } else {
            CrossTargetPredecessorReachability::NotOnTrunk
        },
        JudgedTargetTip::ObjectUnknown => CrossTargetPredecessorReachability::ObjectUnknown,
    }
}

/// The standing of each observed predecessor that an observation recorded with a checkpoint,
/// in predecessor order.
pub open spec fn predecessor_evidence(
    predecessors: Seq<ReservationId>,
    snapshots: Seq<ReservationSnapshot>,
    proof_commits: Seq<(ReservationId, Vec<GitObjectId>)>,
    trunk: JudgedTargetTip,
    reachability: TargetIntegrationReachability,
) -> Seq<(ReservationId, CrossTargetPredecessorReachability)>
    decreases predecessors.len(),
{
    if predecessors.len() == 0 {
        Seq::empty()
    } else {
        let earlier = predecessor_evidence(predecessors.drop_last(), snapshots, proof_commits, trunk, reachability);
        let predecessor = predecessors.last();
        match snapshot_of(snapshots, predecessor@) {
            Some(snapshot) => match checkpoint_of(snapshot.evidence) {
                Some((tip, status)) => earlier.push(
                    (
                        predecessor,
                        predecessor_outcome(
                            trunk,
                            reachability,
                            tip,
                            proof_candidates(proof_commits_of(proof_commits, predecessor@), status),
                        ),
                    ),
                ),
                None => earlier,
            },
            None => earlier,
        }
    }
}

/// The target proof commits recorded for a reservation.
fn recorded_proof_commits(table: &Vec<(ReservationId, Vec<GitObjectId>)>, reservation_id: &ReservationId) -> (commits:
    Vec<GitObjectId>)
    ensures
        commits@ == proof_commits_of(table@, reservation_id@),
{
    let mut index: usize = 0;
    assert(table@.skip(0) =~= table@);
    while index < table.len()
        invariant
            index <= table@.len(),
            proof_commits_of(table@, reservation_id@) == proof_commits_of(table@.skip(index as int), reservation_id@),
        decreases table@.len() - index,
    {
        assert(table@.skip(index as int)[0] == table@[index as int]);
        if same_text(&table[index].0, reservation_id) {
            return crate::ids::clone_texts(&table[index].1);
        }
        assert(table@.skip(index as int).drop_first() =~= table@.skip(index + 1));
        index += 1;
    }
    Vec::new()
}

/// Whether some commit of a list has this reachability from trunk.
fn any_reaches(reachability: &TargetIntegrationReachability, commits: &Vec<GitObjectId>, kind: Reachability) -> (found: bool)
    ensures
        found == some_reaches(*reachability, commits@, kind),
{
    let mut index: usize = 0;
    while index < commits.len()
        invariant
            index <= commits@.len(),
            forall|earlier: int| 0 <= earlier < index ==> reachability.reachability_of(#[trigger] commits@[earlier]@) != kind,
        decreases commits@.len() - index,
    {
        if reachability.for_ancestor(&commits[index]) == kind {
            return true;
        }
        index += 1;
    }
    false
}

/// Classify whether each observed predecessor's checkpointed work is on the repository trunk,
/// in predecessor order. A predecessor the observation did not record, or recorded without a
/// checkpoint, is left out. With an unresolved trunk every classified predecessor is unknown;
/// otherwise its tip, its recorded target proof commits (`proof_commits`) and the trunk its
/// integration evidence names are looked up in the trunk's reachability classification.
pub fn cross_target_predecessor_evidence(
    predecessors: &Vec<ReservationId>,
    snapshots: &Vec<ReservationSnapshot>,
    proof_commits: &Vec<(ReservationId, Vec<GitObjectId>)>,
    trunk: &JudgedTargetTip,
    reachability: &TargetIntegrationReachability,
) -> (evidence: Vec<(ReservationId, CrossTargetPredecessorReachability)>)
    ensures
        evidence@ == predecessor_evidence(predecessors@, snapshots@, proof_commits@, *trunk, *reachability),
{
    let mut evidence: Vec<(ReservationId, CrossTargetPredecessorReachability)> = Vec::new();
    let mut index: usize = 0;
    while index < predecessors.len()
        invariant
            index <= predecessors@.len(),
            evidence@ == predecessor_evidence(predecessors@.take(index as int), snapshots@, proof_commits@, *trunk, *reachability),
        decreases predecessors@.len() - index,
    {
        assert(predecessors@.take(index + 1).drop_last() =~= predecessors@.take(index as int));
        assert(predecessors@.take(index + 1).last() == predecessors@[index as int]);
        let predecessor = &predecessors[index];
        if let Some(snapshot) = actual_snapshot(snapshots, predecessor) {
            let checkpoint: Option<(&GitObjectId, &IntegrationEvidenceStatus)> = match &snapshot.evidence {
                RepositoryReservationEvidence::Outstanding { protected_tip, integration_status } => Some(
                    (protected_tip.as_commit(), integration_status),
                ),
                RepositoryReservationEvidence::Released { protected_tip, integration_status, .. } => Some(
                    (protected_tip.as_commit(), integration_status),
                ),
                _ => None,
            };
            if let Some((tip, status)) = checkpoint {
                let outcome = match trunk {
                    JudgedTargetTip::Resolved(trunk_oid) => {
                        let mut proofs = recorded_proof_commits(proof_commits, predecessor);
                        match proving_trunk(status) {
                            Some(proving) => proofs.push(proving.clone()),
                            None => {},
                        }
                        let tip_reach = reachability.for_ancestor(tip);
                        if tip_reach == Reachability::Ancestor || any_reaches(reachability, &proofs, Reachability::Ancestor) {
                            CrossTargetPredecessorReachability::OnTrunk(trunk_oid.clone())
                        } else if tip_reach == Reachability::ObjectUnknown || any_reaches(
                            reachability,
                            &proofs,
                            Reachability::ObjectUnknown,
                        ) {
                            CrossTargetPredecessorReachability::ObjectUnknown
                        } else {
                            CrossTargetPredecessorReachability::NotOnTrunk
                        }
                    },
                    JudgedTargetTip::ObjectUnknown => CrossTargetPredecessorReachability::ObjectUnknown,
                };
                evidence.push((predecessor.clone(), outcome));
            }
        }
        index += 1;
    }
    assert(predecessors@.take(predecessors@.len() as int) =~= predecessors@);
    evidence
}

} // verus!
