//! Which integration branch judges each reservation, and which branches still wait for a
//! cover reservation of their own.
use vstd::prelude::*;

use crate::ids::insert_in_wire_order;
use crate::ids::named;
use crate::ids::same_text;
use crate::ids::sorts_before;
use crate::ids::wire_ordered;
use crate::ids::GitObjectId;
use crate::ids::ReservationId;
use crate::ids::WorktreeId;
use crate::reconcile::settlement::JudgedTargetTip;
use crate::reservation::lifecycle::ReservationLifecycle;
use crate::reservation::merge_extent::MergeExtent;
use crate::reservation::record::IntegrationTarget;
use crate::reservation::record::RecordedTarget;
use crate::reservation::record::Reservation;
use crate::text::texts;

verus! {

/// What one observation of an integration branch found.
#[derive(Debug, PartialEq, Eq)]
pub enum TargetObservation {
    /// The branch points at this commit.
    Resolved(GitObjectId),
    /// The branch no longer exists.
    Missing,
    /// Git could not resolve the branch.
    ObjectUnknown,
}

/// The branch facts of one repository observation: the repository trunk, what each observed
/// branch resolved to, and the branch each reservation recorded.
pub struct RepositoryTargetFacts {
    /// The configured repository trunk.
    pub repository_trunk: IntegrationTarget,
    /// Each observed branch with what it resolved to, one entry per branch.
    pub targets: Vec<(IntegrationTarget, TargetObservation)>,
    /// Each reservation with the branch it integrates into, one entry per reservation.
    pub reservation_targets: Vec<(ReservationId, IntegrationTarget)>,
}

/// What the observation found for a branch: its first entry, if the branch was observed.
pub open spec fn observation_of(
    targets: Seq<(IntegrationTarget, TargetObservation)>,
    branch: Seq<char>,
) -> Option<TargetObservation>
    decreases targets.len(),
{
    if targets.len() == 0 {
        None
    } else if targets[0].0.branch() == branch {
        Some(targets[0].1)
    } else {
        observation_of(targets.drop_first(), branch)
    }
}

/// The branch recorded for a reservation: its first entry, if it has one.
pub open spec fn recorded_entry(
    entries: Seq<(ReservationId, IntegrationTarget)>,
    reservation_id: Seq<char>,
) -> Option<IntegrationTarget>
    decreases entries.len(),
{
    if entries.len() == 0 {
        None
    } else if entries[0].0@ == reservation_id {
        Some(entries[0].1)
    } else {
        recorded_entry(entries.drop_first(), reservation_id)
    }
}

/// The branch a reservation integrates into; one the observation recorded no branch for
/// integrates into the repository trunk.
pub open spec fn recorded_target_of(facts: RepositoryTargetFacts, reservation_id: Seq<char>) -> IntegrationTarget {
    match recorded_entry(facts.reservation_targets@, reservation_id) {
        Some(target) => target,
        None => facts.repository_trunk,
    }
}

/// Whether the observation resolved a branch to a commit.
pub open spec fn resolved_in(targets: Seq<(IntegrationTarget, TargetObservation)>, branch: Seq<char>) -> bool {
    observation_of(targets, branch) matches Some(TargetObservation::Resolved(_))
}

/// Whether the observation found a branch missing.
pub open spec fn missing_in(targets: Seq<(IntegrationTarget, TargetObservation)>, branch: Seq<char>) -> bool {
    observation_of(targets, branch) matches Some(TargetObservation::Missing)
}

/// The branch that judges a reservation this pass: its recorded branch, unless that branch
/// is gone, in which case the reservation is judged with the repository trunk's group.
pub open spec fn judging_branch(facts: RepositoryTargetFacts, reservation_id: Seq<char>) -> Seq<char> {
    let recorded = recorded_target_of(facts, reservation_id).branch();
    if recorded != facts.repository_trunk.branch() && missing_in(facts.targets@, recorded) {
        facts.repository_trunk.branch()
    } else {
        recorded
    }
}

/// The tip a branch is judged at: the commit it resolved to, and unknown otherwise.
pub open spec fn judged_tip_of(targets: Seq<(IntegrationTarget, TargetObservation)>, branch: Seq<char>) -> JudgedTargetTip {
    match observation_of(targets, branch) {
        Some(TargetObservation::Resolved(commit)) => JudgedTargetTip::Resolved(commit),
        _ => JudgedTargetTip::ObjectUnknown,
    }
}

/// Whether a branch other than the trunk, which the observation resolved, needs a cover.
pub open spec fn cover_target_waits(facts: RepositoryTargetFacts, branch: Seq<char>) -> bool {
    branch != facts.repository_trunk.branch() && resolved_in(facts.targets@, branch)
}

/// Whether a reservation leaves its recorded branch waiting for a cover: it is not released
/// and its branch is a resolved branch other than the trunk.
pub open spec fn waits_for_cover(facts: RepositoryTargetFacts, reservation: Reservation) -> bool {
    !(reservation.lifecycle is Released) && cover_target_waits(
        facts,
        recorded_target_of(facts, reservation.id@).branch(),
    )
}

/// Whether a reservation's cover is missing: its branch waits for one and no cover observed
/// this pass covers it.
pub open spec fn cover_missing(
    facts: RepositoryTargetFacts,
    covered: Seq<IntegrationTarget>,
    reservation_id: Seq<char>,
) -> bool {
    let branch = recorded_target_of(facts, reservation_id).branch();
    cover_target_waits(facts, branch) && !covered_branches(covered).contains(branch)
}

/// The branches a list of targets names.
pub open spec fn covered_branches(covered: Seq<IntegrationTarget>) -> Seq<Seq<char>> {
    covered.map_values(|target: IntegrationTarget| target.branch())
}

/// The branches that waiting reservations leave waiting for a cover.
pub open spec fn waiting_branches(reservations: Seq<Reservation>, facts: RepositoryTargetFacts) -> Set<Seq<char>>
    decreases reservations.len(),
{
    if reservations.len() == 0 {
        Set::empty()
    } else {
        let earlier = waiting_branches(reservations.drop_last(), facts);
        let last = reservations.last();
        if waits_for_cover(facts, last) {
            earlier.insert(recorded_target_of(facts, last.id@).branch())
        } else {
            earlier
        }
    }
}

/// The waiting reservations recorded on one branch, in retained order.
pub open spec fn waiting_ids_on(
    reservations: Seq<Reservation>,
    facts: RepositoryTargetFacts,
    branch: Seq<char>,
) -> Seq<ReservationId>
    decreases reservations.len(),
{
    if reservations.len() == 0 {
        Seq::empty()
    } else {
        let earlier = waiting_ids_on(reservations.drop_last(), facts, branch);
        let last = reservations.last();
        if waits_for_cover(facts, last) && recorded_target_of(facts, last.id@).branch() == branch {
            earlier.push(last.id)
        } else {
            earlier
        }
    }
}

/// Whether a reservation is judged when the proposed target moves: it is recorded on that
/// target, or the proposed target is the trunk and its own branch is gone.
pub open spec fn judged_at_proposed(
    facts: RepositoryTargetFacts,
    reservation_id: Seq<char>,
    proposed: Seq<char>,
) -> bool {
    let recorded = recorded_target_of(facts, reservation_id).branch();
    recorded == proposed || (proposed == facts.repository_trunk.branch() && missing_in(
        facts.targets@,
        recorded,
    ))
}

/// The reservations judged when the proposed target moves, in retained order.
pub open spec fn judged_ids(
    reservations: Seq<Reservation>,
    facts: RepositoryTargetFacts,
    proposed: Seq<char>,
) -> Seq<ReservationId>
    decreases reservations.len(),
{
    if reservations.len() == 0 {
        Seq::empty()
    } else {
        let earlier = judged_ids(reservations.drop_last(), facts, proposed);
        if judged_at_proposed(facts, reservations.last().id@, proposed) {
            earlier.push(reservations.last().id)
        } else {
            earlier
        }
    }
}

/// The tip of a predecessor's recorded branch that can become a newly materialized proof:
/// the commit a recorded branch other than the trunk resolved to.
pub open spec fn predecessor_tip(facts: RepositoryTargetFacts, reservation_id: Seq<char>) -> Option<GitObjectId> {
    match recorded_entry(facts.reservation_targets@, reservation_id) {
        Some(target) => if target.branch() == facts.repository_trunk.branch() {
            None
        } else {
            match observation_of(facts.targets@, target.branch()) {
                Some(TargetObservation::Resolved(commit)) => Some(commit),
                _ => None,
            }
        },
        None => None,
    }
}

/// The tips of a list of predecessors.
pub open spec fn predecessor_tips(facts: RepositoryTargetFacts, predecessors: Seq<ReservationId>) -> Set<Seq<char>>
    decreases predecessors.len(),
{
    if predecessors.len() == 0 {
        Set::empty()
    } else {
        let earlier = predecessor_tips(facts, predecessors.drop_last());
        match predecessor_tip(facts, predecessors.last()@) {
            Some(commit) => earlier.insert(commit@),
            None => earlier,
        }
    }
}

/// The predecessors a pass observes: those of the durable graph, and the one a sequence
/// request has not appended yet.
pub open spec fn observed_predecessors(
    graph_predecessors: Seq<ReservationId>,
    requested_before: Option<ReservationId>,
) -> Seq<ReservationId> {
    match requested_before {
        Some(before) => graph_predecessors.push(before),
        None => graph_predecessors,
    }
}

/// The branch a retained reservation integrates into: the one it recorded, or the
/// repository trunk when it recorded none.
pub open spec fn target_of(reservation: Reservation, repository_trunk: IntegrationTarget) -> IntegrationTarget {
    match reservation.target {
        RecordedTarget::Recorded { target } => target,
        RecordedTarget::Unrecorded => repository_trunk,
    }
}

/// The branches retained reservations integrate into, with the trunk always among them.
pub open spec fn grouped_branches(reservations: Seq<Reservation>, repository_trunk: IntegrationTarget) -> Set<Seq<char>>
    decreases reservations.len(),
{
    if reservations.len() == 0 {
        set![repository_trunk.branch()]
    } else {
        grouped_branches(reservations.drop_last(), repository_trunk).insert(
            target_of(reservations.last(), repository_trunk).branch(),
        )
    }
}

/// The reservations that integrate into one branch, in retained order.
pub open spec fn ids_on(
    reservations: Seq<Reservation>,
    repository_trunk: IntegrationTarget,
    branch: Seq<char>,
) -> Seq<ReservationId>
    decreases reservations.len(),
{
    if reservations.len() == 0 {
        Seq::empty()
    } else {
        let earlier = ids_on(reservations.drop_last(), repository_trunk, branch);
        if target_of(reservations.last(), repository_trunk).branch() == branch {
            earlier.push(reservations.last().id)
        } else {
            earlier
        }
    }
}

/// The merge extent this pass observed for a holder in a worktree against a parent branch:
/// its first entry.
pub open spec fn holder_extent(
    extents: Seq<((WorktreeId, IntegrationTarget), MergeExtent)>,
    worktree: Seq<char>,
    parent: Seq<char>,
) -> Option<MergeExtent>
    decreases extents.len(),
{
    if extents.len() == 0 {
        None
    } else if extents[0].0.0@ == worktree && extents[0].0.1.branch() == parent {
        Some(extents[0].1)
    } else {
        holder_extent(extents.drop_first(), worktree, parent)
    }
}

/// Whether a retained reservation of this worktree that is not released integrates into this
/// branch.
pub open spec fn holds_on(
    reservations: Seq<Reservation>,
    facts: RepositoryTargetFacts,
    worktree: Seq<char>,
    parent: Seq<char>,
) -> bool {
    exists|position: int|
        0 <= position < reservations.len() && holds_in(#[trigger] reservations[position], facts, worktree, parent)
}

/// Whether one reservation is an unreleased holder of this worktree on this branch.
pub open spec fn holds_in(reservation: Reservation, facts: RepositoryTargetFacts, worktree: Seq<char>, parent: Seq<char>) -> bool {
    &&& reservation.actor.worktree@ == worktree
    &&& !(reservation.lifecycle is Released)
    &&& recorded_target_of(facts, reservation.id@).branch() == parent
}

/// Whether a cover requirement of a checked-out branch is met this pass: the branch resolved,
/// its cover holder's observed extent was taken at that very tip, and the holder still holds
/// work on the parent branch.
pub open spec fn requirement_covered(
    requirement: (IntegrationTarget, (WorktreeId, IntegrationTarget)),
    reservations: Seq<Reservation>,
    facts: RepositoryTargetFacts,
    extents: Seq<((WorktreeId, IntegrationTarget), MergeExtent)>,
) -> bool {
    let worktree = requirement.1.0@;
    let parent = requirement.1.1.branch();
    match observation_of(facts.targets@, requirement.0.branch()) {
        Some(TargetObservation::Resolved(tip)) => match holder_extent(extents, worktree, parent) {
            Some(MergeExtent::Protected { key, .. }) => key.head@ == tip@ && holds_on(reservations, facts, worktree, parent),
            Some(MergeExtent::Empty { key }) => key.head@ == tip@ && holds_on(reservations, facts, worktree, parent),
            _ => false,
        },
        _ => false,
    }
}

/// The branches whose cover requirement is met this pass, in requirement order.
pub open spec fn covered_targets(
    requirements: Seq<(IntegrationTarget, (WorktreeId, IntegrationTarget))>,
    reservations: Seq<Reservation>,
    facts: RepositoryTargetFacts,
    extents: Seq<((WorktreeId, IntegrationTarget), MergeExtent)>,
) -> Seq<Seq<char>>
    decreases requirements.len(),
{
    if requirements.len() == 0 {
        Seq::empty()
    } else {
        let earlier = covered_targets(requirements.drop_last(), reservations, facts, extents);
        if requirement_covered(requirements.last(), reservations, facts, extents) {
            earlier.push(requirements.last().0.branch())
        } else {
            earlier
        }
    }
}

/// Whether a group of reservations recorded on a branch is judged this pass, and at which
/// tip: a gone branch other than the trunk is not, its reservations having joined the trunk's
/// group; any other branch is judged at the commit it resolved to, or unknown.
pub open spec fn group_judgment(facts: RepositoryTargetFacts, branch: Seq<char>) -> Option<JudgedTargetTip> {
    if branch != facts.repository_trunk.branch() && missing_in(facts.targets@, branch) {
        None
    } else {
        Some(judged_tip_of(facts.targets@, branch))
    }
}

/// The branch of each group.
pub open spec fn group_branches(groups: Seq<(IntegrationTarget, Vec<ReservationId>)>) -> Seq<Seq<char>> {
    groups.map_values(|group: (IntegrationTarget, Vec<ReservationId>)| group.0.branch())
}

/// An entry found after skipping entries that name other reservations is the first entry for
/// the reservation.
proof fn entry_found_past_others(
    entries: Seq<(ReservationId, IntegrationTarget)>,
    reservation_id: Seq<char>,
    from: int,
    index: int,
)
    requires
        0 <= from <= index < entries.len(),
        entries[index].0@ == reservation_id,
        forall|other: int| from <= other < index ==> (#[trigger] entries[other]).0@ != reservation_id,
    ensures
        recorded_entry(entries.skip(from), reservation_id) == Some(entries[index].1),
    decreases index - from,
{
    let rest = entries.skip(from);
    assert(rest[0] == entries[from]);
    if from < index {
        assert(rest.drop_first() =~= entries.skip(from + 1));
        entry_found_past_others(entries, reservation_id, from + 1, index);
    }
}

/// Facts whose reservation branches are the ones grouping assigned judge every retained
/// reservation by the branch it integrates into, when no identity is retained twice.
pub proof fn grouped_targets_are_recorded_targets(
    reservations: Seq<Reservation>,
    facts: RepositoryTargetFacts,
    index: int,
)
    requires
        0 <= index < reservations.len(),
        facts.reservation_targets@.len() == reservations.len(),
        forall|position: int|
            0 <= position < reservations.len() ==> #[trigger] facts.reservation_targets@[position] == (
                reservations[position].id,
                target_of(reservations[position], facts.repository_trunk),
            ),
        forall|first: int, second: int|
            0 <= first < second < reservations.len() ==> (#[trigger] reservations[first]).id@
                != (#[trigger] reservations[second]).id@,
    ensures
        recorded_target_of(facts, reservations[index].id@) == target_of(
            reservations[index],
            facts.repository_trunk,
        ),
{
    let entries = facts.reservation_targets@;
    assert forall|other: int| 0 <= other < index implies (#[trigger] entries[other]).0@
        != reservations[index].id@ by {
        assert(entries[other] == (reservations[other].id, target_of(reservations[other], facts.repository_trunk)));
    }
    assert(entries[index] == (reservations[index].id, target_of(reservations[index], facts.repository_trunk)));
    entry_found_past_others(entries, reservations[index].id@, 0, index);
    assert(entries.skip(0) =~= entries);
}

/// A reservation is among those judged when the branch that judges it is the proposed target.
pub proof fn moving_the_judging_branch_judges_the_reservation(
    facts: RepositoryTargetFacts,
    reservation_id: Seq<char>,
)
    ensures
        judged_at_proposed(facts, reservation_id, judging_branch(facts, reservation_id)),
{
}

/// A retained reservation that is not released and whose cover is missing is listed in the
/// waiting group of its own branch, and that branch is among the waiting ones.
pub proof fn missing_cover_waits_in_its_group(
    reservations: Seq<Reservation>,
    facts: RepositoryTargetFacts,
    covered: Seq<IntegrationTarget>,
    index: int,
)
    requires
        0 <= index < reservations.len(),
        !(reservations[index].lifecycle is Released),
        cover_missing(facts, covered, reservations[index].id@),
    ensures
        waiting_ids_on(
            reservations,
            facts,
            recorded_target_of(facts, reservations[index].id@).branch(),
        ).contains(reservations[index].id),
        waiting_branches(reservations, facts).contains(
            recorded_target_of(facts, reservations[index].id@).branch(),
        ),
    decreases reservations.len(),
{
    let branch = recorded_target_of(facts, reservations[index].id@).branch();
    let earlier = reservations.drop_last();
    if index == reservations.len() - 1 {
        let ids = waiting_ids_on(earlier, facts, branch);
        assert(ids.push(reservations[index].id)[ids.len() as int] == reservations[index].id);
    } else {
        assert(earlier[index] == reservations[index]);
        missing_cover_waits_in_its_group(earlier, facts, covered, index);
        let ids = waiting_ids_on(earlier, facts, branch);
        let witness = choose|position: int| 0 <= position < ids.len() && ids[position] == reservations[index].id;
        let last = reservations.last();
        if waits_for_cover(facts, last) && recorded_target_of(facts, last.id@).branch() == branch {
            assert(ids.push(last.id)[witness] == reservations[index].id);
        }
    }
}

impl RepositoryTargetFacts {
    /// What the observation found for a branch.
    fn observation(&self, target: &IntegrationTarget) -> (found: Option<&TargetObservation>)
        ensures
            match found {
                Some(observed) => observation_of(self.targets@, target.branch()) == Some(*observed),
                None => observation_of(self.targets@, target.branch()) is None,
            },
    {
        let mut index: usize = 0;
        assert(self.targets@.skip(0) =~= self.targets@);
        while index < self.targets.len()
            invariant
                index <= self.targets@.len(),
                observation_of(self.targets@, target.branch()) == observation_of(
                    self.targets@.skip(index as int),
                    target.branch(),
                ),
            decreases self.targets@.len() - index,
        {
            assert(self.targets@.skip(index as int)[0] == self.targets@[index as int]);
            if self.targets[index].0.same_as(target) {
                return Some(&self.targets[index].1);
            }
            assert(self.targets@.skip(index as int).drop_first() =~= self.targets@.skip(index + 1));
            index += 1;
        }
        None
    }

    /// The branch a reservation integrates into.
    pub fn recorded_target(&self, reservation_id: &ReservationId) -> (target: IntegrationTarget)
        ensures
            target == recorded_target_of(*self, reservation_id@),
    {
        let entries = &self.reservation_targets;
        let mut index: usize = 0;
        assert(entries@.skip(0) =~= entries@);
        while index < entries.len()
            invariant
                index <= entries@.len(),
                entries == &self.reservation_targets,
                recorded_entry(entries@, reservation_id@) == recorded_entry(
                    entries@.skip(index as int),
                    reservation_id@,
                ),
            decreases entries@.len() - index,
        {
            assert(entries@.skip(index as int)[0] == entries@[index as int]);
            if same_text(&entries[index].0, reservation_id) {
                return entries[index].1.clone();
            }
            assert(entries@.skip(index as int).drop_first() =~= entries@.skip(index + 1));
            index += 1;
        }
        self.repository_trunk.clone()
    }

    /// Whether the observation resolved a branch to a commit.
    pub fn resolves(&self, target: &IntegrationTarget) -> (resolved: bool)
        ensures
            resolved == resolved_in(self.targets@, target.branch()),
    {
        match self.observation(target) {
            Some(TargetObservation::Resolved(_)) => true,
            _ => false,
        }
    }

    /// Whether a branch other than the trunk, which the observation resolved, needs a cover.
    fn target_waits(&self, target: &IntegrationTarget) -> (waits: bool)
        ensures
            waits == cover_target_waits(*self, target.branch()),
    {
        !target.same_as(&self.repository_trunk) && self.resolves(target)
    }

    /// The branch that judges a reservation this pass: its recorded branch, or the repository
    /// trunk when that branch is gone.
    pub fn judging_target(&self, reservation_id: &ReservationId) -> (target: IntegrationTarget)
        ensures
            target.branch() == judging_branch(*self, reservation_id@),
    {
        let recorded = self.recorded_target(reservation_id);
        let missing = match self.observation(&recorded) {
            Some(TargetObservation::Missing) => true,
            _ => false,
        };
        if !recorded.same_as(&self.repository_trunk) && missing {
            self.repository_trunk.clone()
        } else {
            recorded
        }
    }

    /// The tip a reservation is judged at this pass: the commit its judging branch resolved
    /// to, and unknown when that branch did not resolve.
    pub fn judged_tip(&self, reservation_id: &ReservationId) -> (tip: JudgedTargetTip)
        ensures
            tip == judged_tip_of(self.targets@, judging_branch(*self, reservation_id@)),
    {
        let target = self.judging_target(reservation_id);
        match self.observation(&target) {
            Some(TargetObservation::Resolved(commit)) => JudgedTargetTip::Resolved(commit.clone()),
            _ => JudgedTargetTip::ObjectUnknown,
        }
    }
}

/// Whether a reservation's cover is missing: it is recorded on a resolved branch other than
/// the trunk, and no cover observed this pass covers that branch.
pub fn cover_is_missing(
    facts: &RepositoryTargetFacts,
    covered_targets: &[IntegrationTarget],
    reservation_id: &ReservationId,
) -> (missing: bool)
    ensures
        missing == cover_missing(*facts, covered_targets@, reservation_id@),
{
    let target = facts.recorded_target(reservation_id);
    if !facts.target_waits(&target) {
        return false;
    }
    let ghost branches = covered_branches(covered_targets@);
    let mut index: usize = 0;
    while index < covered_targets.len()
        invariant
            index <= covered_targets@.len(),
            branches == covered_branches(covered_targets@),
            target == recorded_target_of(*facts, reservation_id@),
            forall|earlier: int| 0 <= earlier < index ==> branches[earlier] != target.branch(),
        decreases covered_targets@.len() - index,
    {
        if covered_targets[index].same_as(&target) {
            assert(branches[index as int] == target.branch());
            assert(branches.contains(target.branch()));
            return false;
        }
        index += 1;
    }
    proof {
        if branches.contains(target.branch()) {
            let found = choose|position: int| 0 <= position < branches.len() && branches[position] == target.branch();
            assert(branches[found] != target.branch());
        }
    }
    true
}

/// Whether one reservation leaves its recorded branch waiting for a cover.
fn reservation_waits(facts: &RepositoryTargetFacts, reservation: &Reservation) -> (waits: bool)
    ensures
        waits == waits_for_cover(*facts, *reservation),
{
    let released = match reservation.lifecycle {
        ReservationLifecycle::Released { .. } => true,
        _ => false,
    };
    if released {
        return false;
    }
    let target = facts.recorded_target(&reservation.id);
    facts.target_waits(&target)
}

/// The waiting reservations recorded on one branch, in retained order.
fn waiting_on(reservations: &[Reservation], facts: &RepositoryTargetFacts, branch: &String) -> (ids:
    Vec<ReservationId>)
    ensures
        ids@ == waiting_ids_on(reservations@, *facts, branch@),
{
    let mut ids: Vec<ReservationId> = Vec::new();
    let mut index: usize = 0;
    while index < reservations.len()
        invariant
            index <= reservations@.len(),
            ids@ == waiting_ids_on(reservations@.take(index as int), *facts, branch@),
        decreases reservations@.len() - index,
    {
        let reservation = &reservations[index];
        assert(reservations@.take(index + 1).drop_last() =~= reservations@.take(index as int));
        if reservation_waits(facts, reservation) {
            let target = facts.recorded_target(&reservation.id);
            if same_text(&target.short_name().to_owned(), branch) {
                ids.push(reservation.id.clone());
            }
        }
        index += 1;
    }
    assert(reservations@.take(reservations@.len() as int) =~= reservations@);
    ids
}

/// The reservations judged when the proposed target moves: those recorded on it, and, when it
/// is the trunk, those whose own branch is gone. In retained order.
pub fn reservations_judged_at_proposed_target(
    reservations: &[Reservation],
    facts: &RepositoryTargetFacts,
    proposed: &IntegrationTarget,
) -> (judged: Vec<ReservationId>)
    ensures
        judged@ == judged_ids(reservations@, *facts, proposed.branch()),
{
    let proposing_trunk = proposed.same_as(&facts.repository_trunk);
    let mut judged: Vec<ReservationId> = Vec::new();
    let mut index: usize = 0;
    while index < reservations.len()
        invariant
            index <= reservations@.len(),
            proposing_trunk == (proposed.branch() == facts.repository_trunk.branch()),
            judged@ == judged_ids(reservations@.take(index as int), *facts, proposed.branch()),
        decreases reservations@.len() - index,
    {
        let reservation = &reservations[index];
        assert(reservations@.take(index + 1).drop_last() =~= reservations@.take(index as int));
        let recorded = facts.recorded_target(&reservation.id);
        let missing = match facts.observation(&recorded) {
            Some(TargetObservation::Missing) => true,
            _ => false,
        };
        if recorded.same_as(proposed) || (proposing_trunk && missing) {
            judged.push(reservation.id.clone());
        }
        index += 1;
    }
    assert(reservations@.take(reservations@.len() as int) =~= reservations@);
    judged
}

/// The tip of one predecessor's recorded branch, when it is a resolved branch other than the
/// trunk.
fn predecessor_target_tip(facts: &RepositoryTargetFacts, reservation_id: &ReservationId) -> (tip:
    Option<GitObjectId>)
    ensures
        tip == predecessor_tip(*facts, reservation_id@),
{
    let entries = &facts.reservation_targets;
    let mut index: usize = 0;
    assert(entries@.skip(0) =~= entries@);
    while index < entries.len()
        invariant
            index <= entries@.len(),
            entries == &facts.reservation_targets,
            recorded_entry(entries@, reservation_id@) == recorded_entry(
                entries@.skip(index as int),
                reservation_id@,
            ),
        decreases entries@.len() - index,
    {
        assert(entries@.skip(index as int)[0] == entries@[index as int]);
        if same_text(&entries[index].0, reservation_id) {
            let target = &entries[index].1;
            if target.same_as(&facts.repository_trunk) {
                return None;
            }
            return match facts.observation(target) {
                Some(TargetObservation::Resolved(commit)) => Some(commit.clone()),
                _ => None,
            };
        }
        assert(entries@.skip(index as int).drop_first() =~= entries@.skip(index + 1));
        index += 1;
    }
    None
}

/// The current tips that can become newly materialized integration proofs this pass: the
/// resolved branch tips, other than the trunk, recorded for the observed predecessors.
pub fn observed_predecessor_target_tips(
    facts: &RepositoryTargetFacts,
    graph_predecessors: &Vec<ReservationId>,
    requested_before: Option<&ReservationId>,
) -> (tips: Vec<GitObjectId>)
    ensures
        texts(tips@).to_set() == predecessor_tips(
            *facts,
            observed_predecessors(
                graph_predecessors@,
                match requested_before {
                    Some(before) => Some(*before),
                    None => None,
                },
            ),
        ),
{
    let mut tips: Vec<GitObjectId> = Vec::new();
    let mut index: usize = 0;
    proof {
        assert(texts(tips@).to_set() =~= Set::<Seq<char>>::empty());
    }
    while index < graph_predecessors.len()
        invariant
            index <= graph_predecessors@.len(),
            texts(tips@).to_set() == predecessor_tips(*facts, graph_predecessors@.take(index as int)),
        decreases graph_predecessors@.len() - index,
    {
        let ghost taken = graph_predecessors@.take(index + 1);
        assert(taken.drop_last() =~= graph_predecessors@.take(index as int));
        assert(taken.last() == graph_predecessors@[index as int]);
        if let Some(tip) = predecessor_target_tip(facts, &graph_predecessors[index]) {
            let ghost before = tips@;
            tips.push(tip);
            proof {
                assert(texts(tips@) =~= texts(before).push(tips@.last()@));
                texts(before).lemma_push_to_set_commute(tips@.last()@);
            }
        }
        index += 1;
    }
    assert(graph_predecessors@.take(graph_predecessors@.len() as int) =~= graph_predecessors@);
    if let Some(before) = requested_before {
        let ghost all = graph_predecessors@.push(*before);
        assert(all.drop_last() =~= graph_predecessors@);
        if let Some(tip) = predecessor_target_tip(facts, before) {
            let ghost earlier = tips@;
            tips.push(tip);
            proof {
                assert(texts(tips@) =~= texts(earlier).push(tips@.last()@));
                texts(earlier).lemma_push_to_set_commute(tips@.last()@);
            }
        }
    }
    tips
}

/// The branch a retained reservation integrates into.
fn reservation_target(reservation: &Reservation, repository_trunk: &IntegrationTarget) -> (target:
    IntegrationTarget)
    ensures
        target == target_of(*reservation, *repository_trunk),
{
    match &reservation.target {
        RecordedTarget::Recorded { target } => target.clone(),
        RecordedTarget::Unrecorded => repository_trunk.clone(),
    }
}

/// The reservations that integrate into one branch, in retained order.
fn ids_on_branch(reservations: &[Reservation], repository_trunk: &IntegrationTarget, branch: &String) -> (ids:
    Vec<ReservationId>)
    ensures
        ids@ == ids_on(reservations@, *repository_trunk, branch@),
{
    let mut ids: Vec<ReservationId> = Vec::new();
    let mut index: usize = 0;
    while index < reservations.len()
        invariant
            index <= reservations@.len(),
            ids@ == ids_on(reservations@.take(index as int), *repository_trunk, branch@),
        decreases reservations@.len() - index,
    {
        assert(reservations@.take(index + 1).drop_last() =~= reservations@.take(index as int));
        let target = reservation_target(&reservations[index], repository_trunk);
        if same_text(&target.short_name().to_owned(), branch) {
            ids.push(reservations[index].id.clone());
        }
        index += 1;
    }
    assert(reservations@.take(reservations@.len() as int) =~= reservations@);
    ids
}

/// Replay target assignments once before observing any branch: every branch retained work
/// integrates into, the trunk always among them, in wire order with its reservations in
/// retained order; and the branch of each reservation, in retained order.
pub fn group_reservations_by_target(reservations: &[Reservation], repository_trunk: &IntegrationTarget) -> (grouped: (
    Vec<(IntegrationTarget, Vec<ReservationId>)>,
    Vec<(ReservationId, IntegrationTarget)>,
))
    ensures
        forall|earlier: int, later: int|
            0 <= earlier < later < grouped.0@.len() ==> sorts_before(
                #[trigger] group_branches(grouped.0@)[earlier],
                #[trigger] group_branches(grouped.0@)[later],
            ),
        group_branches(grouped.0@).to_set() == grouped_branches(reservations@, *repository_trunk),
        forall|position: int|
            0 <= position < grouped.0@.len() ==> (#[trigger] grouped.0@[position]).1@ == ids_on(
                reservations@,
                *repository_trunk,
                grouped.0@[position].0.branch(),
            ),
        grouped.1@.len() == reservations@.len(),
        forall|position: int|
            0 <= position < reservations@.len() ==> #[trigger] grouped.1@[position] == (
                reservations@[position].id,
                target_of(reservations@[position], *repository_trunk),
            ),
{
    let mut branches: Vec<String> = Vec::new();
    insert_in_wire_order(&mut branches, &repository_trunk.short_name().to_owned());
    let mut recorded: Vec<(ReservationId, IntegrationTarget)> = Vec::new();
    let mut index: usize = 0;
    proof {
        assert(named(Seq::<String>::empty()) =~= Set::<Seq<char>>::empty());
        assert(named(branches@) =~= grouped_branches(reservations@.take(0), *repository_trunk));
    }
    while index < reservations.len()
        invariant
            index <= reservations@.len(),
            wire_ordered(branches@),
            named(branches@) == grouped_branches(reservations@.take(index as int), *repository_trunk),
            recorded@.len() == index,
            forall|position: int|
                0 <= position < index ==> #[trigger] recorded@[position] == (
                    reservations@[position].id,
                    target_of(reservations@[position], *repository_trunk),
                ),
        decreases reservations@.len() - index,
    {
        assert(reservations@.take(index + 1).drop_last() =~= reservations@.take(index as int));
        let target = reservation_target(&reservations[index], repository_trunk);
        insert_in_wire_order(&mut branches, &target.short_name().to_owned());
        recorded.push((reservations[index].id.clone(), target));
        index += 1;
    }
    assert(reservations@.take(reservations@.len() as int) =~= reservations@);
    let mut groups: Vec<(IntegrationTarget, Vec<ReservationId>)> = Vec::new();
    let mut position: usize = 0;
    while position < branches.len()
        invariant
            position <= branches@.len(),
            groups@.len() == position,
            forall|earlier: int| 0 <= earlier < position ==> group_branches(groups@)[earlier] == #[trigger] branches@[earlier]@,
            forall|earlier: int|
                0 <= earlier < position ==> (#[trigger] groups@[earlier]).1@ == ids_on(
                    reservations@,
                    *repository_trunk,
                    groups@[earlier].0.branch(),
                ),
        decreases branches@.len() - position,
    {
        let ids = ids_on_branch(reservations, repository_trunk, &branches[position]);
        let target = IntegrationTarget::from_branch_argument(branches[position].as_str());
        groups.push((target, ids));
        position += 1;
    }
    proof {
        assert(group_branches(groups@) =~= texts(branches@));
    }
    (groups, recorded)
}

/// Whether a worktree already holds cover for a branch's parent: some unreleased reservation
/// of that worktree integrates into the parent.
pub open spec fn holds_cover(
    reservations: Seq<Reservation>,
    worktree: Seq<char>,
    parent: Seq<char>,
    repository_trunk: IntegrationTarget,
) -> bool {
    exists|position: int|
        0 <= position < reservations.len() && (#[trigger] reservations[position]).actor.worktree@ == worktree
            && !(reservations[position].lifecycle is Released) && target_of(
            reservations[position],
            repository_trunk,
        ).branch() == parent
}

/// Whether the worktree checked out on a branch already holds its cover, so that no cover
/// claim is appended: one of its unreleased reservations integrates into the branch's parent,
/// an unrecorded target counting as the repository trunk.
pub fn worktree_holds_cover(
    reservations: &[Reservation],
    worktree: &WorktreeId,
    parent: &IntegrationTarget,
    repository_trunk: &IntegrationTarget,
) -> (covered: bool)
    ensures
        covered == holds_cover(reservations@, worktree@, parent.branch(), *repository_trunk),
{
    let mut index: usize = 0;
    while index < reservations.len()
        invariant
            index <= reservations@.len(),
            forall|earlier: int|
                0 <= earlier < index ==> !((#[trigger] reservations@[earlier]).actor.worktree@ == worktree@
                    && !(reservations@[earlier].lifecycle is Released) && target_of(
                    reservations@[earlier],
                    *repository_trunk,
                ).branch() == parent.branch()),
        decreases reservations@.len() - index,
    {
        let reservation = &reservations[index];
        let released = match reservation.lifecycle {
            ReservationLifecycle::Released { .. } => true,
            _ => false,
        };
        if same_text(&reservation.actor.worktree, worktree) && !released && reservation_target(
            reservation,
            repository_trunk,
        ).same_as(parent) {
            return true;
        }
        index += 1;
    }
    false
}

/// The reservations of every group, other than the trunk's, whose branch the observation found
/// missing, in group order.
pub open spec fn missing_group_ids(
    groups: Seq<(IntegrationTarget, Vec<ReservationId>)>,
    facts: RepositoryTargetFacts,
) -> Seq<ReservationId>
    decreases groups.len(),
{
    if groups.len() == 0 {
        Seq::empty()
    } else {
        let earlier = missing_group_ids(groups.drop_last(), facts);
        let last = groups.last();
        if last.0.branch() != facts.repository_trunk.branch() && missing_in(facts.targets@, last.0.branch()) {
            earlier + last.1@
        } else {
            earlier
        }
    }
}

/// Judge the reservations of a missing branch with the trunk: the trunk's group is extended,
/// in group order, by the reservations of every other group whose branch the observation
/// found missing; every other group stays as it is.
pub fn fold_missing_targets_into_trunk(
    facts: &RepositoryTargetFacts,
    groups: Vec<(IntegrationTarget, Vec<ReservationId>)>,
) -> (folded: Vec<(IntegrationTarget, Vec<ReservationId>)>)
    ensures
        folded@.len() == groups@.len(),
        forall|position: int|
            0 <= position < groups@.len() ==> (#[trigger] folded@[position]).0 == groups@[position].0 && folded@[position].1@
                == if groups@[position].0.branch() == facts.repository_trunk.branch() {
                groups@[position].1@ + missing_group_ids(groups@, *facts)
            } else {
                groups@[position].1@
            },
{
    let mut missing: Vec<ReservationId> = Vec::new();
    let mut index: usize = 0;
    while index < groups.len()
        invariant
            index <= groups@.len(),
            missing@ == missing_group_ids(groups@.take(index as int), *facts),
        decreases groups@.len() - index,
    {
        assert(groups@.take(index + 1).drop_last() =~= groups@.take(index as int));
        let target = &groups[index].0;
        let gone = match facts.observation(target) {
            Some(TargetObservation::Missing) => true,
            _ => false,
        };
        if !target.same_as(&facts.repository_trunk) && gone {
            let ids = &groups[index].1;
            let ghost before = missing@;
            let mut position: usize = 0;
            while position < ids.len()
                invariant
                    position <= ids@.len(),
                    missing@ == before + ids@.take(position as int),
                decreases ids@.len() - position,
            {
                missing.push(ids[position].clone());
                assert(ids@.take(position + 1) =~= ids@.take(position as int).push(ids@[position as int]));
                position += 1;
            }
            assert(ids@.take(ids@.len() as int) =~= ids@);
        }
        index += 1;
    }
    assert(groups@.take(groups@.len() as int) =~= groups@);
    let ghost original = groups@;
    let ghost all_missing = missing@;
    let mut remaining = groups;
    let mut folded: Vec<(IntegrationTarget, Vec<ReservationId>)> = Vec::new();
    while remaining.len() > 0
        invariant
            folded@.len() + remaining@.len() == original.len(),
            remaining@ == original.skip(folded@.len() as int),
            all_missing == missing_group_ids(original, *facts),
            missing@ == all_missing,
            forall|position: int|
                0 <= position < folded@.len() ==> (#[trigger] folded@[position]).0 == original[position].0
                    && folded@[position].1@ == if original[position].0.branch() == facts.repository_trunk.branch() {
                    original[position].1@ + all_missing
                } else {
                    original[position].1@
                },
        decreases remaining@.len(),
    {
        let ghost at = folded@.len() as int;
        let (target, mut ids) = remaining.remove(0);
        assert(remaining@ =~= original.skip(at + 1));
        if target.same_as(&facts.repository_trunk) {
            let ghost before = ids@;
            let mut position: usize = 0;
            while position < missing.len()
                invariant
                    position <= missing@.len(),
                    ids@ == before + missing@.take(position as int),
                decreases missing@.len() - position,
            {
                ids.push(missing[position].clone());
                assert(missing@.take(position + 1) =~= missing@.take(position as int).push(missing@[position as int]));
                position += 1;
            }
            assert(missing@.take(missing@.len() as int) =~= missing@);
        }
        folded.push((target, ids));
    }
    folded
}

/// Whether a group of reservations recorded on a branch is judged this pass, and at which tip.
pub fn group_judged_tip(facts: &RepositoryTargetFacts, target: &IntegrationTarget) -> (judged: Option<JudgedTargetTip>)
    ensures
        judged == group_judgment(*facts, target.branch()),
{
    let observed = facts.observation(target);
    let missing = match observed {
        Some(TargetObservation::Missing) => true,
        _ => false,
    };
    if missing && !target.same_as(&facts.repository_trunk) {
        return None;
    }
    match observed {
        Some(TargetObservation::Resolved(commit)) => Some(JudgedTargetTip::Resolved(commit.clone())),
        _ => Some(JudgedTargetTip::ObjectUnknown),
    }
}

/// The merge extent observed for a holder in a worktree against a parent branch.
fn observed_holder_extent<'extents>(
    extents: &'extents [((WorktreeId, IntegrationTarget), MergeExtent)],
    worktree: &WorktreeId,
    parent: &IntegrationTarget,
) -> (found: Option<&'extents MergeExtent>)
    ensures
        match found {
            Some(extent) => holder_extent(extents@, worktree@, parent.branch()) == Some(*extent),
            None => holder_extent(extents@, worktree@, parent.branch()) is None,
        },
{
    let mut index: usize = 0;
    assert(extents@.skip(0) =~= extents@);
    while index < extents.len()
        invariant
            index <= extents@.len(),
            holder_extent(extents@, worktree@, parent.branch()) == holder_extent(
                extents@.skip(index as int),
                worktree@,
                parent.branch(),
            ),
        decreases extents@.len() - index,
    {
        assert(extents@.skip(index as int)[0] == extents@[index as int]);
        let holder = &extents[index].0;
        if same_text(&holder.0, worktree) && holder.1.same_as(parent) {
            return Some(&extents[index].1);
        }
        assert(extents@.skip(index as int).drop_first() =~= extents@.skip(index + 1));
        index += 1;
    }
    None
}

/// Whether an unreleased reservation of this worktree integrates into this branch.
fn holds_work_on(
    reservations: &[Reservation],
    facts: &RepositoryTargetFacts,
    worktree: &WorktreeId,
    parent: &IntegrationTarget,
) -> (holds: bool)
    ensures
        holds == holds_on(reservations@, *facts, worktree@, parent.branch()),
{
    let mut index: usize = 0;
    while index < reservations.len()
        invariant
            index <= reservations@.len(),
            forall|earlier: int|
                0 <= earlier < index ==> !holds_in(#[trigger] reservations@[earlier], *facts, worktree@, parent.branch()),
        decreases reservations@.len() - index,
    {
        let reservation = &reservations[index];
        let released = match reservation.lifecycle {
            ReservationLifecycle::Released { .. } => true,
            _ => false,
        };
        if same_text(&reservation.actor.worktree, worktree) && !released
            && facts.recorded_target(&reservation.id).same_as(parent) {
            assert(holds_in(reservations@[index as int], *facts, worktree@, parent.branch()));
            return true;
        }
        index += 1;
    }
    false
}

/// A cover counts only when this pass observed its holder against the branch's current tip:
/// the branches whose cover requirement is met, in requirement order.
pub fn covered_targets_for_pass(
    reservations: &[Reservation],
    facts: &RepositoryTargetFacts,
    cover_requirements: &[(IntegrationTarget, (WorktreeId, IntegrationTarget))],
    observed_by_holder: &[((WorktreeId, IntegrationTarget), MergeExtent)],
) -> (covered: Vec<IntegrationTarget>)
    ensures
        covered_branches(covered@) == covered_targets(cover_requirements@, reservations@, *facts, observed_by_holder@),
{
    let mut covered: Vec<IntegrationTarget> = Vec::new();
    let mut index: usize = 0;
    assert(covered_branches(covered@) =~= Seq::<Seq<char>>::empty());
    while index < cover_requirements.len()
        invariant
            index <= cover_requirements@.len(),
            covered_branches(covered@) == covered_targets(
                cover_requirements@.take(index as int),
                reservations@,
                *facts,
                observed_by_holder@,
            ),
        decreases cover_requirements@.len() - index,
    {
        assert(cover_requirements@.take(index + 1).drop_last() =~= cover_requirements@.take(index as int));
        let (branch, (worktree, parent)) = &cover_requirements[index];
        let met = match facts.observation(branch) {
            Some(TargetObservation::Resolved(tip)) => match observed_holder_extent(observed_by_holder, worktree, parent) {
                Some(MergeExtent::Protected { key, .. }) => same_text(&key.head, tip) && holds_work_on(
                    reservations,
                    facts,
                    worktree,
                    parent,
                ),
                Some(MergeExtent::Empty { key }) => same_text(&key.head, tip) && holds_work_on(
                    reservations,
                    facts,
                    worktree,
                    parent,
                ),
                _ => false,
            },
            _ => false,
        };
        if met {
            let ghost before = covered@;
            covered.push(branch.clone());
            assert(covered_branches(covered@) =~= covered_branches(before).push(branch.branch()));
        }
        index += 1;
    }
    assert(cover_requirements@.take(cover_requirements@.len() as int) =~= cover_requirements@);
    covered
}

/// Whether a reservation is judged when the proposed target moves.
pub fn judged_at_proposed_target(facts: &RepositoryTargetFacts, reservation_id: &ReservationId, proposed: &IntegrationTarget) -> (judged:
    bool)
    ensures
        judged == judged_at_proposed(*facts, reservation_id@, proposed.branch()),
{
    let recorded = facts.recorded_target(reservation_id);
    let missing = match facts.observation(&recorded) {
        Some(TargetObservation::Missing) => true,
        _ => false,
    };
    recorded.same_as(proposed) || (proposed.same_as(&facts.repository_trunk) && missing)
}

/// Copy a branch observation.
fn copy_observation(observation: &TargetObservation) -> (copy: TargetObservation)
    ensures
        copy == *observation,
{
    match observation {
        TargetObservation::Resolved(commit) => TargetObservation::Resolved(commit.clone()),
        TargetObservation::Missing => TargetObservation::Missing,
        TargetObservation::ObjectUnknown => TargetObservation::ObjectUnknown,
    }
}

/// Copy a list of branch observations.
pub fn copy_targets(targets: &Vec<(IntegrationTarget, TargetObservation)>) -> (copy: Vec<(IntegrationTarget, TargetObservation)>)
    ensures
        copy@ == targets@,
{
    let mut copy: Vec<(IntegrationTarget, TargetObservation)> = Vec::new();
    let mut index: usize = 0;
    while index < targets.len()
        invariant
            index <= targets@.len(),
            copy@ =~= targets@.take(index as int),
        decreases targets@.len() - index,
    {
        copy.push((targets[index].0.clone(), copy_observation(&targets[index].1)));
        index += 1;
        assert(copy@ =~= targets@.take(index as int));
    }
    assert(targets@.take(index as int) =~= targets@);
    copy
}

/// Every judged identity is a retained reservation's.
pub proof fn judged_entry_is_retained(
    reservations: Seq<Reservation>,
    facts: RepositoryTargetFacts,
    proposed: Seq<char>,
    position: int,
)
    requires
        0 <= position < judged_ids(reservations, facts, proposed).len(),
    ensures
        exists|index: int| 0 <= index < reservations.len() && (#[trigger] reservations[index]).id == judged_ids(reservations, facts, proposed)[position],
    decreases reservations.len(),
{
    let earlier = judged_ids(reservations.drop_last(), facts, proposed);
    if position < earlier.len() {
        judged_entry_is_retained(reservations.drop_last(), facts, proposed, position);
        let index = choose|index: int| 0 <= index < reservations.drop_last().len() && (#[trigger] reservations.drop_last()[index]).id == earlier[position];
        assert(reservations[index] == reservations.drop_last()[index]);
    } else {
        assert(reservations[reservations.len() - 1] == reservations.last());
    }
}

/// Every judged reservation's identity is among the judged ones.
pub proof fn judged_reservation_is_listed(
    reservations: Seq<Reservation>,
    facts: RepositoryTargetFacts,
    proposed: Seq<char>,
    index: int,
)
    requires
        0 <= index < reservations.len(),
        judged_at_proposed(facts, reservations[index].id@, proposed),
    ensures
        exists|position: int| 0 <= position < judged_ids(reservations, facts, proposed).len() && #[trigger] judged_ids(reservations, facts, proposed)[position] == reservations[index].id,
    decreases reservations.len(),
{
    let earlier = judged_ids(reservations.drop_last(), facts, proposed);
    if index < reservations.len() - 1 {
        assert(reservations.drop_last()[index] == reservations[index]);
        judged_reservation_is_listed(reservations.drop_last(), facts, proposed, index);
        let position = choose|position: int| 0 <= position < earlier.len() && #[trigger] earlier[position] == reservations[index].id;
        assert(judged_ids(reservations, facts, proposed)[position] == earlier[position]);
        assert(position < judged_ids(reservations, facts, proposed).len());
    } else {
        assert(judged_ids(reservations, facts, proposed)[earlier.len() as int] == reservations[index].id);
    }
}

/// Every branch that retained work leaves waiting for a cover, in wire order, with the
/// waiting reservations recorded on it in retained order.
pub fn waiting_cover_targets(reservations: &[Reservation], facts: &RepositoryTargetFacts) -> (groups:
    Vec<(IntegrationTarget, Vec<ReservationId>)>)
    ensures
        forall|earlier: int, later: int|
            0 <= earlier < later < groups@.len() ==> sorts_before(
                #[trigger] group_branches(groups@)[earlier],
                #[trigger] group_branches(groups@)[later],
            ),
        group_branches(groups@).to_set() == waiting_branches(reservations@, *facts),
        forall|position: int|
            0 <= position < groups@.len() ==> (#[trigger] groups@[position]).1@ == waiting_ids_on(
                reservations@,
                *facts,
                groups@[position].0.branch(),
            ),
{
    let mut branches: Vec<String> = Vec::new();
    let mut index: usize = 0;
    proof {
        assert(named(branches@) =~= Set::<Seq<char>>::empty());
    }
    while index < reservations.len()
        invariant
            index <= reservations@.len(),
            wire_ordered(branches@),
            named(branches@) == waiting_branches(reservations@.take(index as int), *facts),
        decreases reservations@.len() - index,
    {
        let reservation = &reservations[index];
        assert(reservations@.take(index + 1).drop_last() =~= reservations@.take(index as int));
        if reservation_waits(facts, reservation) {
            let target = facts.recorded_target(&reservation.id);
            let branch = target.short_name().to_owned();
            insert_in_wire_order(&mut branches, &branch);
        }
        index += 1;
    }
    assert(reservations@.take(reservations@.len() as int) =~= reservations@);
    let mut groups: Vec<(IntegrationTarget, Vec<ReservationId>)> = Vec::new();
    let mut position: usize = 0;
    while position < branches.len()
        invariant
            position <= branches@.len(),
            groups@.len() == position,
            forall|earlier: int| 0 <= earlier < position ==> group_branches(groups@)[earlier] == #[trigger] branches@[earlier]@,
            forall|earlier: int|
                0 <= earlier < position ==> (#[trigger] groups@[earlier]).1@ == waiting_ids_on(
                    reservations@,
                    *facts,
                    groups@[earlier].0.branch(),
                ),
        decreases branches@.len() - position,
    {
        let ids = waiting_on(reservations, facts, &branches[position]);
        let target = IntegrationTarget::from_branch_argument(branches[position].as_str());
        groups.push((target, ids));
        position += 1;
    }
    proof {
        assert(group_branches(groups@) =~= texts(branches@));
    }
    groups
}

} // verus!
