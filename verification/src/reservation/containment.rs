//! Foreign committed work the acting checkout's HEAD already contains.
//!
//! A worktree stacked on another branch carries that branch's commits, so their paths are
//! already part of its history rather than work it could collide with. A foreign holder
//! therefore protects only what its head would still bring to the acting HEAD, plus its
//! uncommitted paths.
use vstd::prelude::*;

use crate::ids::contains_text;
use crate::ids::same_text;
use crate::ids::GitObjectId;
use crate::ids::ReservationScopePath;
use crate::ids::WorktreeId;
use crate::reservation::merge_extent::MergeExtent;
use crate::reservation::merge_extent::MergeExtentKey;
use crate::reservation::merge_extent::RetainedMergeEvidence;
use crate::reservation::record::IntegrationTarget;
use crate::reservation::record::RecordedTarget;
use crate::reservation::record::Reservation;
use crate::scope::ReservationScope;
use crate::scope::ReservationScopeSet;

verus! {

/// Which branch the acting checkout is judged against, when that could be established.
#[derive(Debug, PartialEq, Eq)]
pub enum ContainmentTarget {
    /// The acting checkout's effective target and the repository trunk.
    Known { acting: IntegrationTarget, repository_trunk: IntegrationTarget },
    /// A reference read failed, so no holder's protection may be narrowed.
    Unavailable,
}

/// Committed paths a holder head adds beyond the acting target's tip, when a holder of that
/// head records another target.
#[derive(Debug, PartialEq, Eq)]
pub enum CrossTargetRemainder {
    /// Every holder of this head records the acting target.
    NotApplicable,
    /// The cross-target comparison could not be read.
    Unavailable,
    /// The holder head adds exactly these paths beyond the acting target's tip.
    Paths(Vec<ReservationScopePath>),
}

/// The committed paths one holder head adds beyond its merge base with the acting HEAD.
#[derive(Debug, PartialEq, Eq)]
pub struct HolderHeadRemainder {
    /// The observed holder head.
    pub head: GitObjectId,
    /// Paths the head still brings to the acting HEAD.
    pub committed_paths: Vec<ReservationScopePath>,
    /// Paths the head brings beyond the acting target, for holders of another target.
    pub outside_target: CrossTargetRemainder,
}

/// What each observed foreign holder head would still bring to the acting checkout's HEAD.
#[derive(Debug, PartialEq, Eq)]
pub struct ActingHeadContainment {
    /// The worktree whose HEAD was observed.
    pub acting_worktree: WorktreeId,
    /// The acting target, when it could be established.
    pub target: ContainmentTarget,
    /// One entry per distinct observed holder head.
    pub holder_heads: Vec<HolderHeadRemainder>,
}

/// Whether a holder's recorded target is the acting reservation's target.
#[derive(Clone, Copy, Debug, PartialEq, Eq, Structural)]
pub enum HolderTargetRelation {
    /// The holder records the acting target.
    SameTarget,
    /// The holder records another target.
    OtherTarget,
}

/// Whether committed work at this path still remains for the acting checkout to collide with.
pub open spec fn committed_remains(
    observed: HolderHeadRemainder,
    path: Seq<char>,
    relation: HolderTargetRelation,
) -> bool {
    observed.committed_paths.deep_view().contains(path) && (relation is SameTarget
        || match observed.outside_target {
        CrossTargetRemainder::Paths(paths) => paths.deep_view().contains(path),
        _ => true,
    })
}

/// Whether committed work at this path still remains for the acting checkout to collide with.
///
/// A holder of another target protects a committed path only while that path is also beyond
/// the acting target's tip, unless that comparison is unavailable or not needed.
pub fn committed_path_remains(
    observed: &HolderHeadRemainder,
    path: &ReservationScopePath,
    holder_target_relation: HolderTargetRelation,
) -> (remains: bool)
    ensures
        remains == committed_remains(*observed, path@, holder_target_relation),
{
    contains_text(&observed.committed_paths, path) && (match holder_target_relation {
        HolderTargetRelation::SameTarget => true,
        HolderTargetRelation::OtherTarget => match &observed.outside_target {
            CrossTargetRemainder::Paths(paths) => contains_text(paths, path),
            _ => true,
        },
    })
}

/// The target a holder is judged at: its recorded target, or the repository trunk for a claim
/// that predates target recording.
pub open spec fn judged_target(
    recorded_target: RecordedTarget,
    repository_trunk: IntegrationTarget,
) -> IntegrationTarget {
    match recorded_target {
        RecordedTarget::Recorded { target } => target,
        RecordedTarget::Unrecorded => repository_trunk,
    }
}

/// Select the target a holder is judged at.
pub fn holder_target<'target>(
    recorded_target: &'target RecordedTarget,
    repository_trunk: &'target IntegrationTarget,
) -> (target: &'target IntegrationTarget)
    ensures
        *target == judged_target(*recorded_target, *repository_trunk),
{
    match recorded_target {
        RecordedTarget::Recorded { target } => target,
        RecordedTarget::Unrecorded => repository_trunk,
    }
}

/// The key of a holder's committed protection: a successful protected answer, or one retained
/// through failure.
pub open spec fn committed_key(extent: MergeExtent) -> Option<MergeExtentKey> {
    match extent {
        MergeExtent::Protected { key, .. } => Some(key),
        MergeExtent::Unavailable {
            retained_evidence: RetainedMergeEvidence::Protected { key, .. },
            ..
        } => Some(key),
        _ => None,
    }
}

/// Borrow the key of a holder's committed protection, if it has one.
pub fn committed_protection_key(extent: &MergeExtent) -> (key: Option<&MergeExtentKey>)
    ensures
        match committed_key(*extent) {
            Some(expected) => key matches Some(found) && *found == expected,
            None => key is None,
        },
{
    match extent {
        MergeExtent::Protected { key, .. } => Some(key),
        MergeExtent::Unavailable { retained_evidence, .. } => match retained_evidence {
            RetainedMergeEvidence::Protected { key, .. } => Some(key),
            _ => None,
        },
        _ => None,
    }
}

/// Whether the observation at `index` is the first one of this head.
pub open spec fn first_observation_of(
    heads: Seq<HolderHeadRemainder>,
    head: Seq<char>,
    index: int,
) -> bool {
    &&& 0 <= index < heads.len()
    &&& heads[index].head@ == head
    &&& forall|earlier: int| 0 <= earlier < index ==> heads[earlier].head@ != head
}

/// Whether some observation names this head.
pub open spec fn observes_head(heads: Seq<HolderHeadRemainder>, head: Seq<char>) -> bool {
    exists|index: int| 0 <= index < heads.len() && heads[index].head@ == head
}

/// Whether a scope of this holder stays protected given the observation of its head.
pub open spec fn scope_remains(
    observed: HolderHeadRemainder,
    key: MergeExtentKey,
    relation: HolderTargetRelation,
    scope: ReservationScope,
) -> bool {
    committed_remains(observed, scope.path@, relation) || key.working_tree.tracked_paths.deep_view().contains(
        scope.path@,
    ) || key.working_tree.untracked_paths.deep_view().contains(scope.path@)
}

/// Find the first observation of a head.
fn find_observed(heads: &Vec<HolderHeadRemainder>, head: &GitObjectId) -> (found: Option<usize>)
    ensures
        match found {
            Some(index) => first_observation_of(heads@, head@, index as int),
            None => !observes_head(heads@, head@),
        },
{
    let mut index: usize = 0;
    while index < heads.len()
        invariant
            index <= heads@.len(),
            forall|earlier: int| 0 <= earlier < index ==> heads@[earlier].head@ != head@,
        decreases heads@.len() - index,
    {
        if same_text(&heads[index].head, head) {
            return Some(index);
        }
        index += 1;
    }
    None
}

impl ActingHeadContainment {
    /// A containment that narrows nothing.
    pub fn unavailable(acting_worktree: WorktreeId) -> (containment: Self)
        ensures
            containment.acting_worktree == acting_worktree,
            containment.target is Unavailable,
            containment.holder_heads@.len() == 0,
    {
        ActingHeadContainment {
            acting_worktree,
            target: ContainmentTarget::Unavailable,
            holder_heads: Vec::new(),
        }
    }

    /// Narrow a foreign holder's extent to paths the acting HEAD does not already contain.
    ///
    /// A holder whose head was not observed, or whose extent has no key, keeps every scope,
    /// as does every holder when the acting target is unknown or another worktree asks.
    pub fn remaining_protection(
        &self,
        holder: &Reservation,
        acting_worktree: &WorktreeId,
        scopes: &ReservationScopeSet,
    ) -> (remaining: Vec<ReservationScope>)
        ensures
            ({
                let keyed = committed_key(holder.merge_extent);
                if acting_worktree@ != self.acting_worktree@ || keyed is None || !observes_head(
                    self.holder_heads@,
                    keyed->Some_0.head@,
                ) || self.target is Unavailable {
                    remaining@ == scopes.scopes()
                } else {
                    exists|index: int|
                        first_observation_of(self.holder_heads@, keyed->Some_0.head@, index) && ({
                            let relation = if judged_target(
                                holder.target,
                                self.target->repository_trunk,
                            ).branch() == self.target->acting.branch() {
                                HolderTargetRelation::SameTarget
                            } else {
                                HolderTargetRelation::OtherTarget
                            };
                            remaining@ == scopes.scopes().filter(
                                |scope: ReservationScope|
                                    scope_remains(
                                        self.holder_heads@[index],
                                        keyed->Some_0,
                                        relation,
                                        scope,
                                    ),
                            )
                        })
                }
            }),
    {
        let all = scopes.as_slice();
        if !same_text(acting_worktree, &self.acting_worktree) {
            return copy_scopes(all);
        }
        let key = match committed_protection_key(&holder.merge_extent) {
            Some(key) => key,
            None => {
                return copy_scopes(all);
            },
        };
        let found = find_observed(&self.holder_heads, &key.head);
        let index = match found {
            Some(index) => index,
            None => {
                return copy_scopes(all);
            },
        };
        let (acting, repository_trunk) = match &self.target {
            ContainmentTarget::Known { acting, repository_trunk } => (acting, repository_trunk),
            ContainmentTarget::Unavailable => {
                return copy_scopes(all);
            },
        };
        let observed = &self.holder_heads[index];
        let relation = if holder_target(&holder.target, repository_trunk).same_as(acting) {
            HolderTargetRelation::SameTarget
        } else {
            HolderTargetRelation::OtherTarget
        };
        let ghost keep = |scope: ReservationScope|
            scope_remains(self.holder_heads@[index as int], *key, relation, scope);
        let mut remaining: Vec<ReservationScope> = Vec::new();
        let mut position: usize = 0;
        while position < all.len()
            invariant
                position <= all@.len(),
                all@ == scopes.scopes(),
                *observed == self.holder_heads@[index as int],
                keep == (|scope: ReservationScope|
                    scope_remains(self.holder_heads@[index as int], *key, relation, scope)),
                remaining@ == all@.take(position as int).filter(keep),
            decreases all@.len() - position,
        {
            let scope = &all[position];
            let stays = committed_path_remains(observed, &scope.path, relation) || contains_text(
                &key.working_tree.tracked_paths,
                &scope.path,
            ) || contains_text(&key.working_tree.untracked_paths, &scope.path);
            proof {
                assert(all@.take(position + 1).drop_last() == all@.take(position as int));
                assert(all@.take(position + 1).last() == *scope);
                reveal(Seq::filter);
            }
            if stays {
                remaining.push(scope.clone());
            }
            position += 1;
        }
        assert(all@.take(all@.len() as int) == all@);
        remaining
    }
}

/// Copy every scope, in order.
fn copy_scopes(scopes: &[ReservationScope]) -> (copy: Vec<ReservationScope>)
    ensures
        copy@ == scopes@,
{
    let mut copy: Vec<ReservationScope> = Vec::new();
    let mut index: usize = 0;
    while index < scopes.len()
        invariant
            index <= scopes@.len(),
            copy@ == scopes@.take(index as int),
        decreases scopes@.len() - index,
    {
        copy.push(scopes[index].clone());
        assert(scopes@.take(index + 1) == scopes@.take(index as int).push(scopes@[index as int]));
        index += 1;
    }
    assert(scopes@.take(scopes@.len() as int) == scopes@);
    copy
}

/// Narrowing only ever removes scopes: every scope that remains protected was declared, and a
/// declared scope whose path is uncommitted in the holder's checkout always remains.
pub proof fn narrowing_keeps_uncommitted_and_adds_nothing(
    scopes: Seq<ReservationScope>,
    observed: HolderHeadRemainder,
    key: MergeExtentKey,
    relation: HolderTargetRelation,
    scope: ReservationScope,
)
    ensures
        scopes.filter(|candidate: ReservationScope| scope_remains(observed, key, relation, candidate)).contains(
            scope,
        ) ==> scopes.contains(scope),
        scopes.contains(scope) && (key.working_tree.tracked_paths.deep_view().contains(scope.path@)
            || key.working_tree.untracked_paths.deep_view().contains(scope.path@)) ==> scopes.filter(
            |candidate: ReservationScope| scope_remains(observed, key, relation, candidate),
        ).contains(scope),
{
    let keep = |candidate: ReservationScope| scope_remains(observed, key, relation, candidate);
    broadcast use vstd::seq_lib::group_filter_ensures;
    if scopes.filter(keep).contains(scope) {
        scopes.lemma_filter_contains_rev(keep, scope);
    }
    if scopes.contains(scope) && keep(scope) {
        let index = choose|index: int| 0 <= index < scopes.len() && scopes[index] == scope;
        assert(keep(scopes[index]));
    }
}

/// A holder of the acting target protects every committed path its head still brings, while a
/// holder of another target additionally needs that path beyond the acting target's tip.
pub proof fn other_targets_protect_no_more_than_the_same_target(
    observed: HolderHeadRemainder,
    path: Seq<char>,
)
    ensures
        committed_remains(observed, path, HolderTargetRelation::OtherTarget) ==> committed_remains(
            observed,
            path,
            HolderTargetRelation::SameTarget,
        ),
        committed_remains(observed, path, HolderTargetRelation::SameTarget)
            <==> observed.committed_paths.deep_view().contains(path),
{
}

/// The committed-protection heads of foreign holders, each with the target its holder is
/// judged at, in reservation order.
pub open spec fn foreign_protection_keys(
    reservations: Seq<Reservation>,
    acting_worktree: Seq<char>,
    repository_trunk: IntegrationTarget,
) -> Seq<(GitObjectId, IntegrationTarget)>
    decreases reservations.len(),
{
    if reservations.len() == 0 {
        Seq::empty()
    } else {
        let earlier = foreign_protection_keys(
            reservations.drop_last(),
            acting_worktree,
            repository_trunk,
        );
        let holder = reservations.last();
        match committed_key(holder.merge_extent) {
            Some(key) => if holder.actor.worktree@ != acting_worktree {
                earlier.push((key.head, judged_target(holder.target, repository_trunk)))
            } else {
                earlier
            },
            None => earlier,
        }
    }
}

/// Collect the committed-protection heads of foreign holders with their judged targets.
fn foreign_protection_heads(
    reservations: &[Reservation],
    acting_worktree: &WorktreeId,
    repository_trunk: &IntegrationTarget,
) -> (keys: Vec<(GitObjectId, IntegrationTarget)>)
    ensures
        keys@ == foreign_protection_keys(reservations@, acting_worktree@, *repository_trunk),
{
    let mut keys: Vec<(GitObjectId, IntegrationTarget)> = Vec::new();
    let mut index: usize = 0;
    while index < reservations.len()
        invariant
            index <= reservations@.len(),
            keys@ == foreign_protection_keys(
                reservations@.take(index as int),
                acting_worktree@,
                *repository_trunk,
            ),
        decreases reservations@.len() - index,
    {
        assert(reservations@.take(index + 1).drop_last() =~= reservations@.take(index as int));
        let holder = &reservations[index];
        match committed_protection_key(&holder.merge_extent) {
            Some(key) => {
                if !same_text(&holder.actor.worktree, acting_worktree) {
                    let target = holder_target(&holder.target, repository_trunk).clone();
                    keys.push((key.head.clone(), target));
                }
            },
            None => {},
        }
        index += 1;
    }
    assert(reservations@.take(reservations@.len() as int) =~= reservations@);
    keys
}

/// Whether the acting target's tip was missing, so that the repository trunk's tip was read.
pub open spec fn consults_trunk(
    acting_answer: Result<Option<GitObjectId>, ()>,
    acting_target: IntegrationTarget,
    repository_trunk: IntegrationTarget,
) -> bool {
    acting_answer == Ok::<Option<GitObjectId>, ()>(None) && acting_target.branch()
        != repository_trunk.branch()
}

/// The target containment is judged against and its tip, from the reference reads: the acting
/// target when its tip exists, else the repository trunk when it differs and its tip exists,
/// else none; `None` when a read failed.
pub open spec fn effective_target(
    acting_answer: Result<Option<GitObjectId>, ()>,
    trunk_answer: Result<Option<GitObjectId>, ()>,
    acting_target: IntegrationTarget,
    repository_trunk: IntegrationTarget,
) -> Option<Option<(IntegrationTarget, GitObjectId)>> {
    match acting_answer {
        Err(..) => None,
        Ok(Some(tip)) => Some(Some((acting_target, tip))),
        Ok(None) => if acting_target.branch() != repository_trunk.branch() {
            match trunk_answer {
                Err(..) => None,
                Ok(Some(tip)) => Some(Some((repository_trunk, tip))),
                Ok(None) => Some(None),
            }
        } else {
            Some(None)
        },
    }
}

/// Whether these reference reads, and the target they settle, are what the reader returned.
pub open spec fn reads_effective_target<ReadTip: Fn(&IntegrationTarget) -> Result<Option<GitObjectId>, ()>>(
    reference_tip: ReadTip,
    acting_answer: Result<Option<GitObjectId>, ()>,
    trunk_answer: Result<Option<GitObjectId>, ()>,
    acting_target: IntegrationTarget,
    repository_trunk: IntegrationTarget,
    effective: Option<Option<(IntegrationTarget, GitObjectId)>>,
) -> bool {
    &&& reference_tip.ensures((&acting_target,), acting_answer)
    &&& consults_trunk(acting_answer, acting_target, repository_trunk)
        ==> reference_tip.ensures((&repository_trunk,), trunk_answer)
    &&& effective == effective_target(acting_answer, trunk_answer, acting_target, repository_trunk)
}

/// Read which target containment is judged against, and its tip; `None` when a read failed.
fn effective_containment_target<ReadTip: Fn(&IntegrationTarget) -> Result<Option<GitObjectId>, ()>>(
    acting_target: &IntegrationTarget,
    repository_trunk: &IntegrationTarget,
    reference_tip: ReadTip,
) -> (effective: Option<Option<(IntegrationTarget, GitObjectId)>>)
    requires
        forall|target: &IntegrationTarget| reference_tip.requires((target,)),
    ensures
        exists|acting_answer: Result<Option<GitObjectId>, ()>, trunk_answer: Result<Option<GitObjectId>, ()>|
            #[trigger] reads_effective_target(
                reference_tip,
                acting_answer,
                trunk_answer,
                *acting_target,
                *repository_trunk,
                effective,
            ),
{
    let acting_answer = reference_tip(acting_target);
    let ghost acting_read = acting_answer;
    match acting_answer {
        Ok(Some(tip)) => {
            let effective = Some(Some((acting_target.clone(), tip)));
            assert(reads_effective_target(
                reference_tip,
                acting_read,
                acting_read,
                *acting_target,
                *repository_trunk,
                effective,
            ));
            effective
        },
        Ok(None) => {
            if acting_target.same_as(repository_trunk) {
                assert(reads_effective_target(
                    reference_tip,
                    acting_read,
                    acting_read,
                    *acting_target,
                    *repository_trunk,
                    Some(None),
                ));
                return Some(None);
            }
            let trunk_answer = reference_tip(repository_trunk);
            let ghost trunk_read = trunk_answer;
            let effective = match trunk_answer {
                Ok(Some(tip)) => Some(Some((repository_trunk.clone(), tip))),
                Ok(None) => Some(None),
                Err(()) => None,
            };
            assert(reads_effective_target(
                reference_tip,
                acting_read,
                trunk_read,
                *acting_target,
                *repository_trunk,
                effective,
            ));
            effective
        },
        Err(()) => {
            assert(reads_effective_target(
                reference_tip,
                acting_read,
                acting_read,
                *acting_target,
                *repository_trunk,
                None,
            ));
            None
        },
    }
}

/// Whether a holder of this head records a target other than the one containment is judged at.
pub open spec fn held_for_another_target(
    keys: Seq<(GitObjectId, IntegrationTarget)>,
    head: Seq<char>,
    target: IntegrationTarget,
) -> bool {
    exists|index: int|
        0 <= index < keys.len() && keys[index].0@ == head && #[trigger] keys[index].1.branch()
            != target.branch()
}

/// Whether a holder of this head records a target other than the one containment is judged at.
fn holds_another_target(
    keys: &Vec<(GitObjectId, IntegrationTarget)>,
    head: &GitObjectId,
    target: &IntegrationTarget,
) -> (found: bool)
    ensures
        found == held_for_another_target(keys@, head@, *target),
{
    let mut index: usize = 0;
    while index < keys.len()
        invariant
            index <= keys@.len(),
            forall|earlier: int|
                0 <= earlier < index ==> !(keys@[earlier].0@ == head@ && #[trigger] keys@[earlier].1.branch()
                    != target.branch()),
        decreases keys@.len() - index,
    {
        if same_text(&keys[index].0, head) && !keys[index].1.same_as(target) {
            assert(keys@[index as int].1.branch() != target.branch());
            return true;
        }
        index += 1;
    }
    false
}

/// Whether some key protects this head.
pub open spec fn names_key_head(keys: Seq<(GitObjectId, IntegrationTarget)>, head: Seq<char>) -> bool {
    exists|key: int| 0 <= key < keys.len() && #[trigger] keys[key].0@ == head
}

/// Whether comparing a head with a base once came back unreadable.
pub open spec fn comparison_failed<Unmerged: Fn(&GitObjectId, &GitObjectId) -> Result<
    Vec<ReservationScopePath>,
    (),
>>(unmerged_branch_paths: Unmerged, from: GitObjectId, head: GitObjectId) -> bool {
    exists|answer: Result<Vec<ReservationScopePath>, ()>|
        #[trigger] unmerged_branch_paths.ensures((&from, &head), answer) && answer is Err
}

/// Whether one head's observation is what the reads returned: nothing committed when the head
/// is the acting HEAD, else the paths it brings to the acting HEAD; and, when a holder of
/// that head records another target, what it brings beyond that target's tip.
pub open spec fn observed_remainder<Unmerged: Fn(&GitObjectId, &GitObjectId) -> Result<
    Vec<ReservationScopePath>,
    (),
>>(
    observed: HolderHeadRemainder,
    keys: Seq<(GitObjectId, IntegrationTarget)>,
    acting_head: GitObjectId,
    effective: Option<(IntegrationTarget, GitObjectId)>,
    unmerged_branch_paths: Unmerged,
) -> bool {
    &&& if observed.head@ == acting_head@ {
        observed.committed_paths@.len() == 0
    } else {
        unmerged_branch_paths.ensures(
            (&acting_head, &observed.head),
            Ok::<Vec<ReservationScopePath>, ()>(observed.committed_paths),
        )
    }
    &&& match effective {
        Some(judged) => if held_for_another_target(keys, observed.head@, judged.0) {
            if judged.1@ == observed.head@ {
                observed.outside_target matches CrossTargetRemainder::Paths(paths) && paths@.len()
                    == 0
            } else {
                match observed.outside_target {
                    CrossTargetRemainder::Paths(paths) => unmerged_branch_paths.ensures(
                        (&judged.1, &observed.head),
                        Ok::<Vec<ReservationScopePath>, ()>(paths),
                    ),
                    CrossTargetRemainder::Unavailable => comparison_failed(
                        unmerged_branch_paths,
                        judged.1,
                        observed.head,
                    ),
                    CrossTargetRemainder::NotApplicable => false,
                }
            }
        } else {
            observed.outside_target is NotApplicable
        },
        None => observed.outside_target is NotApplicable,
    }
}

/// Whether holder-head observations are complete and exact for these keys: each head once,
/// each one a key's head observed as the reads returned, and every key's head observed unless
/// reading what it brings to the acting HEAD failed.
pub open spec fn observes_heads<Unmerged: Fn(&GitObjectId, &GitObjectId) -> Result<
    Vec<ReservationScopePath>,
    (),
>>(
    heads: Seq<HolderHeadRemainder>,
    keys: Seq<(GitObjectId, IntegrationTarget)>,
    acting_head: GitObjectId,
    effective: Option<(IntegrationTarget, GitObjectId)>,
    unmerged_branch_paths: Unmerged,
) -> bool {
    &&& forall|first: int, second: int|
        0 <= first < second < heads.len() ==> #[trigger] heads[first].head@ != #[trigger] heads[second].head@
    &&& forall|index: int|
        0 <= index < heads.len() ==> observed_remainder(
            #[trigger] heads[index],
            keys,
            acting_head,
            effective,
            unmerged_branch_paths,
        )
    &&& forall|index: int|
        0 <= index < heads.len() ==> names_key_head(keys, #[trigger] heads[index].head@)
    &&& forall|key: int|
        0 <= key < keys.len() ==> observes_head(heads, #[trigger] keys[key].0@) || (keys[key].0@
            != acting_head@ && comparison_failed(unmerged_branch_paths, acting_head, keys[key].0))
}

/// Observe what each distinct foreign holder head still brings to the acting HEAD.
fn observe_holder_heads<Unmerged: Fn(&GitObjectId, &GitObjectId) -> Result<
    Vec<ReservationScopePath>,
    (),
>>(
    keys: &Vec<(GitObjectId, IntegrationTarget)>,
    acting_head: &GitObjectId,
    effective: &Option<(IntegrationTarget, GitObjectId)>,
    unmerged_branch_paths: Unmerged,
) -> (heads: Vec<HolderHeadRemainder>)
    requires
        forall|from: &GitObjectId, head: &GitObjectId| unmerged_branch_paths.requires((from, head)),
    ensures
        observes_heads(heads@, keys@, *acting_head, *effective, unmerged_branch_paths),
{
    let mut heads: Vec<HolderHeadRemainder> = Vec::new();
    let mut index: usize = 0;
    while index < keys.len()
        invariant
            index <= keys@.len(),
            forall|from: &GitObjectId, head: &GitObjectId| unmerged_branch_paths.requires((from, head)),
            forall|first: int, second: int|
                0 <= first < second < heads@.len() ==> #[trigger] heads@[first].head@
                    != #[trigger] heads@[second].head@,
            forall|observed: int|
                0 <= observed < heads@.len() ==> observed_remainder(
                    #[trigger] heads@[observed],
                    keys@,
                    *acting_head,
                    *effective,
                    unmerged_branch_paths,
                ),
            forall|observed: int|
                0 <= observed < heads@.len() ==> names_key_head(keys@, #[trigger] heads@[observed].head@),
            forall|key: int|
                0 <= key < index ==> observes_head(heads@, #[trigger] keys@[key].0@) || (keys@[key].0@
                    != acting_head@ && comparison_failed(
                    unmerged_branch_paths,
                    *acting_head,
                    keys@[key].0,
                )),
        decreases keys@.len() - index,
    {
        let head = &keys[index].0;
        if find_observed(&heads, head).is_some() {
            index += 1;
            continue;
        }
        let committed_paths = if same_text(head, acting_head) {
            Vec::new()
        } else {
            let compared = unmerged_branch_paths(acting_head, head);
            match compared {
                Ok(paths) => paths,
                Err(()) => {
                    assert(comparison_failed(unmerged_branch_paths, *acting_head, keys@[index as int].0));
                    index += 1;
                    continue;
                },
            }
        };
        let outside_target = match effective {
            Some((target, tip)) => {
                if holds_another_target(keys, head, target) {
                    if same_text(tip, head) {
                        CrossTargetRemainder::Paths(Vec::new())
                    } else {
                        match unmerged_branch_paths(tip, head) {
                            Ok(paths) => CrossTargetRemainder::Paths(paths),
                            Err(()) => CrossTargetRemainder::Unavailable,
                        }
                    }
                } else {
                    CrossTargetRemainder::NotApplicable
                }
            },
            None => CrossTargetRemainder::NotApplicable,
        };
        let observed = HolderHeadRemainder { head: head.clone(), committed_paths, outside_target };
        assert(observed_remainder(observed, keys@, *acting_head, *effective, unmerged_branch_paths));
        let ghost before = heads@;
        heads.push(observed);
        proof {
            assert(heads@[before.len() as int] == observed);
            assert(keys@[index as int].0@ == heads@[before.len() as int].head@);
            assert forall|key: int|
                0 <= key <= index implies observes_head(heads@, #[trigger] keys@[key].0@) || (
            keys@[key].0@ != acting_head@ && comparison_failed(
                unmerged_branch_paths,
                *acting_head,
                keys@[key].0,
            )) by {
                if key < index && observes_head(before, keys@[key].0@) {
                    let witness = choose|found: int|
                        0 <= found < before.len() && before[found].head@ == keys@[key].0@;
                    assert(heads@[witness] == before[witness]);
                }
                if key == index {
                    assert(heads@[before.len() as int].head@ == keys@[key].0@);
                }
            }
        }
        index += 1;
    }
    heads
}

/// Whether a containment is what observing foreign committed protection against this HEAD
/// yields, given what the reference reads and comparisons returned.
pub open spec fn observed_at_head<
    ReadTip: Fn(&IntegrationTarget) -> Result<Option<GitObjectId>, ()>,
    Unmerged: Fn(&GitObjectId, &GitObjectId) -> Result<Vec<ReservationScopePath>, ()>,
>(
    containment: ActingHeadContainment,
    reservations: Seq<Reservation>,
    acting_worktree: WorktreeId,
    acting_target: IntegrationTarget,
    repository_trunk: IntegrationTarget,
    acting_head: GitObjectId,
    reference_tip: ReadTip,
    unmerged_branch_paths: Unmerged,
) -> bool {
    &&& containment.acting_worktree == acting_worktree
    &&& exists|
        acting_answer: Result<Option<GitObjectId>, ()>,
        trunk_answer: Result<Option<GitObjectId>, ()>,
        effective: Option<Option<(IntegrationTarget, GitObjectId)>>,
    |
        {
            &&& #[trigger] reads_effective_target(
                reference_tip,
                acting_answer,
                trunk_answer,
                acting_target,
                repository_trunk,
                effective,
            )
            &&& match effective {
                None => containment.target is Unavailable && containment.holder_heads@.len()
                    == 0,
                Some(effective) => {
                    &&& containment.target == (ContainmentTarget::Known {
                        acting: match effective {
                            Some(judged) => judged.0,
                            None => acting_target,
                        },
                        repository_trunk: repository_trunk,
                    })
                    &&& observes_heads(
                        containment.holder_heads@,
                        foreign_protection_keys(
                            reservations,
                            acting_worktree@,
                            repository_trunk,
                        ),
                        acting_head,
                        effective,
                        unmerged_branch_paths,
                    )
                },
            }
        }
}

impl ActingHeadContainment {
    /// Observe foreign committed protection against a HEAD the caller already resolved.
    ///
    /// The acting target's tip is read first, falling back to the repository trunk's tip when
    /// the acting target has none; a failed read narrows nothing. Each distinct head a foreign
    /// holder protects is then compared with the acting HEAD once, and, when some holder of that
    /// head records another target, with the effective target's tip as well. A head whose
    /// comparison with the acting HEAD fails is left unobserved, so its holders keep every
    /// scope.
    pub fn observe_at_head<
        ReadTip: Fn(&IntegrationTarget) -> Result<Option<GitObjectId>, ()>,
        Unmerged: Fn(&GitObjectId, &GitObjectId) -> Result<Vec<ReservationScopePath>, ()>,
    >(
        reservations: &[Reservation],
        acting_worktree: WorktreeId,
        acting_target: &IntegrationTarget,
        repository_trunk: &IntegrationTarget,
        acting_head: &GitObjectId,
        reference_tip: ReadTip,
        unmerged_branch_paths: Unmerged,
    ) -> (containment: Self)
        requires
            forall|target: &IntegrationTarget| reference_tip.requires((target,)),
            forall|from: &GitObjectId, head: &GitObjectId| unmerged_branch_paths.requires((from, head)),
        ensures
            observed_at_head(
                containment,
                reservations@,
                acting_worktree,
                *acting_target,
                *repository_trunk,
                *acting_head,
                reference_tip,
                unmerged_branch_paths,
            ),
    {
        let keys = foreign_protection_heads(reservations, &acting_worktree, repository_trunk);
        let read = effective_containment_target(acting_target, repository_trunk, reference_tip);
        let ghost (acting_answer, trunk_answer) = choose|
            acting_answer: Result<Option<GitObjectId>, ()>,
            trunk_answer: Result<Option<GitObjectId>, ()>,
        |
            reads_effective_target(
                reference_tip,
                acting_answer,
                trunk_answer,
                *acting_target,
                *repository_trunk,
                read,
            );
        let effective = match read {
            Some(effective) => effective,
            None => {
                let containment = ActingHeadContainment::unavailable(acting_worktree);
                assert(reads_effective_target(
                    reference_tip,
                    acting_answer,
                    trunk_answer,
                    *acting_target,
                    *repository_trunk,
                    None,
                ));
                return containment;
            },
        };
        let ghost judged = effective;
        let holder_heads = observe_holder_heads(&keys, acting_head, &effective, unmerged_branch_paths);
        let acting = match effective {
            Some((target, _)) => target,
            None => acting_target.clone(),
        };
        let containment = ActingHeadContainment {
            acting_worktree,
            target: ContainmentTarget::Known { acting, repository_trunk: repository_trunk.clone() },
            holder_heads,
        };
        assert(reads_effective_target(
            reference_tip,
            acting_answer,
            trunk_answer,
            *acting_target,
            *repository_trunk,
            Some(judged),
        ));
        containment
    }
}

/// A containment judged at the acting target with no holder head observed.
pub open spec fn judged_without_heads(
    containment: ActingHeadContainment,
    acting_worktree: WorktreeId,
    acting_target: IntegrationTarget,
    repository_trunk: IntegrationTarget,
) -> bool {
    &&& containment.acting_worktree == acting_worktree
    &&& containment.target == (ContainmentTarget::Known {
        acting: acting_target,
        repository_trunk,
    })
    &&& containment.holder_heads@.len() == 0
}

impl ActingHeadContainment {
    /// Read which foreign holder work the acting HEAD already contains, before any lock.
    ///
    /// Nothing is read unless a foreign holder retains keyed committed protection. When the
    /// acting HEAD cannot be read, every holder keeps its complete protection.
    pub fn observe<
        ReadHead: FnOnce() -> Result<GitObjectId, ()>,
        ReadTip: Fn(&IntegrationTarget) -> Result<Option<GitObjectId>, ()>,
        Unmerged: Fn(&GitObjectId, &GitObjectId) -> Result<Vec<ReservationScopePath>, ()>,
    >(
        reservations: &[Reservation],
        acting_worktree: WorktreeId,
        acting_target: &IntegrationTarget,
        repository_trunk: &IntegrationTarget,
        acting_head: ReadHead,
        reference_tip: ReadTip,
        unmerged_branch_paths: Unmerged,
    ) -> (containment: Self)
        requires
            acting_head.requires(()),
            forall|target: &IntegrationTarget| reference_tip.requires((target,)),
            forall|from: &GitObjectId, head: &GitObjectId| unmerged_branch_paths.requires((from, head)),
        ensures
            foreign_protection_keys(reservations@, acting_worktree@, *repository_trunk).len() == 0
                ==> judged_without_heads(containment, acting_worktree, *acting_target, *repository_trunk),
            foreign_protection_keys(reservations@, acting_worktree@, *repository_trunk).len() > 0
                ==> exists|read: Result<GitObjectId, ()>|
                #[trigger] acting_head.ensures((), read) && match read {
                    Ok(head) => observed_at_head(
                        containment,
                        reservations@,
                        acting_worktree,
                        *acting_target,
                        *repository_trunk,
                        head,
                        reference_tip,
                        unmerged_branch_paths,
                    ),
                    Err(..) => judged_without_heads(
                        containment,
                        acting_worktree,
                        *acting_target,
                        *repository_trunk,
                    ),
                },
    {
        let keys = foreign_protection_heads(reservations, &acting_worktree, repository_trunk);
        if keys.len() == 0 {
            return ActingHeadContainment {
                acting_worktree,
                target: ContainmentTarget::Known {
                    acting: acting_target.clone(),
                    repository_trunk: repository_trunk.clone(),
                },
                holder_heads: Vec::new(),
            };
        }
        let read = acting_head();
        match read {
            Ok(head) => ActingHeadContainment::observe_at_head(
                reservations,
                acting_worktree,
                acting_target,
                repository_trunk,
                &head,
                reference_tip,
                unmerged_branch_paths,
            ),
            Err(()) => ActingHeadContainment {
                acting_worktree,
                target: ContainmentTarget::Known {
                    acting: acting_target.clone(),
                    repository_trunk: repository_trunk.clone(),
                },
                holder_heads: Vec::new(),
            },
        }
    }
}

} // verus!
