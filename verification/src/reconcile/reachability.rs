//! Every integration-proof ancestor classified against one immutable trunk target.
use vstd::prelude::*;

use crate::ids::contains_text;
use crate::ids::same_text;
use crate::ids::GitObjectId;
use crate::reservation::lifecycle::Reachability;
use crate::reconcile::settlement::JudgedTargetTip;

verus! {

/// Candidates paired with the answers given for them, as far as both reach.
pub open spec fn zipped(
    candidates: Seq<GitObjectId>,
    answers: Seq<Reachability>,
) -> Seq<(GitObjectId, Reachability)> {
    let length = if candidates.len() <= answers.len() {
        candidates.len()
    } else {
        answers.len()
    };
    Seq::new(length, |index: int| (candidates[index], answers[index]))
}

/// The answer a classification holds for a commit: the latest one recorded for it, and
/// `ObjectUnknown` for a commit that was never classified.
pub open spec fn classified_reachability(
    entries: Seq<(GitObjectId, Reachability)>,
    ancestor: Seq<char>,
) -> Reachability
    decreases entries.len(),
{
    if entries.len() == 0 {
        Reachability::ObjectUnknown
    } else if entries.last().0@ == ancestor {
        entries.last().1
    } else {
        classified_reachability(entries.drop_last(), ancestor)
    }
}

/// The commits of `additional` that still need an answer: not classified yet, each once, in
/// first-seen order.
pub open spec fn unclassified_commits(
    classified: Seq<Seq<char>>,
    additional: Seq<Seq<char>>,
) -> Seq<Seq<char>>
    decreases additional.len(),
{
    if additional.len() == 0 {
        Seq::empty()
    } else {
        let earlier = unclassified_commits(classified, additional.drop_last());
        let commit = additional.last();
        if classified.contains(commit) || earlier.contains(commit) {
            earlier
        } else {
            earlier.push(commit)
        }
    }
}

/// The commits a classification holds answers for.
pub open spec fn classified_commits(entries: Seq<(GitObjectId, Reachability)>) -> Seq<Seq<char>> {
    entries.map_values(|entry: (GitObjectId, Reachability)| entry.0@)
}

/// Answers naming every commit unknown.
pub open spec fn all_unknown(count: nat) -> Seq<Reachability> {
    Seq::new(count, |index: int| Reachability::ObjectUnknown)
}

/// Every integration-proof ancestor classified against one immutable trunk target.
pub struct TargetIntegrationReachability {
    by_ancestor: Vec<(GitObjectId, Reachability)>,
}

/// Answer every commit of a batch as unknown.
fn unknown_answers(count: usize) -> (answers: Vec<Reachability>)
    ensures
        answers@ == all_unknown(count as nat),
{
    let mut answers: Vec<Reachability> = Vec::new();
    while answers.len() < count
        invariant
            answers.len() <= count,
            answers@ == all_unknown(answers.len() as nat),
        decreases count - answers.len(),
    {
        answers.push(Reachability::ObjectUnknown);
        assert(answers@ =~= all_unknown(answers.len() as nat));
    }
    answers
}

/// Pair each candidate with its answer, as far as both reach.
fn zip_answers(candidates: Vec<GitObjectId>, answers: &Vec<Reachability>) -> (entries: Vec<
    (GitObjectId, Reachability),
>)
    ensures
        entries@ == zipped(candidates@, answers@),
{
    let mut entries: Vec<(GitObjectId, Reachability)> = Vec::new();
    let mut index: usize = 0;
    while index < candidates.len() && index < answers.len()
        invariant
            index <= candidates.len(),
            index <= answers.len(),
            entries@ =~= zipped(candidates@.take(index as int), answers@.take(index as int)),
        decreases candidates.len() - index,
    {
        entries.push((candidates[index].clone(), answers[index]));
        index += 1;
        assert(entries@ =~= zipped(candidates@.take(index as int), answers@.take(index as int)));
    }
    assert(entries@ =~= zipped(candidates@, answers@));
    entries
}

impl TargetIntegrationReachability {
    /// What the classification holds, oldest answer first.
    pub closed spec fn entries(self) -> Seq<(GitObjectId, Reachability)> {
        self.by_ancestor@
    }

    /// The answer held for a commit.
    pub open spec fn reachability_of(self, ancestor: Seq<char>) -> Reachability {
        classified_reachability(self.entries(), ancestor)
    }

    /// A trunk that could not be resolved classifies nothing.
    pub fn unobserved() -> (classification: Self)
        ensures
            classification.entries() == Seq::<(GitObjectId, Reachability)>::empty(),
    {
        TargetIntegrationReachability { by_ancestor: Vec::new() }
    }

    /// Classify the candidate ancestors against the repository trunk: nothing when the trunk
    /// did not resolve, else the answers the batch query gave, in order, or unknown for every
    /// candidate when the query failed. The query runs only for a resolved trunk.
    pub fn observe<
        Query: FnOnce(&Vec<GitObjectId>, &GitObjectId) -> Option<Vec<Reachability>>,
    >(repository_trunk: &JudgedTargetTip, candidate_ancestors: Vec<GitObjectId>, reachability_to_target: Query) -> (
        classification: Self)
        requires
            forall|target: GitObjectId| call_requires(
                reachability_to_target,
                (&candidate_ancestors, &target),
            ),
        ensures
            *repository_trunk is ObjectUnknown ==> classification.entries() == Seq::<
                (GitObjectId, Reachability),
            >::empty(),
            *repository_trunk is Resolved ==> exists|answers: Option<Vec<Reachability>>|
                #![trigger call_ensures(reachability_to_target, (&candidate_ancestors, &repository_trunk->0), answers)]
                call_ensures(
                    reachability_to_target,
                    (&candidate_ancestors, &repository_trunk->0),
                    answers,
                ) && classification.entries() == match answers {
                    Some(answers) => zipped(candidate_ancestors@, answers@),
                    None => zipped(candidate_ancestors@, all_unknown(candidate_ancestors@.len())),
                },
    {
        match repository_trunk {
            JudgedTargetTip::ObjectUnknown => Self::unobserved(),
            JudgedTargetTip::Resolved(target) => {
                let answers = reachability_to_target(&candidate_ancestors, target);
                Self::classified(candidate_ancestors, answers)
            },
        }
    }

    /// Classify a batch of candidates with the answers git gave for them, in order; when the
    /// batch query failed, every candidate is unknown.
    pub fn classified(
        candidate_ancestors: Vec<GitObjectId>,
        answers: Option<Vec<Reachability>>,
    ) -> (classification: Self)
        ensures
            classification.entries() == match answers {
                Some(answers) => zipped(candidate_ancestors@, answers@),
                None => zipped(candidate_ancestors@, all_unknown(candidate_ancestors@.len())),
            },
    {
        let answers = match answers {
            Some(answers) => answers,
            None => unknown_answers(candidate_ancestors.len()),
        };
        TargetIntegrationReachability { by_ancestor: zip_answers(candidate_ancestors, &answers) }
    }

    /// The answer held for a commit; a commit never classified is unknown.
    pub fn for_ancestor(&self, ancestor: &GitObjectId) -> (reachability: Reachability)
        ensures
            reachability == self.reachability_of(ancestor@),
    {
        let mut index: usize = self.by_ancestor.len();
        assert(self.by_ancestor@.take(index as int) =~= self.by_ancestor@);
        while index > 0
            invariant
                index <= self.by_ancestor@.len(),
                self.reachability_of(ancestor@) == classified_reachability(
                    self.by_ancestor@.take(index as int),
                    ancestor@,
                ),
            decreases index,
        {
            assert(self.by_ancestor@.take(index as int).drop_last() =~= self.by_ancestor@.take(
                index - 1,
            ));
            if same_text(&self.by_ancestor[index - 1].0, ancestor) {
                return self.by_ancestor[index - 1].1;
            }
            index -= 1;
        }
        Reachability::ObjectUnknown
    }

    /// The commits already classified.
    fn classified_commit_list(&self) -> (commits: Vec<GitObjectId>)
        ensures
            commits.deep_view() == classified_commits(self.entries()),
    {
        let mut commits: Vec<GitObjectId> = Vec::new();
        let mut index: usize = 0;
        while index < self.by_ancestor.len()
            invariant
                index <= self.by_ancestor@.len(),
                commits.deep_view() =~= classified_commits(self.by_ancestor@.take(index as int)),
            decreases self.by_ancestor@.len() - index,
        {
            let ghost before = commits.deep_view();
            commits.push(self.by_ancestor[index].0.clone());
            assert(commits.deep_view() =~= before.push(self.by_ancestor@[index as int].0@));
            assert(self.by_ancestor@.take(index + 1) =~= self.by_ancestor@.take(index as int).push(
                self.by_ancestor@[index as int],
            ));
            index += 1;
            assert(commits.deep_view() =~= classified_commits(self.by_ancestor@.take(index as int)));
        }
        assert(self.by_ancestor@.take(index as int) =~= self.by_ancestor@);
        commits
    }

    /// Classify the commits a later snapshot introduced, skipping commits already classified and
    /// repeats; the batch query runs only when something is left to classify.
    pub fn extend_for_snapshot<
        Classify: FnOnce(&Vec<GitObjectId>, &GitObjectId) -> Option<Vec<Reachability>>,
    >(&mut self, trunk: &JudgedTargetTip, additional: Vec<GitObjectId>, classify: Classify)
        requires
            forall|fresh: Vec<GitObjectId>, target: GitObjectId| call_requires(
                classify,
                (&fresh, &target),
            ),
        ensures
            ({
                let fresh = unclassified_commits(
                    classified_commits(old(self).entries()),
                    additional.deep_view(),
                );
                &&& fresh.len() == 0 ==> final(self).entries() == old(self).entries()
                &&& fresh.len() > 0 && *trunk is ObjectUnknown ==> exists|batch: Vec<GitObjectId>|
                    batch.deep_view() == fresh && final(self).entries() == old(self).entries()
                        + zipped(batch@, all_unknown(batch@.len()))
                &&& fresh.len() > 0 && *trunk is Resolved ==> exists|
                    batch: Vec<GitObjectId>,
                    answers: Option<Vec<Reachability>>,
                |
                    #![trigger call_ensures(classify, (&batch, &trunk->0), answers)]
                    batch.deep_view() == fresh && call_ensures(classify, (&batch, &trunk->0), answers)
                        && final(self).entries() == old(self).entries() + match answers {
                        Some(answers) => zipped(batch@, answers@),
                        None => zipped(batch@, all_unknown(batch@.len())),
                    }
            }),
    {
        let classified = self.classified_commit_list();
        let mut fresh: Vec<GitObjectId> = Vec::new();
        let mut index: usize = 0;
        while index < additional.len()
            invariant
                index <= additional.len(),
                classified.deep_view() == classified_commits(self.entries()),
                fresh.deep_view() == unclassified_commits(
                    classified.deep_view(),
                    additional.deep_view().take(index as int),
                ),
            decreases additional.len() - index,
        {
            let ghost prefix = additional.deep_view().take(index + 1);
            assert(prefix.drop_last() =~= additional.deep_view().take(index as int));
            if !contains_text(&classified, &additional[index]) && !contains_text(
                &fresh,
                &additional[index],
            ) {
                fresh.push(additional[index].clone());
                assert(fresh.deep_view() =~= unclassified_commits(classified.deep_view(), prefix));
            }
            index += 1;
        }
        assert(additional.deep_view().take(index as int) =~= additional.deep_view());
        if fresh.len() == 0 {
            return;
        }
        let answers = match trunk {
            JudgedTargetTip::Resolved(target) => classify(&fresh, target),
            JudgedTargetTip::ObjectUnknown => None,
        };
        let answers_or_unknown = match &answers {
            Some(answers) => answers.clone(),
            None => unknown_answers(fresh.len()),
        };
        let ghost batch = fresh;
        let ghost before = self.by_ancestor@;
        let mut entries = zip_answers(fresh, &answers_or_unknown);
        self.by_ancestor.append(&mut entries);
        assert(self.by_ancestor@ =~= before + match answers {
            Some(answers) => zipped(batch@, answers@),
            None => zipped(batch@, all_unknown(batch@.len())),
        });
    }
}

/// A classification answers only what it was told: a commit no batch named is unknown.
pub proof fn unnamed_commits_are_unknown(
    classification: TargetIntegrationReachability,
    ancestor: Seq<char>,
)
    requires
        !classified_commits(classification.entries()).contains(ancestor),
    ensures
        classification.reachability_of(ancestor) == Reachability::ObjectUnknown,
{
    unnamed_entries_are_unknown(classification.entries(), ancestor);
}

proof fn unnamed_entries_are_unknown(entries: Seq<(GitObjectId, Reachability)>, ancestor: Seq<char>)
    requires
        !classified_commits(entries).contains(ancestor),
    ensures
        classified_reachability(entries, ancestor) == Reachability::ObjectUnknown,
    decreases entries.len(),
{
    if entries.len() > 0 {
        assert(classified_commits(entries.drop_last()) =~= classified_commits(entries).drop_last());
        if entries.last().0@ == ancestor {
            assert(classified_commits(entries)[entries.len() - 1] == ancestor);
        }
        if classified_commits(entries.drop_last()).contains(ancestor) {
            let position = choose|position: int|
                0 <= position < classified_commits(entries.drop_last()).len()
                    && classified_commits(entries.drop_last())[position] == ancestor;
            assert(classified_commits(entries)[position] == ancestor);
        }
        unnamed_entries_are_unknown(entries.drop_last(), ancestor);
    }
}

} // verus!
