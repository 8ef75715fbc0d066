//! Rewrite preflights: per-target observation caches, retried acceptance and followed rewrites.
use vstd::prelude::*;

use crate::ids::contains_text;
use crate::ids::same_text;
use crate::ids::GitObjectId;
use crate::ids::ReservationId;
use crate::reconcile::evaluation::IntegrationProofSubjectRevision;
use crate::reservation::evidence::ScopedPatchComparisonObservation;
use crate::reservation::evidence::ScopedPatchIntegrationEvaluation;
use crate::reservation::lifecycle::ReservationLifecycle;
use crate::reservation::record::IntegrationTarget;

verus! {

/// The latest value recorded for a branch, if any.
pub open spec fn recorded_for<V>(entries: Seq<(IntegrationTarget, V)>, branch: Seq<char>) -> Option<V>
    decreases entries.len(),
{
    if entries.len() == 0 {
        None
    } else if entries.last().0.branch() == branch {
        Some(entries.last().1)
    } else {
        recorded_for(entries.drop_last(), branch)
    }
}

/// One value per target branch, observed at most once per preflight.
pub struct TargetCache<V> {
    entries: Vec<(IntegrationTarget, V)>,
}

impl<V> TargetCache<V> {
    /// What the cache holds, oldest first.
    pub closed spec fn entries(self) -> Seq<(IntegrationTarget, V)> {
        self.entries@
    }

    /// The value held for a branch, if it was observed.
    pub open spec fn value_for(self, branch: Seq<char>) -> Option<V> {
        recorded_for(self.entries(), branch)
    }

    /// A cache that has observed nothing.
    pub fn new() -> (cache: Self)
        ensures
            cache.entries() == Seq::<(IntegrationTarget, V)>::empty(),
    {
        TargetCache { entries: Vec::new() }
    }

    /// How many targets were observed.
    pub fn len(&self) -> (count: usize)
        ensures
            count == self.entries().len(),
    {
        self.entries.len()
    }

    /// Where the value for a target is held, if it was observed.
    fn position(&self, target: &IntegrationTarget) -> (position: Option<usize>)
        ensures
            match position {
                Some(index) => index < self.entries().len() && self.value_for(target.branch())
                    == Some(self.entries()[index as int].1),
                None => self.value_for(target.branch()) is None,
            },
    {
        let mut index: usize = self.entries.len();
        assert(self.entries@.take(index as int) =~= self.entries@);
        while index > 0
            invariant
                index <= self.entries@.len(),
                self.value_for(target.branch()) == recorded_for(
                    self.entries@.take(index as int),
                    target.branch(),
                ),
            decreases index,
        {
            assert(self.entries@.take(index as int).drop_last() =~= self.entries@.take(index - 1));
            if self.entries[index - 1].0.same_as(target) {
                return Some(index - 1);
            }
            index -= 1;
        }
        None
    }

    /// Whether a target was observed.
    pub fn contains_key(&self, target: &IntegrationTarget) -> (observed: bool)
        ensures
            observed == self.value_for(target.branch()) is Some,
    {
        self.position(target).is_some()
    }

    /// The value held for a target, if it was observed.
    pub fn get(&self, target: &IntegrationTarget) -> (value: Option<&V>)
        ensures
            match value {
                Some(value) => self.value_for(target.branch()) == Some(*value),
                None => self.value_for(target.branch()) is None,
            },
    {
        match self.position(target) {
            Some(index) => Some(&self.entries[index].1),
            None => None,
        }
    }

    /// Record the value observed for a target not observed before.
    fn insert_new(&mut self, target: IntegrationTarget, value: V)
        ensures
            final(self).entries() == old(self).entries().push((target, value)),
            final(self).value_for(target.branch()) == Some(value),
    {
        self.entries.push((target, value));
        assert(self.entries@.drop_last() =~= old(self).entries@);
    }
}

/// The branch chosen for a rewrite subject, or a Git failure that defers it.
#[derive(Debug, PartialEq, Eq)]
pub enum RewriteTargetJudgment {
    /// Rewrite subjects at the recorded target are judged at this branch.
    Available(IntegrationTarget),
    /// Git could not say which branch judges the recorded target.
    Unavailable,
}

/// The judgment an observation of the judging branch amounts to.
pub open spec fn judgment_of<ErrorType>(
    observed: Result<IntegrationTarget, ErrorType>,
) -> RewriteTargetJudgment {
    match observed {
        Ok(target) => RewriteTargetJudgment::Available(target),
        Err(_) => RewriteTargetJudgment::Unavailable,
    }
}

/// Observe one recorded target only once across the rewrite subjects in a preflight.
pub fn rewrite_target_judgment<
    'cache,
    ErrorType,
    Observe: FnOnce(&IntegrationTarget) -> Result<IntegrationTarget, ErrorType>,
>(
    judgments: &'cache mut TargetCache<RewriteTargetJudgment>,
    recorded_target: &IntegrationTarget,
    observe: Observe,
) -> (judgment: &'cache RewriteTargetJudgment)
    requires
        old(judgments).value_for(recorded_target.branch()) is None ==> call_requires(
            observe,
            (recorded_target,),
        ),
    ensures
        final(judgments).value_for(recorded_target.branch()) == Some(*judgment),
        old(judgments).value_for(recorded_target.branch()) is Some ==> *final(judgments)
            == *old(judgments),
        old(judgments).value_for(recorded_target.branch()) is None ==> exists|
            observed: Result<IntegrationTarget, ErrorType>,
        |
            #![trigger call_ensures(observe, (recorded_target,), observed)]
            call_ensures(observe, (recorded_target,), observed) && *judgment == judgment_of(
                observed,
            ) && final(judgments).entries() == old(judgments).entries().push(
                (*recorded_target, *judgment),
            ),
{
    match judgments.position(recorded_target) {
        Some(index) => &judgments.entries[index].1,
        None => {
            let observed = observe(recorded_target);
            let judgment = match observed {
                Ok(target) => RewriteTargetJudgment::Available(target),
                Err(_) => RewriteTargetJudgment::Unavailable,
            };
            judgments.insert_new(recorded_target.clone(), judgment);
            let last = judgments.entries.len() - 1;
            &judgments.entries[last].1
        },
    }
}

/// Reuse one target tip observation across every rewrite subject at that branch; the counter
/// advances once for each resolution actually made.
pub fn rewrite_target_tip<
    'cache,
    ErrorType,
    Resolve: FnOnce(&IntegrationTarget) -> Result<GitObjectId, ErrorType>,
>(
    target_tips: &'cache mut TargetCache<Result<GitObjectId, ErrorType>>,
    target: &IntegrationTarget,
    resolution_calls: &mut u64,
    resolve: Resolve,
) -> (tip: &'cache Result<GitObjectId, ErrorType>)
    requires
        old(target_tips).value_for(target.branch()) is None ==> call_requires(resolve, (target,))
            && *old(resolution_calls) < u64::MAX,
    ensures
        final(target_tips).value_for(target.branch()) == Some(*tip),
        old(target_tips).value_for(target.branch()) is Some ==> *final(target_tips)
            == *old(target_tips) && *final(resolution_calls) == *old(resolution_calls),
        old(target_tips).value_for(target.branch()) is None ==> call_ensures(resolve, (target,), *tip)
            && final(target_tips).entries() == old(target_tips).entries().push((*target, *tip))
            && *final(resolution_calls) == *old(resolution_calls) + 1,
{
    match target_tips.position(target) {
        Some(index) => &target_tips.entries[index].1,
        None => {
            *resolution_calls = *resolution_calls + 1;
            let resolved = resolve(target);
            target_tips.insert_new(target.clone(), resolved);
            let last = target_tips.entries.len() - 1;
            &target_tips.entries[last].1
        },
    }
}

/// Whether a classification of one attempt's answer returned `verdict`: an answer that
/// succeeded is never a changed subject.
pub open spec fn classified_as<Output, Failure, Changed: Fn(&Failure) -> bool>(
    subject_changed: Changed,
    answer: Result<Output, Failure>,
    verdict: bool,
) -> bool {
    match answer {
        Ok(_) => !verdict,
        Err(failure) => call_ensures(subject_changed, (&failure,), verdict),
    }
}

/// Whether these are the answers a retry loop received, in order: one to three attempts,
/// every answer but the last a failure classified as a changed subject, and the last one
/// classified otherwise unless the third attempt was made.
pub open spec fn retry_answers<Output, Failure, Attempt: FnMut() -> Result<Output, Failure>, Changed: Fn(&Failure) -> bool>(
    attempt: Attempt,
    subject_changed: Changed,
    answers: Seq<Result<Output, Failure>>,
) -> bool {
    &&& 1 <= answers.len() <= 3
    &&& forall|index: int| 0 <= index < answers.len() ==> call_ensures(attempt, (), #[trigger] answers[index])
    &&& forall|index: int|
        0 <= index < answers.len() - 1 ==> classified_as(subject_changed, #[trigger] answers[index], true)
    &&& answers.len() < 3 ==> classified_as(subject_changed, answers.last(), false)
}

/// Retry a preflight invalidated by a concurrent transaction, at most three times.
///
/// The caller classifies only rejected validation; committed actions must never be repeated.
/// An attempt is made again exactly while the previous one failed with a changed subject and
/// fewer than three were made; what comes back is the answer of the last attempt.
pub fn retry_rewrite_reconciliation<
    Output,
    Failure,
    Attempt: FnMut() -> Result<Output, Failure>,
    Changed: Fn(&Failure) -> bool,
>(attempt: Attempt, subject_changed: Changed) -> (result: Result<Output, Failure>)
    requires
        call_requires(attempt, ()),
        forall|failure: &Failure| call_requires(subject_changed, (failure,)),
    ensures
        exists|answers: Seq<Result<Output, Failure>>|
            retry_answers(attempt, subject_changed, answers) && result == answers.last(),
{
    broadcast use vstd::function::group_function_axioms;
    let ghost original = attempt;
    let mut attempt = attempt;
    let mut result = attempt();
    let ghost mut answers: Seq<Result<Output, Failure>> = seq![result];
    let mut round: usize = 1;
    while round < 3
        invariant
            1 <= round <= 3,
            attempt == original,
            call_requires(attempt, ()),
            forall|failure: &Failure| call_requires(subject_changed, (failure,)),
            answers.len() == round,
            answers.last() == result,
            forall|index: int| 0 <= index < answers.len() ==> call_ensures(attempt, (), #[trigger] answers[index]),
            forall|index: int|
                0 <= index < answers.len() - 1 ==> classified_as(subject_changed, #[trigger] answers[index], true),
        ensures
            retry_answers(attempt, subject_changed, answers),
            answers.last() == result,
        decreases 3 - round,
    {
        let retry = match &result {
            Ok(_) => false,
            Err(failure) => subject_changed(failure),
        };
        if !retry {
            assert(classified_as(subject_changed, answers.last(), false));
            break;
        }
        assert(classified_as(subject_changed, answers[answers.len() - 1], true));
        result = attempt();
        proof {
            answers = answers.push(result);
        }
        round += 1;
    }
    result
}

/// Whether an answer is a failure a classification calls a changed subject.
pub open spec fn changed_failure<Output, Failure>(
    answer: Result<Output, Failure>,
    changed: spec_fn(Failure) -> bool,
) -> bool {
    match answer {
        Ok(_) => false,
        Err(failure) => changed(failure),
    }
}

/// How many answers, from the first, are failures a classification calls changed subjects.
pub open spec fn leading_changed<Output, Failure>(
    answers: Seq<Result<Output, Failure>>,
    changed: spec_fn(Failure) -> bool,
) -> nat
    decreases answers.len(),
{
    if answers.len() > 0 && changed_failure(answers[0], changed) {
        1 + leading_changed(answers.drop_first(), changed)
    } else {
        0
    }
}

/// The leading changed answers of a sequence whose first `count` answers are changed, and
/// whose next answer, if any, is not, number exactly `count`.
proof fn leading_changed_counts_the_changed_prefix<Output, Failure>(
    answers: Seq<Result<Output, Failure>>,
    changed: spec_fn(Failure) -> bool,
    count: nat,
)
    requires
        count <= answers.len(),
        forall|index: int| 0 <= index < count ==> changed_failure(#[trigger] answers[index], changed),
    ensures
        leading_changed(answers, changed) >= count,
        count < answers.len() && !changed_failure(answers[count as int], changed)
            ==> leading_changed(answers, changed) == count,
    decreases count,
{
    if count > 0 {
        let rest = answers.drop_first();
        assert(changed_failure(answers[0], changed));
        assert forall|index: int| 0 <= index < count - 1 implies changed_failure(#[trigger] rest[index], changed) by {
            assert(rest[index] == answers[index + 1]);
        }
        leading_changed_counts_the_changed_prefix(rest, changed, (count - 1) as nat);
        if count < answers.len() {
            assert(rest[count - 1] == answers[count as int]);
        }
    }
}

/// With a classification that always answers the same for the same failure, a retry loop
/// makes one attempt more than the leading changed-subject failures it meets, and at most
/// three: the number of answers is `min(j + 1, 3)` for `j` leading changed answers, and the
/// result is the last of them.
pub proof fn retries_follow_the_leading_changed_subjects<
    Output,
    Failure,
    Attempt: FnMut() -> Result<Output, Failure>,
    Changed: Fn(&Failure) -> bool,
>(
    attempt: Attempt,
    subject_changed: Changed,
    changed: spec_fn(Failure) -> bool,
    answers: Seq<Result<Output, Failure>>,
)
    requires
        forall|failure: Failure, verdict: bool|
            #[trigger] call_ensures(subject_changed, (&failure,), verdict) ==> verdict == changed(failure),
        retry_answers(attempt, subject_changed, answers),
    ensures
        answers.len() == if leading_changed(answers, changed) + 1 < 3 {
            leading_changed(answers, changed) + 1
        } else {
            3
        },
{
    let count = (answers.len() - 1) as nat;
    assert forall|index: int| 0 <= index < count implies changed_failure(#[trigger] answers[index], changed) by {
        assert(classified_as(subject_changed, answers[index], true));
    }
    leading_changed_counts_the_changed_prefix(answers, changed, count);
    if answers.len() < 3 {
        assert(classified_as(subject_changed, answers.last(), false));
        assert(answers.last() == answers[count as int]);
    }
}

/// One old-to-new tip pair a branch rewrite recorded.
#[derive(Debug, PartialEq, Eq)]
pub struct RewritePair {
    /// The tip before the rewrite.
    pub old: GitObjectId,
    /// The tip after the rewrite.
    pub new: GitObjectId,
}

/// The tips a branch rewrite moved and created.
#[derive(Debug, PartialEq, Eq)]
pub struct BranchRewrite {
    /// Each rewritten tip and its replacement.
    pub pairs: Vec<RewritePair>,
    /// Tips the rewrite created.
    pub new_tips: Vec<GitObjectId>,
}

/// A pending branch-rewrite marker awaiting reconciliation.
#[derive(Debug, PartialEq, Eq)]
pub struct PendingBranchRewriteMarker {
    /// The recorded rewrite.
    pub rewrite: BranchRewrite,
}

/// The outstanding phase a rewrite candidate must still describe under the lock.
#[derive(Debug, PartialEq, Eq)]
pub struct RewriteSubjectValidation {
    /// Reservation nominated by the rewrite map.
    pub reservation_id: ReservationId,
    /// The baseline, protected tip, and scopes used to nominate or accept the rewrite.
    pub subject: IntegrationProofSubjectRevision,
}

/// Whether a replayed reservation still describes a nominated phase: replay found it, it is
/// outstanding, and its proof subject revision is the nominated one.
pub open spec fn accepted_by(
    validation: RewriteSubjectValidation,
    replayed: Option<(ReservationLifecycle, IntegrationProofSubjectRevision)>,
) -> bool {
    replayed matches Some((lifecycle, subject)) && lifecycle is Outstanding && subject == validation.subject
}

impl RewriteSubjectValidation {
    /// Nominate a reservation's current phase: its identity and proof subject revision.
    pub fn capture(reservation_id: &ReservationId, subject: IntegrationProofSubjectRevision) -> (validation: Self)
        ensures
            validation.reservation_id@ == reservation_id@,
            validation.subject == subject,
    {
        RewriteSubjectValidation { reservation_id: reservation_id.clone(), subject }
    }

    /// Whether the replayed reservation still describes the nominated outstanding phase: it
    /// exists, is outstanding, and its proof subject has not moved on. `replayed` is the
    /// reservation's lifecycle and subject revision, or `None` when replay does not find it.
    pub fn accepts(
        &self,
        replayed: Option<(&ReservationLifecycle, IntegrationProofSubjectRevision)>,
    ) -> (accepted: bool)
        ensures
            accepted == accepted_by(
                *self,
                match replayed {
                    Some((lifecycle, subject)) => Some((*lifecycle, subject)),
                    None => None,
                },
            ),
    {
        match replayed {
            Some((ReservationLifecycle::Outstanding { .. }, subject)) => subject == self.subject,
            _ => false,
        }
    }
}

/// A phase captured from an outstanding reservation is accepted by the same replay, and no
/// longer once the reservation leaves `Outstanding`, its proof subject moves to another
/// revision, or replay no longer finds it.
pub proof fn a_captured_phase_is_accepted_until_it_moves_on(
    validation: RewriteSubjectValidation,
    lifecycle: ReservationLifecycle,
    subject: IntegrationProofSubjectRevision,
    later: ReservationLifecycle,
    later_subject: IntegrationProofSubjectRevision,
)
    requires
        lifecycle is Outstanding,
        validation.subject == subject,
    ensures
        accepted_by(validation, Some((lifecycle, subject))),
        !(later is Outstanding) ==> !accepted_by(validation, Some((later, later_subject))),
        later_subject != subject ==> !accepted_by(validation, Some((later, later_subject))),
        !accepted_by(validation, None),
{
}

/// Rewrite destinations that must retain ordering holds until their content check completes.
#[derive(Debug, PartialEq, Eq)]
pub struct DeferredRewriteIntegrationSubject {
    /// The outstanding phase expected after all accepted preflight resnapshots.
    pub validation: RewriteSubjectValidation,
    /// Candidate commits identify entry only; they never certify protected contents.
    pub rewritten_tips: Vec<GitObjectId>,
}

/// Whether a deferred subject of this reservation names a rewritten tip that is newly
/// reachable from trunk.
pub open spec fn deferred_subject_enters(
    subject: DeferredRewriteIntegrationSubject,
    reservation_id: Seq<char>,
    newly_reachable: Seq<Seq<char>>,
) -> bool {
    subject.validation.reservation_id@ == reservation_id && exists|position: int|
        0 <= position < subject.rewritten_tips@.len() && newly_reachable.contains(
            #[trigger] subject.rewritten_tips@[position]@,
        )
}

/// Whether one deferred subject names a newly reachable tip.
fn subject_enters(subject: &DeferredRewriteIntegrationSubject, newly_reachable: &Vec<GitObjectId>) -> (enters: bool)
    ensures
        enters == exists|position: int|
            0 <= position < subject.rewritten_tips@.len() && newly_reachable.deep_view().contains(
                #[trigger] subject.rewritten_tips@[position]@,
            ),
{
    let tips = &subject.rewritten_tips;
    let mut index: usize = 0;
    while index < tips.len()
        invariant
            index <= tips@.len(),
            tips == &subject.rewritten_tips,
            forall|earlier: int| 0 <= earlier < index ==> !newly_reachable.deep_view().contains(#[trigger] tips@[earlier]@),
        decreases tips@.len() - index,
    {
        if contains_text(newly_reachable, &tips[index]) {
            return true;
        }
        index += 1;
    }
    false
}

/// Keep an unaccepted rewrite subject entering when any destination it nominated is newly
/// reachable from trunk.
pub fn deferred_rewrite_enters(
    subjects: &[DeferredRewriteIntegrationSubject],
    reservation_id: &ReservationId,
    newly_reachable: &Vec<GitObjectId>,
) -> (enters: bool)
    ensures
        enters == exists|position: int|
            0 <= position < subjects@.len() && deferred_subject_enters(
                #[trigger] subjects@[position],
                reservation_id@,
                newly_reachable.deep_view(),
            ),
{
    let mut index: usize = 0;
    while index < subjects.len()
        invariant
            index <= subjects@.len(),
            forall|earlier: int|
                0 <= earlier < index ==> !deferred_subject_enters(
                    #[trigger] subjects@[earlier],
                    reservation_id@,
                    newly_reachable.deep_view(),
                ),
        decreases subjects@.len() - index,
    {
        let subject = &subjects[index];
        if same_text(&subject.validation.reservation_id, reservation_id) && subject_enters(subject, newly_reachable) {
            return true;
        }
        index += 1;
    }
    false
}

/// The phase interval a branch rewrite maps an outstanding checkpoint onto.
#[derive(Debug, PartialEq, Eq)]
pub struct MappedPhaseInterval {
    /// Where the rewritten phase starts.
    pub phase_start_head: GitObjectId,
    /// The rewritten checkpoint.
    pub protected_tip: GitObjectId,
    /// The rewrite's destinations inside the phase.
    pub destinations: Vec<GitObjectId>,
}

/// Whether a branch rewrite maps an outstanding checkpoint's phase.
#[derive(Debug, PartialEq, Eq)]
pub enum OutstandingRewriteCandidate {
    /// No rewritten tip lies inside the phase.
    NotMapped,
    /// The phase's history could not be read; these destinations wait.
    HistoryUnavailable(Vec<GitObjectId>),
    /// The phase maps onto this interval.
    Mapped(MappedPhaseInterval),
}

/// What a rewrite preflight does with one retained reservation.
#[derive(Debug, PartialEq, Eq)]
pub enum RewriteCandidateDecision {
    /// Nothing: the reservation is not a candidate, or the rewrite leaves its phase as it is.
    Skip,
    /// Keep these destinations holding until the content check can complete.
    Defer(Vec<GitObjectId>),
    /// Resnapshot the checkpoint onto the rewritten phase at this target tip.
    Resnapshot {
        /// The rewritten phase start.
        phase_start_head: GitObjectId,
        /// The rewritten checkpoint.
        protected_tip: GitObjectId,
        /// The target tip the equivalence was proved against.
        trunk_oid: GitObjectId,
    },
    /// The rewritten content differs; record the subject as completed so it is not asked again.
    CompleteSubject,
}

/// The decision for one reservation: only an outstanding checkpoint whose current subject
/// the marker has not completed is a candidate; an unmapped phase is skipped, unreadable
/// history defers, a mapping that changes nothing is skipped, an unresolved target tip
/// defers, and the scoped comparison decides the rest: equivalence resnapshots, difference
/// completes the subject, and anything else defers.
pub open spec fn rewrite_candidate_decision_spec(
    outstanding: bool,
    completed: bool,
    candidate: OutstandingRewriteCandidate,
    interval_unchanged: bool,
    target_tip: Option<GitObjectId>,
    comparison: ScopedPatchComparisonObservation,
) -> RewriteCandidateDecision {
    if !outstanding || completed {
        RewriteCandidateDecision::Skip
    } else {
        match candidate {
            OutstandingRewriteCandidate::NotMapped => RewriteCandidateDecision::Skip,
            OutstandingRewriteCandidate::HistoryUnavailable(destinations) => RewriteCandidateDecision::Defer(destinations),
            OutstandingRewriteCandidate::Mapped(interval) => if interval_unchanged {
                RewriteCandidateDecision::Skip
            } else {
                match target_tip {
                    None => RewriteCandidateDecision::Defer(interval.destinations),
                    Some(tip) => match comparison {
                        ScopedPatchComparisonObservation::Observed(ScopedPatchIntegrationEvaluation::Equivalent(_)) =>
                            RewriteCandidateDecision::Resnapshot {
                            phase_start_head: interval.phase_start_head,
                            protected_tip: interval.protected_tip,
                            trunk_oid: tip,
                        },
                        ScopedPatchComparisonObservation::Observed(ScopedPatchIntegrationEvaluation::Different) =>
                            RewriteCandidateDecision::CompleteSubject,
                        _ => RewriteCandidateDecision::Defer(interval.destinations),
                    },
                }
            },
        }
    }
}

/// Decide what a rewrite preflight does with one retained reservation. `outstanding` says
/// whether it holds a checkpoint, `completed` whether the marker already completed its
/// current subject, `interval_unchanged` whether a mapped interval has the reservation's own
/// phase start and checkpoint, `target_tip` what its target resolved to, and `comparison`
/// what the scoped comparison of the mapped phase observed; each is read only where the
/// decision reaches it.
pub fn rewrite_candidate_decision(
    outstanding: bool,
    completed: bool,
    candidate: OutstandingRewriteCandidate,
    interval_unchanged: bool,
    target_tip: Option<GitObjectId>,
    comparison: ScopedPatchComparisonObservation,
) -> (decision: RewriteCandidateDecision)
    ensures
        decision == rewrite_candidate_decision_spec(
            outstanding,
            completed,
            candidate,
            interval_unchanged,
            target_tip,
            comparison,
        ),
{
    if !outstanding || completed {
        return RewriteCandidateDecision::Skip;
    }
    let interval = match candidate {
        OutstandingRewriteCandidate::NotMapped => {
            return RewriteCandidateDecision::Skip;
        },
        OutstandingRewriteCandidate::HistoryUnavailable(destinations) => {
            return RewriteCandidateDecision::Defer(destinations);
        },
        OutstandingRewriteCandidate::Mapped(interval) => interval,
    };
    if interval_unchanged {
        return RewriteCandidateDecision::Skip;
    }
    let tip = match target_tip {
        None => {
            return RewriteCandidateDecision::Defer(interval.destinations);
        },
        Some(tip) => tip,
    };
    match comparison {
        ScopedPatchComparisonObservation::Observed(ScopedPatchIntegrationEvaluation::Equivalent(_)) => {
            RewriteCandidateDecision::Resnapshot {
                phase_start_head: interval.phase_start_head,
                protected_tip: interval.protected_tip,
                trunk_oid: tip,
            }
        },
        ScopedPatchComparisonObservation::Observed(ScopedPatchIntegrationEvaluation::Different) => {
            RewriteCandidateDecision::CompleteSubject
        },
        _ => RewriteCandidateDecision::Defer(interval.destinations),
    }
}

/// One retained reservation as a rewrite preflight reads it.
#[derive(Debug, PartialEq, Eq)]
pub struct RewriteCandidateSource {
    /// The reservation.
    pub reservation_id: ReservationId,
    /// Its current lifecycle.
    pub lifecycle: ReservationLifecycle,
    /// Where its current phase started.
    pub phase_start_head: GitObjectId,
    /// The revision of its proof subject.
    pub subject: IntegrationProofSubjectRevision,
}

/// One subject a rewrite marker already completed.
#[derive(Debug, PartialEq, Eq)]
pub struct CompletedRewriteSubject {
    /// The reservation whose subject was completed.
    pub reservation_id: ReservationId,
    /// The completed subject revision.
    pub subject: IntegrationProofSubjectRevision,
}

/// Whether a marker already completed a reservation's current subject.
pub open spec fn subject_completed(completed: Seq<CompletedRewriteSubject>, source: RewriteCandidateSource) -> bool {
    exists|position: int|
        0 <= position < completed.len() && (#[trigger] completed[position]).reservation_id@
            == source.reservation_id@ && completed[position].subject == source.subject
}

/// Whether a mapped interval leaves a reservation's phase start and checkpoint as they are.
pub open spec fn interval_unchanged(interval: MappedPhaseInterval, source: RewriteCandidateSource) -> bool {
    interval.phase_start_head@ == source.phase_start_head@ && (source.lifecycle matches ReservationLifecycle::Outstanding { protected_tip }
        && interval.protected_tip@ == protected_tip.commit()@)
}

/// Whether a decision is the one the observations made for a source allow: the phase is
/// mapped only for a candidate, the target tip resolved only for a changed mapping, and the
/// comparison run only at a resolved tip.
pub open spec fn decided_from<
    MapPhase: Fn(&RewriteCandidateSource) -> OutstandingRewriteCandidate,
    TargetTip: FnMut(&ReservationId) -> Option<GitObjectId>,
    Compare: FnMut(&RewriteCandidateSource, &MappedPhaseInterval, &GitObjectId) -> ScopedPatchComparisonObservation,
>(
    source: RewriteCandidateSource,
    completed: Seq<CompletedRewriteSubject>,
    map_phase: MapPhase,
    target_tip: TargetTip,
    compare: Compare,
    decision: RewriteCandidateDecision,
) -> bool {
    if !(source.lifecycle is Outstanding) || subject_completed(completed, source) {
        decision == RewriteCandidateDecision::Skip
    } else {
        exists|candidate: OutstandingRewriteCandidate|
            #![trigger call_ensures(map_phase, (&source,), candidate)]
            call_ensures(map_phase, (&source,), candidate) && match candidate {
                OutstandingRewriteCandidate::Mapped(interval) => if interval_unchanged(interval, source) {
                    decision == RewriteCandidateDecision::Skip
                } else {
                    exists|tip: Option<GitObjectId>|
                        #![trigger call_ensures(target_tip, (&source.reservation_id,), tip)]
                        call_ensures(target_tip, (&source.reservation_id,), tip) && match tip {
                            None => decision == RewriteCandidateDecision::Defer(interval.destinations),
                            Some(resolved) => exists|comparison: ScopedPatchComparisonObservation|
                                #![trigger call_ensures(compare, (&source, &interval, &resolved), comparison)]
                                call_ensures(compare, (&source, &interval, &resolved), comparison)
                                    && decision == rewrite_candidate_decision_spec(
                                    true,
                                    false,
                                    candidate,
                                    false,
                                    tip,
                                    comparison,
                                ),
                        }
                },
                _ => decision == rewrite_candidate_decision_spec(
                    true,
                    false,
                    candidate,
                    false,
                    None,
                    ScopedPatchComparisonObservation::Deferred,
                ),
            }
    }
}

/// Whether a marker completed a reservation's current subject.
fn completes(completed: &[CompletedRewriteSubject], source: &RewriteCandidateSource) -> (done: bool)
    ensures
        done == subject_completed(completed@, *source),
{
    let mut index: usize = 0;
    while index < completed.len()
        invariant
            index <= completed@.len(),
            forall|earlier: int|
                0 <= earlier < index ==> !((#[trigger] completed@[earlier]).reservation_id@ == source.reservation_id@
                    && completed@[earlier].subject == source.subject),
        decreases completed@.len() - index,
    {
        if same_text(&completed[index].reservation_id, &source.reservation_id)
            && completed[index].subject == source.subject {
            return true;
        }
        index += 1;
    }
    false
}

/// Decide, for every retained reservation in order, what a rewrite preflight does with it,
/// and whether any of them defers. `map_phase` maps a candidate's phase through the rewrite,
/// `target_tip` resolves a reservation's target, and `compare` runs the budgeted scoped
/// comparison of a mapped phase at that tip; each runs only where the decision needs it.
pub fn import_rewrite_candidates<
    MapPhase: Fn(&RewriteCandidateSource) -> OutstandingRewriteCandidate,
    TargetTip: FnMut(&ReservationId) -> Option<GitObjectId>,
    Compare: FnMut(&RewriteCandidateSource, &MappedPhaseInterval, &GitObjectId) -> ScopedPatchComparisonObservation,
>(
    sources: &Vec<RewriteCandidateSource>,
    completed: &Vec<CompletedRewriteSubject>,
    map_phase: MapPhase,
    target_tip: TargetTip,
    compare: Compare,
) -> (imported: (Vec<RewriteCandidateDecision>, bool))
    requires
        forall|source: &RewriteCandidateSource| call_requires(map_phase, (source,)),
        forall|reservation_id: &ReservationId| call_requires(target_tip, (reservation_id,)),
        forall|source: &RewriteCandidateSource, interval: &MappedPhaseInterval, tip: &GitObjectId|
            call_requires(compare, (source, interval, tip)),
    ensures
        imported.0@.len() == sources@.len(),
        forall|position: int|
            0 <= position < sources@.len() ==> decided_from(
                #[trigger] sources@[position],
                completed@,
                map_phase,
                target_tip,
                compare,
                imported.0@[position],
            ),
        imported.1 == exists|position: int|
            0 <= position < sources@.len() && (#[trigger] imported.0@[position]) is Defer,
{
    let ghost map_original = map_phase;
    let ghost tip_original = target_tip;
    let ghost compare_original = compare;
    let mut target_tip = target_tip;
    let mut compare = compare;
    let mut decisions: Vec<RewriteCandidateDecision> = Vec::new();
    let mut deferred = false;
    let mut index: usize = 0;
    while index < sources.len()
        invariant
            index <= sources@.len(),
            decisions@.len() == index,
            target_tip == tip_original,
            compare == compare_original,
            map_phase == map_original,
            forall|source: &RewriteCandidateSource| call_requires(map_phase, (source,)),
            forall|reservation_id: &ReservationId| call_requires(target_tip, (reservation_id,)),
            forall|source: &RewriteCandidateSource, interval: &MappedPhaseInterval, tip: &GitObjectId|
                call_requires(compare, (source, interval, tip)),
            forall|position: int|
                0 <= position < index ==> decided_from(
                    #[trigger] sources@[position],
                    completed@,
                    map_phase,
                    target_tip,
                    compare,
                    decisions@[position],
                ),
            deferred == exists|position: int| 0 <= position < index && (#[trigger] decisions@[position]) is Defer,
        decreases sources@.len() - index,
    {
        let source = &sources[index];
        let outstanding = match source.lifecycle {
            ReservationLifecycle::Outstanding { .. } => true,
            _ => false,
        };
        let decision = if !outstanding || completes(completed.as_slice(), source) {
            RewriteCandidateDecision::Skip
        } else {
            let candidate = map_phase(source);
            match candidate {
                OutstandingRewriteCandidate::Mapped(interval) => {
                    let unchanged = match &source.lifecycle {
                        ReservationLifecycle::Outstanding { protected_tip } => same_text(
                            &interval.phase_start_head,
                            &source.phase_start_head,
                        ) && same_text(&interval.protected_tip, protected_tip.as_commit()),
                        _ => false,
                    };
                    if unchanged {
                        RewriteCandidateDecision::Skip
                    } else {
                        let tip = target_tip(&source.reservation_id);
                        match tip {
                            None => RewriteCandidateDecision::Defer(interval.destinations),
                            Some(resolved) => {
                                let comparison = compare(source, &interval, &resolved);
                                let decision = rewrite_candidate_decision(
                                    true,
                                    false,
                                    OutstandingRewriteCandidate::Mapped(interval),
                                    false,
                                    Some(resolved),
                                    comparison,
                                );
                                decision
                            },
                        }
                    }
                },
                other => rewrite_candidate_decision(
                    true,
                    false,
                    other,
                    false,
                    None,
                    ScopedPatchComparisonObservation::Deferred,
                ),
            }
        };
        let is_deferral = match decision {
            RewriteCandidateDecision::Defer(_) => true,
            _ => false,
        };
        let ghost before = decisions@;
        decisions.push(decision);
        assert(decisions@[index as int] == decision);
        assert(forall|position: int| 0 <= position < index ==> decisions@[position] == before[position]);
        if is_deferral {
            deferred = true;
        }
        index += 1;
    }
    (decisions, deferred)
}

/// The new tips of every pair whose old tip is already followed, in pair order.
pub open spec fn followed_destinations(tips: Seq<Seq<char>>, pairs: Seq<RewritePair>) -> Seq<
    Seq<char>,
>
    decreases pairs.len(),
{
    if pairs.len() == 0 {
        Seq::empty()
    } else {
        let earlier = followed_destinations(tips, pairs.drop_last());
        if tips.contains(pairs.last().old@) {
            earlier.push(pairs.last().new@)
        } else {
            earlier
        }
    }
}

/// `tips` followed by each addition not already present, in order.
pub open spec fn with_new_tips(tips: Seq<Seq<char>>, additions: Seq<Seq<char>>) -> Seq<Seq<char>>
    decreases additions.len(),
{
    if additions.len() == 0 {
        tips
    } else {
        let earlier = with_new_tips(tips, additions.drop_last());
        if earlier.contains(additions.last()) {
            earlier
        } else {
            earlier.push(additions.last())
        }
    }
}

/// The tips followed after one marker: unchanged when the marker rewrote none of them, else
/// extended by the rewritten destinations and the marker's new tips.
pub open spec fn followed_tips(tips: Seq<Seq<char>>, rewrite: BranchRewrite) -> Seq<Seq<char>> {
    let destinations = followed_destinations(tips, rewrite.pairs@);
    if destinations.len() == 0 {
        tips
    } else {
        with_new_tips(tips, destinations + rewrite.new_tips.deep_view())
    }
}

/// Adding tips keeps the earlier ones first and in order, adds no tip twice, and leaves
/// exactly the earlier tips and the additions.
proof fn adding_tips_keeps_order_without_repeats(tips: Seq<Seq<char>>, additions: Seq<Seq<char>>)
    ensures
        with_new_tips(tips, additions).len() >= tips.len(),
        with_new_tips(tips, additions).subrange(0, tips.len() as int) == tips,
        tips.no_duplicates() ==> with_new_tips(tips, additions).no_duplicates(),
        forall|tip: Seq<char>|
            #[trigger] with_new_tips(tips, additions).contains(tip) <==> tips.contains(tip) || additions.contains(tip),
    decreases additions.len(),
{
    if additions.len() > 0 {
        let earlier = with_new_tips(tips, additions.drop_last());
        adding_tips_keeps_order_without_repeats(tips, additions.drop_last());
        assert forall|tip: Seq<char>|
            additions.contains(tip) <==> additions.drop_last().contains(tip) || tip == additions.last() by {
            if additions.contains(tip) {
                let position = choose|position: int| 0 <= position < additions.len() && additions[position] == tip;
                if position < additions.len() - 1 {
                    assert(additions.drop_last()[position] == tip);
                }
            }
            if additions.drop_last().contains(tip) {
                let position = choose|position: int|
                    0 <= position < additions.drop_last().len() && additions.drop_last()[position] == tip;
                assert(additions[position] == tip);
            }
            if tip == additions.last() {
                assert(additions[additions.len() - 1] == tip);
            }
        }
        if !earlier.contains(additions.last()) {
            let result = earlier.push(additions.last());
            assert(result.subrange(0, tips.len() as int) =~= earlier.subrange(0, tips.len() as int));
            assert forall|tip: Seq<char>| #[trigger] result.contains(tip) <==> earlier.contains(tip) || tip
                == additions.last() by {
                if result.contains(tip) {
                    let position = choose|position: int| 0 <= position < result.len() && result[position] == tip;
                    if position < earlier.len() {
                        assert(earlier[position] == tip);
                    }
                }
                if earlier.contains(tip) {
                    let position = choose|position: int| 0 <= position < earlier.len() && earlier[position] == tip;
                    assert(result[position] == tip);
                }
                if tip == additions.last() {
                    assert(result[earlier.len() as int] == tip);
                }
            }
            if tips.no_duplicates() {
                assert forall|first: int, second: int|
                    0 <= first < result.len() && 0 <= second < result.len() && first != second implies result[first]
                    != result[second] by {
                    if first == earlier.len() {
                        assert(earlier.contains(result[second]));
                    } else if second == earlier.len() {
                        assert(earlier.contains(result[first]));
                    }
                }
            }
        }
    }
}

/// Following a marker keeps the tips already followed first and in order and adds none twice;
/// a marker that rewrote none of them leaves them as they are, and otherwise the tips end up
/// exactly the earlier tips, the destinations of the pairs whose old tip was followed, and the
/// marker's new tips.
pub proof fn following_a_marker_extends_the_followed_tips(tips: Seq<Seq<char>>, rewrite: BranchRewrite)
    ensures
        followed_tips(tips, rewrite).subrange(0, tips.len() as int) == tips,
        tips.no_duplicates() ==> followed_tips(tips, rewrite).no_duplicates(),
        followed_destinations(tips, rewrite.pairs@).len() == 0 ==> followed_tips(tips, rewrite) == tips,
        followed_destinations(tips, rewrite.pairs@).len() > 0 ==> forall|tip: Seq<char>|
            #[trigger] followed_tips(tips, rewrite).contains(tip) <==> tips.contains(tip)
                || followed_destinations(tips, rewrite.pairs@).contains(tip)
                || rewrite.new_tips.deep_view().contains(tip),
{
    let destinations = followed_destinations(tips, rewrite.pairs@);
    if destinations.len() == 0 {
        assert(tips.subrange(0, tips.len() as int) =~= tips);
    } else {
        let additions = destinations + rewrite.new_tips.deep_view();
        adding_tips_keeps_order_without_repeats(tips, additions);
        assert forall|tip: Seq<char>|
            additions.contains(tip) <==> destinations.contains(tip) || rewrite.new_tips.deep_view().contains(tip) by {
            if additions.contains(tip) {
                let position = choose|position: int| 0 <= position < additions.len() && additions[position] == tip;
                if position < destinations.len() {
                    assert(destinations[position] == tip);
                } else {
                    assert(rewrite.new_tips.deep_view()[position - destinations.len()] == tip);
                }
            }
            if destinations.contains(tip) {
                let position = choose|position: int| 0 <= position < destinations.len() && destinations[position] == tip;
                assert(additions[position] == tip);
            }
            if rewrite.new_tips.deep_view().contains(tip) {
                let position = choose|position: int|
                    0 <= position < rewrite.new_tips.deep_view().len() && rewrite.new_tips.deep_view()[position] == tip;
                assert(additions[destinations.len() + position] == tip);
            }
        }
    }
}

/// A pair contributes its destination exactly when its old tip is among the followed tips.
pub proof fn only_followed_pairs_contribute(tips: Seq<Seq<char>>, pairs: Seq<RewritePair>)
    ensures
        (forall|index: int| 0 <= index < pairs.len() ==> !tips.contains(#[trigger] pairs[index].old@))
            ==> followed_destinations(tips, pairs).len() == 0,
    decreases pairs.len(),
{
    if pairs.len() > 0 {
        only_followed_pairs_contribute(tips, pairs.drop_last());
        if forall|index: int| 0 <= index < pairs.len() ==> !tips.contains(#[trigger] pairs[index].old@) {
            assert forall|index: int| 0 <= index < pairs.drop_last().len() implies !tips.contains(
                #[trigger] pairs.drop_last()[index].old@,
            ) by {
                assert(pairs.drop_last()[index] == pairs[index]);
            }
            assert(!tips.contains(pairs[pairs.len() - 1].old@));
        }
    }
}

impl DeferredRewriteIntegrationSubject {
    /// Follow a later rewrite even while the reservation retains its original anchors.
    pub fn follow_rewrite(&mut self, marker: &PendingBranchRewriteMarker)
        ensures
            final(self).validation == old(self).validation,
            final(self).rewritten_tips.deep_view() == followed_tips(
                old(self).rewritten_tips.deep_view(),
                marker.rewrite,
            ),
    {
        let ghost original = self.rewritten_tips.deep_view();
        let mut destinations: Vec<GitObjectId> = Vec::new();
        let mut index: usize = 0;
        while index < marker.rewrite.pairs.len()
            invariant
                index <= marker.rewrite.pairs@.len(),
                self.rewritten_tips.deep_view() == original,
                self.validation == old(self).validation,
                destinations.deep_view() == followed_destinations(
                    original,
                    marker.rewrite.pairs@.take(index as int),
                ),
            decreases marker.rewrite.pairs@.len() - index,
        {
            let pair = &marker.rewrite.pairs[index];
            assert(marker.rewrite.pairs@.take(index + 1).drop_last() =~= marker.rewrite.pairs@.take(
                index as int,
            ));
            if contains_text(&self.rewritten_tips, &pair.old) {
                let ghost before = destinations.deep_view();
                destinations.push(pair.new.clone());
                assert(destinations.deep_view() =~= before.push(pair.new@));
            }
            index += 1;
        }
        assert(marker.rewrite.pairs@.take(index as int) =~= marker.rewrite.pairs@);
        if destinations.len() == 0 {
            return;
        }
        let ghost destination_view = destinations.deep_view();
        let mut position: usize = 0;
        assert(destination_view.take(0) =~= Seq::<Seq<char>>::empty());
        while position < destinations.len()
            invariant
                position <= destinations@.len(),
                destination_view == destinations.deep_view(),
                self.validation == old(self).validation,
                self.rewritten_tips.deep_view() == with_new_tips(
                    original,
                    destination_view.take(position as int),
                ),
            decreases destinations@.len() - position,
        {
            let tip = &destinations[position];
            assert(destination_view.take(position + 1).drop_last() =~= destination_view.take(
                position as int,
            ));
            if !contains_text(&self.rewritten_tips, tip) {
                let ghost before = self.rewritten_tips.deep_view();
                self.rewritten_tips.push(tip.clone());
                assert(self.rewritten_tips.deep_view() =~= before.push(tip@));
            }
            position += 1;
        }
        assert(destination_view.take(position as int) =~= destination_view);
        let ghost followed = self.rewritten_tips.deep_view();
        let ghost new_tip_view = marker.rewrite.new_tips.deep_view();
        let mut position: usize = 0;
        assert(new_tip_view.take(0) =~= Seq::<Seq<char>>::empty());
        while position < marker.rewrite.new_tips.len()
            invariant
                position <= marker.rewrite.new_tips@.len(),
                new_tip_view == marker.rewrite.new_tips.deep_view(),
                self.validation == old(self).validation,
                self.rewritten_tips.deep_view() == with_new_tips(
                    followed,
                    new_tip_view.take(position as int),
                ),
            decreases marker.rewrite.new_tips@.len() - position,
        {
            let tip = &marker.rewrite.new_tips[position];
            assert(new_tip_view.take(position + 1).drop_last() =~= new_tip_view.take(
                position as int,
            ));
            if !contains_text(&self.rewritten_tips, tip) {
                let ghost before = self.rewritten_tips.deep_view();
                self.rewritten_tips.push(tip.clone());
                assert(self.rewritten_tips.deep_view() =~= before.push(tip@));
            }
            position += 1;
        }
        assert(new_tip_view.take(position as int) =~= new_tip_view);
        proof {
            new_tips_in_two_steps(original, destination_view, new_tip_view);
        }
    }
}

/// Adding two lists of tips one after the other adds their concatenation.
proof fn new_tips_in_two_steps(tips: Seq<Seq<char>>, first: Seq<Seq<char>>, second: Seq<Seq<char>>)
    ensures
        with_new_tips(with_new_tips(tips, first), second) == with_new_tips(tips, first + second),
    decreases second.len(),
{
    if second.len() == 0 {
        assert(first + second =~= first);
    } else {
        new_tips_in_two_steps(tips, first, second.drop_last());
        assert((first + second).drop_last() =~= first + second.drop_last());
        assert((first + second).last() == second.last());
    }
}

/// Following a rewrite only ever adds tips: every tip followed before is still followed, in
/// its place, every added tip is followed, and a list without repeats stays without repeats.
pub proof fn following_keeps_every_tip_once(tips: Seq<Seq<char>>, additions: Seq<Seq<char>>)
    requires
        tips.no_duplicates(),
    ensures
        with_new_tips(tips, additions).len() >= tips.len(),
        with_new_tips(tips, additions).take(tips.len() as int) == tips,
        with_new_tips(tips, additions).no_duplicates(),
        forall|index: int|
            0 <= index < additions.len() ==> with_new_tips(tips, additions).contains(
                #[trigger] additions[index],
            ),
    decreases additions.len(),
{
    if additions.len() > 0 {
        following_keeps_every_tip_once(tips, additions.drop_last());
        let earlier = with_new_tips(tips, additions.drop_last());
        let last = additions.last();
        if !earlier.contains(last) {
            assert(earlier.push(last).take(tips.len() as int) =~= earlier.take(tips.len() as int));
        }
        assert forall|index: int| 0 <= index < additions.len() implies with_new_tips(
            tips,
            additions,
        ).contains(#[trigger] additions[index]) by {
            if index < additions.len() - 1 {
                assert(additions.drop_last()[index] == additions[index]);
                assert(earlier.contains(additions.drop_last()[index]));
                let found = choose|found: int|
                    0 <= found < earlier.len() && earlier[found] == additions[index];
                if !earlier.contains(last) {
                    assert(earlier.push(last)[found] == additions[index]);
                }
            } else if !earlier.contains(last) {
                assert(earlier.push(last)[earlier.len() as int] == last);
            }
        }
    }
}

} // verus!
