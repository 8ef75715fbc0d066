//! The per-pass budget that admits one scoped patch comparison per trunk target.
use vstd::prelude::*;

use crate::ids::same_text;
use crate::ids::same_texts;
use crate::ids::GitObjectId;
use crate::ids::ReservationScopePath;
use crate::reservation::evidence::ScopedPatchComparison;
use crate::reservation::evidence::ScopedPatchComparisonObservation;
use crate::reservation::evidence::ScopedPatchIntegrationEvaluation;
use crate::scope::ScopeKind;

verus! {

/// Whether a compared scope is one file or a whole tree.
#[derive(Clone, Copy, Debug, PartialEq, Eq, Structural)]
pub enum ScopedPatchEvaluationScopeKind {
    /// Exactly one repository file.
    File,
    /// A directory and everything beneath it.
    Tree,
}

/// The compared kind that matches a reservation scope's kind.
pub open spec fn evaluation_scope_kind(scope_kind: ScopeKind) -> ScopedPatchEvaluationScopeKind {
    match scope_kind {
        ScopeKind::File => ScopedPatchEvaluationScopeKind::File,
        ScopeKind::Tree => ScopedPatchEvaluationScopeKind::Tree,
    }
}

impl From<ScopeKind> for ScopedPatchEvaluationScopeKind {
    fn from(scope_kind: ScopeKind) -> (kind: Self) {
        match scope_kind {
            ScopeKind::File => ScopedPatchEvaluationScopeKind::File,
            ScopeKind::Tree => ScopedPatchEvaluationScopeKind::Tree,
        }
    }
}

impl vstd::std_specs::convert::FromSpecImpl<ScopeKind> for ScopedPatchEvaluationScopeKind {
    open spec fn obeys_from_spec() -> bool {
        true
    }

    open spec fn from_spec(scope_kind: ScopeKind) -> Self {
        evaluation_scope_kind(scope_kind)
    }
}

/// One scope a comparison replays.
#[derive(Debug, PartialEq, Eq)]
pub struct ScopedPatchEvaluationScope {
    /// The repository-relative path.
    pub path: ReservationScopePath,
    /// Whether the path is a file or a tree.
    pub scope_kind: ScopedPatchEvaluationScopeKind,
}

/// The immutable history and location evidence used by one scoped comparison.
#[derive(Debug, PartialEq, Eq)]
pub enum ScopedPatchComparisonDestination {
    /// Ordinary integration evidence compares to the admission trunk itself.
    Trunk,
    /// Rewrite acceptance compares to this mapped tip with explicitly located commits.
    Mapped {
        /// The mapped tip.
        tip: GitObjectId,
        /// The commits located for the comparison.
        destinations: Vec<GitObjectId>,
    },
}

/// Everything one scoped comparison depends on; identical keys give identical answers.
#[derive(Debug, PartialEq, Eq)]
pub struct ScopedPatchEvaluationKey {
    /// Where the reservation's phase started.
    pub phase_start_head: GitObjectId,
    /// The protected commit under comparison.
    pub protected_tip: GitObjectId,
    /// The trunk the comparison is admitted against.
    pub target_trunk: GitObjectId,
    /// The protected scopes.
    pub scopes: Vec<ScopedPatchEvaluationScope>,
    /// The comparison destination and location source, distinct from trunk admission.
    pub destination: ScopedPatchComparisonDestination,
}

/// An evaluation key with every text taken as a sequence of characters.
pub struct EvaluationKeyView {
    /// Where the reservation's phase started.
    pub phase_start_head: Seq<char>,
    /// The protected commit under comparison.
    pub protected_tip: Seq<char>,
    /// The trunk the comparison is admitted against.
    pub target_trunk: Seq<char>,
    /// The protected scopes, as path and kind.
    pub scopes: Seq<(Seq<char>, ScopedPatchEvaluationScopeKind)>,
    /// `None` for the trunk itself, else the mapped tip and located commits.
    pub destination: Option<(Seq<char>, Seq<Seq<char>>)>,
}

/// The compared scopes as path and kind.
pub open spec fn scopes_view(scopes: Seq<ScopedPatchEvaluationScope>) -> Seq<
    (Seq<char>, ScopedPatchEvaluationScopeKind),
> {
    scopes.map_values(|scope: ScopedPatchEvaluationScope| (scope.path@, scope.scope_kind))
}

impl View for ScopedPatchEvaluationKey {
    type V = EvaluationKeyView;

    open spec fn view(&self) -> EvaluationKeyView {
        EvaluationKeyView {
            phase_start_head: self.phase_start_head@,
            protected_tip: self.protected_tip@,
            target_trunk: self.target_trunk@,
            scopes: scopes_view(self.scopes@),
            destination: match self.destination {
                ScopedPatchComparisonDestination::Trunk => None,
                ScopedPatchComparisonDestination::Mapped { tip, destinations } => Some(
                    (tip@, destinations.deep_view()),
                ),
            },
        }
    }
}

/// Compare two lists of compared scopes by path and kind.
fn same_scopes(left: &Vec<ScopedPatchEvaluationScope>, right: &Vec<ScopedPatchEvaluationScope>) -> (same: bool)
    ensures
        same == (scopes_view(left@) == scopes_view(right@)),
{
    if left.len() != right.len() {
        assert(scopes_view(left@).len() != scopes_view(right@).len());
        return false;
    }
    let mut index: usize = 0;
    while index < left.len()
        invariant
            left.len() == right.len(),
            index <= left.len(),
            forall|earlier: int|
                0 <= earlier < index ==> #[trigger] scopes_view(left@)[earlier] == scopes_view(
                    right@,
                )[earlier],
        decreases left.len() - index,
    {
        if !same_text(&left[index].path, &right[index].path) || left[index].scope_kind
            != right[index].scope_kind {
            assert(scopes_view(left@)[index as int] != scopes_view(right@)[index as int]);
            return false;
        }
        assert(scopes_view(left@)[index as int] == scopes_view(right@)[index as int]);
        index += 1;
    }
    assert(scopes_view(left@) =~= scopes_view(right@));
    true
}

impl ScopedPatchEvaluationKey {
    /// Whether two keys describe the same comparison.
    pub fn same_as(&self, other: &ScopedPatchEvaluationKey) -> (same: bool)
        ensures
            same == (self@ == other@),
    {
        let destinations_agree = match (&self.destination, &other.destination) {
            (ScopedPatchComparisonDestination::Trunk, ScopedPatchComparisonDestination::Trunk) => true,
            (
                ScopedPatchComparisonDestination::Mapped { tip, destinations },
                ScopedPatchComparisonDestination::Mapped {
                    tip: other_tip,
                    destinations: other_destinations,
                },
            ) => same_text(tip, other_tip) && same_texts(destinations, other_destinations),
            _ => false,
        };
        let same = same_text(&self.phase_start_head, &other.phase_start_head) && same_text(
            &self.protected_tip,
            &other.protected_tip,
        ) && same_text(&self.target_trunk, &other.target_trunk) && same_scopes(
            &self.scopes,
            &other.scopes,
        ) && destinations_agree;
        proof {
            if same {
                assert(self@ =~= other@);
            }
        }
        same
    }
}

/// The most recent cached evaluation for a key, if any.
pub open spec fn cached_evaluation(
    entries: Seq<(ScopedPatchEvaluationKey, ScopedPatchIntegrationEvaluation)>,
    key: EvaluationKeyView,
) -> Option<ScopedPatchIntegrationEvaluation>
    decreases entries.len(),
{
    if entries.len() == 0 {
        None
    } else if entries.last().0@ == key {
        Some(entries.last().1)
    } else {
        cached_evaluation(entries.drop_last(), key)
    }
}

/// One evaluation request against the budget: a cached key is answered from the cache, a key
/// whose target already spent its slot is deferred, and otherwise the evaluation runs, its
/// answer is cached, and the target's slot is spent.
pub open spec fn evaluation_step<Evaluate: FnOnce() -> ScopedPatchIntegrationEvaluation>(
    before: ReconciliationScopedPatchEvaluationBudget,
    after: ReconciliationScopedPatchEvaluationBudget,
    key: ScopedPatchEvaluationKey,
    evaluate: Evaluate,
    observation: ScopedPatchComparisonObservation,
) -> bool {
    match before.cached(key@) {
        Some(cached) => observation == ScopedPatchComparisonObservation::Observed(cached)
            && after.admitted() == before.admitted() && after.spent_targets()
            == before.spent_targets(),
        None => if before.spent_targets().contains(key.target_trunk@) {
            observation == ScopedPatchComparisonObservation::Deferred && after.admitted()
                == before.admitted() && after.spent_targets() == before.spent_targets()
        } else {
            exists|evaluation: ScopedPatchIntegrationEvaluation|
                #![trigger call_ensures(evaluate, (), evaluation)]
                call_ensures(evaluate, (), evaluation) && observation
                    == ScopedPatchComparisonObservation::Observed(evaluation)
                    && after.admitted() == before.admitted().push((key, evaluation))
                    && after.spent_targets() == before.spent_targets().push(key.target_trunk@)
        },
    }
}

/// Reuses identical proof inputs and admits one scoped comparison per trunk target.
pub struct ReconciliationScopedPatchEvaluationBudget {
    evaluations: Vec<(ScopedPatchEvaluationKey, ScopedPatchIntegrationEvaluation)>,
    evaluated_targets: Vec<GitObjectId>,
}

impl ReconciliationScopedPatchEvaluationBudget {
    /// The admitted comparisons, oldest first, with what each found.
    pub closed spec fn admitted(self) -> Seq<(ScopedPatchEvaluationKey, ScopedPatchIntegrationEvaluation)> {
        self.evaluations@
    }

    /// The trunk targets whose one comparison has been admitted.
    pub closed spec fn spent_targets(self) -> Seq<Seq<char>> {
        self.evaluated_targets.deep_view()
    }

    /// The cached evaluation for a key, if its comparison was admitted.
    pub open spec fn cached(self, key: EvaluationKeyView) -> Option<ScopedPatchIntegrationEvaluation> {
        cached_evaluation(self.admitted(), key)
    }

    /// Every admitted comparison spent its own target's slot, in order, and no target twice.
    pub closed spec fn wf(self) -> bool {
        &&& self.evaluations@.len() == self.evaluated_targets@.len()
        &&& forall|index: int|
            0 <= index < self.evaluations@.len() ==> #[trigger] self.evaluations@[index].0.target_trunk@
                == self.evaluated_targets@[index]@
        &&& forall|first: int, second: int|
            0 <= first < second < self.evaluated_targets@.len()
                ==> #[trigger] self.evaluated_targets@[first]@
                != #[trigger] self.evaluated_targets@[second]@
    }

    /// A budget with no comparison admitted yet.
    pub fn new() -> (budget: Self)
        ensures
            budget.wf(),
            budget.admitted() == Seq::<(ScopedPatchEvaluationKey, ScopedPatchIntegrationEvaluation)>::empty(),
            budget.spent_targets() == Seq::<Seq<char>>::empty(),
    {
        let budget = ReconciliationScopedPatchEvaluationBudget {
            evaluations: Vec::new(),
            evaluated_targets: Vec::new(),
        };
        assert(budget.evaluated_targets.deep_view() =~= Seq::<Seq<char>>::empty());
        budget
    }

    /// How many trunk targets have spent their comparison.
    pub fn evaluated_target_count(&self) -> (count: usize)
        ensures
            count == self.spent_targets().len(),
    {
        self.evaluated_targets.len()
    }

    /// Find the cached evaluation for a key.
    fn lookup(&self, key: &ScopedPatchEvaluationKey) -> (found: Option<&ScopedPatchIntegrationEvaluation>)
        ensures
            match found {
                Some(evaluation) => self.cached(key@) == Some(*evaluation),
                None => self.cached(key@) is None,
            },
    {
        let mut index: usize = self.evaluations.len();
        assert(self.evaluations@.take(index as int) =~= self.evaluations@);
        while index > 0
            invariant
                index <= self.evaluations@.len(),
                self.cached(key@) == cached_evaluation(self.evaluations@.take(index as int), key@),
            decreases index,
        {
            let ghost prefix = self.evaluations@.take(index as int);
            assert(prefix.drop_last() =~= self.evaluations@.take(index - 1));
            if self.evaluations[index - 1].0.same_as(key) {
                return Some(&self.evaluations[index - 1].1);
            }
            index -= 1;
        }
        None
    }

    /// Whether a target has spent its comparison.
    fn target_spent(&self, target: &GitObjectId) -> (spent: bool)
        ensures
            spent == self.spent_targets().contains(target@),
    {
        let mut index: usize = 0;
        while index < self.evaluated_targets.len()
            invariant
                index <= self.evaluated_targets@.len(),
                forall|earlier: int|
                    0 <= earlier < index ==> self.evaluated_targets.deep_view()[earlier] != target@,
            decreases self.evaluated_targets@.len() - index,
        {
            if same_text(&self.evaluated_targets[index], target) {
                assert(self.spent_targets()[index as int] == target@);
                return true;
            }
            index += 1;
        }
        false
    }

    /// Answer a comparison from the cache, defer it when its target already spent its slot, or
    /// admit and run it. The comparison runs only when admitted, so only then need it be
    /// callable.
    pub fn evaluate<Evaluate: FnOnce() -> ScopedPatchIntegrationEvaluation>(
        &mut self,
        scoped_patch_evaluation_key: ScopedPatchEvaluationKey,
        evaluate: Evaluate,
    ) -> (observation: ScopedPatchComparisonObservation)
        requires
            old(self).wf(),
            old(self).cached(scoped_patch_evaluation_key@) is None && !old(self).spent_targets().contains(
                scoped_patch_evaluation_key.target_trunk@,
            ) ==> call_requires(evaluate, ()),
        ensures
            final(self).wf(),
            evaluation_step(*old(self), *final(self), scoped_patch_evaluation_key, evaluate, observation),
    {
        match self.lookup(&scoped_patch_evaluation_key) {
            Some(cached) => {
                return ScopedPatchComparisonObservation::Observed(cached.clone());
            },
            None => {},
        }
        if self.target_spent(&scoped_patch_evaluation_key.target_trunk) {
            return ScopedPatchComparisonObservation::Deferred;
        }
        let ghost old_targets = self.evaluated_targets.deep_view();
        let ghost old_evaluations = self.evaluations@;
        self.evaluated_targets.push(scoped_patch_evaluation_key.target_trunk.clone());
        let evaluation = evaluate();
        let observed = evaluation.clone();
        self.evaluations.push((scoped_patch_evaluation_key, evaluation));
        proof {
            assert(self.evaluated_targets.deep_view() =~= old_targets.push(
                self.evaluations@.last().0.target_trunk@,
            ));
            assert forall|first: int, second: int|
                0 <= first < second < self.evaluated_targets@.len() implies #[trigger] self.evaluated_targets@[first]@
                != #[trigger] self.evaluated_targets@[second]@ by {
                if second == old_targets.len() {
                    assert(old_targets[first] == self.evaluated_targets@[first]@);
                }
            }
        }
        ScopedPatchComparisonObservation::Observed(observed)
    }
}

/// An admitted comparison is answered from the cache ever after: the same key meets the same
/// evaluation, and neither the cache nor the spent targets change.
pub proof fn an_admitted_key_is_cached_with_its_result(
    budget: ReconciliationScopedPatchEvaluationBudget,
    key: ScopedPatchEvaluationKey,
    evaluation: ScopedPatchIntegrationEvaluation,
)
    requires
        budget.wf(),
    ensures
        ({
            let admitted = budget.admitted().push((key, evaluation));
            cached_evaluation(admitted, key@) == Some(evaluation)
        }),
{
}

/// Once a key was observed, asking for it again answers the same evaluation without running
/// the new comparison: the second request finds the key cached, and neither the admitted
/// comparisons nor the spent targets change.
pub proof fn an_observed_key_answers_again_from_the_cache<
    First: FnOnce() -> ScopedPatchIntegrationEvaluation,
    Second: FnOnce() -> ScopedPatchIntegrationEvaluation,
>(
    start: ReconciliationScopedPatchEvaluationBudget,
    middle: ReconciliationScopedPatchEvaluationBudget,
    end: ReconciliationScopedPatchEvaluationBudget,
    key: ScopedPatchEvaluationKey,
    first: First,
    second: Second,
    evaluation: ScopedPatchIntegrationEvaluation,
    answer: ScopedPatchComparisonObservation,
)
    requires
        evaluation_step(start, middle, key, first, ScopedPatchComparisonObservation::Observed(evaluation)),
        evaluation_step(middle, end, key, second, answer),
    ensures
        middle.cached(key@) == Some(evaluation),
        answer == ScopedPatchComparisonObservation::Observed(evaluation),
        end.admitted() == middle.admitted(),
        end.spent_targets() == middle.spent_targets(),
{
    if start.cached(key@) is None && !start.spent_targets().contains(key.target_trunk@) {
        let admitted = start.admitted().push((key, evaluation));
        assert(middle.admitted() == admitted);
        assert(cached_evaluation(admitted, key@) == Some(evaluation));
    }
}

/// No two admitted comparisons spent the same trunk target: each target answers at most one
/// scoped comparison per pass.
pub proof fn one_admitted_comparison_per_target(
    budget: ReconciliationScopedPatchEvaluationBudget,
    first: int,
    second: int,
)
    requires
        budget.wf(),
        0 <= first < second < budget.admitted().len(),
    ensures
        budget.admitted()[first].0.target_trunk@ != budget.admitted()[second].0.target_trunk@,
        budget.admitted().len() == budget.spent_targets().len(),
{
    assert(budget.evaluated_targets.deep_view()[first] == budget.evaluated_targets@[first]@);
    assert(budget.evaluated_targets.deep_view()[second] == budget.evaluated_targets@[second]@);
}

/// Whether the one scoped comparison a successor pass admits is still unspent.
#[derive(Debug, PartialEq, Eq)]
pub enum ReconciliationSuccessorScopedPatchEvaluationBudget {
    /// The one admitted scoped comparison is still available.
    Unspent,
    /// The one admitted scoped comparison has already been performed.
    Spent,
}

/// Whether the successor budget ran its comparison or deferred it.
#[derive(Debug, PartialEq, Eq)]
pub enum SuccessorScopedPatchComparisonObservation {
    /// The admitted comparison ran and found this.
    Observed(ScopedPatchComparison),
    /// The pass's one comparison was already spent.
    Deferred,
}

impl ReconciliationSuccessorScopedPatchEvaluationBudget {
    /// Run the comparison if the pass's one slot is unspent; the slot is spent afterwards either
    /// way.
    pub fn evaluate<Evaluate: FnOnce() -> ScopedPatchComparison>(&mut self, evaluate: Evaluate) -> (observation:
        SuccessorScopedPatchComparisonObservation)
        requires
            call_requires(evaluate, ()),
        ensures
            *final(self) == ReconciliationSuccessorScopedPatchEvaluationBudget::Spent,
            *old(self) is Spent ==> observation == SuccessorScopedPatchComparisonObservation::Deferred,
            *old(self) is Unspent ==> exists|comparison: ScopedPatchComparison|
                #![trigger call_ensures(evaluate, (), comparison)]
                call_ensures(evaluate, (), comparison) && observation
                    == SuccessorScopedPatchComparisonObservation::Observed(comparison),
    {
        match self {
            ReconciliationSuccessorScopedPatchEvaluationBudget::Spent => {
                SuccessorScopedPatchComparisonObservation::Deferred
            },
            ReconciliationSuccessorScopedPatchEvaluationBudget::Unspent => {
                *self = ReconciliationSuccessorScopedPatchEvaluationBudget::Spent;
                SuccessorScopedPatchComparisonObservation::Observed(evaluate())
            },
        }
    }
}

impl Default for ReconciliationSuccessorScopedPatchEvaluationBudget {
    fn default() -> (budget: Self)
        ensures
            budget == ReconciliationSuccessorScopedPatchEvaluationBudget::Unspent,
    {
        ReconciliationSuccessorScopedPatchEvaluationBudget::Unspent
    }
}

} // verus!
