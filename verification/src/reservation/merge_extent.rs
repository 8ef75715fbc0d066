//! Branch merge protection, kept independently of a run's declared editing scope.
use vstd::prelude::*;

use crate::ids::clone_texts;
use crate::ids::same_text;
use crate::ids::same_texts;
use crate::ids::GitObjectId;
use crate::ids::ReservationScopePath;
use crate::scope::ReservationScope;
use crate::scope::ReservationScopeSet;

verus! {

/// The uncommitted paths of a checkout at one observation.
#[derive(Debug, PartialEq, Eq)]
pub struct WorkingTreeFingerprint {
    /// Changed tracked paths.
    pub tracked_paths: Vec<ReservationScopePath>,
    /// Untracked paths.
    pub untracked_paths: Vec<ReservationScopePath>,
}

/// Whether one fingerprint holds the same path lists as another.
pub open spec fn copied_fingerprint(copy: WorkingTreeFingerprint, original: WorkingTreeFingerprint) -> bool {
    copy.tracked_paths@ == original.tracked_paths@ && copy.untracked_paths@
        == original.untracked_paths@
}

impl Clone for WorkingTreeFingerprint {
    fn clone(&self) -> (copy: Self)
        ensures
            copied_fingerprint(copy, *self),
    {
        WorkingTreeFingerprint {
            tracked_paths: clone_texts(&self.tracked_paths),
            untracked_paths: clone_texts(&self.untracked_paths),
        }
    }
}

/// Every repository fact whose movement can change the branch's merge surface.
#[derive(Debug, PartialEq, Eq)]
pub struct MergeExtentKey {
    /// Trunk movement can integrate an otherwise unchanged holder.
    pub trunk: GitObjectId,
    /// The branch tip whose net change will reach trunk.
    pub head: GitObjectId,
    /// Uncommitted paths independently extend that net change.
    pub working_tree: WorkingTreeFingerprint,
}

/// Whether two keys name the same trunk, head and uncommitted paths.
pub open spec fn same_key(left: MergeExtentKey, right: MergeExtentKey) -> bool {
    &&& left.trunk@ == right.trunk@
    &&& left.head@ == right.head@
    &&& left.working_tree.tracked_paths.deep_view() == right.working_tree.tracked_paths.deep_view()
    &&& left.working_tree.untracked_paths.deep_view()
        == right.working_tree.untracked_paths.deep_view()
}

impl MergeExtentKey {
    /// Compare two keys input by input.
    pub fn same_as(&self, other: &MergeExtentKey) -> (same: bool)
        ensures
            same == same_key(*self, *other),
    {
        same_text(&self.trunk, &other.trunk) && same_text(&self.head, &other.head) && same_texts(
            &self.working_tree.tracked_paths,
            &other.working_tree.tracked_paths,
        ) && same_texts(&self.working_tree.untracked_paths, &other.working_tree.untracked_paths)
    }
}

/// Whether one key holds the same trunk, head and fingerprint lists as another.
pub open spec fn copied_key(copy: MergeExtentKey, original: MergeExtentKey) -> bool {
    copy.trunk == original.trunk && copy.head == original.head && copied_fingerprint(
        copy.working_tree,
        original.working_tree,
    )
}

impl Clone for MergeExtentKey {
    fn clone(&self) -> (copy: Self)
        ensures
            copied_key(copy, *self),
    {
        MergeExtentKey {
            trunk: self.trunk.clone(),
            head: self.head.clone(),
            working_tree: self.working_tree.clone(),
        }
    }
}

/// Evidence retained through failure, distinguishing an initial declaration from a successful
/// observation.
#[derive(Debug, PartialEq, Eq)]
pub enum RetainedMergeEvidence {
    /// No Git observation has succeeded; keep the acquisition's conservative protection.
    NotDerived {
        /// The immutable acquisition scope protects until the first successful observation.
        protection: ReservationScopeSet,
    },
    /// A completed observation proved that the branch held no unmerged paths.
    Empty {
        /// The exact inputs that proved this empty answer.
        key: MergeExtentKey,
    },
    /// A completed observation established these exact unmerged paths.
    Protected {
        /// The exact inputs that established the protected surface.
        key: MergeExtentKey,
        /// Net branch and dirty paths, independent of the run's declaration.
        scopes: ReservationScopeSet,
    },
}

/// The branch's independently observed merge protection, including inability to answer.
#[derive(Debug, PartialEq, Eq)]
pub enum MergeExtent {
    /// Replay of an acquisition predating derivation must still protect its declaration.
    NotDerived {
        /// The immutable acquisition scope protects until the first successful observation.
        protection: ReservationScopeSet,
    },
    /// Successful emptiness ends merge protection without ending the editing run.
    Empty {
        /// The exact inputs that proved this empty answer.
        key: MergeExtentKey,
    },
    /// Exactly the net branch change and its currently dirty paths are protected.
    Protected {
        /// The exact inputs that established the protected surface.
        key: MergeExtentKey,
        /// Net branch and dirty paths, independent of the run's declaration.
        scopes: ReservationScopeSet,
    },
    /// Failure preserves the last answer and explains why no fresh answer is available.
    Unavailable {
        /// The preceding answer, or explicit evidence that none has yet succeeded.
        retained_evidence: RetainedMergeEvidence,
        /// Why the current observation could not establish a replacement answer.
        failure: String,
    },
}

/// Whether the selected refusal ground currently protects any paths.
pub enum ReservationProtection<'scopes> {
    /// This ground refuses nothing.
    Clear,
    /// This ground protects this complete nonempty scope set.
    Protected(&'scopes ReservationScopeSet),
}

/// The answer an extent rests on: its own successful or declared answer, or the one it
/// retained through failure.
pub open spec fn standing_evidence(extent: MergeExtent) -> RetainedMergeEvidence {
    match extent {
        MergeExtent::NotDerived { protection } => RetainedMergeEvidence::NotDerived { protection },
        MergeExtent::Empty { key } => RetainedMergeEvidence::Empty { key },
        MergeExtent::Protected { key, scopes } => RetainedMergeEvidence::Protected { key, scopes },
        MergeExtent::Unavailable { retained_evidence, .. } => retained_evidence,
    }
}

/// The paths an answer protects, or none when it proved the branch empty.
pub open spec fn protected_scopes(evidence: RetainedMergeEvidence) -> Option<ReservationScopeSet> {
    match evidence {
        RetainedMergeEvidence::NotDerived { protection } => Some(protection),
        RetainedMergeEvidence::Empty { .. } => None,
        RetainedMergeEvidence::Protected { scopes, .. } => Some(scopes),
    }
}

/// Whether one retained answer carries the same variant, key and scopes as another.
pub open spec fn copied_evidence(copy: RetainedMergeEvidence, original: RetainedMergeEvidence) -> bool {
    match (copy, original) {
        (
            RetainedMergeEvidence::NotDerived { protection: copied },
            RetainedMergeEvidence::NotDerived { protection },
        ) => copied.scopes() == protection.scopes(),
        (RetainedMergeEvidence::Empty { key: copied }, RetainedMergeEvidence::Empty { key }) => {
            copied_key(copied, key)
        },
        (
            RetainedMergeEvidence::Protected { key: copied_key_value, scopes: copied_scopes },
            RetainedMergeEvidence::Protected { key, scopes },
        ) => copied_key(copied_key_value, key) && copied_scopes.scopes() == scopes.scopes(),
        _ => false,
    }
}

/// A retained answer carries a copy of itself.
pub proof fn copied_evidence_is_reflexive(evidence: RetainedMergeEvidence)
    ensures
        copied_evidence(evidence, evidence),
{
}

impl Clone for RetainedMergeEvidence {
    fn clone(&self) -> (copy: Self)
        ensures
            copied_evidence(copy, *self),
    {
        match self {
            RetainedMergeEvidence::NotDerived { protection } => RetainedMergeEvidence::NotDerived {
                protection: protection.clone(),
            },
            RetainedMergeEvidence::Empty { key } => RetainedMergeEvidence::Empty { key: key.clone() },
            RetainedMergeEvidence::Protected { key, scopes } => RetainedMergeEvidence::Protected {
                key: key.clone(),
                scopes: scopes.clone(),
            },
        }
    }
}

impl MergeExtent {
    /// Normalize a successfully derived surface, admitting an ordinary empty answer.
    pub fn derived(key: MergeExtentKey, scopes: Vec<ReservationScope>) -> (extent: Self)
        ensures
            scopes@.len() == 0 ==> (extent == (MergeExtent::Empty { key })),
            scopes@.len() > 0 ==> (extent matches MergeExtent::Protected { key: kept, scopes: set }
                && kept == key && set.scopes() == scopes@),
    {
        match ReservationScopeSet::try_from_scopes(scopes) {
            Ok(scopes) => MergeExtent::Protected { key, scopes },
            Err(_) => MergeExtent::Empty { key },
        }
    }

    /// Only an observation of all three unchanged inputs may reuse a successful answer.
    pub fn matches_key(&self, expected: &MergeExtentKey) -> (reusable: bool)
        ensures
            reusable == match *self {
                MergeExtent::Empty { key } => same_key(key, *expected),
                MergeExtent::Protected { key, .. } => same_key(key, *expected),
                _ => false,
            },
    {
        match self {
            MergeExtent::Empty { key } => key.same_as(expected),
            MergeExtent::Protected { key, .. } => key.same_as(expected),
            _ => false,
        }
    }

    /// Preserve evidence across failure without reading or growing the editing scope.
    pub fn unavailable(&self, failure: String) -> (extent: Self)
        ensures
            extent matches MergeExtent::Unavailable { retained_evidence, failure: reason }
                && copied_evidence(retained_evidence, standing_evidence(*self)) && reason == failure,
    {
        let retained_evidence = match self {
            MergeExtent::NotDerived { protection } => RetainedMergeEvidence::NotDerived {
                protection: protection.clone(),
            },
            MergeExtent::Empty { key } => RetainedMergeEvidence::Empty { key: key.clone() },
            MergeExtent::Protected { key, scopes } => RetainedMergeEvidence::Protected {
                key: key.clone(),
                scopes: scopes.clone(),
            },
            MergeExtent::Unavailable { retained_evidence, .. } => retained_evidence.clone(),
        };
        MergeExtent::Unavailable { retained_evidence, failure }
    }

    /// Read only this ground's own protection, including retained failure evidence.
    pub fn protection(&self) -> (protection: ReservationProtection<'_>)
        ensures
            match protected_scopes(standing_evidence(*self)) {
                Some(scopes) => protection matches ReservationProtection::Protected(protected)
                    && *protected == scopes,
                None => protection is Clear,
            },
    {
        match self {
            MergeExtent::Empty { .. } => ReservationProtection::Clear,
            MergeExtent::NotDerived { protection } => ReservationProtection::Protected(protection),
            MergeExtent::Protected { scopes, .. } => ReservationProtection::Protected(scopes),
            MergeExtent::Unavailable { retained_evidence, .. } => match retained_evidence {
                RetainedMergeEvidence::Empty { .. } => ReservationProtection::Clear,
                RetainedMergeEvidence::NotDerived { protection } => ReservationProtection::Protected(
                    protection,
                ),
                RetainedMergeEvidence::Protected { scopes, .. } => ReservationProtection::Protected(
                    scopes,
                ),
            },
        }
    }
}

/// The paths an extent protects, as scopes; empty when it protects nothing.
pub open spec fn protected_paths(extent: MergeExtent) -> Seq<ReservationScope> {
    match protected_scopes(standing_evidence(extent)) {
        Some(scopes) => scopes.scopes(),
        None => Seq::empty(),
    }
}

/// Failure never changes what an extent protects: an unavailable extent keeps protecting
/// exactly the scopes of the answer it retained, and failing again keeps the same answer.
pub proof fn failure_preserves_protection(
    before: MergeExtent,
    after: MergeExtent,
    again: MergeExtent,
)
    requires
        after matches MergeExtent::Unavailable { retained_evidence, .. } && copied_evidence(
            retained_evidence,
            standing_evidence(before),
        ),
        again matches MergeExtent::Unavailable { retained_evidence, .. } && copied_evidence(
            retained_evidence,
            standing_evidence(after),
        ),
    ensures
        protected_paths(after) == protected_paths(before),
        protected_paths(again) == protected_paths(before),
        protected_scopes(standing_evidence(after)) is None <==> protected_scopes(
            standing_evidence(before),
        ) is None,
{
}

/// A second failure replaces the first: failing twice keeps the same retained answer as
/// failing once, reports only the later failure, and protects exactly what the extent
/// protected before either, a clear extent staying clear.
pub proof fn a_second_failure_replaces_the_first(
    extent: MergeExtent,
    once: MergeExtent,
    twice: MergeExtent,
    direct: MergeExtent,
    first_failure: String,
    second_failure: String,
)
    requires
        once matches MergeExtent::Unavailable { retained_evidence, failure } && copied_evidence(
            retained_evidence,
            standing_evidence(extent),
        ) && failure == first_failure,
        twice matches MergeExtent::Unavailable { retained_evidence, failure } && copied_evidence(
            retained_evidence,
            standing_evidence(once),
        ) && failure == second_failure,
        direct matches MergeExtent::Unavailable { retained_evidence, failure } && copied_evidence(
            retained_evidence,
            standing_evidence(extent),
        ) && failure == second_failure,
    ensures
        twice->failure == direct->failure,
        copied_evidence(standing_evidence(twice), standing_evidence(direct)),
        protected_paths(twice) == protected_paths(direct),
        protected_paths(twice) == protected_paths(extent),
        protected_scopes(standing_evidence(twice)) is None <==> protected_scopes(
            standing_evidence(extent),
        ) is None,
{
}

/// An unavailable or merely declared extent never lets an observation reuse its answer;
/// only a successful answer whose key agrees can be reused.
pub proof fn only_successful_answers_are_reusable(extent: MergeExtent, expected: MergeExtentKey)
    ensures
        (extent is Unavailable || extent is NotDerived) ==> !(match extent {
            MergeExtent::Empty { key } => same_key(key, expected),
            MergeExtent::Protected { key, .. } => same_key(key, expected),
            _ => false,
        }),
{
}

} // verus!
