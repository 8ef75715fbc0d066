//! What a predecessor's evidence lets its ordered successors inherit.
use vstd::prelude::*;

use crate::ids::contains_text;
use crate::ids::same_text;
use crate::ids::ReservationId;
use crate::text::texts;
use crate::ids::GitObjectId;
use crate::reconcile::evaluation::IntegrationProofSubjectRevision;
use crate::reservation::evidence::ProtectedReservationTip;
use crate::reservation::evidence::ScopedPatchComparison;
use crate::reservation::lifecycle::IntegrationEvidenceStatus;
use crate::reservation::lifecycle::ReleaseDisposition;
use crate::reservation::lifecycle::RewrittenIntegrationTrunkCommit;

verus! {

/// The commit whose incorporation a successor must prove.
#[derive(Debug, PartialEq, Eq)]
pub enum SuccessorIncorporationSubject {
    /// A fixed checkpoint permits ancestry or complete scoped equivalence.
    CheckpointTip(ProtectedReservationTip),
    /// A rewritten-integration witness requires the witness itself in successor ancestry.
    RewrittenIntegrationWitness(RewrittenIntegrationTrunkCommit),
}

/// The commit a subject names.
pub open spec fn subject_commit(subject: SuccessorIncorporationSubject) -> GitObjectId {
    match subject {
        SuccessorIncorporationSubject::CheckpointTip(tip) => tip.commit(),
        SuccessorIncorporationSubject::RewrittenIntegrationWitness(witness) => witness.commit(),
    }
}

impl SuccessorIncorporationSubject {
    /// Borrow the commit used by the grouped successor ancestry query.
    pub fn commit(&self) -> (commit: &GitObjectId)
        ensures
            *commit == subject_commit(*self),
    {
        match self {
            SuccessorIncorporationSubject::CheckpointTip(tip) => tip.as_commit(),
            SuccessorIncorporationSubject::RewrittenIntegrationWitness(witness) => witness.as_commit(),
        }
    }
}

/// What the predecessor's own integration evidence contributes to a successor's incorporation.
#[derive(Debug, PartialEq, Eq)]
pub enum PredecessorIntegrationProof {
    /// The predecessor's work reached trunk at this commit.
    ReachedTrunk(GitObjectId),
    /// Nothing on file says the work reached trunk, so no successor can inherit it from there.
    Unproven,
}

impl PredecessorIntegrationProof {
    /// The trunk commit the predecessor's work reached, if any.
    pub fn reached_trunk(&self) -> (trunk: Option<&GitObjectId>)
        ensures
            match *self {
                PredecessorIntegrationProof::ReachedTrunk(trunk_oid) => trunk == Some(&trunk_oid),
                PredecessorIntegrationProof::Unproven => trunk is None,
            },
    {
        match self {
            PredecessorIntegrationProof::ReachedTrunk(trunk_oid) => Some(trunk_oid),
            PredecessorIntegrationProof::Unproven => None,
        }
    }
}

/// A reservation's evidence as the repository observation recorded it.
#[derive(Debug, PartialEq, Eq)]
pub enum RepositoryReservationEvidence {
    /// The holder may still change the reserved paths.
    Active,
    /// A protected checkpoint awaits a disposition.
    Outstanding {
        /// The fixed commit.
        protected_tip: ProtectedReservationTip,
        /// What trunk proves about it.
        integration_status: IntegrationEvidenceStatus,
    },
    /// A disposition ended checkpointed work.
    Released {
        /// The fixed commit.
        protected_tip: ProtectedReservationTip,
        /// The recorded disposition.
        disposition: ReleaseDisposition,
        /// What trunk last proved about it.
        integration_status: IntegrationEvidenceStatus,
    },
    /// A disposition ended work that never checkpointed.
    ReleasedWithoutCheckpoint,
}

/// What a predecessor's own recorded evidence says before any successor is consulted.
#[derive(Debug, PartialEq, Eq)]
pub enum PredecessorEvidenceStanding {
    /// The predecessor holds a protected tip its successors can be measured against.
    Measurable {
        /// The commit successors must incorporate.
        incorporation_subject: SuccessorIncorporationSubject,
        /// Whether its work already reached trunk.
        integration_proof: PredecessorIntegrationProof,
    },
    /// The predecessor never reached a checkpoint, so no successor evidence applies to it.
    NoProtectedTip,
}

/// What an integration status contributes: the trunk it proves, or nothing.
pub open spec fn proof_of(status: IntegrationEvidenceStatus) -> PredecessorIntegrationProof {
    match status {
        IntegrationEvidenceStatus::Integrated { trunk_oid, .. } => PredecessorIntegrationProof::ReachedTrunk(
            trunk_oid,
        ),
        _ => PredecessorIntegrationProof::Unproven,
    }
}

/// The standing a predecessor's evidence gives it: checkpointed work is measured at its tip,
/// or at its witness when it was released as rewritten integration.
pub open spec fn standing_of(evidence: RepositoryReservationEvidence) -> PredecessorEvidenceStanding {
    match evidence {
        RepositoryReservationEvidence::Outstanding { protected_tip, integration_status } =>
            PredecessorEvidenceStanding::Measurable {
            incorporation_subject: SuccessorIncorporationSubject::CheckpointTip(protected_tip),
            integration_proof: proof_of(integration_status),
        },
        RepositoryReservationEvidence::Released { protected_tip, disposition, integration_status } =>
            PredecessorEvidenceStanding::Measurable {
            incorporation_subject: match disposition {
                ReleaseDisposition::RewrittenIntegration(witness) =>
                    SuccessorIncorporationSubject::RewrittenIntegrationWitness(witness),
                _ => SuccessorIncorporationSubject::CheckpointTip(protected_tip),
            },
            integration_proof: proof_of(integration_status),
        },
        _ => PredecessorEvidenceStanding::NoProtectedTip,
    }
}

/// Record what an integration status contributes.
fn integration_proof_of(status: &IntegrationEvidenceStatus) -> (proof_found: PredecessorIntegrationProof)
    ensures
        proof_found == proof_of(*status),
{
    match status {
        IntegrationEvidenceStatus::Integrated { trunk_oid, .. } => PredecessorIntegrationProof::ReachedTrunk(
            trunk_oid.clone(),
        ),
        _ => PredecessorIntegrationProof::Unproven,
    }
}

impl PredecessorEvidenceStanding {
    /// Read a predecessor's standing from its recorded evidence.
    pub fn of(evidence: &RepositoryReservationEvidence) -> (standing: Self)
        ensures
            standing == standing_of(*evidence),
    {
        match evidence {
            RepositoryReservationEvidence::Outstanding { protected_tip, integration_status } =>
                PredecessorEvidenceStanding::Measurable {
                incorporation_subject: SuccessorIncorporationSubject::CheckpointTip(
                    protected_tip.clone(),
                ),
                integration_proof: integration_proof_of(integration_status),
            },
            RepositoryReservationEvidence::Released {
                protected_tip,
                disposition,
                integration_status,
            } => {
                let subject = match disposition {
                    ReleaseDisposition::RewrittenIntegration(witness) => {
                        SuccessorIncorporationSubject::RewrittenIntegrationWitness(witness.clone())
                    },
                    _ => SuccessorIncorporationSubject::CheckpointTip(protected_tip.clone()),
                };
                PredecessorEvidenceStanding::Measurable {
                    incorporation_subject: subject,
                    integration_proof: integration_proof_of(integration_status),
                }
            },
            _ => PredecessorEvidenceStanding::NoProtectedTip,
        }
    }
}

/// How one candidate successor head relates to an ancestor commit.
#[derive(Debug, PartialEq, Eq)]
pub enum CandidateHeadReachability {
    /// The head descends from the ancestor, with these first-parent commits after it.
    Descendant {
        /// The successor head.
        head: GitObjectId,
        /// First-parent commits the head gained after the ancestor.
        first_parent_commits_after_ancestor: Vec<GitObjectId>,
    },
    /// The head does not descend from the ancestor.
    NotDescendant(GitObjectId),
    /// Git could not resolve the head.
    ObjectUnknown(GitObjectId),
}

/// Successor heads classified against one ancestor commit.
#[derive(Debug, PartialEq, Eq)]
pub enum ProtectedTipSuccessorHeadClassification {
    /// Git could not resolve the ancestor.
    AncestorObjectUnknown,
    /// Each head's relation to the ancestor.
    Classified(Vec<CandidateHeadReachability>),
}

/// Whether a classification shows this head descending from its ancestor.
pub open spec fn descends(
    classification: ProtectedTipSuccessorHeadClassification,
    successor_head: Seq<char>,
) -> bool {
    classification matches ProtectedTipSuccessorHeadClassification::Classified(heads) && exists|
        index: int,
    |
        0 <= index < heads@.len() && head_descends(#[trigger] heads@[index], successor_head)
}

/// Whether one classified head is this successor head, descending from the ancestor.
pub open spec fn head_descends(classified: CandidateHeadReachability, successor_head: Seq<char>) -> bool {
    classified matches CandidateHeadReachability::Descendant { head, .. } && head@ == successor_head
}

/// Histories with each commit list taken as a sequence.
pub open spec fn history_view(histories: Seq<(GitObjectId, Vec<GitObjectId>)>) -> Seq<
    (GitObjectId, Seq<GitObjectId>),
> {
    histories.map_values(|history: (GitObjectId, Vec<GitObjectId>)| (history.0, history.1@))
}

/// The descendant heads of a classification with the commits each gained, in order.
pub open spec fn gained_histories(heads: Seq<CandidateHeadReachability>) -> Seq<
    (GitObjectId, Seq<GitObjectId>),
>
    decreases heads.len(),
{
    if heads.len() == 0 {
        Seq::empty()
    } else {
        let earlier = gained_histories(heads.drop_last());
        match heads.last() {
            CandidateHeadReachability::Descendant { head, first_parent_commits_after_ancestor } =>
                earlier.push((head, first_parent_commits_after_ancestor@)),
            _ => earlier,
        }
    }
}

/// The grouped ancestry answers for a predecessor's incorporation subject, phase start, and the
/// trunk commit its integration proof names.
pub struct PredecessorSuccessorReachability<'classification> {
    /// Successor heads against the incorporation subject.
    pub against_incorporation_subject: &'classification ProtectedTipSuccessorHeadClassification,
    /// Successor heads against the predecessor's phase start.
    pub since_phase_start: &'classification ProtectedTipSuccessorHeadClassification,
    /// Absent when the predecessor holds no proof, so there is no trunk commit to ask about.
    pub against_reached_trunk: Option<&'classification ProtectedTipSuccessorHeadClassification>,
}

impl PredecessorSuccessorReachability<'_> {
    /// Whether this successor head's history contains the commit the predecessor's proof names.
    pub fn reached_trunk_is_ancestor(&self, successor_head: &GitObjectId) -> (contained: bool)
        ensures
            contained == match self.against_reached_trunk {
                Some(classification) => descends(*classification, successor_head@),
                None => false,
            },
    {
        let heads = match self.against_reached_trunk {
            Some(ProtectedTipSuccessorHeadClassification::Classified(heads)) => heads,
            _ => {
                return false;
            },
        };
        let mut index: usize = 0;
        while index < heads.len()
            invariant
                index <= heads@.len(),
                self.against_reached_trunk == Some(
                    &ProtectedTipSuccessorHeadClassification::Classified(*heads),
                ),
                forall|earlier: int|
                    0 <= earlier < index ==> !head_descends(#[trigger] heads@[earlier], successor_head@),
            decreases heads@.len() - index,
        {
            if let CandidateHeadReachability::Descendant { head, .. } = &heads[index] {
                if same_text(head, successor_head) {
                    assert(head_descends(heads@[index as int], successor_head@));
                    assert(descends(
                        ProtectedTipSuccessorHeadClassification::Classified(*heads),
                        successor_head@,
                    ));
                    return true;
                }
            }
            index += 1;
        }
        false
    }

    /// First-parent commits each successor head gained since the predecessor's phase start.
    pub fn phase_start_target_histories(&self) -> (histories: Vec<(GitObjectId, Vec<GitObjectId>)>)
        ensures
            history_view(histories@) == match *self.since_phase_start {
                ProtectedTipSuccessorHeadClassification::AncestorObjectUnknown => Seq::empty(),
                ProtectedTipSuccessorHeadClassification::Classified(heads) => gained_histories(heads@),
            },
    {
        let heads = match self.since_phase_start {
            ProtectedTipSuccessorHeadClassification::AncestorObjectUnknown => {
                return Vec::new();
            },
            ProtectedTipSuccessorHeadClassification::Classified(heads) => heads,
        };
        let mut histories: Vec<(GitObjectId, Vec<GitObjectId>)> = Vec::new();
        let mut index: usize = 0;
        while index < heads.len()
            invariant
                index <= heads@.len(),
                history_view(histories@) =~= gained_histories(heads@.take(index as int)),
            decreases heads@.len() - index,
        {
            assert(heads@.take(index + 1).drop_last() =~= heads@.take(index as int));
            if let CandidateHeadReachability::Descendant { head, first_parent_commits_after_ancestor } =
                &heads[index] {
                let commits = clone_commits(first_parent_commits_after_ancestor);
                let ghost before = histories@;
                histories.push((head.clone(), commits));
                assert(history_view(histories@) =~= history_view(before).push(
                    (*head, first_parent_commits_after_ancestor@),
                ));
            }
            index += 1;
        }
        assert(heads@.take(index as int) =~= heads@);
        histories
    }
}

/// What a successor head shows of a predecessor's protected work.
#[derive(Clone, Copy, Debug, PartialEq, Eq, Structural)]
pub enum SuccessorIncorporationEvidence {
    /// The head descends from the predecessor's incorporation subject.
    ProtectedTipAncestor,
    /// The head's history contains the trunk commit the predecessor's work landed as.
    IntegratedTrunkAncestor,
    /// A retained comparison found the head's scoped content equivalent to the checkpoint.
    ScopedPatchEquivalent,
    /// Nothing shows the head carrying the predecessor's work.
    NotIncorporated,
    /// Git could not resolve the head.
    ObjectUnknown,
}

/// A retained scoped-patch verdict for one successor head.
#[derive(Clone, Copy, Debug, PartialEq, Eq, Structural)]
pub enum SuccessorScopedPatchEquivalenceVerdict {
    /// The head's scoped content matches the checkpoint.
    Equivalent,
    /// The head's scoped content differs from the checkpoint.
    Different,
}

/// Every successor head classified against one predecessor.
#[derive(Debug, PartialEq, Eq)]
pub enum PredecessorSuccessorIncorporation {
    /// The grouped ancestry query failed.
    QueryFailed,
    /// Git could not resolve the predecessor's incorporation subject.
    PredecessorObjectUnknown,
    /// What each classified successor head shows, in classification order.
    Classified(Vec<(GitObjectId, SuccessorIncorporationEvidence)>),
}

/// The retained verdict for a successor head: its first entry, if it has one.
pub open spec fn retained_verdict(
    verdicts: Seq<(GitObjectId, SuccessorScopedPatchEquivalenceVerdict)>,
    successor_head: Seq<char>,
) -> Option<SuccessorScopedPatchEquivalenceVerdict>
    decreases verdicts.len(),
{
    if verdicts.len() == 0 {
        None
    } else if verdicts[0].0@ == successor_head {
        Some(verdicts[0].1)
    } else {
        retained_verdict(verdicts.drop_first(), successor_head)
    }
}

/// Whether a successor head's history contains the trunk commit the predecessor's proof names.
pub open spec fn reaches_trunk_commit(
    against_reached_trunk: Option<&ProtectedTipSuccessorHeadClassification>,
    successor_head: Seq<char>,
) -> bool {
    match against_reached_trunk {
        Some(classification) => descends(*classification, successor_head),
        None => false,
    }
}

/// The evidence for a successor head the incorporation subject does not reach, and whether the
/// head joins the queue for a scoped comparison: containing the landed trunk commit is final;
/// otherwise only a checkpoint with a proof can be compared, a retained verdict settles it, and
/// without one the head waits as not incorporated for a comparison.
pub open spec fn unreached_evidence(
    subject: SuccessorIncorporationSubject,
    proof: PredecessorIntegrationProof,
    reaches_trunk: bool,
    retained: Option<SuccessorScopedPatchEquivalenceVerdict>,
) -> (SuccessorIncorporationEvidence, bool) {
    if reaches_trunk {
        (SuccessorIncorporationEvidence::IntegratedTrunkAncestor, false)
    } else if !(subject is CheckpointTip) || proof is Unproven {
        (SuccessorIncorporationEvidence::NotIncorporated, false)
    } else {
        match retained {
            Some(SuccessorScopedPatchEquivalenceVerdict::Equivalent) => (
                SuccessorIncorporationEvidence::ScopedPatchEquivalent,
                false,
            ),
            Some(SuccessorScopedPatchEquivalenceVerdict::Different) => (
                SuccessorIncorporationEvidence::NotIncorporated,
                false,
            ),
            None => (SuccessorIncorporationEvidence::NotIncorporated, true),
        }
    }
}

/// The head one classification entry names.
pub open spec fn classified_head(classified: CandidateHeadReachability) -> GitObjectId {
    match classified {
        CandidateHeadReachability::Descendant { head, .. } => head,
        CandidateHeadReachability::NotDescendant(head) => head,
        CandidateHeadReachability::ObjectUnknown(head) => head,
    }
}

/// The evidence one classification entry gives, and whether its head joins the queue.
pub open spec fn entry_evidence(
    classified: CandidateHeadReachability,
    subject: SuccessorIncorporationSubject,
    proof: PredecessorIntegrationProof,
    against_reached_trunk: Option<&ProtectedTipSuccessorHeadClassification>,
    verdicts: Seq<(GitObjectId, SuccessorScopedPatchEquivalenceVerdict)>,
) -> (SuccessorIncorporationEvidence, bool) {
    match classified {
        CandidateHeadReachability::Descendant { .. } => (SuccessorIncorporationEvidence::ProtectedTipAncestor, false),
        CandidateHeadReachability::ObjectUnknown(_) => (SuccessorIncorporationEvidence::ObjectUnknown, false),
        CandidateHeadReachability::NotDescendant(head) => unreached_evidence(
            subject,
            proof,
            reaches_trunk_commit(against_reached_trunk, head@),
            retained_verdict(verdicts, head@),
        ),
    }
}

/// Each classified head with its evidence, in classification order.
pub open spec fn heads_evidence(
    heads: Seq<CandidateHeadReachability>,
    subject: SuccessorIncorporationSubject,
    proof: PredecessorIntegrationProof,
    against_reached_trunk: Option<&ProtectedTipSuccessorHeadClassification>,
    verdicts: Seq<(GitObjectId, SuccessorScopedPatchEquivalenceVerdict)>,
) -> Seq<(GitObjectId, SuccessorIncorporationEvidence)> {
    heads.map_values(
        |classified: CandidateHeadReachability|
            (
                classified_head(classified),
                entry_evidence(classified, subject, proof, against_reached_trunk, verdicts).0,
            ),
    )
}

/// The classified heads that join the queue for a scoped comparison, in classification order.
pub open spec fn queued_heads(
    heads: Seq<CandidateHeadReachability>,
    subject: SuccessorIncorporationSubject,
    proof: PredecessorIntegrationProof,
    against_reached_trunk: Option<&ProtectedTipSuccessorHeadClassification>,
    verdicts: Seq<(GitObjectId, SuccessorScopedPatchEquivalenceVerdict)>,
) -> Seq<GitObjectId>
    decreases heads.len(),
{
    if heads.len() == 0 {
        Seq::empty()
    } else {
        let earlier = queued_heads(heads.drop_last(), subject, proof, against_reached_trunk, verdicts);
        if entry_evidence(heads.last(), subject, proof, against_reached_trunk, verdicts).1 {
            earlier.push(classified_head(heads.last()))
        } else {
            earlier
        }
    }
}

/// Containing the trunk commit the predecessor's work landed as is final: whatever verdict
/// was retained, such a head is incorporated and never waits for a comparison.
pub proof fn landed_trunk_commit_is_final(
    subject: SuccessorIncorporationSubject,
    proof: PredecessorIntegrationProof,
    retained: Option<SuccessorScopedPatchEquivalenceVerdict>,
)
    ensures
        unreached_evidence(subject, proof, true, retained) == (
            SuccessorIncorporationEvidence::IntegratedTrunkAncestor,
            false,
        ),
{
}

/// Only a checkpoint whose work has a proof of reaching trunk ever queues a scoped
/// comparison: a rewritten-integration witness, or a predecessor with no proof, queues none.
pub proof fn only_proven_checkpoints_queue_comparisons(
    heads: Seq<CandidateHeadReachability>,
    subject: SuccessorIncorporationSubject,
    proof: PredecessorIntegrationProof,
    against_reached_trunk: Option<&ProtectedTipSuccessorHeadClassification>,
    verdicts: Seq<(GitObjectId, SuccessorScopedPatchEquivalenceVerdict)>,
)
    requires
        !(subject is CheckpointTip) || proof is Unproven,
    ensures
        queued_heads(heads, subject, proof, against_reached_trunk, verdicts) == Seq::<GitObjectId>::empty(),
    decreases heads.len(),
{
    if heads.len() > 0 {
        only_proven_checkpoints_queue_comparisons(heads.drop_last(), subject, proof, against_reached_trunk, verdicts);
    }
}

/// Look up the retained verdict for a successor head.
fn lookup_verdict(
    verdicts: &Vec<(GitObjectId, SuccessorScopedPatchEquivalenceVerdict)>,
    successor_head: &GitObjectId,
) -> (found: Option<SuccessorScopedPatchEquivalenceVerdict>)
    ensures
        found == retained_verdict(verdicts@, successor_head@),
{
    let mut index: usize = 0;
    assert(verdicts@.skip(0) =~= verdicts@);
    while index < verdicts.len()
        invariant
            index <= verdicts@.len(),
            retained_verdict(verdicts@, successor_head@) == retained_verdict(
                verdicts@.skip(index as int),
                successor_head@,
            ),
        decreases verdicts@.len() - index,
    {
        assert(verdicts@.skip(index as int)[0] == verdicts@[index as int]);
        if same_text(&verdicts[index].0, successor_head) {
            return Some(verdicts[index].1);
        }
        assert(verdicts@.skip(index as int).drop_first() =~= verdicts@.skip(index + 1));
        index += 1;
    }
    None
}

/// Decide a successor head the predecessor's incorporation subject does not reach, and say
/// whether it joins the queue competing for the one scoped comparison this pass admits.
///
/// The predecessor's own proof is asked first: a successor whose history contains the trunk
/// commit the work landed as contains the work, finally and at no comparison's cost. Failing
/// that, a retained verdict settles a checkpoint outright; without one the head is not
/// incorporated for now and waits for a comparison.
pub fn unreached_successor_evidence(
    subject: &SuccessorIncorporationSubject,
    proof: &PredecessorIntegrationProof,
    reachability: &PredecessorSuccessorReachability,
    successor_head: &GitObjectId,
    verdicts: &Vec<(GitObjectId, SuccessorScopedPatchEquivalenceVerdict)>,
) -> (decided: (SuccessorIncorporationEvidence, bool))
    ensures
        decided == unreached_evidence(
            *subject,
            *proof,
            reaches_trunk_commit(reachability.against_reached_trunk, successor_head@),
            retained_verdict(verdicts@, successor_head@),
        ),
{
    if reachability.reached_trunk_is_ancestor(successor_head) {
        return (SuccessorIncorporationEvidence::IntegratedTrunkAncestor, false);
    }
    match subject {
        SuccessorIncorporationSubject::CheckpointTip(_) => {},
        SuccessorIncorporationSubject::RewrittenIntegrationWitness(_) => {
            return (SuccessorIncorporationEvidence::NotIncorporated, false);
        },
    }
    if proof.reached_trunk().is_none() {
        return (SuccessorIncorporationEvidence::NotIncorporated, false);
    }
    match lookup_verdict(verdicts, successor_head) {
        Some(SuccessorScopedPatchEquivalenceVerdict::Equivalent) => (
            SuccessorIncorporationEvidence::ScopedPatchEquivalent,
            false,
        ),
        Some(SuccessorScopedPatchEquivalenceVerdict::Different) => (
            SuccessorIncorporationEvidence::NotIncorporated,
            false,
        ),
        None => (SuccessorIncorporationEvidence::NotIncorporated, true),
    }
}

/// Classify successor heads against the predecessor's checkpoint or integration witness: each
/// head the subject reaches is incorporated, an unresolvable head is unknown, and every other
/// head is decided by [`unreached_successor_evidence`]. Also returns, in order, the heads that
/// wait for a scoped comparison.
pub fn predecessor_successor_incorporation(
    subject: &SuccessorIncorporationSubject,
    proof: &PredecessorIntegrationProof,
    reachability: &PredecessorSuccessorReachability,
    verdicts: &Vec<(GitObjectId, SuccessorScopedPatchEquivalenceVerdict)>,
) -> (classified: (PredecessorSuccessorIncorporation, Vec<GitObjectId>))
    ensures
        match *reachability.against_incorporation_subject {
            ProtectedTipSuccessorHeadClassification::AncestorObjectUnknown => classified.0
                == PredecessorSuccessorIncorporation::PredecessorObjectUnknown && classified.1@
                == Seq::<GitObjectId>::empty(),
            ProtectedTipSuccessorHeadClassification::Classified(heads) => (classified.0 matches
                PredecessorSuccessorIncorporation::Classified(entries) && entries@ == heads_evidence(
                heads@,
                *subject,
                *proof,
                reachability.against_reached_trunk,
                verdicts@,
            )) && classified.1@ == queued_heads(
                heads@,
                *subject,
                *proof,
                reachability.against_reached_trunk,
                verdicts@,
            ),
        },
{
    let heads = match reachability.against_incorporation_subject {
        ProtectedTipSuccessorHeadClassification::AncestorObjectUnknown => {
            return (PredecessorSuccessorIncorporation::PredecessorObjectUnknown, Vec::new());
        },
        ProtectedTipSuccessorHeadClassification::Classified(heads) => heads,
    };
    let ghost against_reached_trunk = reachability.against_reached_trunk;
    let mut entries: Vec<(GitObjectId, SuccessorIncorporationEvidence)> = Vec::new();
    let mut queued: Vec<GitObjectId> = Vec::new();
    let mut index: usize = 0;
    while index < heads.len()
        invariant
            index <= heads@.len(),
            against_reached_trunk == reachability.against_reached_trunk,
            entries@ == heads_evidence(heads@.take(index as int), *subject, *proof, against_reached_trunk, verdicts@),
            queued@ == queued_heads(heads@.take(index as int), *subject, *proof, against_reached_trunk, verdicts@),
        decreases heads@.len() - index,
    {
        let ghost taken = heads@.take(index + 1);
        assert(taken.drop_last() =~= heads@.take(index as int));
        assert(taken.last() == heads@[index as int]);
        let (head, evidence, waits) = match &heads[index] {
            CandidateHeadReachability::Descendant { head, .. } => (
                head.clone(),
                SuccessorIncorporationEvidence::ProtectedTipAncestor,
                false,
            ),
            CandidateHeadReachability::ObjectUnknown(head) => (
                head.clone(),
                SuccessorIncorporationEvidence::ObjectUnknown,
                false,
            ),
            CandidateHeadReachability::NotDescendant(head) => {
                let (evidence, waits) = unreached_successor_evidence(
                    subject,
                    proof,
                    reachability,
                    head,
                    verdicts,
                );
                (head.clone(), evidence, waits)
            },
        };
        assert(head == classified_head(heads@[index as int]));
        assert((evidence, waits) == entry_evidence(heads@[index as int], *subject, *proof, against_reached_trunk, verdicts@));
        if waits {
            queued.push(head.clone());
        }
        entries.push((head, evidence));
        assert(heads_evidence(taken, *subject, *proof, against_reached_trunk, verdicts@) =~= heads_evidence(
            heads@.take(index as int),
            *subject,
            *proof,
            against_reached_trunk,
            verdicts@,
        ).push((classified_head(heads@[index as int]), evidence)));
        index += 1;
    }
    assert(heads@.take(heads@.len() as int) =~= heads@);
    (PredecessorSuccessorIncorporation::Classified(entries), queued)
}

/// The worktree head a snapshot recorded for a reservation: its first entry, when that head
/// resolved.
pub open spec fn recorded_head(
    worktree_heads: Seq<(ReservationId, Option<GitObjectId>)>,
    reservation_id: Seq<char>,
) -> Option<GitObjectId>
    decreases worktree_heads.len(),
{
    if worktree_heads.len() == 0 {
        None
    } else if worktree_heads[0].0@ == reservation_id {
        worktree_heads[0].1
    } else {
        recorded_head(worktree_heads.drop_first(), reservation_id)
    }
}

/// The distinct resolved heads of a list of successors, in the order they were supplied.
pub open spec fn distinct_successor_heads(
    successors: Seq<ReservationId>,
    worktree_heads: Seq<(ReservationId, Option<GitObjectId>)>,
) -> Seq<GitObjectId>
    decreases successors.len(),
{
    if successors.len() == 0 {
        Seq::empty()
    } else {
        let earlier = distinct_successor_heads(successors.drop_last(), worktree_heads);
        match recorded_head(worktree_heads, successors.last()@) {
            Some(head) => if texts(earlier).contains(head@) {
                earlier
            } else {
                earlier.push(head)
            },
            None => earlier,
        }
    }
}

/// The resolved head recorded for one successor.
fn head_for(worktree_heads: &[(ReservationId, Option<GitObjectId>)], reservation_id: &ReservationId) -> (head:
    Option<GitObjectId>)
    ensures
        head == recorded_head(worktree_heads@, reservation_id@),
{
    let mut index: usize = 0;
    assert(worktree_heads@.skip(0) =~= worktree_heads@);
    while index < worktree_heads.len()
        invariant
            index <= worktree_heads@.len(),
            recorded_head(worktree_heads@, reservation_id@) == recorded_head(
                worktree_heads@.skip(index as int),
                reservation_id@,
            ),
        decreases worktree_heads@.len() - index,
    {
        assert(worktree_heads@.skip(index as int)[0] == worktree_heads@[index as int]);
        if same_text(&worktree_heads[index].0, reservation_id) {
            return match &worktree_heads[index].1 {
                Some(head) => Some(head.clone()),
                None => None,
            };
        }
        assert(worktree_heads@.skip(index as int).drop_first() =~= worktree_heads@.skip(index + 1));
        index += 1;
    }
    None
}

/// The distinct resolved worktree heads of one predecessor's successors, in the order the
/// successors were supplied; `worktree_heads` holds each reservation's snapshot head, `None`
/// where it did not resolve.
pub fn resolved_successor_heads(
    successors: &[ReservationId],
    worktree_heads: &[(ReservationId, Option<GitObjectId>)],
) -> (heads: Vec<GitObjectId>)
    ensures
        heads@ == distinct_successor_heads(successors@, worktree_heads@),
{
    let mut heads: Vec<GitObjectId> = Vec::new();
    let mut index: usize = 0;
    while index < successors.len()
        invariant
            index <= successors@.len(),
            heads@ == distinct_successor_heads(successors@.take(index as int), worktree_heads@),
        decreases successors@.len() - index,
    {
        assert(successors@.take(index + 1).drop_last() =~= successors@.take(index as int));
        if let Some(head) = head_for(worktree_heads, &successors[index]) {
            assert(heads.deep_view() =~= texts(heads@));
            if !contains_text(&heads, &head) {
                heads.push(head);
            }
        }
        index += 1;
    }
    assert(successors@.take(successors@.len() as int) =~= successors@);
    heads
}

/// The journal entry one settled successor comparison appends.
#[derive(Debug, PartialEq, Eq)]
pub enum SuccessorComparisonRecord {
    /// The comparison reached a verdict, retained for later passes.
    EquivalenceChecked {
        /// The predecessor whose checkpoint was compared.
        predecessor_reservation_id: ReservationId,
        /// The predecessor's proof subject the verdict belongs to.
        subject: IntegrationProofSubjectRevision,
        /// The successor head compared.
        successor_head: GitObjectId,
        /// What the comparison found.
        verdict: SuccessorScopedPatchEquivalenceVerdict,
    },
    /// The comparison could not be completed; the attempt is recorded so it is not retried
    /// this generation.
    ComparisonAttempted {
        /// The predecessor whose checkpoint was compared.
        predecessor_reservation_id: ReservationId,
        /// The predecessor's proof subject.
        subject: IntegrationProofSubjectRevision,
        /// The successor head compared.
        successor_head: GitObjectId,
    },
}

/// A head's evidence set to a new value: every entry for the head takes it, and a head with
/// no entry gains one at the end.
pub open spec fn with_head_evidence(
    entries: Seq<(GitObjectId, SuccessorIncorporationEvidence)>,
    head: Seq<char>,
    evidence: SuccessorIncorporationEvidence,
) -> Seq<(GitObjectId, SuccessorIncorporationEvidence)> {
    if entries.map_values(|entry: (GitObjectId, SuccessorIncorporationEvidence)| entry.0@).contains(head) {
        entries.map_values(
            |entry: (GitObjectId, SuccessorIncorporationEvidence)| if entry.0@ == head {
                (entry.0, evidence)
            } else {
                entry
            },
        )
    } else {
        entries
    }
}

/// Set one head's evidence in a classification.
fn set_head_evidence(
    entries: &mut Vec<(GitObjectId, SuccessorIncorporationEvidence)>,
    head: &GitObjectId,
    evidence: SuccessorIncorporationEvidence,
)
    ensures
        final(entries)@ == with_head_evidence(old(entries)@, head@, evidence),
{
    let ghost original = entries@;
    let mut found = false;
    let mut index: usize = 0;
    while index < entries.len()
        invariant
            index <= entries@.len(),
            entries@.len() == original.len(),
            forall|position: int|
                0 <= position < index ==> #[trigger] entries@[position] == (if original[position].0@ == head@ {
                    (original[position].0, evidence)
                } else {
                    original[position]
                }),
            forall|position: int| index <= position < original.len() ==> #[trigger] entries@[position] == original[position],
            found == exists|position: int| 0 <= position < index && #[trigger] original[position].0@ == head@,
        decreases original.len() - index,
    {
        if same_text(&entries[index].0, head) {
            let key = entries[index].0.clone();
            entries.set(index, (key, evidence));
            found = true;
        }
        index += 1;
    }
    proof {
        let heads = original.map_values(|entry: (GitObjectId, SuccessorIncorporationEvidence)| entry.0@);
        if found {
            let position = choose|position: int| 0 <= position < original.len() && original[position].0@ == head@;
            assert(heads[position] == head@);
            assert(entries@ =~= original.map_values(
                |entry: (GitObjectId, SuccessorIncorporationEvidence)| if entry.0@ == head@ {
                    (entry.0, evidence)
                } else {
                    entry
                },
            ));
        } else {
            if heads.contains(head@) {
                let position = choose|position: int| 0 <= position < heads.len() && heads[position] == head@;
                assert(original[position].0@ == head@);
            }
            assert(entries@ =~= original);
        }
    }
}

/// Record one settled successor comparison: an equivalent head is incorporated, an
/// unavailable comparison leaves the head unknown, a different one keeps its evidence; each
/// appends its journal entry.
pub fn record_successor_scoped_patch_verdict(
    predecessor_reservation_id: ReservationId,
    subject: IntegrationProofSubjectRevision,
    successor_head: GitObjectId,
    comparison: ScopedPatchComparison,
    evidence_by_head: &mut Vec<(GitObjectId, SuccessorIncorporationEvidence)>,
) -> (record: SuccessorComparisonRecord)
    ensures
        final(evidence_by_head)@ == match comparison {
            ScopedPatchComparison::Equivalent => with_head_evidence(
                old(evidence_by_head)@,
                successor_head@,
                SuccessorIncorporationEvidence::ScopedPatchEquivalent,
            ),
            ScopedPatchComparison::Different => old(evidence_by_head)@,
            ScopedPatchComparison::Unavailable => with_head_evidence(
                old(evidence_by_head)@,
                successor_head@,
                SuccessorIncorporationEvidence::ObjectUnknown,
            ),
        },
        record == match comparison {
            ScopedPatchComparison::Equivalent => SuccessorComparisonRecord::EquivalenceChecked {
                predecessor_reservation_id,
                subject,
                successor_head,
                verdict: SuccessorScopedPatchEquivalenceVerdict::Equivalent,
            },
            ScopedPatchComparison::Different => SuccessorComparisonRecord::EquivalenceChecked {
                predecessor_reservation_id,
                subject,
                successor_head,
                verdict: SuccessorScopedPatchEquivalenceVerdict::Different,
            },
            ScopedPatchComparison::Unavailable => SuccessorComparisonRecord::ComparisonAttempted {
                predecessor_reservation_id,
                subject,
                successor_head,
            },
        },
{
    match comparison {
        ScopedPatchComparison::Equivalent => {
            set_head_evidence(evidence_by_head, &successor_head, SuccessorIncorporationEvidence::ScopedPatchEquivalent);
            SuccessorComparisonRecord::EquivalenceChecked {
                predecessor_reservation_id,
                subject,
                successor_head,
                verdict: SuccessorScopedPatchEquivalenceVerdict::Equivalent,
            }
        },
        ScopedPatchComparison::Different => SuccessorComparisonRecord::EquivalenceChecked {
            predecessor_reservation_id,
            subject,
            successor_head,
            verdict: SuccessorScopedPatchEquivalenceVerdict::Different,
        },
        ScopedPatchComparison::Unavailable => {
            set_head_evidence(evidence_by_head, &successor_head, SuccessorIncorporationEvidence::ObjectUnknown);
            SuccessorComparisonRecord::ComparisonAttempted { predecessor_reservation_id, subject, successor_head }
        },
    }
}

/// Copy a list of commits.
fn clone_commits(commits: &Vec<GitObjectId>) -> (copy: Vec<GitObjectId>)
    ensures
        copy@ == commits@,
{
    let mut copy: Vec<GitObjectId> = Vec::new();
    let mut index: usize = 0;
    while index < commits.len()
        invariant
            index <= commits@.len(),
            copy@ =~= commits@.take(index as int),
        decreases commits@.len() - index,
    {
        copy.push(commits[index].clone());
        index += 1;
        assert(copy@ =~= commits@.take(index as int));
    }
    assert(commits@.take(index as int) =~= commits@);
    copy
}

} // verus!
