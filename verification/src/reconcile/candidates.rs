//! The commits one trunk observation asks ancestry questions about.
use vstd::prelude::*;

use crate::ids::insert_in_wire_order;
use crate::ids::named;
use crate::ids::wire_ordered;
use crate::ids::GitObjectId;
use crate::reconcile::evaluation::proving_trunk;
use crate::reconcile::evaluation::proving_trunk_of;
use crate::reservation::evidence::ProtectedReservationTip;
use crate::reservation::lifecycle::IntegrationEvidenceStatus;
use crate::reservation::lifecycle::ReleaseDisposition;
use crate::text::texts;

verus! {

/// The retained evidence of one reservation that names commits to classify.
#[derive(Debug, PartialEq, Eq)]
pub enum CandidateEvidence {
    /// A checkpoint awaiting a disposition.
    Outstanding {
        /// The checkpointed commit.
        protected_tip: ProtectedReservationTip,
        /// The trunk the checkpoint was taken against.
        trunk_snapshot: GitObjectId,
        /// What trunk last proved about it.
        integration_status: IntegrationEvidenceStatus,
    },
    /// A disposition ended checkpointed work.
    Released {
        /// The checkpointed commit.
        protected_tip: ProtectedReservationTip,
        /// The recorded disposition.
        disposition: ReleaseDisposition,
        /// What trunk last proved about it.
        integration_status: IntegrationEvidenceStatus,
    },
    /// Active work, or work released before it checkpointed.
    Unprotected,
}

/// One reservation judged against this trunk, as candidate selection reads it.
#[derive(Debug, PartialEq, Eq)]
pub struct CandidateSource {
    /// Where the reservation's current phase started.
    pub phase_start_head: GitObjectId,
    /// Its retained evidence.
    pub evidence: CandidateEvidence,
    /// Whether an ordering dependent that is not terminal still waits on it.
    pub has_nonterminal_dependent: bool,
}

/// An observed predecessor whose proof a successor on another branch may inherit.
#[derive(Debug, PartialEq, Eq)]
pub struct PredecessorCandidateSource {
    /// The trunk commits the predecessor's recorded target proofs name.
    pub target_proof_commits: Vec<GitObjectId>,
    /// Its retained evidence.
    pub evidence: CandidateEvidence,
}

/// The commit an optional proof names, as a set.
pub open spec fn optional_commit(commit: Option<GitObjectId>) -> Set<Seq<char>> {
    match commit {
        Some(commit) => set![commit@],
        None => Set::empty(),
    }
}

/// The commits one judged reservation asks about: an outstanding checkpoint asks about its
/// phase start, tip, trunk snapshot and proving trunk; released work asks about its proving
/// trunk, its phase start and revalidation subject while its disposition can still be
/// revalidated, and its tip while a dependent still waits on it.
pub open spec fn source_candidates(source: CandidateSource) -> Set<Seq<char>> {
    match source.evidence {
        CandidateEvidence::Outstanding { protected_tip, trunk_snapshot, integration_status } => set![
            source.phase_start_head@,
            protected_tip.commit()@,
            trunk_snapshot@,
        ] + optional_commit(proving_trunk_of(integration_status)),
        CandidateEvidence::Released { protected_tip, disposition, integration_status } =>
            optional_commit(proving_trunk_of(integration_status)) + match disposition {
                ReleaseDisposition::Integrated => set![source.phase_start_head@, protected_tip.commit()@],
                ReleaseDisposition::RewrittenIntegration(witness) => set![
                    source.phase_start_head@,
                    witness.commit()@,
                ],
                _ => Set::empty(),
            } + if source.has_nonterminal_dependent {
                set![protected_tip.commit()@]
            } else {
                Set::empty()
            },
        CandidateEvidence::Unprotected => Set::empty(),
    }
}

/// The commits every judged reservation asks about.
pub open spec fn sources_candidates(sources: Seq<CandidateSource>) -> Set<Seq<char>>
    decreases sources.len(),
{
    if sources.len() == 0 {
        Set::empty()
    } else {
        sources_candidates(sources.drop_last()) + source_candidates(sources.last())
    }
}

/// The commits an observed predecessor asks about: its target proofs, and its tip and proving
/// trunk once it checkpointed.
pub open spec fn predecessor_candidates(predecessor: PredecessorCandidateSource) -> Set<Seq<char>> {
    texts(predecessor.target_proof_commits@).to_set() + match predecessor.evidence {
        CandidateEvidence::Outstanding { protected_tip, integration_status, .. } => set![
            protected_tip.commit()@,
        ] + optional_commit(proving_trunk_of(integration_status)),
        CandidateEvidence::Released { protected_tip, integration_status, .. } => set![
            protected_tip.commit()@,
        ] + optional_commit(proving_trunk_of(integration_status)),
        CandidateEvidence::Unprotected => Set::empty(),
    }
}

/// The commits every observed predecessor asks about.
pub open spec fn predecessors_candidates(predecessors: Seq<PredecessorCandidateSource>) -> Set<Seq<char>>
    decreases predecessors.len(),
{
    if predecessors.len() == 0 {
        Set::empty()
    } else {
        predecessors_candidates(predecessors.drop_last()) + predecessor_candidates(predecessors.last())
    }
}

/// Add one commit to a wire-ordered list of candidates.
fn add_candidate(candidates: &mut Vec<GitObjectId>, commit: &GitObjectId)
    requires
        wire_ordered(old(candidates)@),
    ensures
        wire_ordered(final(candidates)@),
        named(final(candidates)@) == named(old(candidates)@) + set![commit@],
{
    insert_in_wire_order(candidates, commit);
    assert(named(old(candidates)@).insert(commit@) =~= named(old(candidates)@) + set![commit@]);
}

/// Add the commit a proof names, if any.
fn add_proving_trunk(candidates: &mut Vec<GitObjectId>, integration_status: &IntegrationEvidenceStatus)
    requires
        wire_ordered(old(candidates)@),
    ensures
        wire_ordered(final(candidates)@),
        named(final(candidates)@) == named(old(candidates)@) + optional_commit(
            proving_trunk_of(*integration_status),
        ),
{
    match proving_trunk(integration_status) {
        Some(trunk) => add_candidate(candidates, trunk),
        None => {
            assert(named(candidates@) + Set::empty() =~= named(candidates@));
        },
    }
}

/// Add every commit of a list.
fn add_all(candidates: &mut Vec<GitObjectId>, commits: &Vec<GitObjectId>)
    requires
        wire_ordered(old(candidates)@),
    ensures
        wire_ordered(final(candidates)@),
        named(final(candidates)@) == named(old(candidates)@) + texts(commits@).to_set(),
{
    let ghost start = named(candidates@);
    let mut index: usize = 0;
    assert(texts(commits@.take(0)).to_set() =~= Set::<Seq<char>>::empty());
    assert(start + Set::empty() =~= start);
    while index < commits.len()
        invariant
            index <= commits@.len(),
            wire_ordered(candidates@),
            named(candidates@) == start + texts(commits@.take(index as int)).to_set(),
        decreases commits@.len() - index,
    {
        add_candidate(candidates, &commits[index]);
        proof {
            let taken = commits@.take(index + 1);
            assert(texts(taken) =~= texts(commits@.take(index as int)).push(commits@[index as int]@));
            texts(commits@.take(index as int)).lemma_push_to_set_commute(commits@[index as int]@);
            assert(start + texts(taken).to_set() =~= start + texts(commits@.take(index as int)).to_set()
                + set![commits@[index as int]@]);
        }
        index += 1;
    }
    assert(commits@.take(commits@.len() as int) =~= commits@);
}

/// Add the commits one judged reservation asks about.
fn add_source_candidates(candidates: &mut Vec<GitObjectId>, source: &CandidateSource)
    requires
        wire_ordered(old(candidates)@),
    ensures
        wire_ordered(final(candidates)@),
        named(final(candidates)@) == named(old(candidates)@) + source_candidates(*source),
{
    let ghost start = named(candidates@);
    match &source.evidence {
        CandidateEvidence::Outstanding { protected_tip, trunk_snapshot, integration_status } => {
            add_candidate(candidates, &source.phase_start_head);
            add_candidate(candidates, protected_tip.as_commit());
            add_candidate(candidates, trunk_snapshot);
            add_proving_trunk(candidates, integration_status);
            assert(named(candidates@) =~= start + source_candidates(*source));
        },
        CandidateEvidence::Released { protected_tip, disposition, integration_status } => {
            add_proving_trunk(candidates, integration_status);
            match disposition {
                ReleaseDisposition::Integrated => {
                    add_candidate(candidates, &source.phase_start_head);
                    add_candidate(candidates, protected_tip.as_commit());
                },
                ReleaseDisposition::RewrittenIntegration(witness) => {
                    add_candidate(candidates, &source.phase_start_head);
                    add_candidate(candidates, witness.as_commit());
                },
                _ => {},
            }
            if source.has_nonterminal_dependent {
                add_candidate(candidates, protected_tip.as_commit());
            }
            assert(named(candidates@) =~= start + source_candidates(*source));
        },
        CandidateEvidence::Unprotected => {
            assert(named(candidates@) =~= start + source_candidates(*source));
        },
    }
}

/// Add the commits one observed predecessor asks about.
fn add_predecessor_candidates(candidates: &mut Vec<GitObjectId>, predecessor: &PredecessorCandidateSource)
    requires
        wire_ordered(old(candidates)@),
    ensures
        wire_ordered(final(candidates)@),
        named(final(candidates)@) == named(old(candidates)@) + predecessor_candidates(*predecessor),
{
    let ghost start = named(candidates@);
    add_all(candidates, &predecessor.target_proof_commits);
    match &predecessor.evidence {
        CandidateEvidence::Outstanding { protected_tip, integration_status, .. } => {
            add_candidate(candidates, protected_tip.as_commit());
            add_proving_trunk(candidates, integration_status);
        },
        CandidateEvidence::Released { protected_tip, integration_status, .. } => {
            add_candidate(candidates, protected_tip.as_commit());
            add_proving_trunk(candidates, integration_status);
        },
        CandidateEvidence::Unprotected => {},
    }
    assert(named(candidates@) =~= start + predecessor_candidates(*predecessor));
}

/// The commits one trunk observation classifies, each once, in wire order: those of every
/// reservation it judges, and, when trunk edges are included, the target tips that may become
/// proofs and what every observed predecessor asks about.
pub fn candidate_ancestors(
    judged: &Vec<CandidateSource>,
    edge_candidates: Option<(&Vec<GitObjectId>, &Vec<PredecessorCandidateSource>)>,
) -> (candidates: Vec<GitObjectId>)
    ensures
        wire_ordered(candidates@),
        named(candidates@) == sources_candidates(judged@) + match edge_candidates {
            Some((target_tips, predecessors)) => texts(target_tips@).to_set() + predecessors_candidates(
                predecessors@,
            ),
            None => Set::empty(),
        },
{
    let mut candidates: Vec<GitObjectId> = Vec::new();
    let mut index: usize = 0;
    assert(named(candidates@) =~= Set::<Seq<char>>::empty());
    while index < judged.len()
        invariant
            index <= judged@.len(),
            wire_ordered(candidates@),
            named(candidates@) == sources_candidates(judged@.take(index as int)),
        decreases judged@.len() - index,
    {
        add_source_candidates(&mut candidates, &judged[index]);
        assert(judged@.take(index + 1).drop_last() =~= judged@.take(index as int));
        index += 1;
    }
    assert(judged@.take(judged@.len() as int) =~= judged@);
    let ghost from_judged = named(candidates@);
    match edge_candidates {
        Some((target_tips, predecessors)) => {
            add_all(&mut candidates, target_tips);
            let ghost with_tips = named(candidates@);
            let mut position: usize = 0;
            assert(with_tips + Set::empty() =~= with_tips);
            while position < predecessors.len()
                invariant
                    position <= predecessors@.len(),
                    wire_ordered(candidates@),
                    named(candidates@) == with_tips + predecessors_candidates(predecessors@.take(position as int)),
                decreases predecessors@.len() - position,
            {
                add_predecessor_candidates(&mut candidates, &predecessors[position]);
                assert(predecessors@.take(position + 1).drop_last() =~= predecessors@.take(position as int));
                assert(named(candidates@) =~= with_tips + predecessors_candidates(predecessors@.take(position + 1)));
                position += 1;
            }
            assert(predecessors@.take(predecessors@.len() as int) =~= predecessors@);
            assert(named(candidates@) =~= from_judged + (texts(target_tips@).to_set() + predecessors_candidates(predecessors@)));
        },
        None => {
            assert(named(candidates@) =~= from_judged + Set::empty());
        },
    }
    candidates
}

} // verus!
