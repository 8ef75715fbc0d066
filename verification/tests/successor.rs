use cargo_berth::reconcile::evaluation::IntegrationProofSubjectRevision;
use cargo_berth::reconcile::successor::predecessor_successor_incorporation;
use cargo_berth::reconcile::successor::record_successor_scoped_patch_verdict;
use cargo_berth::reconcile::successor::SuccessorComparisonRecord;
use cargo_berth::reservation::evidence::ScopedPatchComparison;
use cargo_berth::reconcile::successor::resolved_successor_heads;
use cargo_berth::reconcile::successor::unreached_successor_evidence;
use cargo_berth::reconcile::successor::CandidateHeadReachability;
use cargo_berth::reconcile::successor::PredecessorIntegrationProof;
use cargo_berth::reconcile::successor::PredecessorSuccessorIncorporation;
use cargo_berth::reconcile::successor::PredecessorSuccessorReachability;
use cargo_berth::reconcile::successor::ProtectedTipSuccessorHeadClassification;
use cargo_berth::reconcile::successor::SuccessorIncorporationEvidence;
use cargo_berth::reconcile::successor::SuccessorIncorporationSubject;
use cargo_berth::reconcile::successor::SuccessorScopedPatchEquivalenceVerdict;
use cargo_berth::reservation::evidence::ProtectedReservationTip;
use cargo_berth::reservation::lifecycle::RewrittenIntegrationTrunkCommit;

fn checkpoint() -> SuccessorIncorporationSubject {
    SuccessorIncorporationSubject::CheckpointTip(ProtectedReservationTip("tip".to_owned()))
}

fn landed() -> PredecessorIntegrationProof {
    PredecessorIntegrationProof::ReachedTrunk("t1".to_owned())
}

fn heads() -> ProtectedTipSuccessorHeadClassification {
    ProtectedTipSuccessorHeadClassification::Classified(vec![
        CandidateHeadReachability::Descendant {
            head: "h1".to_owned(),
            first_parent_commits_after_ancestor: vec!["c1".to_owned()],
        },
        CandidateHeadReachability::NotDescendant("h2".to_owned()),
        CandidateHeadReachability::NotDescendant("h3".to_owned()),
        CandidateHeadReachability::NotDescendant("h4".to_owned()),
        CandidateHeadReachability::NotDescendant("h5".to_owned()),
        CandidateHeadReachability::ObjectUnknown("h6".to_owned()),
    ])
}

fn reached_trunk() -> ProtectedTipSuccessorHeadClassification {
    ProtectedTipSuccessorHeadClassification::Classified(vec![
        CandidateHeadReachability::Descendant { head: "h2".to_owned(), first_parent_commits_after_ancestor: Vec::new() },
        CandidateHeadReachability::NotDescendant("h3".to_owned()),
    ])
}

fn verdicts() -> Vec<(String, SuccessorScopedPatchEquivalenceVerdict)> {
    vec![
        ("h3".to_owned(), SuccessorScopedPatchEquivalenceVerdict::Equivalent),
        ("h4".to_owned(), SuccessorScopedPatchEquivalenceVerdict::Different),
    ]
}

#[test]
fn successor_heads_are_classified_against_the_checkpoint_and_landed_trunk_commit() {
    let subject_heads = heads();
    let trunk_heads = reached_trunk();
    let since = ProtectedTipSuccessorHeadClassification::AncestorObjectUnknown;
    let reachability = PredecessorSuccessorReachability {
        against_incorporation_subject: &subject_heads,
        since_phase_start: &since,
        against_reached_trunk: Some(&trunk_heads),
    };
    let (incorporation, queued) =
        predecessor_successor_incorporation(&checkpoint(), &landed(), &reachability, &verdicts());
    assert_eq!(
        incorporation,
        PredecessorSuccessorIncorporation::Classified(vec![
            ("h1".to_owned(), SuccessorIncorporationEvidence::ProtectedTipAncestor),
            ("h2".to_owned(), SuccessorIncorporationEvidence::IntegratedTrunkAncestor),
            ("h3".to_owned(), SuccessorIncorporationEvidence::ScopedPatchEquivalent),
            ("h4".to_owned(), SuccessorIncorporationEvidence::NotIncorporated),
            ("h5".to_owned(), SuccessorIncorporationEvidence::NotIncorporated),
            ("h6".to_owned(), SuccessorIncorporationEvidence::ObjectUnknown),
        ])
    );
    assert_eq!(queued, vec!["h5".to_owned()]);
}

#[test]
fn an_unresolvable_predecessor_classifies_nothing() {
    let subject_heads = ProtectedTipSuccessorHeadClassification::AncestorObjectUnknown;
    let since = ProtectedTipSuccessorHeadClassification::AncestorObjectUnknown;
    let reachability = PredecessorSuccessorReachability {
        against_incorporation_subject: &subject_heads,
        since_phase_start: &since,
        against_reached_trunk: None,
    };
    let (incorporation, queued) =
        predecessor_successor_incorporation(&checkpoint(), &landed(), &reachability, &verdicts());
    assert_eq!(incorporation, PredecessorSuccessorIncorporation::PredecessorObjectUnknown);
    assert!(queued.is_empty());
}

#[test]
fn witnesses_and_unproven_predecessors_queue_no_comparison() {
    let subject_heads = heads();
    let since = ProtectedTipSuccessorHeadClassification::AncestorObjectUnknown;
    let reachability = PredecessorSuccessorReachability {
        against_incorporation_subject: &subject_heads,
        since_phase_start: &since,
        against_reached_trunk: None,
    };
    let witness = SuccessorIncorporationSubject::RewrittenIntegrationWitness(RewrittenIntegrationTrunkCommit(
        "w1".to_owned(),
    ));
    let (_, queued) = predecessor_successor_incorporation(&witness, &landed(), &reachability, &verdicts());
    assert!(queued.is_empty());
    let (_, queued) = predecessor_successor_incorporation(
        &checkpoint(),
        &PredecessorIntegrationProof::Unproven,
        &reachability,
        &Vec::new(),
    );
    assert!(queued.is_empty());
    assert_eq!(
        unreached_successor_evidence(&checkpoint(), &PredecessorIntegrationProof::Unproven, &reachability, &"h5".to_owned(), &Vec::new()),
        (SuccessorIncorporationEvidence::NotIncorporated, false)
    );
}

#[test]
fn resolved_successor_heads_are_distinct_and_in_successor_order() {
    let successors = vec!["s3".to_owned(), "s1".to_owned(), "s2".to_owned(), "s4".to_owned(), "s5".to_owned()];
    let worktree_heads = vec![
        ("s1".to_owned(), Some("h1".to_owned())),
        ("s2".to_owned(), Some("h3".to_owned())),
        ("s3".to_owned(), Some("h3".to_owned())),
        ("s4".to_owned(), None),
    ];
    assert_eq!(
        resolved_successor_heads(&successors, &worktree_heads),
        vec!["h3".to_owned(), "h1".to_owned()]
    );
}

#[test]
fn a_settled_comparison_updates_its_head_and_journals_the_verdict() {
    let classified = || {
        vec![
            ("h1".to_owned(), SuccessorIncorporationEvidence::ProtectedTipAncestor),
            ("h5".to_owned(), SuccessorIncorporationEvidence::NotIncorporated),
        ]
    };
    let mut evidence = classified();
    let record = record_successor_scoped_patch_verdict(
        "p1".to_owned(),
        IntegrationProofSubjectRevision(3),
        "h5".to_owned(),
        ScopedPatchComparison::Equivalent,
        &mut evidence,
    );
    assert_eq!(evidence[1], ("h5".to_owned(), SuccessorIncorporationEvidence::ScopedPatchEquivalent));
    assert_eq!(
        record,
        SuccessorComparisonRecord::EquivalenceChecked {
            predecessor_reservation_id: "p1".to_owned(),
            subject: IntegrationProofSubjectRevision(3),
            successor_head: "h5".to_owned(),
            verdict: SuccessorScopedPatchEquivalenceVerdict::Equivalent,
        }
    );
    let mut evidence = classified();
    let record = record_successor_scoped_patch_verdict(
        "p1".to_owned(),
        IntegrationProofSubjectRevision(3),
        "h5".to_owned(),
        ScopedPatchComparison::Different,
        &mut evidence,
    );
    assert_eq!(evidence, classified());
    assert!(matches!(
        record,
        SuccessorComparisonRecord::EquivalenceChecked { verdict: SuccessorScopedPatchEquivalenceVerdict::Different, .. }
    ));
    let mut evidence = classified();
    let record = record_successor_scoped_patch_verdict(
        "p1".to_owned(),
        IntegrationProofSubjectRevision(3),
        "h5".to_owned(),
        ScopedPatchComparison::Unavailable,
        &mut evidence,
    );
    assert_eq!(evidence[1], ("h5".to_owned(), SuccessorIncorporationEvidence::ObjectUnknown));
    assert!(matches!(record, SuccessorComparisonRecord::ComparisonAttempted { .. }));
}
