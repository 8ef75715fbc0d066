use cargo_berth::reconcile::candidates::candidate_ancestors;
use cargo_berth::reconcile::candidates::CandidateEvidence;
use cargo_berth::reconcile::candidates::CandidateSource;
use cargo_berth::reconcile::candidates::PredecessorCandidateSource;
use cargo_berth::reservation::evidence::ProtectedReservationTip;
use cargo_berth::reservation::lifecycle::IntegrationEvidenceStatus;
use cargo_berth::reservation::lifecycle::IntegrationProof;
use cargo_berth::reservation::lifecycle::IntegrationWitness;
use cargo_berth::reservation::lifecycle::OrphanRetirementReason;
use cargo_berth::reservation::lifecycle::ReleaseDisposition;
use cargo_berth::reservation::lifecycle::RewrittenIntegrationTrunkCommit;

fn integrated(trunk: &str) -> IntegrationEvidenceStatus {
    IntegrationEvidenceStatus::Integrated {
        trunk_oid: trunk.to_owned(),
        proof: IntegrationProof::ProtectedTipAncestor,
        witness: IntegrationWitness::EvaluatedTrunk,
    }
}

fn tip(commit: &str) -> ProtectedReservationTip {
    ProtectedReservationTip(commit.to_owned())
}

fn names(values: &[&str]) -> Vec<String> {
    values.iter().map(|value| (*value).to_owned()).collect()
}

#[test]
fn judged_reservations_name_their_checkpoint_commits_once_in_wire_order() {
    let judged = vec![
        CandidateSource {
            phase_start_head: "p1".to_owned(),
            evidence: CandidateEvidence::Outstanding {
                protected_tip: tip("t1"),
                trunk_snapshot: "s1".to_owned(),
                integration_status: integrated("m1"),
            },
            has_nonterminal_dependent: false,
        },
        CandidateSource {
            phase_start_head: "p2".to_owned(),
            evidence: CandidateEvidence::Released {
                protected_tip: tip("t2"),
                disposition: ReleaseDisposition::RewrittenIntegration(RewrittenIntegrationTrunkCommit("w2".to_owned())),
                integration_status: IntegrationEvidenceStatus::NotIntegrated,
            },
            has_nonterminal_dependent: false,
        },
        CandidateSource {
            phase_start_head: "p3".to_owned(),
            evidence: CandidateEvidence::Released {
                protected_tip: tip("t3"),
                disposition: ReleaseDisposition::RetiredOrphan(
                    OrphanRetirementReason::parse("worktree removed").unwrap_or_else(|_| panic!("a reason")),
                ),
                integration_status: integrated("m1"),
            },
            has_nonterminal_dependent: true,
        },
        CandidateSource {
            phase_start_head: "p4".to_owned(),
            evidence: CandidateEvidence::Unprotected,
            has_nonterminal_dependent: true,
        },
    ];
    assert_eq!(candidate_ancestors(&judged, None), names(&["m1", "p1", "p2", "s1", "t1", "t3", "w2"]));
}

#[test]
fn trunk_edges_add_target_tips_and_predecessor_proofs() {
    let tips = names(&["f1", "m1"]);
    let predecessors = vec![
        PredecessorCandidateSource {
            target_proof_commits: names(&["g1"]),
            evidence: CandidateEvidence::Released {
                protected_tip: tip("t5"),
                disposition: ReleaseDisposition::Integrated,
                integration_status: integrated("m2"),
            },
        },
        PredecessorCandidateSource { target_proof_commits: Vec::new(), evidence: CandidateEvidence::Unprotected },
    ];
    assert_eq!(
        candidate_ancestors(&Vec::new(), Some((&tips, &predecessors))),
        names(&["f1", "g1", "m1", "m2", "t5"])
    );
    assert!(candidate_ancestors(&Vec::new(), None).is_empty());
}
