use cargo_berth::reservation::lifecycle::IntegrationEvidenceStatus;
use cargo_berth::reservation::lifecycle::IntegrationProof;
use cargo_berth::reservation::lifecycle::IntegrationWitness;
use cargo_berth::reservation::lifecycle::Reachability;
use cargo_berth::reservation::lifecycle::ReleaseDisposition;
use cargo_berth::reservation::lifecycle::ReleaseRevalidationSubject;
use cargo_berth::reservation::lifecycle::RewrittenIntegrationTrunkCommit;

#[test]
fn revalidation_subject_selection() {
    let witness = "1111111111111111111111111111111111111111".to_owned();
    let trunk = "2222222222222222222222222222222222222222".to_owned();
    let disposition =
        ReleaseDisposition::RewrittenIntegration(RewrittenIntegrationTrunkCommit::from(witness.clone()));
    assert_eq!(
        ReleaseDisposition::Integrated.revalidation_subject(),
        ReleaseRevalidationSubject::ProtectedTip
    );
    let ReleaseRevalidationSubject::RewrittenIntegration(subject) = disposition.revalidation_subject()
    else {
        panic!("rewritten integration must select the trunk witness");
    };
    for (reachability, expected) in [
        (
            Reachability::Ancestor,
            IntegrationEvidenceStatus::Integrated {
                trunk_oid: trunk.clone(),
                proof: IntegrationProof::RewrittenWitnessAncestor,
                witness: IntegrationWitness::Historical(subject.clone()),
            },
        ),
        (Reachability::NotAncestor, IntegrationEvidenceStatus::TrunkRewritten),
        (Reachability::ObjectUnknown, IntegrationEvidenceStatus::ObjectUnknown),
    ] {
        let mut ancestry_queries = 0;
        let status = subject.revalidate_ancestry(&trunk, |commit: &String| {
            assert_eq!(commit, &witness);
            ancestry_queries += 1;
            reachability
        });
        assert_eq!(status, expected);
        assert_eq!(ancestry_queries, 1);
    }
}
