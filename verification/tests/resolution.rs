use cargo_berth::output::alert::Alert;
use cargo_berth::output::alert::OrphanedOutstandingAlert;
use cargo_berth::output::alert::RecoverabilityVerdict;
use cargo_berth::output::payload::OutputFacts;
use cargo_berth::output::payload::ResolvePayload;
use cargo_berth::output::status::CommandVerb;
use cargo_berth::output::status::OutputStatus;
use cargo_berth::recovery::resolution_response;

fn alerts() -> Vec<Alert> {
    vec![
        Alert::LostIntegrationEvidence { reservation_id: "r1".to_owned(), line: "lost r1".to_owned() },
        Alert::OrphanedOutstanding(OrphanedOutstandingAlert {
            reservation_id: "r2".to_owned(),
            protected_tip: "t2".to_owned(),
            recoverability: RecoverabilityVerdict::RecoverableFromBranch,
            line: "orphan r2".to_owned(),
        }),
        Alert::OrphanedOutstanding(OrphanedOutstandingAlert {
            reservation_id: "r1".to_owned(),
            protected_tip: "t1".to_owned(),
            recoverability: RecoverabilityVerdict::CommitUnavailable,
            line: "orphan r1".to_owned(),
        }),
    ]
}

#[test]
fn a_settling_resolution_drops_the_resolved_reservations_alerts() {
    let envelope = resolution_response(
        ResolvePayload::Recovered { reservation_id: "r1".to_owned(), worktree_id: "w9".to_owned() },
        &"r1".to_owned(),
        alerts(),
    );
    assert_eq!(envelope.verb, CommandVerb::Resolve);
    assert_eq!(envelope.reservations, vec!["r1".to_owned()]);
    assert!(matches!(envelope.payload.facts, OutputFacts::Resolve(ResolvePayload::Recovered { .. })));
    let lines: Vec<&str> = envelope.payload.alerts.iter().map(|alert| alert.line().as_str()).collect();
    assert_eq!(lines, vec!["orphan r2"]);
}

#[test]
fn an_incursion_answer_keeps_every_alert() {
    let envelope = resolution_response(
        ResolvePayload::RecordedNow { reservation_id: "r1".to_owned(), incident_id: "i1".to_owned() },
        &"r1".to_owned(),
        alerts(),
    );
    assert_eq!(envelope.status, OutputStatus::IncursionResolved);
    assert_eq!(envelope.payload.alerts, alerts());
}
