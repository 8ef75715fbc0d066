use cargo_berth::output::alert::presentation_from_actionable_alerts;
use cargo_berth::output::alert::Alert;
use cargo_berth::output::alert::OrphanedOutstandingAlert;
use cargo_berth::output::alert::RecoverabilityVerdict;
use cargo_berth::output::board::BoardModel;
use cargo_berth::output::envelope::OutputEnvelope;
use cargo_berth::output::integration::integration_blocked_message;
use cargo_berth::output::integration::integration_blockers;
use cargo_berth::output::integration::integration_hold_message;
use cargo_berth::output::integration::EdgeHold;
use cargo_berth::output::integration::EdgeReadiness;
use cargo_berth::output::integration::IntegratedGateOutcome;
use cargo_berth::output::integration::IntegrationHold;
use cargo_berth::output::integration::IntegrationPayload;
use cargo_berth::output::integration::IntegrationReservation;
use cargo_berth::output::integration::IntegrationViolation;
use cargo_berth::output::integration::OrderingEdge;
use cargo_berth::output::integration::UnintegratedPredecessorEvidence;
use cargo_berth::output::status::BerthExit;
use cargo_berth::output::status::CommandVerb;
use cargo_berth::output::status::OutputStatus;
use cargo_berth::presentation::EnvelopePresentation;
use cargo_berth::reservation::conflict::ClaimSource;
use cargo_berth::reservation::conflict::ReservationPurpose;
use cargo_berth::scope::ReservationScope;
use cargo_berth::scope::ReservationScopeSet;
use cargo_berth::scope::ScopeKind;

/// The recovery for an edge that no longer holds, after its opening words.
const STALE_EDGE: &str = "gate because this edge is no longer holding";

fn scopes(path: &str, kind: ScopeKind) -> ReservationScopeSet {
    ReservationScopeSet::try_from_scopes(vec![ReservationScope { path: path.to_owned(), kind }])
        .unwrap_or_else(|_| panic!("one scope"))
}

fn only_block(presentation: &EnvelopePresentation) -> (String, String) {
    match presentation {
        EnvelopePresentation::RenderedBlocks { blocks } if blocks.len() == 1 => {
            (blocks[0].summary.clone(), blocks[0].detail.clone())
        },
        other => panic!("expected one block, found {other:?}"),
    }
}

fn edge(readiness: EdgeReadiness) -> IntegrationHold {
    IntegrationHold::OrderingEdge {
        edge_id: "e1".to_owned(),
        predecessor: "p1".to_owned(),
        scopes: scopes("src", ScopeKind::Tree),
        reason: "schema first".to_owned(),
        readiness,
    }
}

fn reservation(id: &str, path: &str) -> IntegrationReservation {
    IntegrationReservation {
        reservation_id: id.to_owned(),
        source: ClaimSource::Explicit,
        purpose: ReservationPurpose::Explained("refactor".to_owned()),
        scopes: scopes(path, ScopeKind::File),
    }
}

#[test]
fn each_edge_state_names_its_own_recovery() {
    let subject = "s1".to_owned();
    let cases = [
        (
            EdgeReadiness::Holding { hold: EdgeHold::AwaitingPredecessorCheckpoint },
            "run cargo-berth release p1 after checkpointing it",
        ),
        (
            EdgeReadiness::Holding {
                hold: EdgeHold::PredecessorNotOnTrunk {
                    evidence: UnintegratedPredecessorEvidence::NotIntegrated,
                },
            },
            "run cargo-berth integrate p1",
        ),
        (
            EdgeReadiness::Holding {
                hold: EdgeHold::PredecessorNotOnTrunk {
                    evidence: UnintegratedPredecessorEvidence::TrunkRewritten,
                },
            },
            "re-record verified evidence with cargo-berth resolve p1 --integrated-as <trunk-oid>",
        ),
        (
            EdgeReadiness::Holding {
                hold: EdgeHold::PredecessorNotOnTrunk {
                    evidence: UnintegratedPredecessorEvidence::ObjectUnknown,
                },
            },
            "repair the unresolvable git object, then rerun the integration",
        ),
        (
            EdgeReadiness::Holding { hold: EdgeHold::AwaitingSuccessorIncorporation },
            "rebase this worktree onto current main so it incorporates the predecessor",
        ),
    ];
    let cases = cases
        .into_iter()
        .map(|(readiness, recovery)| (readiness, recovery.to_owned()))
        .chain([EdgeReadiness::Cancelled, EdgeReadiness::Fulfilled].map(|readiness| {
            (readiness, format!("rerun the {STALE_EDGE}"))
        }));
    for (readiness, recovery) in cases {
        assert_eq!(
            integration_hold_message(&subject, &edge(readiness)),
            format!(
                "Ordering edge e1 waits on reservation p1; covered paths: tree:src; recorded reason: schema first; recovery: {recovery}."
            )
        );
    }
}

#[test]
fn a_deferral_names_the_other_side_and_quotes_the_reason() {
    let hold = IntegrationHold::DeferredOverlap {
        deferred: "s1".to_owned(),
        blocker: "b1".to_owned(),
        scopes: scopes("a.rs", ScopeKind::File),
        reason: "wait \"here\"".to_owned(),
    };
    assert_eq!(
        integration_hold_message(&"s1".to_owned(), &hold),
        "Unresolved deferral with reservation b1; covered paths: file:a.rs; recorded reason: wait \"here\"; recovery: cargo-berth sequence b1 s1 --why \"wait \\\"here\\\"\"."
    );
    assert_eq!(
        integration_hold_message(&"b1".to_owned(), &hold),
        "Unresolved deferral with reservation s1; covered paths: file:a.rs; recorded reason: wait \"here\"; recovery: cargo-berth sequence s1 b1 --why \"wait \\\"here\\\"\"."
    );
}

#[test]
fn an_enforcing_denial_lists_every_holder_and_hold() {
    let violations = vec![
        IntegrationViolation {
            reservation: reservation("s1", "a.rs"),
            blocking_reservations: vec![reservation("p1", "a.rs"), reservation("p2", "b.rs")],
            holds: vec![edge(EdgeReadiness::Cancelled)],
        },
        IntegrationViolation {
            reservation: reservation("s2", "c.rs"),
            blocking_reservations: vec![reservation("p1", "c.rs")],
            holds: Vec::new(),
        },
    ];
    assert_eq!(integration_blockers(&violations), vec!["p1".to_owned(), "p2".to_owned()]);
    let message = format!("Reservation s1 cannot enter main while its integration order is held.\nEntering reservation s1: explicit claim; purpose: refactor; protected paths: file:a.rs.\nBlocking reservation p1: explicit claim; purpose: refactor; protected paths: file:a.rs.\nBlocking reservation p2: explicit claim; purpose: refactor; protected paths: file:b.rs.\nOrdering edge e1 waits on reservation p1; covered paths: tree:src; recorded reason: schema first; recovery: rerun the {STALE_EDGE}.\nEntering reservation s2: explicit claim; purpose: refactor; protected paths: file:c.rs.\nBlocking reservation p1: explicit claim; purpose: refactor; protected paths: file:c.rs.\nTo deliberately proceed once: cargo-berth integrate s1 --force --why \"<reason>\". Last resort: CARGO_BERTH_BYPASS=1 <git command>.");
    assert_eq!(integration_blocked_message(&"s1".to_owned(), &violations), message);
    let envelope = OutputEnvelope::integration_blocked("s1".to_owned(), 7, violations);
    assert_eq!(envelope.status, OutputStatus::BlockedByOrdering);
    assert_eq!(envelope.exit_code, BerthExit::BlockedByOrdering);
    assert_eq!(envelope.reservations, vec!["s1".to_owned()]);
    assert_eq!(envelope.blocked_by, vec!["p1".to_owned(), "p2".to_owned()]);
    assert_eq!(envelope.message, message);
    assert_eq!(
        only_block(&envelope.presentation),
        ("cargo-berth refused integration for reservation s1.".to_owned(), message.clone())
    );
}

#[test]
fn an_integration_names_the_policy_that_admitted_it() {
    let integrated = |gate| {
        OutputEnvelope::integrated(IntegrationPayload::Integrated {
            reservation_id: "s1".to_owned(),
            previous: "old".to_owned(),
            proposed: "new".to_owned(),
            generation: 3,
            gate,
        })
    };
    let clear = integrated(IntegratedGateOutcome::Clear);
    assert_eq!(clear.status, OutputStatus::Integrated);
    assert_eq!(clear.exit_code, BerthExit::Clear);
    assert_eq!(clear.reservations, vec!["s1".to_owned()]);
    assert_eq!(clear.message, "Integrated reservation s1; the ordering gate was clear.");
    assert_eq!(
        only_block(&clear.presentation),
        (
            "cargo-berth integrated reservation s1.".to_owned(),
            "Integrated reservation s1; the ordering gate was clear.".to_owned(),
        )
    );
    assert_eq!(
        integrated(IntegratedGateOutcome::Observed { violations: Vec::new() }).message,
        "Integrated reservation s1; observe-only policy reported an ordering hold."
    );
    assert_eq!(
        integrated(IntegratedGateOutcome::Forced {
            permit_id: "permit-4".to_owned(),
            observed_violations: Vec::new(),
        })
        .message,
        "Integrated reservation s1 using one-use permit permit-4."
    );
    let refused = OutputEnvelope::integrated(IntegrationPayload::Blocked {
        reservation_id: "s1".to_owned(),
        generation: 3,
        violations: Vec::new(),
    });
    assert_eq!(refused.status, OutputStatus::InvalidInput);
    assert_eq!(refused.verb, CommandVerb::Integrate);
    assert_eq!(refused.message, "an integrated response requires an integrated payload");
}

#[test]
fn a_recorded_edge_blocks_its_successor_only_while_it_holds() {
    let recorded = |readiness| {
        OutputEnvelope::sequenced(
            OrderingEdge {
                edge_id: "e1".to_owned(),
                before: "p1".to_owned(),
                after: "s1".to_owned(),
                scopes: scopes("a.rs", ScopeKind::File),
                reason: "first".to_owned(),
            },
            readiness,
        )
    };
    let holding = recorded(EdgeReadiness::Holding { hold: EdgeHold::AwaitingPredecessorCheckpoint });
    assert_eq!(holding.status, OutputStatus::Sequenced);
    assert_eq!(holding.exit_code, BerthExit::Clear);
    assert_eq!(holding.message, "Recorded ordering edge e1: p1 before s1.");
    assert_eq!(holding.reservations, vec!["p1".to_owned(), "s1".to_owned()]);
    assert_eq!(holding.blocked_by, vec!["p1".to_owned()]);
    assert_eq!(
        only_block(&holding.presentation).0,
        "cargo-berth recorded ordering edge e1."
    );
    assert!(recorded(EdgeReadiness::Fulfilled).blocked_by.is_empty());
}

#[test]
fn a_board_read_lists_its_reservations_and_recovered_markers() {
    let model = BoardModel {
        reservation_ids: vec!["r1".to_owned(), "r2".to_owned()],
        presentation: EnvelopePresentation::NothingToShow,
        outstanding_incursions: Vec::new(),
        recorded_incursions: Vec::new(),
        recovered_bypass_marker_names: vec!["m1".to_owned()],
    };
    let envelope = OutputEnvelope::board(model);
    assert_eq!(envelope.verb, CommandVerb::Board);
    assert_eq!(envelope.status, OutputStatus::BoardReady);
    assert_eq!(envelope.exit_code, BerthExit::Clear);
    assert_eq!(envelope.reservations, vec!["r1".to_owned(), "r2".to_owned()]);
    assert_eq!(
        envelope.message,
        "The reservation board was read. Use `cargo-berth board --json` to inspect it."
    );
    assert_eq!(
        envelope.render_text(),
        "The reservation board was read. Use `cargo-berth board --json` to inspect it.\nRecovered bypass marker m1: a bypass recorded earlier while the journal was unwritable has now been filed in the journal."
    );
    let failed = OutputEnvelope::board_with_terminal_view_opening_failure(
        BoardModel {
            reservation_ids: Vec::new(),
            presentation: EnvelopePresentation::NotProvided,
            outstanding_incursions: Vec::new(),
            recorded_incursions: Vec::new(),
            recovered_bypass_marker_names: Vec::new(),
        },
        "no tty",
    );
    assert_eq!(
        failed.message,
        "The reservation board was read. Use `cargo-berth board --json` to inspect it.\nThe terminal view could not open: no tty. Run `cargo-berth board --json` instead."
    );
    assert_eq!(failed.status, OutputStatus::BoardReady);
}

#[test]
fn board_alerts_become_counted_actionable_notices() {
    let alerts = vec![
        Alert::LostIntegrationEvidence { reservation_id: "r7".to_owned(), line: "LOST r7".to_owned() },
        Alert::OrphanedOutstanding(OrphanedOutstandingAlert {
            reservation_id: "r8".to_owned(),
            protected_tip: "tip8".to_owned(),
            recoverability: RecoverabilityVerdict::CommitUnavailable,
            line: "ORPHAN r8".to_owned(),
        }),
        Alert::OrphanedOutstanding(OrphanedOutstandingAlert {
            reservation_id: "r9".to_owned(),
            protected_tip: "tip9".to_owned(),
            recoverability: RecoverabilityVerdict::RecoverableFromBranch,
            line: "ORPHAN r9".to_owned(),
        }),
    ];
    assert_eq!(presentation_from_actionable_alerts(&[]), EnvelopePresentation::NothingToShow);
    let expected = (
        "cargo-berth found 3 actionable coordination notice(s).".to_owned(),
        "LOST r7\nORPHANED OUTSTANDING: reservation r8 at protected tip tip8 is commit_unavailable. Answer it with `cargo-berth resolve r8 --retire-orphan --why <reason>` or `cargo-berth resolve r8 --abandon --why <reason>` after reviewing the work.\nORPHANED OUTSTANDING: reservation r9 at protected tip tip9 is recoverable_from_branch. Answer it with `cargo-berth resolve r9 --recovered` after reviewing the work.".to_owned(),
    );
    assert_eq!(only_block(&presentation_from_actionable_alerts(&alerts)), expected);
    let envelope = OutputEnvelope::board(BoardModel {
        reservation_ids: Vec::new(),
        presentation: EnvelopePresentation::NotProvided,
        outstanding_incursions: Vec::new(),
        recorded_incursions: Vec::new(),
        recovered_bypass_marker_names: Vec::new(),
    })
    .with_alerts(alerts);
    assert_eq!(only_block(&envelope.presentation), expected);
    assert_eq!(
        envelope.render_text(),
        "The reservation board was read. Use `cargo-berth board --json` to inspect it.\nLOST r7\nORPHAN r8\nORPHAN r9"
    );
    let renewed = OutputEnvelope::renewed("r1".to_owned());
    let before = renewed.presentation.clone();
    let after = OutputEnvelope::renewed("r1".to_owned()).with_alerts(vec![Alert::LostIntegrationEvidence {
        reservation_id: "r7".to_owned(),
        line: "LOST r7".to_owned(),
    }]);
    assert_eq!(after.presentation, before);
}
