use cargo_berth::output::envelope::OutputEnvelope;
use cargo_berth::output::payload::CoordinationRunMarkerPublication;
use cargo_berth::output::payload::CoordinationRunMarkerRetirement;
use cargo_berth::output::payload::ReleasePayload;
use cargo_berth::output::payload::ResolvePayload;
use cargo_berth::output::payload::SessionIdentityMappingPublication;
use cargo_berth::output::release::disposition_debug_text;
use cargo_berth::output::release::message_with_session_mapping_publication;
use cargo_berth::output::release::session_mapping_publication_presentation;
use cargo_berth::output::status::BerthExit;
use cargo_berth::output::status::CommandVerb;
use cargo_berth::output::status::OutputStatus;
use cargo_berth::presentation::EnvelopePresentation;
use cargo_berth::reservation::evidence::ProtectedReservationTip;
use cargo_berth::reservation::lifecycle::AbandonmentReason;
use cargo_berth::reservation::lifecycle::IntegrationEvidenceStatus;
use cargo_berth::reservation::lifecycle::IntegrationProof;
use cargo_berth::reservation::lifecycle::IntegrationWitness;
use cargo_berth::reservation::lifecycle::OrphanRetirementReason;
use cargo_berth::reservation::lifecycle::ReleaseDisposition;
use cargo_berth::reservation::lifecycle::RewrittenIntegrationTrunkCommit;
use cargo_berth::scope::ReservationScope;
use cargo_berth::scope::ReservationScopeSet;
use cargo_berth::scope::ScopeKind;

fn only_block(presentation: &EnvelopePresentation) -> (String, String) {
    match presentation {
        EnvelopePresentation::RenderedBlocks { blocks } if blocks.len() == 1 => {
            (blocks[0].summary.clone(), blocks[0].detail.clone())
        },
        other => panic!("expected one block, found {other:?}"),
    }
}

#[test]
fn dispositions_are_written_as_their_debug_form() {
    assert_eq!(disposition_debug_text(&ReleaseDisposition::Integrated), "Integrated");
    assert_eq!(
        disposition_debug_text(&ReleaseDisposition::RewrittenIntegration(
            RewrittenIntegrationTrunkCommit::new("abc123".to_owned())
        )),
        "RewrittenIntegration(RewrittenIntegrationTrunkCommit(\"abc123\"))"
    );
    let abandoned = ReleaseDisposition::Abandoned(
        AbandonmentReason::parse("  said \"done\"  ").unwrap_or_else(|_| panic!("reason")),
    );
    assert_eq!(
        disposition_debug_text(&abandoned),
        format!("{:?}", ReleaseDisposition::Abandoned(
            AbandonmentReason::parse("said \"done\"").unwrap_or_else(|_| panic!("reason"))
        ))
    );
    assert_eq!(
        disposition_debug_text(&abandoned),
        "Abandoned(AbandonmentReason(\"said \\\"done\\\"\"))"
    );
    let retired = ReleaseDisposition::RetiredOrphan(
        OrphanRetirementReason::parse("gone").unwrap_or_else(|_| panic!("reason")),
    );
    assert_eq!(disposition_debug_text(&retired), format!("{retired:?}"));
}

#[test]
fn released_responses_report_the_protected_tip_and_evidence() {
    let checkpointed = OutputEnvelope::released(ReleasePayload::Checkpointed {
        reservation_id: "reservation-a".to_owned(),
        protected_tip: ProtectedReservationTip::new("tip-a".to_owned()),
        trunk_oid: "trunk-a".to_owned(),
        marker: CoordinationRunMarkerRetirement::Removed,
        session_mapping_publication: SessionIdentityMappingPublication::Published,
    });
    assert_eq!(checkpointed.status, OutputStatus::Outstanding);
    assert_eq!(checkpointed.exit_code, BerthExit::Clear);
    assert_eq!(checkpointed.reservations, vec!["reservation-a".to_owned()]);
    assert_eq!(
        checkpointed.message,
        "Reservation reservation-a is outstanding at protected tip tip-a."
    );
    assert_eq!(
        only_block(&checkpointed.presentation),
        (
            "cargo-berth updated reservation reservation-a.".to_owned(),
            checkpointed.message.clone()
        )
    );
    let revalidated = OutputEnvelope::released(ReleasePayload::EvidenceRevalidated {
        reservation_id: "reservation-a".to_owned(),
        evidence: IntegrationEvidenceStatus::Integrated {
            trunk_oid: "trunk-b".to_owned(),
            proof: IntegrationProof::ProtectedTipAncestor,
            witness: IntegrationWitness::EvaluatedTrunk,
        },
        marker: CoordinationRunMarkerRetirement::AlreadyAbsent,
    });
    assert_eq!(revalidated.status, OutputStatus::Integrated);
    assert_eq!(
        revalidated.message,
        "Reservation reservation-a has integration evidence in trunk commit trunk-b."
    );
    let rewritten = OutputEnvelope::released(ReleasePayload::EvidenceRevalidated {
        reservation_id: "reservation-a".to_owned(),
        evidence: IntegrationEvidenceStatus::TrunkRewritten,
        marker: CoordinationRunMarkerRetirement::AlreadyAbsent,
    });
    assert_eq!(rewritten.status, OutputStatus::TrunkRewritten);
}

#[test]
fn a_released_disposition_names_an_unpublished_session_mapping() {
    let released = OutputEnvelope::released(ReleasePayload::Released {
        reservation_id: "reservation-a".to_owned(),
        disposition: ReleaseDisposition::Integrated,
        marker: CoordinationRunMarkerRetirement::Removed,
        session_mapping_publication: SessionIdentityMappingPublication::Unavailable {
            diagnostic: "disk full".to_owned(),
        },
    });
    assert_eq!(released.status, OutputStatus::Integrated);
    assert_eq!(
        released.message,
        "Reservation reservation-a recorded disposition Integrated. The harness session mapping could not be published: disk full. Name the coordination run and reservation explicitly for later drift checks."
    );
}

#[test]
fn resolved_responses_report_each_outcome() {
    let every = OutputEnvelope::resolved(ResolvePayload::EveryIncursionResolved {
        reservation_id: "reservation-a".to_owned(),
        incident_ids: vec!["incident-a".to_owned(), "incident-b".to_owned()],
    });
    assert_eq!(every.status, OutputStatus::IncursionResolved);
    assert_eq!(
        every.message,
        "Every incursion incident outstanding for reservation reservation-a is resolved: incident-a, incident-b."
    );
    assert_eq!(
        only_block(&every.presentation).0,
        "cargo-berth resolved reservation reservation-a."
    );
    let recovered = OutputEnvelope::resolved(ResolvePayload::Recovered {
        reservation_id: "reservation-a".to_owned(),
        worktree_id: "worktree-b".to_owned(),
    });
    assert_eq!(recovered.status, OutputStatus::Recovered);
    assert_eq!(recovered.message, "Reservation reservation-a is recovered in worktree worktree-b.");
    let duplicate = OutputEnvelope::resolved(ResolvePayload::AlreadyRecordedByDifferentCoordinationActor {
        reservation_id: "reservation-a".to_owned(),
        incident_id: "incident-a".to_owned(),
        resolving_worktree_id: "worktree-b".to_owned(),
        resolving_coordination_run_id: "run-b".to_owned(),
        resolution_event_id: "event-9".to_owned(),
        resolved_at: "2024-01-01T00:00:00Z".to_owned(),
    });
    assert_eq!(duplicate.verb, CommandVerb::Resolve);
    assert_eq!(duplicate.status, OutputStatus::InvalidInput);
    assert_eq!(duplicate.exit_code, BerthExit::UsageError);
    assert_eq!(
        only_block(&duplicate.presentation).0,
        "cargo-berth rejected a duplicate incursion resolution."
    );
    let abandoned = OutputEnvelope::resolved(ResolvePayload::Released {
        reservation_id: "reservation-a".to_owned(),
        disposition: ReleaseDisposition::Abandoned(
            AbandonmentReason::parse("gone").unwrap_or_else(|_| panic!("reason")),
        ),
        session_mapping_publication: SessionIdentityMappingPublication::Published,
    });
    assert_eq!(abandoned.status, OutputStatus::Released);
    assert_eq!(
        abandoned.message,
        "Reservation reservation-a recorded disposition Abandoned(AbandonmentReason(\"gone\"))."
    );
}

fn one_scope() -> ReservationScopeSet {
    ReservationScopeSet::try_from_scopes(vec![
        ReservationScope { path: "a.rs".to_owned(), kind: ScopeKind::File },
        ReservationScope { path: "dir".to_owned(), kind: ScopeKind::Tree },
    ])
    .unwrap_or_else(|_| panic!("scopes"))
}

#[test]
fn claims_name_each_fallback_publication_that_failed() {
    let clean = OutputEnvelope::claimed(
        "reservation-a".to_owned(),
        "run-a".to_owned(),
        one_scope(),
        CoordinationRunMarkerPublication::Published,
        SessionIdentityMappingPublication::Published,
    );
    assert_eq!(clean.status, OutputStatus::Claimed);
    assert_eq!(clean.message, "Claimed 2 reservation scope(s) as reservation-a.");
    assert_eq!(
        only_block(&clean.presentation),
        (
            "cargo-berth claimed reservation reservation-a.".to_owned(),
            "Reservation id: `reservation-a`.\n\nClaimed 2 reservation scope(s) as reservation-a.".to_owned()
        )
    );
    let degraded = OutputEnvelope::claimed(
        "reservation-a".to_owned(),
        "run-a".to_owned(),
        one_scope(),
        CoordinationRunMarkerPublication::Unavailable { diagnostic: "marker locked".to_owned() },
        SessionIdentityMappingPublication::Unavailable { diagnostic: "no session".to_owned() },
    );
    assert_eq!(
        degraded.message,
        "Claimed 2 reservation scope(s) as reservation-a, but neither fallback identity publication completed. Coordination-run marker: marker locked. Harness session mapping: no session. Restore coordination run run-a through the process environment and name reservation reservation-a explicitly for later drift checks."
    );
    assert!(only_block(&degraded.presentation).1.ends_with(
        "The journal append and reservation `reservation-a` are durable, but the harness session mapping is unavailable: no session. Name reservation `reservation-a` explicitly on subsequent commands."
    ));
}

#[test]
fn publication_notes_follow_the_message() {
    assert_eq!(
        message_with_session_mapping_publication(
            "Done.".to_owned(),
            &SessionIdentityMappingPublication::ExplicitSelectionAppliesOnlyToCurrentInvocation
        ),
        "Done. The explicit reservation selection applies only to this invocation because no usable harness session id was supplied; name the reservation again on a later check."
    );
    assert_eq!(
        session_mapping_publication_presentation("Done.", &SessionIdentityMappingPublication::Published),
        EnvelopePresentation::NothingToShow
    );
    assert_eq!(
        only_block(&session_mapping_publication_presentation(
            "Done.",
            &SessionIdentityMappingPublication::ExplicitSelectionAppliesOnlyToCurrentInvocation
        ))
        .1,
        "Done."
    );
}

#[test]
fn recorded_reasons_lose_unicode_surrounding_whitespace() {
    let reason = AbandonmentReason::parse("\u{a0}\u{3000} gone away\t\u{2028}")
        .unwrap_or_else(|_| panic!("reason"));
    assert_eq!(reason, AbandonmentReason::parse("gone away").unwrap_or_else(|_| panic!("reason")));
    assert!(AbandonmentReason::parse("\u{85}\u{2000}\u{200a}\r\n").is_err());
    assert!(OrphanRetirementReason::parse(" \u{205f}").is_err());
}
