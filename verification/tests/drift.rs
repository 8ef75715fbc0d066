use cargo_berth::output::alert::Alert;
use cargo_berth::output::board::BoardModel;
use cargo_berth::output::drift::collision_detail;
use cargo_berth::output::drift::drift_message;
use cargo_berth::output::drift::drift_path_attribution_message;
use cargo_berth::output::drift::render_incursion_commits;
use cargo_berth::output::drift::DriftEffect;
use cargo_berth::output::drift::DriftPathAttributionOutcome;
use cargo_berth::output::drift::DriftReport;
use cargo_berth::output::drift::IncursionCommit;
use cargo_berth::output::drift::IncursionCommitOrigin;
use cargo_berth::output::drift::PostWriteFreePathProtection;
use cargo_berth::output::drift::ReservationDriftResult;
use cargo_berth::output::envelope::OutputEnvelope;
use cargo_berth::output::envelope::PostToolUseRendering;
use cargo_berth::output::payload::FirstTouchReservationAcquisition;
use cargo_berth::output::payload::FirstTouchReservationAcquisitionKind;
use cargo_berth::output::payload::SessionIdentityMappingPublication;
use cargo_berth::output::status::BerthExit;
use cargo_berth::output::status::CommandVerb;
use cargo_berth::output::status::OutputStatus;
use cargo_berth::presentation::EnvelopePresentation;

fn texts(values: &[&str]) -> Vec<String> {
    values.iter().map(|value| (*value).to_owned()).collect()
}

fn only_block(presentation: &EnvelopePresentation) -> (String, String) {
    match presentation {
        EnvelopePresentation::RenderedBlocks { blocks } if blocks.len() == 1 => {
            (blocks[0].summary.clone(), blocks[0].detail.clone())
        },
        other => panic!("expected one block, found {other:?}"),
    }
}

fn incursion_and_collision() -> DriftReport {
    DriftReport {
        results: vec![
            ReservationDriftResult::Changed {
                reservation_id: "r1".to_owned(),
                effects: vec![
                    DriftEffect::Incursion {
                        incident_id: "i9".to_owned(),
                        foreign_reservation_ids: texts(&["f1", "f2"]),
                        paths: texts(&["src/x.rs"]),
                        commits: vec![IncursionCommit {
                            commit: "0123456789abcdef".to_owned(),
                            subject: "fix x".to_owned(),
                            origin: IncursionCommitOrigin::PhaseAuthored,
                            paths: texts(&["src/x.rs"]),
                        }],
                    },
                    DriftEffect::Collision {
                        foreign_reservation_ids: texts(&["f2", "f3"]),
                        paths: texts(&["src/y.rs"]),
                    },
                ],
            },
            ReservationDriftResult::Unchanged { reservation_id: "r2".to_owned() },
        ],
        path_attribution: DriftPathAttributionOutcome::NotNeeded,
    }
}

const OUTSTANDING_LINE: &str = "INCURSION: reservation r1 entered src/x.rs, held by f1, f2; incident i9. Committed by 01234567 \"fix x\" (this phase authored it) covering src/x.rs. STOP. Resolve with `cargo-berth resolve r1 --incursion i9` before making more changes.";
const COLLISION_LINE: &str = "COLLISION: reservation r1 could not widen to src/y.rs because f2, f3 now holds the path. STOP and resolve the overlap before making more changes.";

fn board(outstanding: &[&str], recorded: &[&str]) -> OutputEnvelope {
    OutputEnvelope::board(BoardModel {
        reservation_ids: texts(&["r1"]),
        presentation: EnvelopePresentation::NothingToShow,
        outstanding_incursions: texts(outstanding),
        recorded_incursions: texts(recorded),
        recovered_bypass_marker_names: Vec::new(),
    })
}

#[test]
fn a_widening_reports_widened_and_a_clear_exit() {
    let envelope = OutputEnvelope::drift(DriftReport {
        results: vec![ReservationDriftResult::Changed {
            reservation_id: "r1".to_owned(),
            effects: vec![DriftEffect::Widened { added_scopes: texts(&["src/a.rs", "src/b.rs"]) }],
        }],
        path_attribution: DriftPathAttributionOutcome::NotNeeded,
    });
    assert_eq!(envelope.verb, CommandVerb::Drift);
    assert_eq!(envelope.status, OutputStatus::Widened);
    assert_eq!(envelope.exit_code, BerthExit::Clear);
    assert_eq!(envelope.reservations, texts(&["r1"]));
    assert!(envelope.blocked_by.is_empty());
    assert_eq!(envelope.message, "Widened reservation r1 to cover file:src/a.rs, file:src/b.rs.");
    assert_eq!(
        only_block(&envelope.presentation),
        (
            "cargo-berth widened this worktree reservation footprint.".to_owned(),
            "AUTO-WIDEN: reservation r1 now covers file:src/a.rs, file:src/b.rs".to_owned(),
        )
    );
}

#[test]
fn an_incursion_blocks_and_names_each_holder_once() {
    let envelope = OutputEnvelope::drift(incursion_and_collision());
    assert_eq!(envelope.status, OutputStatus::Incursion);
    assert_eq!(envelope.exit_code, BerthExit::BlockedByOverlap);
    assert_eq!(envelope.reservations, texts(&["r1", "r2"]));
    assert_eq!(envelope.blocked_by, texts(&["f1", "f2", "f3"]));
    assert_eq!(
        envelope.message,
        "Incursion i9: reservation r1 entered src/x.rs held by foreign reservation(s) f1, f2. Committed by 01234567 \"fix x\" (this phase authored it) covering src/x.rs. Stop and resolve the overlap with `cargo-berth resolve r1 --incursion i9` before making more changes. If no coordination run was identified before first-touch attribution, CARGO_BERTH_RUN can select an existing run for later invocations. Reservation r1 could not widen to src/y.rs because foreign reservation(s) f2, f3 acquired an edit-blocking overlap. Stop and resolve the collision."
    );
    assert_eq!(
        envelope.post_tool_use_rendering(),
        PostToolUseRendering::FeedbackDecidedByLiveIncursionState
    );
    assert_eq!(envelope.presentation, EnvelopePresentation::NothingToShow);
}

#[test]
fn a_live_board_decides_which_incursions_still_stop_the_session() {
    let envelope = OutputEnvelope::drift(incursion_and_collision());
    assert_eq!(
        envelope.post_tool_use_rendering_with_live_board(&board(&["i9"], &[])),
        PostToolUseRendering::Feedback {
            summary: "cargo-berth detected drift that requires an immediate stop.".to_owned(),
            detail: format!("{OUTSTANDING_LINE}\n{COLLISION_LINE}"),
        }
    );
    assert_eq!(
        envelope.post_tool_use_rendering_with_live_board(&board(&[], &["i9"])),
        PostToolUseRendering::Feedback {
            summary: "cargo-berth detected drift that requires an immediate stop.".to_owned(),
            detail: COLLISION_LINE.to_owned(),
        }
    );
    let unverifiable = PostToolUseRendering::Feedback {
        summary: "cargo-berth could not verify the live incursion state.".to_owned(),
        detail: "STOP: the PostToolUse drift response named an incursion, but a current board read could not confirm whether it still needs resolution.".to_owned(),
    };
    assert_eq!(envelope.post_tool_use_rendering_with_live_board(&board(&[], &[])), unverifiable);
    let not_a_board = OutputEnvelope::renewed("r1".to_owned());
    assert_eq!(envelope.post_tool_use_rendering_with_live_board(&not_a_board), unverifiable);
}

#[test]
fn an_ambiguous_attribution_requires_an_attribution_and_stops() {
    let envelope = OutputEnvelope::drift(DriftReport {
        results: vec![ReservationDriftResult::Unchanged { reservation_id: "r1".to_owned() }],
        path_attribution: DriftPathAttributionOutcome::Ambiguous {
            candidates: texts(&["r1", "r2"]),
            paths: texts(&["src/z.rs"]),
        },
    });
    let message = "Changed paths src/z.rs were not widened because attribution is ambiguous among reservations r1, r2. Run `cargo-berth drift --reservation <id>` with one listed reservation.";
    assert_eq!(envelope.status, OutputStatus::DriftAttributionRequired);
    assert_eq!(envelope.exit_code, BerthExit::BlockedByOverlap);
    assert_eq!(envelope.message, message);
    assert_eq!(
        only_block(&envelope.presentation),
        (
            "cargo-berth detected drift that requires an immediate stop.".to_owned(),
            format!("DRIFT ATTRIBUTION REQUIRED: {message}"),
        )
    );
}

#[test]
fn a_quiet_observation_says_why_nothing_was_reported() {
    let empty = OutputEnvelope::drift(DriftReport {
        results: Vec::new(),
        path_attribution: DriftPathAttributionOutcome::NotNeeded,
    });
    assert_eq!(empty.status, OutputStatus::Clear);
    assert_eq!(empty.exit_code, BerthExit::Clear);
    assert_eq!(empty.message, "No active reservation in this worktree required a drift check.");
    assert_eq!(empty.presentation, EnvelopePresentation::NothingToShow);
    let unchanged = DriftReport {
        results: vec![ReservationDriftResult::Unchanged { reservation_id: "r1".to_owned() }],
        path_attribution: DriftPathAttributionOutcome::Attributed { reservation_id: "r1".to_owned() },
    };
    assert_eq!(
        drift_message(&unchanged),
        "No changed path fell outside the selected reservation coverage."
    );
}

#[test]
fn an_unreadable_phase_start_reports_an_unknown_object_without_blocking() {
    let envelope = OutputEnvelope::drift(DriftReport {
        results: vec![ReservationDriftResult::PhaseStartObjectUnknown {
            reservation_id: "r1".to_owned(),
            phase_start: "abc".to_owned(),
        }],
        path_attribution: DriftPathAttributionOutcome::NotNeeded,
    });
    assert_eq!(envelope.status, OutputStatus::ObjectUnknown);
    assert_eq!(envelope.exit_code, BerthExit::Clear);
    assert_eq!(
        envelope.message,
        "Reservation r1 could not be compared because git could not read phase-start object abc. Restore that object before using this drift result."
    );
    assert_eq!(
        only_block(&envelope.presentation),
        (
            "cargo-berth widened this worktree reservation footprint.".to_owned(),
            envelope.message.clone(),
        )
    );
}

#[test]
fn lost_evidence_alerts_join_a_widening_under_their_own_summary() {
    let envelope = OutputEnvelope::drift(DriftReport {
        results: vec![ReservationDriftResult::Changed {
            reservation_id: "r1".to_owned(),
            effects: vec![DriftEffect::Widened { added_scopes: texts(&["src/a.rs"]) }],
        }],
        path_attribution: DriftPathAttributionOutcome::NotNeeded,
    })
    .with_alerts(vec![Alert::LostIntegrationEvidence {
        reservation_id: "r7".to_owned(),
        line: "LOST: r7 left trunk".to_owned(),
    }]);
    assert_eq!(
        only_block(&envelope.presentation),
        (
            "cargo-berth detected lost integration evidence for released work.".to_owned(),
            "AUTO-WIDEN: reservation r1 now covers file:src/a.rs\nLOST: r7 left trunk".to_owned(),
        )
    );
    assert_eq!(
        envelope.render_text(),
        "Widened reservation r1 to cover file:src/a.rs.\nLOST: r7 left trunk"
    );
}

#[test]
fn incursion_commits_are_named_by_short_object_name_and_origin() {
    assert_eq!(render_incursion_commits(&[]), "");
    let commits = vec![
        IncursionCommit {
            commit: "abc".to_owned(),
            subject: "merge".to_owned(),
            origin: IncursionCommitOrigin::AlreadyOnTrunk,
            paths: texts(&["a", "b"]),
        },
        IncursionCommit {
            commit: "fedcba9876543210".to_owned(),
            subject: "edit".to_owned(),
            origin: IncursionCommitOrigin::Unknown,
            paths: texts(&["c"]),
        },
    ];
    assert_eq!(
        render_incursion_commits(&commits),
        " Committed by abc \"merge\" (already on trunk, so this phase received it) covering a, b; fedcba98 \"edit\" (origin undetermined) covering c."
    );
}

#[test]
fn a_post_write_incursion_names_the_newly_protected_free_paths() {
    let attribution = DriftPathAttributionOutcome::IncursionDetected {
        paths: texts(&["src/x.rs"]),
        conflicts: Vec::new(),
        protection: PostWriteFreePathProtection::Acquired {
            acquisition: FirstTouchReservationAcquisition {
                reservation_id: "r5".to_owned(),
                kind: FirstTouchReservationAcquisitionKind::Appended,
                session_mapping_publication: SessionIdentityMappingPublication::Published,
            },
            scopes: texts(&["src/free.rs"]),
        },
    };
    assert_eq!(
        drift_path_attribution_message(&attribution),
        "Post-write detection found changed paths src/x.rs inside foreign reservations . The write already happened; stop and resolve the incursion before making more changes. First-touch reservation r5 now protects the free paths src/free.rs. If no coordination run was identified before this observation, one was started; CARGO_BERTH_RUN can select an existing run for later invocations."
    );
    let envelope = OutputEnvelope::drift(DriftReport { results: Vec::new(), path_attribution: attribution });
    assert_eq!(envelope.status, OutputStatus::Incursion);
    assert_eq!(envelope.exit_code, BerthExit::BlockedByOverlap);
    assert_eq!(
        only_block(&envelope.presentation).0,
        "cargo-berth detected drift that requires an immediate stop."
    );
    assert!(only_block(&envelope.presentation).1.starts_with("POST-WRITE INCURSION: Post-write detection"));
}

#[test]
fn a_collision_detail_names_the_paths_and_new_holders() {
    assert_eq!(
        collision_detail(&"r1".to_owned(), &texts(&["f2", "f3"]), &texts(&["src/y.rs"])),
        COLLISION_LINE
    );
}
