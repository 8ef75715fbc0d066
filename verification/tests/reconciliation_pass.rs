use cargo_berth::output::alert::Alert;
use cargo_berth::reconcile::cover::RepositoryTargetFacts;
use cargo_berth::reconcile::cover::TargetObservation;
use cargo_berth::reconcile::evaluation::IntegrationProofSubjectRevision;
use cargo_berth::reconcile::proposed::cross_target_predecessor_evidence;
use cargo_berth::reconcile::proposed::proposed_target_snapshot;
use cargo_berth::reconcile::proposed::CrossTargetPredecessorReachability;
use cargo_berth::reconcile::reachability::TargetIntegrationReachability;
use cargo_berth::reconcile::settlement::JudgedTargetTip;
use cargo_berth::reservation::lifecycle::Reachability;
use cargo_berth::reconcile::proposed::ReservationSnapshot;
use cargo_berth::reconcile::proposed::WorktreeLiveness;
use cargo_berth::reconcile::report::assemble_reconciliation_plan;
use cargo_berth::reconcile::report::reconciliation_report;
use cargo_berth::reconcile::report::ActiveHolder;
use cargo_berth::reconcile::report::PendingBypassImport;
use cargo_berth::reconcile::report::ReconciledChanges;
use cargo_berth::reconcile::report::ReconciliationAction;
use cargo_berth::reconcile::report::ReconciliationAlert;
use cargo_berth::reconcile::report::ReconciliationGitCost;
use cargo_berth::reconcile::report::RecoveredBypassMarker;
use cargo_berth::reconcile::report::RecoveredBypassReporting;
use cargo_berth::reconcile::rewrite::import_rewrite_candidates;
use cargo_berth::reconcile::rewrite::rewrite_candidate_decision;
use cargo_berth::reconcile::rewrite::CompletedRewriteSubject;
use cargo_berth::reconcile::rewrite::MappedPhaseInterval;
use cargo_berth::reconcile::rewrite::OutstandingRewriteCandidate;
use cargo_berth::reconcile::rewrite::RewriteCandidateDecision;
use cargo_berth::reconcile::rewrite::RewriteCandidateSource;
use cargo_berth::reconcile::successor::RepositoryReservationEvidence;
use cargo_berth::recovery::JournalOperation;
use cargo_berth::reservation::evidence::ProtectedReservationTip;
use cargo_berth::reservation::evidence::ScopedPatchComparisonObservation;
use cargo_berth::reservation::evidence::ScopedPatchIntegrationEvaluation;
use cargo_berth::reservation::lifecycle::IntegrationEvidenceStatus;
use cargo_berth::reservation::lifecycle::IntegrationWitness;
use cargo_berth::reservation::lifecycle::ReleaseDisposition;
use cargo_berth::reservation::lifecycle::ReservationLifecycle;
use cargo_berth::reservation::merge_extent::MergeExtent;
use cargo_berth::reservation::record::CoordinationIdentityProvenance;
use cargo_berth::reservation::record::IntegrationTarget;
use cargo_berth::reservation::record::JournalActor;
use cargo_berth::reservation::record::RecordedTarget;
use cargo_berth::reservation::record::Reservation;
use cargo_berth::scope::ReservationScope;
use cargo_berth::scope::ReservationScopeSet;
use cargo_berth::scope::ScopeKind;

fn scopes() -> ReservationScopeSet {
    ReservationScopeSet::try_from_scopes(vec![ReservationScope { path: "a.rs".to_owned(), kind: ScopeKind::File }])
        .unwrap_or_else(|_| panic!("one scope"))
}

fn reservation(id: &str, worktree: &str, lifecycle: ReservationLifecycle) -> Reservation {
    Reservation {
        id: id.to_owned(),
        actor: JournalActor { worktree: worktree.to_owned(), run: format!("run-{id}") },
        provenance: CoordinationIdentityProvenance::Presented,
        lifecycle,
        scopes: scopes(),
        merge_extent: MergeExtent::NotDerived { protection: scopes() },
        target: RecordedTarget::Unrecorded,
    }
}

fn outstanding_at(tip: &str) -> ReservationLifecycle {
    ReservationLifecycle::Outstanding { protected_tip: ProtectedReservationTip::new(tip.to_owned()) }
}

fn interval(start: &str, tip: &str) -> MappedPhaseInterval {
    MappedPhaseInterval {
        phase_start_head: start.to_owned(),
        protected_tip: tip.to_owned(),
        destinations: vec!["dest".to_owned()],
    }
}

fn equivalent() -> ScopedPatchComparisonObservation {
    ScopedPatchComparisonObservation::Observed(ScopedPatchIntegrationEvaluation::Equivalent(
        IntegrationWitness::EvaluatedTrunk,
    ))
}

#[test]
fn a_rewrite_candidate_is_resnapshotted_completed_deferred_or_skipped() {
    let decide = |outstanding: bool,
                  completed: bool,
                  candidate: OutstandingRewriteCandidate,
                  unchanged: bool,
                  tip: Option<&str>,
                  comparison: ScopedPatchComparisonObservation| {
        rewrite_candidate_decision(outstanding, completed, candidate, unchanged, tip.map(str::to_owned), comparison)
    };
    let mapped = || OutstandingRewriteCandidate::Mapped(interval("s2", "t2"));
    assert_eq!(decide(false, false, mapped(), false, Some("m"), equivalent()), RewriteCandidateDecision::Skip);
    assert_eq!(decide(true, true, mapped(), false, Some("m"), equivalent()), RewriteCandidateDecision::Skip);
    assert_eq!(
        decide(true, false, OutstandingRewriteCandidate::NotMapped, false, Some("m"), equivalent()),
        RewriteCandidateDecision::Skip
    );
    assert_eq!(
        decide(
            true,
            false,
            OutstandingRewriteCandidate::HistoryUnavailable(vec!["d1".to_owned()]),
            false,
            Some("m"),
            equivalent()
        ),
        RewriteCandidateDecision::Defer(vec!["d1".to_owned()])
    );
    assert_eq!(decide(true, false, mapped(), true, Some("m"), equivalent()), RewriteCandidateDecision::Skip);
    assert_eq!(
        decide(true, false, mapped(), false, None, equivalent()),
        RewriteCandidateDecision::Defer(vec!["dest".to_owned()])
    );
    assert_eq!(
        decide(true, false, mapped(), false, Some("m"), equivalent()),
        RewriteCandidateDecision::Resnapshot {
            phase_start_head: "s2".to_owned(),
            protected_tip: "t2".to_owned(),
            trunk_oid: "m".to_owned()
        }
    );
    assert_eq!(
        decide(
            true,
            false,
            mapped(),
            false,
            Some("m"),
            ScopedPatchComparisonObservation::Observed(ScopedPatchIntegrationEvaluation::Different)
        ),
        RewriteCandidateDecision::CompleteSubject
    );
    assert_eq!(
        decide(true, false, mapped(), false, Some("m"), ScopedPatchComparisonObservation::Deferred),
        RewriteCandidateDecision::Defer(vec!["dest".to_owned()])
    );
    assert_eq!(
        decide(
            true,
            false,
            mapped(),
            false,
            Some("m"),
            ScopedPatchComparisonObservation::Observed(ScopedPatchIntegrationEvaluation::Unavailable)
        ),
        RewriteCandidateDecision::Defer(vec!["dest".to_owned()])
    );
}

fn source(id: &str, lifecycle: ReservationLifecycle, start: &str, subject: u64) -> RewriteCandidateSource {
    RewriteCandidateSource {
        reservation_id: id.to_owned(),
        lifecycle,
        phase_start_head: start.to_owned(),
        subject: IntegrationProofSubjectRevision(subject),
    }
}

#[test]
fn a_rewrite_preflight_observes_only_what_each_decision_needs() {
    let sources = vec![
        source("active", ReservationLifecycle::Active, "s", 1),
        source("done", outstanding_at("t-done"), "s", 3),
        source("same", outstanding_at("t-same"), "s-same", 1),
        source("moved", outstanding_at("t-moved"), "s-moved", 1),
        source("untargeted", outstanding_at("t-untargeted"), "s-untargeted", 1),
    ];
    let completed = vec![CompletedRewriteSubject {
        reservation_id: "done".to_owned(),
        subject: IntegrationProofSubjectRevision(3),
    }];
    let map_phase = |source: &RewriteCandidateSource| match source.reservation_id.as_str() {
        "same" => OutstandingRewriteCandidate::Mapped(interval("s-same", "t-same")),
        _ => OutstandingRewriteCandidate::Mapped(interval("s-new", "t-new")),
    };
    let mut tip_reads: Vec<String> = Vec::new();
    let target_tip = |reservation_id: &String| {
        tip_reads.push(reservation_id.clone());
        if reservation_id == "untargeted" {
            None
        } else {
            Some("main-tip".to_owned())
        }
    };
    let mut comparisons = 0usize;
    let compare = |_: &RewriteCandidateSource, _: &MappedPhaseInterval, _: &String| {
        comparisons += 1;
        equivalent()
    };
    let (decisions, deferred) = import_rewrite_candidates(&sources, &completed, map_phase, target_tip, compare);
    assert_eq!(
        decisions,
        vec![
            RewriteCandidateDecision::Skip,
            RewriteCandidateDecision::Skip,
            RewriteCandidateDecision::Skip,
            RewriteCandidateDecision::Resnapshot {
                phase_start_head: "s-new".to_owned(),
                protected_tip: "t-new".to_owned(),
                trunk_oid: "main-tip".to_owned()
            },
            RewriteCandidateDecision::Defer(vec!["dest".to_owned()]),
        ]
    );
    assert!(deferred);
    assert_eq!(tip_reads, vec!["moved".to_owned(), "untargeted".to_owned()]);
    assert_eq!(comparisons, 1);
}

#[test]
fn a_preflight_with_nothing_to_defer_says_so() {
    let sources = vec![source("active", ReservationLifecycle::Active, "s", 1)];
    let (decisions, deferred) = import_rewrite_candidates(
        &sources,
        &Vec::new(),
        |_: &RewriteCandidateSource| OutstandingRewriteCandidate::NotMapped,
        |_: &String| None,
        |_: &RewriteCandidateSource, _: &MappedPhaseInterval, _: &String| ScopedPatchComparisonObservation::Deferred,
    );
    assert_eq!(decisions, vec![RewriteCandidateDecision::Skip]);
    assert!(!deferred);
}

fn marker(name: &str) -> RecoveredBypassMarker {
    RecoveredBypassMarker { name: name.to_owned(), occurred_at: format!("at-{name}") }
}

fn action(reporting: RecoveredBypassReporting) -> ReconciliationAction {
    ReconciliationAction {
        active_holders: Vec::new(),
        evidence: vec![("r1".to_owned(), IntegrationEvidenceStatus::TrunkRewritten)],
        confirmed_lost_evidence: vec!["r1".to_owned()],
        covered_targets: vec![IntegrationTarget::from_branch_argument("feature")],
        unrecorded_bypass_occurrences: vec!["earlier".to_owned()],
        recovered_bypass_markers: vec![marker("old")],
        pending_bypass_imports: vec![
            PendingBypassImport { operation: "e1".to_owned(), occurred_at: "t1".to_owned(), marker: marker("m1") },
            PendingBypassImport { operation: "e2".to_owned(), occurred_at: "t2".to_owned(), marker: marker("m2") },
            PendingBypassImport { operation: "e3".to_owned(), occurred_at: "t3".to_owned(), marker: marker("m3") },
        ],
        uncovered_targets: vec![(IntegrationTarget::from_branch_argument("release"), vec!["r9".to_owned()])],
        recovered_bypass_reporting: reporting,
        trunk_resolution_calls: 2,
        merge_extent_worktree_status_queries: 3,
        merge_extent_path_queries: 4,
    }
}

fn lost(id: &str) -> Alert {
    Alert::LostIntegrationEvidence { reservation_id: id.to_owned(), line: format!("lost {id}") }
}

#[test]
fn a_committed_reconciliation_reports_recovered_markers_alerts_and_cost() {
    let report = reconciliation_report(
        action(RecoveredBypassReporting::Report),
        vec![lost("r1")],
        vec![lost("r2")],
        &vec![1, 5],
        &vec!["e2".to_owned()],
    );
    assert_eq!(report.unrecorded_bypass_occurrences, vec!["earlier".to_owned(), "t2".to_owned()]);
    assert_eq!(report.evidence, vec![("r1".to_owned(), IntegrationEvidenceStatus::TrunkRewritten)]);
    assert_eq!(report.covered_targets, vec![IntegrationTarget::from_branch_argument("feature")]);
    assert_eq!(report.recovered_bypass_markers, vec![marker("old"), marker("m1"), marker("m3")]);
    assert_eq!(
        report.alerts,
        vec![
            ReconciliationAlert::Reservation(lost("r1")),
            ReconciliationAlert::TargetUncovered {
                target: IntegrationTarget::from_branch_argument("release"),
                waiting_reservations: vec!["r9".to_owned()],
            },
            ReconciliationAlert::Reservation(lost("r2")),
        ]
    );
    assert_eq!(
        report.git_cost,
        ReconciliationGitCost {
            trunk_resolution_calls: 2,
            orphan_recovery_evidence_queries: 6,
            merge_extent_worktree_status_queries: 3,
            merge_extent_path_queries: 4,
        }
    );
}

#[test]
fn deferred_marker_reporting_announces_no_recovered_marker() {
    let report = reconciliation_report(
        action(RecoveredBypassReporting::Defer),
        Vec::new(),
        Vec::new(),
        &Vec::new(),
        &Vec::new(),
    );
    assert!(report.recovered_bypass_markers.is_empty());
    assert_eq!(report.unrecorded_bypass_occurrences, vec!["earlier".to_owned()]);
    assert_eq!(report.git_cost.orphan_recovery_evidence_queries, 0);
    assert_eq!(report.alerts.len(), 1);
}

#[test]
fn an_initial_plan_lists_active_holders_and_carries_the_changes() {
    let reservations = vec![
        reservation("a", "w1", ReservationLifecycle::Active),
        reservation("b", "w2", outstanding_at("tip-b")),
        reservation("c", "w3", ReservationLifecycle::Active),
        reservation("d", "w4", ReservationLifecycle::Released { disposition: ReleaseDisposition::Integrated }),
    ];
    let changes = ReconciledChanges {
        operations: vec![JournalOperation::Release {
            reservation_id: "b".to_owned(),
            disposition: ReleaseDisposition::Integrated,
        }],
        evidence: vec![("b".to_owned(), IntegrationEvidenceStatus::NotIntegrated)],
        confirmed_lost_evidence: vec!["d".to_owned()],
    };
    let plan = assemble_reconciliation_plan(&reservations, 1, changes);
    assert_eq!(
        plan.action.active_holders,
        vec![
            ActiveHolder { worktree_id: "w1".to_owned(), coordination_run_id: "run-a".to_owned() },
            ActiveHolder { worktree_id: "w3".to_owned(), coordination_run_id: "run-c".to_owned() },
        ]
    );
    assert_eq!(plan.operations.len(), 1);
    assert_eq!(plan.action.evidence, vec![("b".to_owned(), IntegrationEvidenceStatus::NotIntegrated)]);
    assert_eq!(plan.action.confirmed_lost_evidence, vec!["d".to_owned()]);
    assert!(plan.action.covered_targets.is_empty());
    assert_eq!(plan.action.recovered_bypass_reporting, RecoveredBypassReporting::Defer);
    assert_eq!(plan.action.trunk_resolution_calls, 1);
    assert!(plan.action.pending_bypass_imports.is_empty());
    assert!(plan.action.uncovered_targets.is_empty());
}

fn branch(name: &str) -> IntegrationTarget {
    IntegrationTarget::from_branch_argument(name)
}

fn facts() -> RepositoryTargetFacts {
    RepositoryTargetFacts {
        repository_trunk: branch("main"),
        targets: vec![
            (branch("main"), TargetObservation::Resolved("m1".to_owned())),
            (branch("feature"), TargetObservation::Resolved("f1".to_owned())),
            (branch("gone"), TargetObservation::Missing),
        ],
        reservation_targets: vec![
            ("a".to_owned(), branch("feature")),
            ("b".to_owned(), branch("main")),
            ("e".to_owned(), branch("gone")),
        ],
    }
}

fn snapshot(id: &str, liveness: WorktreeLiveness) -> ReservationSnapshot {
    ReservationSnapshot {
        reservation_id: id.to_owned(),
        worktree_liveness: liveness,
        worktree_head: Some(format!("head-{id}")),
        evidence: RepositoryReservationEvidence::Active,
    }
}

fn checkpointed(tip: &str) -> RepositoryReservationEvidence {
    RepositoryReservationEvidence::Outstanding {
        protected_tip: ProtectedReservationTip::new(tip.to_owned()),
        integration_status: IntegrationEvidenceStatus::NotIntegrated,
    }
}

#[test]
fn a_trunk_proposal_rejudges_its_reservations_and_recomputes_predecessors() {
    let reservations: Vec<Reservation> =
        ["a", "b", "e"].iter().map(|id| reservation(id, "w", ReservationLifecycle::Active)).collect();
    let actual = vec![
        snapshot("a", WorktreeLiveness::Live),
        snapshot("b", WorktreeLiveness::Orphaned),
        snapshot("e", WorktreeLiveness::Unknown),
    ];
    let observed = proposed_target_snapshot(
        &reservations,
        &facts(),
        &actual,
        0usize,
        &branch("main"),
        &"m2".to_owned(),
        vec![checkpointed("tb"), checkpointed("te")],
        |snapshots: &Vec<ReservationSnapshot>| snapshots.len() + 100,
    );
    let Ok(observation) = observed else {
        panic!("every reservation was recorded");
    };
    assert_eq!(observation.judged, vec!["b".to_owned(), "e".to_owned()]);
    assert_eq!(
        observation.snapshots,
        vec![
            ReservationSnapshot {
                reservation_id: "b".to_owned(),
                worktree_liveness: WorktreeLiveness::Orphaned,
                worktree_head: Some("head-b".to_owned()),
                evidence: checkpointed("tb"),
            },
            ReservationSnapshot {
                reservation_id: "e".to_owned(),
                worktree_liveness: WorktreeLiveness::Unknown,
                worktree_head: Some("head-e".to_owned()),
                evidence: checkpointed("te"),
            },
            snapshot("a", WorktreeLiveness::Live),
        ]
    );
    assert_eq!(observation.targets[0], (branch("main"), TargetObservation::Resolved("m2".to_owned())));
    assert_eq!(observation.targets[1], (branch("feature"), TargetObservation::Resolved("f1".to_owned())));
    assert_eq!(observation.cross_target_predecessors, 103);
}

#[test]
fn a_branch_proposal_keeps_the_actual_predecessors_and_adds_an_unseen_branch() {
    let reservations: Vec<Reservation> =
        ["a", "b"].iter().map(|id| reservation(id, "w", ReservationLifecycle::Active)).collect();
    let actual = vec![snapshot("a", WorktreeLiveness::Live), snapshot("b", WorktreeLiveness::Live)];
    let observed = proposed_target_snapshot(
        &reservations,
        &facts(),
        &actual,
        7usize,
        &branch("hotfix"),
        &"h1".to_owned(),
        Vec::new(),
        |_: &Vec<ReservationSnapshot>| 0usize,
    );
    let Ok(observation) = observed else {
        panic!("every reservation was recorded");
    };
    assert!(observation.judged.is_empty());
    assert_eq!(observation.cross_target_predecessors, 7);
    assert_eq!(observation.targets.len(), 4);
    assert_eq!(observation.targets[3], (branch("hotfix"), TargetObservation::Resolved("h1".to_owned())));
    let missing = proposed_target_snapshot(
        &reservations,
        &facts(),
        &vec![snapshot("a", WorktreeLiveness::Live)],
        7usize,
        &branch("main"),
        &"m2".to_owned(),
        vec![checkpointed("tb")],
        |_: &Vec<ReservationSnapshot>| 0usize,
    );
    assert_eq!(missing.err(), Some("b".to_owned()));
}

#[test]
fn cross_target_predecessors_are_classified_by_tip_and_proof_reachability() {
    let released_checkpoint = |tip: &str, trunk: Option<&str>| RepositoryReservationEvidence::Released {
        protected_tip: ProtectedReservationTip::new(tip.to_owned()),
        disposition: ReleaseDisposition::Integrated,
        integration_status: match trunk {
            Some(trunk) => IntegrationEvidenceStatus::Integrated {
                trunk_oid: trunk.to_owned(),
                proof: cargo_berth::reservation::lifecycle::IntegrationProof::ProtectedTipAncestor,
                witness: IntegrationWitness::EvaluatedTrunk,
            },
            None => IntegrationEvidenceStatus::NotIntegrated,
        },
    };
    let snapshot_with = |id: &str, evidence: RepositoryReservationEvidence| ReservationSnapshot {
        reservation_id: id.to_owned(),
        worktree_liveness: WorktreeLiveness::Live,
        worktree_head: None,
        evidence,
    };
    let snapshots = vec![
        snapshot_with("on-tip", checkpointed("t-in")),
        snapshot_with("by-proof", released_checkpoint("t-out", Some("old-trunk"))),
        snapshot_with("unknown", checkpointed("t-missing")),
        snapshot_with("off", checkpointed("t-out")),
        snapshot_with("active", RepositoryReservationEvidence::Active),
    ];
    let reachability = TargetIntegrationReachability::classified(
        vec!["t-in".to_owned(), "t-out".to_owned(), "old-trunk".to_owned(), "w".to_owned()],
        Some(vec![Reachability::Ancestor, Reachability::NotAncestor, Reachability::Ancestor, Reachability::NotAncestor]),
    );
    let predecessors: Vec<String> =
        ["on-tip", "by-proof", "unknown", "off", "active", "unrecorded"].iter().map(|id| id.to_string()).collect();
    let proof_commits = vec![("off".to_owned(), vec!["w".to_owned()])];
    let trunk = JudgedTargetTip::Resolved("main".to_owned());
    let evidence = cross_target_predecessor_evidence(&predecessors, &snapshots, &proof_commits, &trunk, &reachability);
    assert_eq!(
        evidence,
        vec![
            ("on-tip".to_owned(), CrossTargetPredecessorReachability::OnTrunk("main".to_owned())),
            ("by-proof".to_owned(), CrossTargetPredecessorReachability::OnTrunk("main".to_owned())),
            ("unknown".to_owned(), CrossTargetPredecessorReachability::ObjectUnknown),
            ("off".to_owned(), CrossTargetPredecessorReachability::NotOnTrunk),
        ]
    );
    let unresolved = cross_target_predecessor_evidence(
        &predecessors,
        &snapshots,
        &proof_commits,
        &JudgedTargetTip::ObjectUnknown,
        &reachability,
    );
    assert_eq!(unresolved.len(), 4);
    assert!(unresolved.iter().all(|(_, outcome)| *outcome == CrossTargetPredecessorReachability::ObjectUnknown));
}
