use cargo_berth::reconcile::cover::cover_is_missing;
use cargo_berth::reconcile::cover::fold_missing_targets_into_trunk;
use cargo_berth::reconcile::cover::covered_targets_for_pass;
use cargo_berth::reconcile::cover::group_judged_tip;
use cargo_berth::reconcile::cover::group_reservations_by_target;
use cargo_berth::reconcile::cover::observed_predecessor_target_tips;
use cargo_berth::reconcile::cover::reservations_judged_at_proposed_target;
use cargo_berth::reconcile::cover::waiting_cover_targets;
use cargo_berth::reconcile::cover::worktree_holds_cover;
use cargo_berth::reconcile::cover::RepositoryTargetFacts;
use cargo_berth::reconcile::cover::TargetObservation;
use cargo_berth::reconcile::settlement::JudgedTargetTip;
use cargo_berth::reservation::lifecycle::ReleaseDisposition;
use cargo_berth::reservation::lifecycle::ReservationLifecycle;
use cargo_berth::reservation::merge_extent::MergeExtent;
use cargo_berth::reservation::merge_extent::MergeExtentKey;
use cargo_berth::reservation::merge_extent::WorkingTreeFingerprint;
use cargo_berth::reservation::record::CoordinationIdentityProvenance;
use cargo_berth::reservation::record::IntegrationTarget;
use cargo_berth::reservation::record::JournalActor;
use cargo_berth::reservation::record::RecordedTarget;
use cargo_berth::reservation::record::Reservation;
use cargo_berth::scope::ReservationScope;
use cargo_berth::scope::ReservationScopeSet;
use cargo_berth::scope::ScopeKind;

fn branch(name: &str) -> IntegrationTarget {
    IntegrationTarget::from_branch_argument(name)
}

fn reservation(id: &str, lifecycle: ReservationLifecycle) -> Reservation {
    let scopes = || {
        ReservationScopeSet::try_from_scopes(vec![ReservationScope {
            path: "a.rs".to_owned(),
            kind: ScopeKind::File,
        }])
        .unwrap_or_else(|_| panic!("one scope"))
    };
    Reservation {
        id: id.to_owned(),
        actor: JournalActor { worktree: "w1".to_owned(), run: "run".to_owned() },
        provenance: CoordinationIdentityProvenance::Presented,
        lifecycle,
        scopes: scopes(),
        merge_extent: MergeExtent::NotDerived { protection: scopes() },
        target: RecordedTarget::Unrecorded,
    }
}

/// Trunk `main`; `feature` and `release` resolve, `gone` is missing, `odd` is unknown.
fn facts() -> RepositoryTargetFacts {
    RepositoryTargetFacts {
        repository_trunk: branch("main"),
        targets: vec![
            (branch("main"), TargetObservation::Resolved("m1".to_owned())),
            (branch("release"), TargetObservation::Resolved("r1".to_owned())),
            (branch("feature"), TargetObservation::Resolved("f1".to_owned())),
            (branch("gone"), TargetObservation::Missing),
            (branch("odd"), TargetObservation::ObjectUnknown),
        ],
        reservation_targets: vec![
            ("a".to_owned(), branch("feature")),
            ("b".to_owned(), branch("main")),
            ("c".to_owned(), branch("release")),
            ("d".to_owned(), branch("feature")),
            ("e".to_owned(), branch("gone")),
            ("f".to_owned(), branch("feature")),
            ("g".to_owned(), branch("odd")),
        ],
    }
}

#[test]
fn recorded_targets_fall_back_to_the_repository_trunk() {
    let facts = facts();
    assert_eq!(facts.recorded_target(&"c".to_owned()), branch("release"));
    assert_eq!(facts.recorded_target(&"unknown".to_owned()), branch("main"));
    assert!(facts.resolves(&branch("feature")));
    assert!(!facts.resolves(&branch("gone")));
    assert!(!facts.resolves(&branch("odd")));
}

#[test]
fn reservations_on_a_missing_branch_are_judged_on_trunk() {
    let facts = facts();
    assert_eq!(facts.judging_target(&"e".to_owned()), branch("main"));
    assert_eq!(facts.judged_tip(&"e".to_owned()), JudgedTargetTip::Resolved("m1".to_owned()));
    assert_eq!(facts.judging_target(&"a".to_owned()), branch("feature"));
    assert_eq!(facts.judged_tip(&"a".to_owned()), JudgedTargetTip::Resolved("f1".to_owned()));
    assert_eq!(facts.judging_target(&"g".to_owned()), branch("odd"));
    assert_eq!(facts.judged_tip(&"g".to_owned()), JudgedTargetTip::ObjectUnknown);
}

#[test]
fn cover_is_missing_only_on_uncovered_resolved_branches() {
    let facts = facts();
    let covered = vec![branch("release")];
    assert!(cover_is_missing(&facts, &covered, &"a".to_owned()));
    assert!(!cover_is_missing(&facts, &covered, &"b".to_owned()));
    assert!(!cover_is_missing(&facts, &covered, &"c".to_owned()));
    assert!(!cover_is_missing(&facts, &covered, &"e".to_owned()));
    assert!(!cover_is_missing(&facts, &covered, &"g".to_owned()));
}

#[test]
fn waiting_cover_targets_group_unreleased_work_by_branch_in_wire_order() {
    let facts = facts();
    let reservations = vec![
        reservation("a", ReservationLifecycle::Active),
        reservation("b", ReservationLifecycle::Active),
        reservation("c", ReservationLifecycle::Active),
        reservation("d", ReservationLifecycle::Released { disposition: ReleaseDisposition::Integrated }),
        reservation("e", ReservationLifecycle::Active),
        reservation("f", ReservationLifecycle::Active),
        reservation("g", ReservationLifecycle::Active),
    ];
    let groups = waiting_cover_targets(&reservations, &facts);
    assert_eq!(
        groups,
        vec![
            (branch("feature"), vec!["a".to_owned(), "f".to_owned()]),
            (branch("release"), vec!["c".to_owned()]),
        ]
    );
    for (_, ids) in &groups {
        for id in ids {
            assert!(cover_is_missing(&facts, &[], id));
        }
    }
}

#[test]
fn a_trunk_proposal_judges_reservations_whose_branch_is_gone() {
    let facts = facts();
    let reservations: Vec<Reservation> =
        ["a", "b", "c", "e", "g"].iter().map(|id| reservation(id, ReservationLifecycle::Active)).collect();
    assert_eq!(
        reservations_judged_at_proposed_target(&reservations, &facts, &branch("main")),
        vec!["b".to_owned(), "e".to_owned()]
    );
    assert_eq!(
        reservations_judged_at_proposed_target(&reservations, &facts, &branch("feature")),
        vec!["a".to_owned()]
    );
    assert_eq!(
        reservations_judged_at_proposed_target(&reservations, &facts, &branch("gone")),
        vec!["e".to_owned()]
    );
}

#[test]
fn predecessor_tips_come_from_resolved_branches_other_than_trunk() {
    let facts = facts();
    let predecessors = vec!["a".to_owned(), "b".to_owned(), "e".to_owned(), "unknown".to_owned()];
    let mut tips = observed_predecessor_target_tips(&facts, &predecessors, Some(&"c".to_owned()));
    tips.sort();
    assert_eq!(tips, vec!["f1".to_owned(), "r1".to_owned()]);
    assert_eq!(observed_predecessor_target_tips(&facts, &Vec::new(), None), Vec::<String>::new());
}

fn recorded_on(id: &str, target: Option<&str>) -> Reservation {
    let mut held = reservation(id, ReservationLifecycle::Active);
    held.target = match target {
        Some(name) => RecordedTarget::Recorded { target: branch(name) },
        None => RecordedTarget::Unrecorded,
    };
    held
}

#[test]
fn grouping_keeps_trunk_and_sends_unrecorded_work_there() {
    let reservations = vec![
        recorded_on("a", Some("feature")),
        recorded_on("b", None),
        recorded_on("c", Some("alpha")),
        recorded_on("d", Some("feature")),
    ];
    let (groups, recorded) = group_reservations_by_target(&reservations, &branch("main"));
    assert_eq!(
        groups,
        vec![
            (branch("alpha"), vec!["c".to_owned()]),
            (branch("feature"), vec!["a".to_owned(), "d".to_owned()]),
            (branch("main"), vec!["b".to_owned()]),
        ]
    );
    assert_eq!(
        recorded,
        vec![
            ("a".to_owned(), branch("feature")),
            ("b".to_owned(), branch("main")),
            ("c".to_owned(), branch("alpha")),
            ("d".to_owned(), branch("feature")),
        ]
    );
    let (groups, recorded) = group_reservations_by_target(&[], &branch("main"));
    assert_eq!(groups, vec![(branch("main"), Vec::new())]);
    assert!(recorded.is_empty());
}

#[test]
fn a_missing_branch_group_is_not_judged_on_its_own() {
    let facts = facts();
    assert_eq!(group_judged_tip(&facts, &branch("gone")), None);
    assert_eq!(group_judged_tip(&facts, &branch("feature")), Some(JudgedTargetTip::Resolved("f1".to_owned())));
    assert_eq!(group_judged_tip(&facts, &branch("odd")), Some(JudgedTargetTip::ObjectUnknown));
    let mut trunk_gone = facts;
    trunk_gone.targets = vec![(branch("main"), TargetObservation::Missing)];
    assert_eq!(group_judged_tip(&trunk_gone, &branch("main")), Some(JudgedTargetTip::ObjectUnknown));
}

fn empty_at(head: &str) -> MergeExtent {
    MergeExtent::Empty {
        key: MergeExtentKey {
            trunk: "m1".to_owned(),
            head: head.to_owned(),
            working_tree: WorkingTreeFingerprint { tracked_paths: Vec::new(), untracked_paths: Vec::new() },
        },
    }
}

#[test]
fn a_cover_counts_only_when_observed_at_the_branch_tip() {
    let facts = facts();
    let mut holder = reservation("a", ReservationLifecycle::Active);
    holder.actor.worktree = "w2".to_owned();
    let reservations = vec![holder];
    let requirements = vec![
        (branch("feature"), ("w2".to_owned(), branch("feature"))),
        (branch("release"), ("w2".to_owned(), branch("feature"))),
        (branch("gone"), ("w2".to_owned(), branch("feature"))),
    ];
    let extents = vec![(("w2".to_owned(), branch("feature")), empty_at("f1"))];
    assert_eq!(covered_targets_for_pass(&reservations, &facts, &requirements, &extents), vec![branch("feature")]);
    let stale = vec![(("w2".to_owned(), branch("feature")), empty_at("old"))];
    assert!(covered_targets_for_pass(&reservations, &facts, &requirements, &stale).is_empty());
    let released = vec![reservation("a", ReservationLifecycle::Released { disposition: ReleaseDisposition::Integrated })];
    assert!(covered_targets_for_pass(&released, &facts, &requirements, &extents).is_empty());
}

#[test]
fn reservations_of_a_missing_branch_join_the_trunk_group() {
    let ids = |values: &[&str]| values.iter().map(|value| value.to_string()).collect::<Vec<String>>();
    let groups = vec![
        (branch("feature"), ids(&["a"])),
        (branch("gone"), ids(&["e", "h"])),
        (branch("main"), ids(&["b"])),
        (branch("odd"), ids(&["g"])),
    ];
    let folded = fold_missing_targets_into_trunk(&facts(), groups);
    assert_eq!(
        folded,
        vec![
            (branch("feature"), ids(&["a"])),
            (branch("gone"), ids(&["e", "h"])),
            (branch("main"), ids(&["b", "e", "h"])),
            (branch("odd"), ids(&["g"])),
        ]
    );
}

#[test]
fn a_worktree_holds_cover_only_through_unreleased_work_on_the_parent() {
    let mut on_release = reservation("a", ReservationLifecycle::Active);
    on_release.target = RecordedTarget::Recorded { target: branch("release") };
    let unrecorded = reservation("b", ReservationLifecycle::Active);
    let mut ended = reservation("c", ReservationLifecycle::Released { disposition: ReleaseDisposition::Integrated });
    ended.target = RecordedTarget::Recorded { target: branch("feature") };
    let reservations = vec![on_release, unrecorded, ended];
    let main = branch("main");
    assert!(worktree_holds_cover(&reservations, &"w1".to_owned(), &branch("release"), &main));
    assert!(worktree_holds_cover(&reservations, &"w1".to_owned(), &main, &main));
    assert!(!worktree_holds_cover(&reservations, &"w1".to_owned(), &branch("feature"), &main));
    assert!(!worktree_holds_cover(&reservations, &"w2".to_owned(), &branch("release"), &main));
}
