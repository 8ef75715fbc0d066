use std::cell::RefCell;

use cargo_berth::reservation::containment::committed_path_remains;
use cargo_berth::reservation::containment::ActingHeadContainment;
use cargo_berth::reservation::containment::ContainmentTarget;
use cargo_berth::reservation::lifecycle::ReservationLifecycle;
use cargo_berth::reservation::merge_extent::MergeExtent;
use cargo_berth::reservation::merge_extent::MergeExtentKey;
use cargo_berth::reservation::merge_extent::WorkingTreeFingerprint;
use cargo_berth::reservation::record::CoordinationIdentityProvenance;
use cargo_berth::reservation::record::JournalActor;
use cargo_berth::reservation::record::Reservation;
use cargo_berth::scope::ReservationScope;
use cargo_berth::scope::ReservationScopeSet;
use cargo_berth::scope::ScopeKind;
use cargo_berth::reservation::containment::holder_target;
use cargo_berth::reservation::containment::CrossTargetRemainder;
use cargo_berth::reservation::containment::HolderHeadRemainder;
use cargo_berth::reservation::containment::HolderTargetRelation;
use cargo_berth::reservation::record::IntegrationTarget;
use cargo_berth::reservation::record::RecordedTarget;

fn paths(values: &[&str]) -> Vec<String> {
    values.iter().map(|path| (*path).to_owned()).collect()
}

#[test]
fn cross_target_committed_work_requires_a_remainder_from_the_acting_target() {
    let path = "Cargo.toml".to_owned();
    let cover = HolderHeadRemainder {
        head: "1111111111111111111111111111111111111111".to_owned(),
        committed_paths: paths(&["Cargo.toml"]),
        outside_target: CrossTargetRemainder::Paths(Vec::new()),
    };
    assert!(!committed_path_remains(&cover, &path, HolderTargetRelation::OtherTarget));
    assert!(committed_path_remains(&cover, &path, HolderTargetRelation::SameTarget));
    let sibling = HolderHeadRemainder {
        outside_target: CrossTargetRemainder::Paths(paths(&["Cargo.toml"])),
        ..cover
    };
    assert!(committed_path_remains(&sibling, &path, HolderTargetRelation::OtherTarget));
    for remainder in [CrossTargetRemainder::NotApplicable, CrossTargetRemainder::Unavailable] {
        let unfiltered = HolderHeadRemainder {
            head: sibling.head.clone(),
            committed_paths: sibling.committed_paths.clone(),
            outside_target: remainder,
        };
        assert!(committed_path_remains(&unfiltered, &path, HolderTargetRelation::OtherTarget));
    }
}

#[test]
fn legacy_holder_uses_repository_trunk_for_cross_target_containment() {
    let repository_trunk = IntegrationTarget::from_branch_argument("main");
    let acting_target = IntegrationTarget::from_branch_argument("integration");
    let path = "integration.txt".to_owned();
    let holder = HolderHeadRemainder {
        head: "1111111111111111111111111111111111111111".to_owned(),
        committed_paths: paths(&["integration.txt"]),
        outside_target: CrossTargetRemainder::Paths(Vec::new()),
    };
    let unrecorded = RecordedTarget::Unrecorded;
    let holder_target = holder_target(&unrecorded, &repository_trunk);
    assert_ne!(holder_target, &acting_target);
    assert!(!committed_path_remains(
        &holder,
        &path,
        if holder_target == &acting_target {
            HolderTargetRelation::SameTarget
        } else {
            HolderTargetRelation::OtherTarget
        }
    ));
    assert!(committed_path_remains(
        &holder,
        &path,
        if holder_target == &repository_trunk {
            HolderTargetRelation::SameTarget
        } else {
            HolderTargetRelation::OtherTarget
        }
    ));
}

#[test]
fn a_recorded_target_is_judged_at_itself() {
    let repository_trunk = IntegrationTarget::from_branch_argument("main");
    let recorded = RecordedTarget::Recorded {
        target: IntegrationTarget::from_branch_argument("integration"),
    };
    assert_eq!(holder_target(&recorded, &repository_trunk).short_name(), "integration");
}

fn holder(id: &str, worktree: &str, head: &str, target: RecordedTarget) -> Reservation {
    let scopes = || {
        ReservationScopeSet::try_from_scopes(vec![ReservationScope {
            path: "a.rs".to_owned(),
            kind: ScopeKind::File,
        }])
        .unwrap_or_else(|_| panic!("one scope"))
    };
    Reservation {
        id: id.to_owned(),
        actor: JournalActor { worktree: worktree.to_owned(), run: "run".to_owned() },
        provenance: CoordinationIdentityProvenance::Presented,
        lifecycle: ReservationLifecycle::Active,
        scopes: scopes(),
        merge_extent: MergeExtent::Protected {
            key: MergeExtentKey {
                trunk: "trunk".to_owned(),
                head: head.to_owned(),
                working_tree: WorkingTreeFingerprint {
                    tracked_paths: Vec::new(),
                    untracked_paths: Vec::new(),
                },
            },
            scopes: scopes(),
        },
        target,
    }
}

#[test]
fn each_foreign_head_is_compared_once_and_against_another_target_only_when_needed() {
    let main = IntegrationTarget::from_branch_argument("main");
    let feature = IntegrationTarget::from_branch_argument("feature");
    let reservations = vec![
        holder("r1", "other", "h1", RecordedTarget::Unrecorded),
        holder("r2", "other", "h1", RecordedTarget::Recorded { target: feature.clone() }),
        holder("r3", "mine", "h2", RecordedTarget::Unrecorded),
        holder("r4", "other", "acting", RecordedTarget::Recorded { target: feature.clone() }),
    ];
    let comparisons = RefCell::new(Vec::new());
    let containment = ActingHeadContainment::observe_at_head(
        &reservations,
        "mine".to_owned(),
        &feature,
        &main,
        &"acting".to_owned(),
        |target: &IntegrationTarget| {
            if target.short_name() == "feature" {
                Ok(Some("feature-tip".to_owned()))
            } else {
                Ok(None)
            }
        },
        |from: &String, head: &String| {
            comparisons.borrow_mut().push((from.clone(), head.clone()));
            Ok(vec![format!("{head}-from-{from}")])
        },
    );
    assert_eq!(
        comparisons.into_inner(),
        vec![("acting".to_owned(), "h1".to_owned()), ("feature-tip".to_owned(), "h1".to_owned())]
    );
    assert_eq!(containment.acting_worktree, "mine");
    assert_eq!(
        containment.target,
        ContainmentTarget::Known { acting: feature, repository_trunk: main }
    );
    assert_eq!(
        containment.holder_heads,
        vec![
            HolderHeadRemainder {
                head: "h1".to_owned(),
                committed_paths: vec!["h1-from-acting".to_owned()],
                outside_target: CrossTargetRemainder::Paths(vec!["h1-from-feature-tip".to_owned()]),
            },
            HolderHeadRemainder {
                head: "acting".to_owned(),
                committed_paths: Vec::new(),
                outside_target: CrossTargetRemainder::NotApplicable,
            },
        ]
    );
}

#[test]
fn a_missing_acting_branch_falls_back_to_trunk_and_failed_reads_narrow_nothing() {
    let main = IntegrationTarget::from_branch_argument("main");
    let feature = IntegrationTarget::from_branch_argument("feature");
    let reservations = vec![holder("r1", "other", "h1", RecordedTarget::Unrecorded)];
    let fallback = ActingHeadContainment::observe_at_head(
        &reservations,
        "mine".to_owned(),
        &feature,
        &main,
        &"acting".to_owned(),
        |target: &IntegrationTarget| {
            if target.short_name() == "main" {
                Ok(Some("main-tip".to_owned()))
            } else {
                Ok(None)
            }
        },
        |_: &String, _: &String| Err(()),
    );
    assert_eq!(
        fallback.target,
        ContainmentTarget::Known { acting: main.clone(), repository_trunk: main.clone() }
    );
    assert!(fallback.holder_heads.is_empty());
    let unreadable = ActingHeadContainment::observe_at_head(
        &reservations,
        "mine".to_owned(),
        &feature,
        &main,
        &"acting".to_owned(),
        |_: &IntegrationTarget| Err(()),
        |_: &String, _: &String| Ok(Vec::new()),
    );
    assert_eq!(unreadable.target, ContainmentTarget::Unavailable);
    assert!(unreadable.holder_heads.is_empty());
}

#[test]
fn no_foreign_protection_reads_nothing() {
    let main = IntegrationTarget::from_branch_argument("main");
    let read = RefCell::new(false);
    let containment = ActingHeadContainment::observe(
        &[holder("r1", "mine", "h1", RecordedTarget::Unrecorded)],
        "mine".to_owned(),
        &main,
        &main,
        || {
            *read.borrow_mut() = true;
            Ok("acting".to_owned())
        },
        |_: &IntegrationTarget| Ok(None),
        |_: &String, _: &String| Ok(Vec::new()),
    );
    assert!(!*read.borrow());
    assert_eq!(
        containment.target,
        ContainmentTarget::Known { acting: main.clone(), repository_trunk: main.clone() }
    );
    assert!(containment.holder_heads.is_empty());
    let headless = ActingHeadContainment::observe(
        &[holder("r1", "other", "h1", RecordedTarget::Unrecorded)],
        "mine".to_owned(),
        &main,
        &main,
        || Err(()),
        |_: &IntegrationTarget| Ok(None),
        |_: &String, _: &String| Ok(Vec::new()),
    );
    assert!(headless.holder_heads.is_empty());
    assert_eq!(
        headless.target,
        ContainmentTarget::Known { acting: main.clone(), repository_trunk: main }
    );
}
