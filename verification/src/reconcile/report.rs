//! What a committed reconciliation reports: its alerts, the bypass markers it recovered or
//! could not yet record, and what it cost in git queries.
use vstd::prelude::*;

use crate::ids::contains_text;
use crate::ids::CoordinationRunId;
use crate::ids::EventId;
use crate::ids::RecordedAt;
use crate::ids::ReservationId;
use crate::ids::WorktreeId;
use crate::output::alert::Alert;
use crate::recovery::JournalOperation;
use crate::reservation::lifecycle::IntegrationEvidenceStatus;
use crate::reservation::lifecycle::ReservationLifecycle;
use crate::reservation::record::IntegrationTarget;
use crate::reservation::record::Reservation;

verus! {

/// A bypass recorded while the journal was unwritable, now waiting to be filed in it.
#[derive(Debug, PartialEq, Eq)]
pub struct RecoveredBypassMarker {
    /// The marker's name.
    pub name: String,
    /// When the bypass happened.
    pub occurred_at: RecordedAt,
}

/// A pending bypass marker whose import this reconciliation appended.
#[derive(Debug, PartialEq, Eq)]
pub struct PendingBypassImport {
    /// The appended operation that records the bypass.
    pub operation: EventId,
    /// When the bypass happened.
    pub occurred_at: RecordedAt,
    /// The marker the import retires once it is recorded.
    pub marker: RecoveredBypassMarker,
}

/// Whether recovered bypass markers are reported by this reconciliation or left for a later
/// reader.
#[derive(Clone, Copy, Debug, PartialEq, Eq, Structural)]
pub enum RecoveredBypassReporting {
    /// Report and retire them now.
    Report,
    /// Leave them for the reader that reports them.
    Defer,
}

/// One alert a reconciliation raises.
#[derive(Debug, PartialEq, Eq)]
pub enum ReconciliationAlert {
    /// An alert about one retained reservation.
    Reservation(Alert),
    /// A checked-out branch has no cover reservation while work waits on it.
    TargetUncovered {
        /// The branch.
        target: IntegrationTarget,
        /// The reservations that wait on it.
        waiting_reservations: Vec<ReservationId>,
    },
}

/// Git queries a reconciliation made.
#[derive(Clone, Copy, Debug, PartialEq, Eq, Structural)]
pub struct ReconciliationGitCost {
    /// Calls that attempted to resolve the configured trunk.
    pub trunk_resolution_calls: u64,
    /// Calls used to establish orphan recovery evidence.
    pub orphan_recovery_evidence_queries: u64,
    /// Status observations shared across the reservations of each live holder.
    pub merge_extent_worktree_status_queries: u64,
    /// Net branch path queries.
    pub merge_extent_path_queries: u64,
}

/// The reconciliation state a report is made from.
pub struct ReconciliationAction {
    /// The runs still holding active work, in retained order.
    pub active_holders: Vec<ActiveHolder>,
    /// The integration evidence revalidated for each reservation.
    pub evidence: Vec<(ReservationId, IntegrationEvidenceStatus)>,
    /// Reservations whose lost evidence two consecutive passes derived.
    pub confirmed_lost_evidence: Vec<ReservationId>,
    /// The branches a cover was observed on this pass.
    pub covered_targets: Vec<IntegrationTarget>,
    /// Bypass occurrences that could not be recorded earlier.
    pub unrecorded_bypass_occurrences: Vec<RecordedAt>,
    /// Bypass markers already recovered.
    pub recovered_bypass_markers: Vec<RecoveredBypassMarker>,
    /// Bypass markers whose import this reconciliation appended.
    pub pending_bypass_imports: Vec<PendingBypassImport>,
    /// Checked-out branches with no cover, with the reservations waiting on each.
    pub uncovered_targets: Vec<(IntegrationTarget, Vec<ReservationId>)>,
    /// Whether recovered markers are reported now.
    pub recovered_bypass_reporting: RecoveredBypassReporting,
    /// Calls that attempted to resolve the configured trunk.
    pub trunk_resolution_calls: u64,
    /// Worktree status observations made while deriving merge extents.
    pub merge_extent_worktree_status_queries: u64,
    /// Path queries made while deriving merge extents.
    pub merge_extent_path_queries: u64,
}

/// What a committed reconciliation reports.
pub struct ReconciliationReport {
    /// Every alert, in order.
    pub alerts: Vec<ReconciliationAlert>,
    /// The integration evidence revalidated for each reservation.
    pub evidence: Vec<(ReservationId, IntegrationEvidenceStatus)>,
    /// The branches a cover was observed on this pass.
    pub covered_targets: Vec<IntegrationTarget>,
    /// Bypass occurrences still to be recorded.
    pub unrecorded_bypass_occurrences: Vec<RecordedAt>,
    /// Recovered bypass markers this report announces.
    pub recovered_bypass_markers: Vec<RecoveredBypassMarker>,
    /// The git queries made.
    pub git_cost: ReconciliationGitCost,
}

/// The occurrence times of the imports whose operation failed recoverably, in order.
pub open spec fn unrecorded_of(imports: Seq<PendingBypassImport>, failures: Seq<Seq<char>>) -> Seq<RecordedAt>
    decreases imports.len(),
{
    if imports.len() == 0 {
        Seq::empty()
    } else {
        let earlier = unrecorded_of(imports.drop_last(), failures);
        if failures.contains(imports.last().operation@) {
            earlier.push(imports.last().occurred_at)
        } else {
            earlier
        }
    }
}

/// The markers of the imports that were recorded, in order.
pub open spec fn recovered_of(imports: Seq<PendingBypassImport>, failures: Seq<Seq<char>>) -> Seq<RecoveredBypassMarker>
    decreases imports.len(),
{
    if imports.len() == 0 {
        Seq::empty()
    } else {
        let earlier = recovered_of(imports.drop_last(), failures);
        if failures.contains(imports.last().operation@) {
            earlier
        } else {
            earlier.push(imports.last().marker)
        }
    }
}

/// The alerts of a report: the reservation alerts, then one per uncovered branch, then the
/// orphaned-work alerts, each in order.
pub open spec fn report_alerts(
    reservation_alerts: Seq<Alert>,
    uncovered: Seq<(IntegrationTarget, Vec<ReservationId>)>,
    orphan_alerts: Seq<Alert>,
) -> Seq<ReconciliationAlert> {
    reservation_alerts.map_values(|alert: Alert| ReconciliationAlert::Reservation(alert)) + uncovered.map_values(
        |waiting: (IntegrationTarget, Vec<ReservationId>)|
            ReconciliationAlert::TargetUncovered { target: waiting.0, waiting_reservations: waiting.1 },
    ) + orphan_alerts.map_values(|alert: Alert| ReconciliationAlert::Reservation(alert))
}

/// The sum of a list of counts.
pub open spec fn total(counts: Seq<u64>) -> int
    decreases counts.len(),
{
    if counts.len() == 0 {
        0
    } else {
        total(counts.drop_last()) + counts.last()
    }
}

/// Move every alert of a list onto the end of another, wrapped as a reservation alert.
fn append_reservation_alerts(alerts: &mut Vec<ReconciliationAlert>, added: Vec<Alert>)
    ensures
        final(alerts)@ == old(alerts)@ + added@.map_values(|alert: Alert| ReconciliationAlert::Reservation(alert)),
{
    let ghost start = alerts@;
    let ghost all = added@;
    let mut remaining = added;
    let count = remaining.len();
    assert(all.len() == count);
    let mut taken: usize = 0;
    while remaining.len() > 0
        invariant
            taken <= all.len(),
            remaining@ == all.skip(taken as int),
            remaining@.len() + taken == all.len(),
            all.len() <= usize::MAX,
            alerts@ == start + all.take(taken as int).map_values(|alert: Alert| ReconciliationAlert::Reservation(alert)),
        decreases remaining@.len(),
    {
        let ghost before = remaining@;
        let alert = remaining.remove(0);
        assert(alert == all[taken as int]);
        alerts.push(ReconciliationAlert::Reservation(alert));
        assert(remaining@ =~= all.skip(taken + 1));
        assert(all.take(taken + 1).map_values(|alert: Alert| ReconciliationAlert::Reservation(alert)) =~= all.take(
            taken as int,
        ).map_values(|alert: Alert| ReconciliationAlert::Reservation(alert)).push(ReconciliationAlert::Reservation(all[taken as int])));
        taken += 1;
    }
    assert(all.take(taken as int) =~= all);
}

/// Commit a reconciliation's report. Each pending bypass import whose appended operation is
/// among `recoverable_failures` stays an unrecorded occurrence; every other one's marker is
/// recovered. Recovered markers are reported only when reporting is not deferred. The
/// alerts are the reservation alerts, then one per uncovered branch, then the orphaned-work
/// alerts; the git cost totals the trunk resolutions, the recovery-evidence queries each
/// orphan alert made, and the merge-extent queries.
pub fn reconciliation_report(
    action: ReconciliationAction,
    reservation_alerts: Vec<Alert>,
    orphan_alerts: Vec<Alert>,
    orphan_recovery_evidence_queries: &Vec<u64>,
    recoverable_failures: &Vec<EventId>,
) -> (report: ReconciliationReport)
    requires
        total(orphan_recovery_evidence_queries@) <= u64::MAX,
    ensures
        report.unrecorded_bypass_occurrences@ == action.unrecorded_bypass_occurrences@ + unrecorded_of(
            action.pending_bypass_imports@,
            recoverable_failures.deep_view(),
        ),
        report.recovered_bypass_markers@ == match action.recovered_bypass_reporting {
            RecoveredBypassReporting::Report => action.recovered_bypass_markers@ + recovered_of(
                action.pending_bypass_imports@,
                recoverable_failures.deep_view(),
            ),
            RecoveredBypassReporting::Defer => Seq::empty(),
        },
        report.alerts@ == report_alerts(reservation_alerts@, action.uncovered_targets@, orphan_alerts@),
        report.evidence == action.evidence,
        report.covered_targets == action.covered_targets,
        report.git_cost == (ReconciliationGitCost {
            trunk_resolution_calls: action.trunk_resolution_calls,
            orphan_recovery_evidence_queries: total(orphan_recovery_evidence_queries@) as u64,
            merge_extent_worktree_status_queries: action.merge_extent_worktree_status_queries,
            merge_extent_path_queries: action.merge_extent_path_queries,
        }),
{
    let ReconciliationAction {
        active_holders: _,
        evidence,
        confirmed_lost_evidence: _,
        covered_targets,
        unrecorded_bypass_occurrences,
        recovered_bypass_markers,
        pending_bypass_imports,
        uncovered_targets,
        recovered_bypass_reporting,
        trunk_resolution_calls,
        merge_extent_worktree_status_queries,
        merge_extent_path_queries,
    } = action;
    let ghost failures = recoverable_failures.deep_view();
    let ghost imports = pending_bypass_imports@;
    let ghost unrecorded_start = unrecorded_bypass_occurrences@;
    let ghost recovered_start = recovered_bypass_markers@;
    let mut unrecorded = unrecorded_bypass_occurrences;
    let mut recovered = recovered_bypass_markers;
    let mut remaining = pending_bypass_imports;
    let count = remaining.len();
    assert(imports.len() == count);
    let mut taken: usize = 0;
    while remaining.len() > 0
        invariant
            taken <= imports.len(),
            failures == recoverable_failures.deep_view(),
            remaining@ == imports.skip(taken as int),
            remaining@.len() + taken == imports.len(),
            imports.len() <= usize::MAX,
            unrecorded@ == unrecorded_start + unrecorded_of(imports.take(taken as int), failures),
            recovered@ == recovered_start + recovered_of(imports.take(taken as int), failures),
        decreases remaining@.len(),
    {
        let pending = remaining.remove(0);
        assert(pending == imports[taken as int]);
        assert(remaining@ =~= imports.skip(taken + 1));
        assert(imports.take(taken + 1).drop_last() =~= imports.take(taken as int));
        if contains_text(recoverable_failures, &pending.operation) {
            let ghost before = unrecorded@;
            unrecorded.push(pending.occurred_at);
            assert(unrecorded@ =~= before.push(imports[taken as int].occurred_at));
        } else {
            let ghost before = recovered@;
            recovered.push(pending.marker);
            assert(recovered@ =~= before.push(imports[taken as int].marker));
        }
        taken += 1;
    }
    assert(imports.take(taken as int) =~= imports);
    let mut alerts: Vec<ReconciliationAlert> = Vec::new();
    append_reservation_alerts(&mut alerts, reservation_alerts);
    let ghost waiting = uncovered_targets@;
    let ghost after_reservations = alerts@;
    let mut uncovered = uncovered_targets;
    let waiting_count = uncovered.len();
    assert(waiting.len() == waiting_count);
    let mut moved: usize = 0;
    while uncovered.len() > 0
        invariant
            moved <= waiting.len(),
            uncovered@ == waiting.skip(moved as int),
            uncovered@.len() + moved == waiting.len(),
            waiting.len() <= usize::MAX,
            alerts@ == after_reservations + waiting.take(moved as int).map_values(
                |entry: (IntegrationTarget, Vec<ReservationId>)|
                    ReconciliationAlert::TargetUncovered { target: entry.0, waiting_reservations: entry.1 },
            ),
        decreases uncovered@.len(),
    {
        let (target, waiting_reservations) = uncovered.remove(0);
        assert(uncovered@ =~= waiting.skip(moved + 1));
        alerts.push(ReconciliationAlert::TargetUncovered { target, waiting_reservations });
        assert(waiting.take(moved + 1).map_values(
            |entry: (IntegrationTarget, Vec<ReservationId>)|
                ReconciliationAlert::TargetUncovered { target: entry.0, waiting_reservations: entry.1 },
        ) =~= waiting.take(moved as int).map_values(
            |entry: (IntegrationTarget, Vec<ReservationId>)|
                ReconciliationAlert::TargetUncovered { target: entry.0, waiting_reservations: entry.1 },
        ).push(ReconciliationAlert::TargetUncovered { target: waiting[moved as int].0, waiting_reservations: waiting[moved as int].1 }));
        moved += 1;
    }
    assert(waiting.take(moved as int) =~= waiting);
    append_reservation_alerts(&mut alerts, orphan_alerts);
    let counts = orphan_recovery_evidence_queries;
    let mut queries: u64 = 0;
    let mut index: usize = 0;
    while index < counts.len()
        invariant
            index <= counts@.len(),
            total(counts@) <= u64::MAX,
            queries == total(counts@.take(index as int)),
        decreases counts@.len() - index,
    {
        assert(counts@.take(index + 1).drop_last() =~= counts@.take(index as int));
        proof {
            total_of_prefix_is_bounded(counts@, index as int + 1);
        }
        queries = queries + counts[index];
        index += 1;
    }
    assert(counts@.take(counts@.len() as int) =~= counts@);
    let reported = match recovered_bypass_reporting {
        RecoveredBypassReporting::Report => recovered,
        RecoveredBypassReporting::Defer => Vec::new(),
    };
    ReconciliationReport {
        alerts,
        evidence,
        covered_targets,
        unrecorded_bypass_occurrences: unrecorded,
        recovered_bypass_markers: reported,
        git_cost: ReconciliationGitCost {
            trunk_resolution_calls,
            orphan_recovery_evidence_queries: queries,
            merge_extent_worktree_status_queries,
            merge_extent_path_queries,
        },
    }
}

/// A prefix of counts sums to no more than the whole list.
proof fn total_of_prefix_is_bounded(counts: Seq<u64>, length: int)
    requires
        0 <= length <= counts.len(),
    ensures
        total(counts.take(length)) <= total(counts),
    decreases counts.len() - length,
{
    if length < counts.len() {
        total_of_prefix_is_bounded(counts, length + 1);
        assert(counts.take(length + 1).drop_last() =~= counts.take(length));
    } else {
        assert(counts.take(length) =~= counts);
    }
}

/// A coordination run that still holds active work in a worktree.
#[derive(Debug, PartialEq, Eq)]
pub struct ActiveHolder {
    /// The worktree.
    pub worktree_id: WorktreeId,
    /// The run acting in it.
    pub coordination_run_id: CoordinationRunId,
}

/// What reconciling the observed reservations changed.
pub struct ReconciledChanges {
    /// The journal operations to append.
    pub operations: Vec<JournalOperation>,
    /// The integration evidence revalidated for each reservation.
    pub evidence: Vec<(ReservationId, IntegrationEvidenceStatus)>,
    /// Reservations whose lost evidence two consecutive passes derived.
    pub confirmed_lost_evidence: Vec<ReservationId>,
}

/// A reconciliation plan before cover, settlement and retention are completed.
pub struct ReconciliationPlan {
    /// The journal operations to append.
    pub operations: Vec<JournalOperation>,
    /// What the committed reconciliation will report from.
    pub action: ReconciliationAction,
}

/// The holders of the active reservations, in retained order.
pub open spec fn active_holders_of(reservations: Seq<Reservation>) -> Seq<ActiveHolder>
    decreases reservations.len(),
{
    if reservations.len() == 0 {
        Seq::empty()
    } else {
        let earlier = active_holders_of(reservations.drop_last());
        let last = reservations.last();
        if last.lifecycle is Active {
            earlier.push(ActiveHolder { worktree_id: last.actor.worktree, coordination_run_id: last.actor.run })
        } else {
            earlier
        }
    }
}

/// Assemble the initial reconciliation plan from what the pass observed and changed: the
/// changes' operations, evidence and confirmed losses are carried as they are, every active
/// reservation's holder is listed in retained order, and the action starts with no bypass
/// state, no uncovered branch, deferred marker reporting, the trunk resolutions the
/// observation made and no merge-extent queries yet.
pub fn assemble_reconciliation_plan(
    reservations: &[Reservation],
    trunk_resolution_calls: u64,
    changes: ReconciledChanges,
) -> (plan: ReconciliationPlan)
    ensures
        plan.operations == changes.operations,
        plan.action.evidence == changes.evidence,
        plan.action.confirmed_lost_evidence == changes.confirmed_lost_evidence,
        plan.action.active_holders@ == active_holders_of(reservations@),
        plan.action.covered_targets@.len() == 0,
        plan.action.unrecorded_bypass_occurrences@.len() == 0,
        plan.action.recovered_bypass_markers@.len() == 0,
        plan.action.pending_bypass_imports@.len() == 0,
        plan.action.uncovered_targets@.len() == 0,
        plan.action.recovered_bypass_reporting == RecoveredBypassReporting::Defer,
        plan.action.trunk_resolution_calls == trunk_resolution_calls,
        plan.action.merge_extent_worktree_status_queries == 0,
        plan.action.merge_extent_path_queries == 0,
{
    let mut active_holders: Vec<ActiveHolder> = Vec::new();
    let mut index: usize = 0;
    while index < reservations.len()
        invariant
            index <= reservations@.len(),
            active_holders@ == active_holders_of(reservations@.take(index as int)),
        decreases reservations@.len() - index,
    {
        assert(reservations@.take(index + 1).drop_last() =~= reservations@.take(index as int));
        let reservation = &reservations[index];
        if let ReservationLifecycle::Active = reservation.lifecycle {
            active_holders.push(ActiveHolder {
                worktree_id: reservation.actor.worktree.clone(),
                coordination_run_id: reservation.actor.run.clone(),
            });
        }
        index += 1;
    }
    assert(reservations@.take(reservations@.len() as int) =~= reservations@);
    let ReconciledChanges { operations, evidence, confirmed_lost_evidence } = changes;
    ReconciliationPlan {
        operations,
        action: ReconciliationAction {
            active_holders,
            evidence,
            confirmed_lost_evidence,
            covered_targets: Vec::new(),
            unrecorded_bypass_occurrences: Vec::new(),
            recovered_bypass_markers: Vec::new(),
            pending_bypass_imports: Vec::new(),
            uncovered_targets: Vec::new(),
            recovered_bypass_reporting: RecoveredBypassReporting::Defer,
            trunk_resolution_calls,
            merge_extent_worktree_status_queries: 0,
            merge_extent_path_queries: 0,
        },
    }
}

} // verus!
