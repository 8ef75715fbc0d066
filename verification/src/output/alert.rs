//! Durable coordination alerts carried beside a response's facts, and the board notices
//! they turn into.
use vstd::prelude::*;

use crate::ids::GitObjectId;
use crate::ids::same_text;
use crate::ids::ReservationId;
use crate::presentation::actionable_board_notices_block;
use crate::output::drift::drift_presents;
use crate::output::drift::refreshed_drift_presents;
use crate::output::envelope::post_tool_use_renders;
use crate::output::envelope::refreshed_presents;
use crate::output::envelope::OutputEnvelope;
use crate::output::envelope::PostToolUseRendering;
use crate::output::hook::presents;
use crate::output::payload::OutputFacts;
use crate::output::status::CommandVerb;
use crate::presentation::orphaned_outstanding_block;
use crate::presentation::shows_only;
use crate::presentation::EnvelopePresentation;
use crate::text::concat3;
use crate::text::decimal;
use crate::text::framed;
use crate::text::joined;
use crate::text::texts;

verus! {

/// Whether the surviving work of an orphaned outstanding reservation can still be recovered.
#[derive(Clone, Copy, Debug, PartialEq, Eq, Structural)]
pub enum RecoverabilityVerdict {
    /// The reservation's branch still carries the work.
    RecoverableFromBranch,
    /// The protected tip still carries the work.
    RecoverableFromProtectedTip,
    /// Git can no longer read the protected commit.
    CommitUnavailable,
}

/// An outstanding reservation whose worktree no longer exists.
#[derive(Debug, PartialEq, Eq)]
pub struct OrphanedOutstandingAlert {
    /// The orphaned reservation.
    pub reservation_id: ReservationId,
    /// The protected tip its work was recorded at.
    pub protected_tip: GitObjectId,
    /// Whether that work can still be recovered.
    pub recoverability: RecoverabilityVerdict,
    /// The alert's own one-line account.
    pub line: String,
}

/// One durable coordination alert.
#[derive(Debug, PartialEq, Eq)]
pub enum Alert {
    /// Released work whose integration evidence no longer proves it is in trunk.
    LostIntegrationEvidence {
        /// The released reservation.
        reservation_id: ReservationId,
        /// The alert's own one-line account.
        line: String,
    },
    /// An outstanding reservation left behind by a removed worktree.
    OrphanedOutstanding(OrphanedOutstandingAlert),
}

/// The one-line account an alert gives of itself.
pub open spec fn alert_line(alert: Alert) -> Seq<char> {
    match alert {
        Alert::LostIntegrationEvidence { line, .. } => line@,
        Alert::OrphanedOutstanding(orphan) => orphan.line@,
    }
}

/// The reservation an alert is about.
pub open spec fn alert_reservation(alert: Alert) -> ReservationId {
    match alert {
        Alert::LostIntegrationEvidence { reservation_id, .. } => reservation_id,
        Alert::OrphanedOutstanding(orphan) => orphan.reservation_id,
    }
}

/// The alerts about any other reservation, in order.
pub open spec fn alerts_not_about(alerts: Seq<Alert>, reservation_id: Seq<char>) -> Seq<Alert>
    decreases alerts.len(),
{
    if alerts.len() == 0 {
        Seq::empty()
    } else if alert_reservation(alerts[0])@ == reservation_id {
        alerts_not_about(alerts.drop_first(), reservation_id)
    } else {
        seq![alerts[0]] + alerts_not_about(alerts.drop_first(), reservation_id)
    }
}

/// Drop the alerts about one reservation, keeping the others in order.
pub fn retain_alerts_not_about(alerts: Vec<Alert>, reservation_id: &ReservationId) -> (kept: Vec<Alert>)
    ensures
        kept@ == alerts_not_about(alerts@, reservation_id@),
{
    let ghost original = alerts@;
    let mut remaining = alerts;
    let mut kept: Vec<Alert> = Vec::new();
    while remaining.len() > 0
        invariant
            kept@ + alerts_not_about(remaining@, reservation_id@) == alerts_not_about(
                original,
                reservation_id@,
            ),
        decreases remaining@.len(),
    {
        let ghost before = remaining@;
        let alert = remaining.remove(0);
        assert(remaining@ =~= before.drop_first());
        let about = same_text(alert.reservation_id(), reservation_id);
        if !about {
            kept.push(alert);
            assert(kept@ + alerts_not_about(remaining@, reservation_id@) =~= kept@.drop_last() + (
            seq![before[0]] + alerts_not_about(before.drop_first(), reservation_id@)));
        }
    }
    assert(kept@ + alerts_not_about(remaining@, reservation_id@) =~= kept@);
    kept
}

impl Alert {
    /// The reservation this alert is about.
    pub fn reservation_id(&self) -> (reservation_id: &ReservationId)
        ensures
            *reservation_id == alert_reservation(*self),
    {
        match self {
            Alert::LostIntegrationEvidence { reservation_id, .. } => reservation_id,
            Alert::OrphanedOutstanding(orphan) => &orphan.reservation_id,
        }
    }

    /// The alert's own one-line account.
    pub fn line(&self) -> (line: &String)
        ensures
            line@ == alert_line(*self),
    {
        match self {
            Alert::LostIntegrationEvidence { line, .. } => line,
            Alert::OrphanedOutstanding(orphan) => &orphan.line,
        }
    }
}

/// The lines of the lost-integration-evidence alerts, in order.
pub open spec fn lost_evidence_lines(alerts: Seq<Alert>) -> Seq<Seq<char>>
    decreases alerts.len(),
{
    if alerts.len() == 0 {
        Seq::empty()
    } else {
        let earlier = lost_evidence_lines(alerts.drop_last());
        match alerts.last() {
            Alert::LostIntegrationEvidence { line, .. } => earlier.push(line@),
            Alert::OrphanedOutstanding(..) => earlier,
        }
    }
}

/// Collect the lines of the lost-integration-evidence alerts, in order.
pub fn lost_evidence_messages(alerts: &[Alert]) -> (lines: Vec<String>)
    ensures
        texts(lines@) == lost_evidence_lines(alerts@),
{
    let mut lines: Vec<String> = Vec::new();
    let mut index: usize = 0;
    while index < alerts.len()
        invariant
            index <= alerts@.len(),
            texts(lines@) == lost_evidence_lines(alerts@.take(index as int)),
        decreases alerts@.len() - index,
    {
        assert(alerts@.take(index + 1).drop_last() =~= alerts@.take(index as int));
        match &alerts[index] {
            Alert::LostIntegrationEvidence { line, .. } => {
                lines.push(line.clone());
                assert(texts(lines@) =~= lost_evidence_lines(alerts@.take(index as int)).push(
                    line@,
                ));
            },
            Alert::OrphanedOutstanding(..) => {},
        }
        index += 1;
    }
    assert(alerts@.take(alerts@.len() as int) =~= alerts@);
    lines
}

/// Whether any alert reports lost integration evidence.
pub open spec fn reports_lost_evidence(alerts: Seq<Alert>) -> bool {
    exists|index: int| 0 <= index < alerts.len() && #[trigger] alerts[index] is LostIntegrationEvidence
}

/// Every lost-evidence alert contributes one line, so the lines are empty exactly when no
/// alert reports lost evidence.
pub proof fn lost_evidence_lines_are_empty_without_lost_evidence(alerts: Seq<Alert>)
    ensures
        (lost_evidence_lines(alerts).len() == 0) == !reports_lost_evidence(alerts),
    decreases alerts.len(),
{
    if alerts.len() > 0 {
        let earlier = alerts.drop_last();
        lost_evidence_lines_are_empty_without_lost_evidence(earlier);
        if reports_lost_evidence(earlier) {
            let witness = choose|index: int|
                0 <= index < earlier.len() && #[trigger] earlier[index] is LostIntegrationEvidence;
            assert(alerts[witness] == earlier[witness]);
        }
        if reports_lost_evidence(alerts) && !(alerts.last() is LostIntegrationEvidence) {
            let witness = choose|index: int|
                0 <= index < alerts.len() && #[trigger] alerts[index] is LostIntegrationEvidence;
            assert(earlier[witness] == alerts[witness]);
        }
    }
}

/// The words naming a recoverability verdict on the wire.
pub open spec fn recoverability_name(verdict: RecoverabilityVerdict) -> Seq<char> {
    match verdict {
        RecoverabilityVerdict::RecoverableFromBranch => "recoverable_from_branch"@,
        RecoverabilityVerdict::RecoverableFromProtectedTip => "recoverable_from_protected_tip"@,
        RecoverabilityVerdict::CommitUnavailable => "commit_unavailable"@,
    }
}

/// The recovery commands the evidence supports for an orphaned reservation.
pub open spec fn recovery_commands(
    reservation_id: Seq<char>,
    verdict: RecoverabilityVerdict,
) -> Seq<Seq<char>> {
    match verdict {
        RecoverabilityVerdict::CommitUnavailable => seq![
            "resolve "@ + reservation_id + " --retire-orphan --why <reason>"@,
            "resolve "@ + reservation_id + " --abandon --why <reason>"@,
        ],
        _ => seq!["resolve "@ + reservation_id + " --recovered"@],
    }
}

/// The board notice for one orphaned outstanding reservation.
pub open spec fn orphan_notice(orphan: OrphanedOutstandingAlert) -> Seq<char> {
    "ORPHANED OUTSTANDING: reservation "@ + orphan.reservation_id@ + " at protected tip "@
        + orphan.protected_tip@ + " is "@ + recoverability_name(orphan.recoverability)
        + ". Answer it with "@ + joined(
        framed(
            recovery_commands(orphan.reservation_id@, orphan.recoverability),
            "`cargo-berth "@,
            "`"@,
        ),
        " or "@,
    ) + " after reviewing the work."@
}

/// The board notice an alert contributes.
pub open spec fn alert_notice(alert: Alert) -> Seq<char> {
    match alert {
        Alert::LostIntegrationEvidence { line, .. } => line@,
        Alert::OrphanedOutstanding(orphan) => orphan_notice(orphan),
    }
}

/// The board notices the alerts contribute, in order.
pub open spec fn alert_notices(alerts: Seq<Alert>) -> Seq<Seq<char>> {
    alerts.map_values(|alert: Alert| alert_notice(alert))
}

/// Whether a presentation shows these alerts as actionable board notices: nothing when there
/// are none, and otherwise one block that counts and lists every notice.
pub open spec fn presents_actionable_alerts(
    presentation: EnvelopePresentation,
    alerts: Seq<Alert>,
) -> bool {
    if alerts.len() == 0 {
        presentation is NothingToShow
    } else {
        presents(
            presentation,
            "cargo-berth found "@ + decimal(alerts.len()) + " actionable coordination notice(s)."@,
            joined(alert_notices(alerts), "\n"@),
        )
    }
}

/// Write the recovery commands the evidence supports for an orphaned reservation.
fn orphan_recovery_commands(reservation_id: &str, verdict: RecoverabilityVerdict) -> (commands: Vec<
    String,
>)
    ensures
        texts(commands@) == recovery_commands(reservation_id@, verdict),
{
    let commands = match verdict {
        RecoverabilityVerdict::CommitUnavailable => vec![
            concat3("resolve ", reservation_id, " --retire-orphan --why <reason>"),
            concat3("resolve ", reservation_id, " --abandon --why <reason>"),
        ],
        _ => vec![concat3("resolve ", reservation_id, " --recovered")],
    };
    assert(texts(commands@) =~= recovery_commands(reservation_id@, verdict));
    commands
}

/// Render the board notice an alert contributes.
fn alert_notice_text(alert: &Alert) -> (notice: String)
    ensures
        notice@ == alert_notice(*alert),
{
    match alert {
        Alert::LostIntegrationEvidence { line, .. } => line.clone(),
        Alert::OrphanedOutstanding(orphan) => {
            let recoverability = match orphan.recoverability {
                RecoverabilityVerdict::RecoverableFromBranch => "recoverable_from_branch",
                RecoverabilityVerdict::RecoverableFromProtectedTip => "recoverable_from_protected_tip",
                RecoverabilityVerdict::CommitUnavailable => "commit_unavailable",
            };
            let commands = orphan_recovery_commands(
                orphan.reservation_id.as_str(),
                orphan.recoverability,
            );
            orphaned_outstanding_block(
                orphan.reservation_id.as_str(),
                orphan.protected_tip.as_str(),
                recoverability,
                commands.as_slice(),
            )
        },
    }
}

/// Turn durable alerts into the board's actionable notices: nothing when there are none,
/// otherwise one block that counts and lists them.
pub fn presentation_from_actionable_alerts(alerts: &[Alert]) -> (presentation: EnvelopePresentation)
    ensures
        presents_actionable_alerts(presentation, alerts@),
{
    let mut details: Vec<String> = Vec::new();
    let mut index: usize = 0;
    while index < alerts.len()
        invariant
            index <= alerts@.len(),
            texts(details@) == alert_notices(alerts@).take(index as int),
        decreases alerts@.len() - index,
    {
        let notice = alert_notice_text(&alerts[index]);
        proof {
            let notices = alert_notices(alerts@);
            assert(notices.take(index + 1) =~= notices.take(index as int).push(notice@));
        }
        details.push(notice);
        assert(texts(details@) =~= alert_notices(alerts@).take(index + 1));
        index += 1;
    }
    assert(alert_notices(alerts@).take(alerts@.len() as int) =~= alert_notices(alerts@));
    assert(details@.len() == alerts@.len());
    if details.len() == 0 {
        EnvelopePresentation::nothing_to_show()
    } else {
        let block = actionable_board_notices_block(details.as_slice());
        let presentation = EnvelopePresentation::single(block);
        assert(shows_only(presentation, block));
        presentation
    }
}

/// The note each recovered bypass marker adds to a board's text, in order.
pub open spec fn bypass_marker_notes(names: Seq<String>) -> Seq<char>
    decreases names.len(),
{
    if names.len() == 0 {
        Seq::empty()
    } else {
        bypass_marker_notes(names.drop_last()) + "\nRecovered bypass marker "@ + names.last()@
            + ": a bypass recorded earlier while the journal was unwritable has now been filed in the journal."@
    }
}

/// Every alert's own line, each on a line of its own.
pub open spec fn alert_notes(alerts: Seq<Alert>) -> Seq<char>
    decreases alerts.len(),
{
    if alerts.len() == 0 {
        Seq::empty()
    } else {
        alert_notes(alerts.drop_last()) + "\n"@ + alert_line(alerts.last())
    }
}

/// The terminal text of a response: its message, a board's recovered bypass markers, then
/// every durable alert on a line of its own.
pub open spec fn rendered_text(envelope: OutputEnvelope) -> Seq<char> {
    let markers = match envelope.payload.facts {
        OutputFacts::Board(board) => bypass_marker_notes(board.recovered_bypass_marker_names@),
        _ => Seq::empty(),
    };
    envelope.message@ + markers + alert_notes(envelope.payload.alerts@)
}

/// Whether a response is another with alerts attached: everything but the alerts and the
/// presentation is kept; a board shows the alerts as actionable notices, a drift response
/// shows what its hook would now publish, and any other response keeps its presentation.
pub open spec fn alerts_attached(
    attached: OutputEnvelope,
    original: OutputEnvelope,
    alerts: Seq<Alert>,
) -> bool {
    &&& attached.payload.alerts@ == alerts
    &&& attached.payload.facts == original.payload.facts
    &&& attached.output_contract_version == original.output_contract_version
    &&& attached.verb == original.verb
    &&& attached.status == original.status
    &&& attached.exit_code == original.exit_code
    &&& attached.reservations == original.reservations
    &&& attached.blocked_by == original.blocked_by
    &&& attached.message == original.message
    &&& if original.verb is Board {
        presents_actionable_alerts(attached.presentation, alerts)
    } else {
        match original.payload.facts {
            OutputFacts::Drift(report) => drift_presents(
                attached.presentation,
                report,
                original.message@,
                alerts,
            ),
            _ => attached.presentation == original.presentation,
        }
    }
}

impl OutputEnvelope {
    /// Attach alerts derived by the reconciliation that preceded this command.
    pub fn with_alerts(self, alerts: Vec<Alert>) -> (envelope: Self)
        ensures
            alerts_attached(envelope, self, alerts@),
    {
        let ghost attached = alerts@;
        let mut envelope = self;
        envelope.payload.alerts = alerts;
        let is_drift = match &envelope.payload.facts {
            OutputFacts::Drift(..) => true,
            _ => false,
        };
        if is_drift {
            let ghost before = envelope;
            envelope.refresh_post_tool_use_presentation();
            proof {
                let rendering = choose|rendering: PostToolUseRendering|
                    post_tool_use_renders(before, rendering) && refreshed_presents(
                        envelope.presentation,
                        rendering,
                        before,
                    );
                match before.payload.facts {
                    OutputFacts::Drift(report) => {
                        refreshed_drift_presents(before, report, envelope.presentation, rendering);
                    },
                    _ => {},
                }
            }
        }
        let is_board = match envelope.verb {
            CommandVerb::Board => true,
            _ => false,
        };
        if is_board {
            envelope.presentation = presentation_from_actionable_alerts(envelope.payload.alerts.as_slice());
        }
        envelope
    }

    /// Render the primary result followed by a board's recovered bypass markers and every
    /// durable alert, each on a line of its own.
    pub fn render_text(&self) -> (rendered: String)
        ensures
            rendered@ == rendered_text(*self),
    {
        let mut rendered = self.message.clone();
        match &self.payload.facts {
            OutputFacts::Board(board) => {
                let names = &board.recovered_bypass_marker_names;
                let mut index: usize = 0;
                while index < names.len()
                    invariant
                        index <= names@.len(),
                        rendered@ == self.message@ + bypass_marker_notes(names@.take(index as int)),
                    decreases names@.len() - index,
                {
                    assert(names@.take(index + 1).drop_last() =~= names@.take(index as int));
                    rendered.append("\nRecovered bypass marker ");
                    rendered.append(names[index].as_str());
                    rendered.append(
                        ": a bypass recorded earlier while the journal was unwritable has now been filed in the journal.",
                    );
                    index += 1;
                }
                assert(names@.take(names@.len() as int) =~= names@);
            },
            _ => {
                assert(rendered@ =~= self.message@ + Seq::<char>::empty());
            },
        }
        let ghost opening = rendered@;
        let alerts = &self.payload.alerts;
        let mut index: usize = 0;
        while index < alerts.len()
            invariant
                index <= alerts@.len(),
                rendered@ == opening + alert_notes(alerts@.take(index as int)),
            decreases alerts@.len() - index,
        {
            assert(alerts@.take(index + 1).drop_last() =~= alerts@.take(index as int));
            rendered.append("\n");
            rendered.append(alerts[index].line().as_str());
            index += 1;
        }
        assert(alerts@.take(alerts@.len() as int) =~= alerts@);
        rendered
    }
}

} // verus!
