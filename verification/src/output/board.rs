//! The facts a headless board read hands to a response, and the board responses.
use vstd::prelude::*;

use crate::ids::contains_text;
use crate::ids::IncursionIncidentId;
use crate::ids::ReservationId;
use crate::output::envelope::answers;
use crate::output::envelope::OutputEnvelope;
use crate::output::envelope::OutputPayload;
use crate::output::envelope::OUTPUT_CONTRACT_VERSION;
use crate::output::payload::OutputFacts;
use crate::output::status::BerthExit;
use crate::output::status::CommandVerb;
use crate::output::status::OutputStatus;
use crate::presentation::shows_the_same;
use crate::presentation::EnvelopePresentation;

verus! {

/// The message every successful board read reports.
pub const BOARD_READY_MESSAGE: &'static str = "The reservation board was read. Use `cargo-berth board --json` to inspect it.";

/// What a board read, projected from reconciled journal and repository facts, reports.
#[derive(Debug, PartialEq, Eq)]
pub struct BoardModel {
    /// Every reservation the board lists, in wire order.
    pub reservation_ids: Vec<ReservationId>,
    /// The blocks the board renders for its reader.
    pub presentation: EnvelopePresentation,
    /// Incursion incidents that still await a resolution.
    pub outstanding_incursions: Vec<IncursionIncidentId>,
    /// Incursion incidents whose resolution the journal already records.
    pub recorded_incursions: Vec<IncursionIncidentId>,
    /// Bypass markers written while the journal was unwritable and filed since.
    pub recovered_bypass_marker_names: Vec<String>,
}

/// Where an incursion incident stands on a live board.
#[derive(Clone, Copy, Debug, PartialEq, Eq, Structural)]
pub enum LiveIncursionMembership {
    /// The incident still awaits a resolution.
    Outstanding,
    /// The journal already records the incident's resolution.
    Recorded,
    /// The board cannot say whether the incident still needs resolution.
    Unverifiable,
}

/// Where an incident stands on a board: outstanding first, then recorded, otherwise unknown.
pub open spec fn membership_of(board: BoardModel, incident_id: Seq<char>) -> LiveIncursionMembership {
    if board.outstanding_incursions.deep_view().contains(incident_id) {
        LiveIncursionMembership::Outstanding
    } else if board.recorded_incursions.deep_view().contains(incident_id) {
        LiveIncursionMembership::Recorded
    } else {
        LiveIncursionMembership::Unverifiable
    }
}

impl BoardModel {
    /// Where an incursion incident stands on this board.
    pub fn live_incursion_membership(&self, incident_id: &IncursionIncidentId) -> (membership:
        LiveIncursionMembership)
        ensures
            membership == membership_of(*self, incident_id@),
    {
        if contains_text(&self.outstanding_incursions, incident_id) {
            LiveIncursionMembership::Outstanding
        } else if contains_text(&self.recorded_incursions, incident_id) {
            LiveIncursionMembership::Recorded
        } else {
            LiveIncursionMembership::Unverifiable
        }
    }
}

/// The message of a board read whose terminal view could not open.
pub open spec fn terminal_view_opening_failure_message(diagnostic: Seq<char>) -> Seq<char> {
    BOARD_READY_MESSAGE@ + "\nThe terminal view could not open: "@ + diagnostic
        + ". Run `cargo-berth board --json` instead."@
}

impl OutputEnvelope {
    /// Report a successful board read: its reservations, its rendering and its facts.
    pub fn board(board: BoardModel) -> (envelope: Self)
        ensures
            answers(
                envelope,
                CommandVerb::Board,
                OutputStatus::BoardReady,
                board.reservation_ids@,
                Seq::empty(),
                BOARD_READY_MESSAGE@,
            ),
            shows_the_same(envelope.presentation, board.presentation),
            envelope.payload.facts == OutputFacts::Board(board),
            envelope.payload.alerts@.len() == 0,
    {
        let reservations = crate::ids::clone_texts(&board.reservation_ids);
        let presentation = board.presentation.clone();
        OutputEnvelope {
            output_contract_version: OUTPUT_CONTRACT_VERSION,
            verb: CommandVerb::Board,
            status: OutputStatus::BoardReady,
            exit_code: BerthExit::Clear,
            reservations,
            blocked_by: Vec::new(),
            message: BOARD_READY_MESSAGE.to_owned(),
            presentation,
            payload: OutputPayload::from_facts(OutputFacts::Board(board)),
        }
    }

    /// Report a successful board read after the terminal view could not open, with the
    /// reason and the command that reads the board instead.
    pub fn board_with_terminal_view_opening_failure(board: BoardModel, diagnostic: &str) -> (
        envelope: Self)
        ensures
            answers(
                envelope,
                CommandVerb::Board,
                OutputStatus::BoardReady,
                board.reservation_ids@,
                Seq::empty(),
                terminal_view_opening_failure_message(diagnostic@),
            ),
            shows_the_same(envelope.presentation, board.presentation),
            envelope.payload.facts == OutputFacts::Board(board),
            envelope.payload.alerts@.len() == 0,
    {
        let mut envelope = OutputEnvelope::board(board);
        envelope.message.append("\nThe terminal view could not open: ");
        envelope.message.append(diagnostic);
        envelope.message.append(". Run `cargo-berth board --json` instead.");
        envelope
    }
}

} // verus!
