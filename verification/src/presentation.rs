//! Render-ready text carried by response envelopes.
use vstd::prelude::*;

use crate::text::concat2;
use crate::text::concat3;
use crate::text::decimal;
use crate::text::decimal_text;
use crate::text::frame_each;
use crate::text::framed;
use crate::text::join;
use crate::text::joined;
use crate::text::texts;

verus! {

/// One complete user-facing summary and its supporting detail.
#[derive(Debug, PartialEq, Eq)]
pub struct RenderedOutputBlock {
    /// The short front-end heading for this response.
    pub summary: String,
    /// The complete explanation or recovery instruction shown below the heading.
    pub detail: String,
}

impl Clone for RenderedOutputBlock {
    fn clone(&self) -> (copy: Self)
        ensures
            copy == *self,
    {
        RenderedOutputBlock { summary: self.summary.clone(), detail: self.detail.clone() }
    }
}

/// Whether an envelope supplies render-ready output blocks.
#[derive(Debug, PartialEq, Eq)]
pub enum EnvelopePresentation {
    /// The constructor has no presentation contract for this response.
    NotProvided,
    /// The engine considered this response and found nothing to show.
    NothingToShow,
    /// The engine explicitly rendered every block the front end should show.
    RenderedBlocks {
        /// Ordered, self-contained blocks for the front end to publish.
        blocks: Vec<RenderedOutputBlock>,
    },
}

/// Whether a presentation shows exactly this one block.
pub open spec fn shows_only(presentation: EnvelopePresentation, block: RenderedOutputBlock) -> bool {
    presentation matches EnvelopePresentation::RenderedBlocks { blocks } && blocks@ == seq![block]
}

impl EnvelopePresentation {
    /// State that the engine considered this response and found nothing to show.
    pub fn nothing_to_show() -> (presentation: Self)
        ensures
            presentation is NothingToShow,
    {
        EnvelopePresentation::NothingToShow
    }

    /// Present exactly one rendered block.
    pub fn single(block: RenderedOutputBlock) -> (presentation: Self)
        ensures
            shows_only(presentation, block),
    {
        let mut blocks: Vec<RenderedOutputBlock> = Vec::new();
        blocks.push(block);
        EnvelopePresentation::RenderedBlocks { blocks }
    }

    /// Replace the current presentation with one rendered block.
    pub fn replace_with(&mut self, rendered_output_block: RenderedOutputBlock)
        ensures
            shows_only(*final(self), rendered_output_block),
    {
        *self = EnvelopePresentation::single(rendered_output_block);
    }
}

/// Whether a presentation shows exactly what another shows, block for block.
pub open spec fn shows_the_same(copy: EnvelopePresentation, original: EnvelopePresentation) -> bool {
    match original {
        EnvelopePresentation::RenderedBlocks { blocks } => copy matches EnvelopePresentation::RenderedBlocks {
            blocks: copied,
        } && copied@ == blocks@,
        _ => copy == original,
    }
}

impl Clone for EnvelopePresentation {
    fn clone(&self) -> (copy: Self)
        ensures
            shows_the_same(copy, *self),
    {
        match self {
            EnvelopePresentation::NotProvided => EnvelopePresentation::NotProvided,
            EnvelopePresentation::NothingToShow => EnvelopePresentation::NothingToShow,
            EnvelopePresentation::RenderedBlocks { blocks } => {
                let mut copied: Vec<RenderedOutputBlock> = Vec::new();
                let mut index: usize = 0;
                while index < blocks.len()
                    invariant
                        index <= blocks@.len(),
                        copied@ == blocks@.take(index as int),
                    decreases blocks@.len() - index,
                {
                    copied.push(blocks[index].clone());
                    assert(blocks@.take(index + 1) == blocks@.take(index as int).push(
                        blocks@[index as int],
                    ));
                    index += 1;
                }
                assert(blocks@.take(blocks@.len() as int) == blocks@);
                EnvelopePresentation::RenderedBlocks { blocks: copied }
            },
        }
    }
}

/// A block with this summary and detail text.
pub open spec fn block_reads(
    block: RenderedOutputBlock,
    summary: Seq<char>,
    detail: Seq<char>,
) -> bool {
    block.summary@ == summary && block.detail@ == detail
}

/// Render a response whose engine message is already the complete detail.
pub fn engine_message_block(summary: &str, message: &str) -> (block: RenderedOutputBlock)
    ensures
        block_reads(block, summary@, message@),
{
    RenderedOutputBlock { summary: summary.to_owned(), detail: message.to_owned() }
}

/// The detail of an ambiguity refusal: the engine message, then one line per candidate.
pub open spec fn ambiguous_first_touch_detail(message: Seq<char>, candidates: Seq<Seq<char>>) -> Seq<
    char,
> {
    message + "\n\nReservations named by this response:\n\n"@ + joined(
        framed(candidates, "- `"@, "`"@),
        "\n"@,
    )
}

/// Render an ambiguity refusal with the candidate reservations kept visible.
pub fn ambiguous_first_touch_block(message: &str, candidate_reservation_ids: &[String]) -> (block:
    RenderedOutputBlock)
    ensures
        block_reads(
            block,
            "cargo-berth could not select one active reservation for this edit."@,
            ambiguous_first_touch_detail(message@, texts(candidate_reservation_ids@)),
        ),
{
    let lines = frame_each(candidate_reservation_ids, "- `", "`");
    let candidates = join(lines.as_slice(), "\n");
    RenderedOutputBlock {
        summary: "cargo-berth could not select one active reservation for this edit.".to_owned(),
        detail: concat3(message, "\n\nReservations named by this response:\n\n", candidates.as_str()),
    }
}

/// The detail naming a coordination-identity rejection and its one recovery action.
pub open spec fn coordination_identity_detail(rejection_kind: Seq<char>, recovery_action: Seq<char>) -> Seq<char> {
    "COORDINATION IDENTITY: "@ + rejection_kind
        + " requires one recovery action before continuing: "@ + recovery_action
}

/// Render the recovery action selected by coordination-identity validation.
pub fn coordination_identity_block(summary: &str, rejection_kind: &str, recovery_action: &str) -> (
    block: RenderedOutputBlock)
    ensures
        block_reads(block, summary@, coordination_identity_detail(rejection_kind@, recovery_action@)),
{
    let mut detail = concat2("COORDINATION IDENTITY: ", rejection_kind);
    detail.append(" requires one recovery action before continuing: ");
    detail.append(recovery_action);
    RenderedOutputBlock { summary: summary.to_owned(), detail }
}

/// The hard-stop detail naming invalid retained history and its recovery command.
pub open spec fn replay_failure_detail(reason: Seq<char>, subject: Seq<char>) -> Seq<char> {
    "REPLAY HARD STOP: "@ + reason + " for "@ + subject
        + ". Review the cargo-berth journal. If the retained order is invalid and may be discarded, run `cargo-berth init --reinitialize-after-review --json`."@
}

/// Render invalid retained history with its typed subject and recovery command.
pub fn replay_failure_block(summary: &str, reason: &str, subject: &str) -> (block:
    RenderedOutputBlock)
    ensures
        block_reads(block, summary@, replay_failure_detail(reason@, subject@)),
{
    let mut detail = concat2("REPLAY HARD STOP: ", reason);
    detail.append(" for ");
    detail.append(subject);
    detail.append(
        ". Review the cargo-berth journal. If the retained order is invalid and may be discarded, run `cargo-berth init --reinitialize-after-review --json`.",
    );
    RenderedOutputBlock { summary: summary.to_owned(), detail }
}

/// Render a successful automatic reservation widening.
pub fn automatic_widening_block(reservation_id: &str, added_scopes: &[String]) -> (block:
    RenderedOutputBlock)
    ensures
        block_reads(
            block,
            "cargo-berth widened this worktree reservation footprint."@,
            "AUTO-WIDEN: reservation "@ + reservation_id@ + " now covers "@ + joined(
                texts(added_scopes@),
                ", "@,
            ),
        ),
{
    let scopes = join(added_scopes, ", ");
    let mut detail = concat2("AUTO-WIDEN: reservation ", reservation_id);
    detail.append(" now covers ");
    detail.append(scopes.as_str());
    RenderedOutputBlock {
        summary: "cargo-berth widened this worktree reservation footprint.".to_owned(),
        detail,
    }
}

/// The exact board actions for one reservation's outstanding incursions.
pub struct IncursionResolutionGuidance<'action> {
    /// How many unresolved incidents remain for the straying reservation.
    pub outstanding_count: usize,
    /// Resolve only the incident named by the surrounding block.
    pub incident_action: &'action str,
    /// Resolve every outstanding incident for the straying reservation.
    pub every_action: &'action str,
}

/// The sentence naming one incursion: who strayed, where, into whose paths, and the incident.
pub open spec fn incursion_sentence(
    reservation_id: Seq<char>,
    entered_paths: Seq<Seq<char>>,
    foreign_reservation_ids: Seq<Seq<char>>,
    incident_id: Seq<char>,
) -> Seq<char> {
    "INCURSION: reservation "@ + reservation_id + " entered "@ + joined(entered_paths, ", "@)
        + ", held by "@ + joined(foreign_reservation_ids, ", "@) + "; incident "@ + incident_id
        + "."@
}

/// Write the sentence naming one incursion.
fn incursion_text(
    reservation_id: &str,
    entered_paths: &[String],
    foreign_reservation_ids: &[String],
    incident_id: &str,
) -> (text: String)
    ensures
        text@ == incursion_sentence(
            reservation_id@,
            texts(entered_paths@),
            texts(foreign_reservation_ids@),
            incident_id@,
        ),
{
    let paths = join(entered_paths, ", ");
    let holders = join(foreign_reservation_ids, ", ");
    let mut text = concat2("INCURSION: reservation ", reservation_id);
    text.append(" entered ");
    text.append(paths.as_str());
    text.append(", held by ");
    text.append(holders.as_str());
    text.append("; incident ");
    text.append(incident_id);
    text.append(".");
    text
}

/// Render one drift incursion that the current board still lists as outstanding.
pub fn outstanding_incursion_block(
    reservation_id: &str,
    entered_paths: &[String],
    foreign_reservation_ids: &[String],
    incident_id: &str,
    commit_context: &str,
) -> (text: String)
    ensures
        text@ == incursion_sentence(
            reservation_id@,
            texts(entered_paths@),
            texts(foreign_reservation_ids@),
            incident_id@,
        ) + commit_context@ + " STOP. Resolve with `cargo-berth resolve "@ + reservation_id@
            + " --incursion "@ + incident_id@ + "` before making more changes."@,
{
    let mut text = incursion_text(reservation_id, entered_paths, foreign_reservation_ids, incident_id);
    text.append(commit_context);
    text.append(" STOP. Resolve with `cargo-berth resolve ");
    text.append(reservation_id);
    text.append(" --incursion ");
    text.append(incident_id);
    text.append("` before making more changes.");
    text
}

/// How many incursions remain, in words.
pub open spec fn outstanding_incursions_phrase(count: nat) -> Seq<char> {
    if count == 1 {
        "1 outstanding incursion"@
    } else {
        decimal(count) + " outstanding incursions"@
    }
}

/// Render one board incursion with its current single-incident and all-incident actions.
pub fn outstanding_board_incursion_block(
    reservation_id: &str,
    entered_paths: &[String],
    foreign_reservation_ids: &[String],
    incident_id: &str,
    resolution: &IncursionResolutionGuidance<'_>,
) -> (text: String)
    ensures
        text@ == incursion_sentence(
            reservation_id@,
            texts(entered_paths@),
            texts(foreign_reservation_ids@),
            incident_id@,
        ) + " STOP. Reservation "@ + reservation_id@ + " has "@ + outstanding_incursions_phrase(
            resolution.outstanding_count as nat,
        ) + ". Resolve this incident with `cargo-berth "@ + resolution.incident_action@
            + "` or every outstanding incursion with `cargo-berth "@ + resolution.every_action@
            + "` before making more changes."@,
{
    let mut text = incursion_text(reservation_id, entered_paths, foreign_reservation_ids, incident_id);
    let outstanding_incursions = if resolution.outstanding_count == 1 {
        "1 outstanding incursion".to_owned()
    } else {
        let mut phrase = decimal_text(resolution.outstanding_count as u64);
        phrase.append(" outstanding incursions");
        phrase
    };
    text.append(" STOP. Reservation ");
    text.append(reservation_id);
    text.append(" has ");
    text.append(outstanding_incursions.as_str());
    text.append(". Resolve this incident with `cargo-berth ");
    text.append(resolution.incident_action);
    text.append("` or every outstanding incursion with `cargo-berth ");
    text.append(resolution.every_action);
    text.append("` before making more changes.");
    text
}

/// Render one bypass marker recovered and filed during the current board read.
pub fn recovered_bypass_block(marker_name: &str) -> (text: String)
    ensures
        text@ == "Recovered bypass marker "@ + marker_name@
            + ": a bypass recorded earlier while the journal was unwritable has now been filed in the journal."@,
{
    concat3(
        "Recovered bypass marker ",
        marker_name,
        ": a bypass recorded earlier while the journal was unwritable has now been filed in the journal.",
    )
}

/// Render the complete decision document for a blocked edit.
pub fn blocked_edit_refusal_block(detail: &str) -> (block: RenderedOutputBlock)
    ensures
        block_reads(
            block,
            "cargo-berth refused this edit because another reservation holds the requested paths."@,
            detail@,
        ),
{
    engine_message_block(
        "cargo-berth refused this edit because another reservation holds the requested paths.",
        detail,
    )
}

/// Render guidance for a successful edit whose session mapping is not reusable.
pub fn degraded_session_mapping_block(detail: &str) -> (block: RenderedOutputBlock)
    ensures
        block_reads(
            block,
            "cargo-berth protected this edit, but later commands cannot reuse its session mapping."@,
            detail@,
        ),
{
    engine_message_block(
        "cargo-berth protected this edit, but later commands cannot reuse its session mapping.",
        detail,
    )
}

/// Render the refusal used when a live board cannot establish incursion membership.
pub fn unverifiable_incursion_block() -> (block: RenderedOutputBlock)
    ensures
        block_reads(
            block,
            "cargo-berth could not verify the live incursion state."@,
            "STOP: the PostToolUse drift response named an incursion, but a current board read could not confirm whether it still needs resolution."@,
        ),
{
    engine_message_block(
        "cargo-berth could not verify the live incursion state.",
        "STOP: the PostToolUse drift response named an incursion, but a current board read could not confirm whether it still needs resolution.",
    )
}

/// Render a released reservation whose integration evidence no longer proves its work is in trunk.
pub fn lost_integration_evidence_block(detail: &str) -> (block: RenderedOutputBlock)
    ensures
        block_reads(
            block,
            "cargo-berth detected lost integration evidence for released work."@,
            detail@,
        ),
{
    engine_message_block("cargo-berth detected lost integration evidence for released work.", detail)
}

/// Render every actionable board notice with the count computed from the rendered entries.
pub fn actionable_board_notices_block(details: &[String]) -> (block: RenderedOutputBlock)
    ensures
        block_reads(
            block,
            "cargo-berth found "@ + decimal(details@.len()) + " actionable coordination notice(s)."@,
            joined(texts(details@), "\n"@),
        ),
{
    let count = decimal_text(details.len() as u64);
    RenderedOutputBlock {
        summary: concat3("cargo-berth found ", count.as_str(), " actionable coordination notice(s)."),
        detail: join(details, "\n"),
    }
}

/// Render an orphaned outstanding reservation and its evidence-supported recovery commands.
pub fn orphaned_outstanding_block(
    reservation_id: &str,
    protected_tip: &str,
    recoverability: &str,
    recovery_commands: &[String],
) -> (text: String)
    ensures
        text@ == "ORPHANED OUTSTANDING: reservation "@ + reservation_id@ + " at protected tip "@
            + protected_tip@ + " is "@ + recoverability@ + ". Answer it with "@ + joined(
            framed(texts(recovery_commands@), "`cargo-berth "@, "`"@),
            " or "@,
        ) + " after reviewing the work."@,
{
    let quoted = frame_each(recovery_commands, "`cargo-berth ", "`");
    let commands = join(quoted.as_slice(), " or ");
    let mut text = concat2("ORPHANED OUTSTANDING: reservation ", reservation_id);
    text.append(" at protected tip ");
    text.append(protected_tip);
    text.append(" is ");
    text.append(recoverability);
    text.append(". Answer it with ");
    text.append(commands.as_str());
    text.append(" after reviewing the work.");
    text
}

} // verus!
