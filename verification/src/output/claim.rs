//! Claim and edit-check responses: the holders that block a request, the answers the caller
//! may choose, and the proposals that await approval.
use vstd::prelude::*;

use crate::ids::ReservationId;
use crate::reservation::conflict::activity_text;
use crate::reservation::conflict::branch_label;
use crate::reservation::conflict::ClaimSource;
use crate::reservation::conflict::ReservationConflict;
use crate::reservation::conflict::ReservationPurpose;
use crate::scope::ReservationScope;
use crate::scope::ReservationScopeSet;
use crate::text::concat2;
use crate::text::concat3;
use crate::text::decimal;
use crate::text::decimal_text;
use crate::output::hook::engine_result_presentation;
use crate::output::hook::presents;
use crate::output::payload::OverlapEscalationPayload;
use crate::output::payload::CheckPayload;
use crate::output::payload::ClaimPayload;
use crate::output::payload::FirstTouchReservationAcquisition;
use crate::output::payload::FirstTouchReservationAcquisitionKind;
use crate::output::payload::FirstTouchReservationSelectionPayload;
use crate::output::payload::OutputFacts;
use crate::output::envelope::answers;
use crate::output::envelope::OutputEnvelope;
use crate::output::envelope::OutputPayload;
use crate::output::envelope::OUTPUT_CONTRACT_VERSION;
use crate::output::release::message_with_session_mapping_publication;
use crate::output::release::session_mapping_publication_presentation;
use crate::output::release::with_publication_note;
use crate::output::status::BerthExit;
use crate::output::status::CommandVerb;
use crate::output::status::OutputStatus;
use crate::presentation::ambiguous_first_touch_block;
use crate::presentation::ambiguous_first_touch_detail;
use crate::presentation::blocked_edit_refusal_block;
use crate::presentation::shows_only;
use crate::ids::clone_texts;
use crate::presentation::EnvelopePresentation;
use crate::text::join;
use crate::text::joined;
use crate::text::texts;

verus! {

/// A scope written as `kind:path`.
pub open spec fn scope_label(scope: ReservationScope) -> Seq<char> {
    (if scope.kind is File {
        "file"@
    } else {
        "tree"@
    }) + ":"@ + scope.path@
}

/// Scopes written as `kind:path`, comma separated.
pub open spec fn rendered_scopes(scopes: Seq<ReservationScope>) -> Seq<char> {
    joined(scopes.map_values(|scope: ReservationScope| scope_label(scope)), ", "@)
}

/// Write scopes as `kind:path`, comma separated.
pub fn render_scopes(scopes: &ReservationScopeSet) -> (text: String)
    ensures
        text@ == rendered_scopes(scopes.scopes()),
{
    let slice = scopes.as_slice();
    let mut labels: Vec<String> = Vec::new();
    let mut index: usize = 0;
    while index < slice.len()
        invariant
            index <= slice@.len(),
            texts(labels@) =~= slice@.take(index as int).map_values(
                |scope: ReservationScope| scope_label(scope),
            ),
        decreases slice@.len() - index,
    {
        let scope = &slice[index];
        let label = concat3(scope.kind.label(), ":", scope.path.as_str());
        let ghost before = labels@;
        labels.push(label);
        proof {
            assert(texts(labels@) =~= texts(before).push(label@));
            assert(slice@.take(index + 1) =~= slice@.take(index as int).push(*scope));
        }
        index += 1;
        assert(texts(labels@) =~= slice@.take(index as int).map_values(
            |scope: ReservationScope| scope_label(scope),
        ));
    }
    assert(slice@.take(index as int) =~= slice@);
    join(labels.as_slice(), ", ")
}

/// How a reservation was acquired, in words.
pub open spec fn source_text(claim_source: ClaimSource) -> Seq<char> {
    match claim_source {
        ClaimSource::WorkPlan { plan, phase } => "plan "@ + plan@ + ", phase "@ + phase@,
        ClaimSource::FirstTouch => "first-touch edit"@,
        ClaimSource::Explicit => "explicit claim"@,
    }
}

/// Describe how a reservation was acquired.
pub fn source_description(claim_source: &ClaimSource) -> (text: String)
    ensures
        text@ == source_text(*claim_source),
{
    match claim_source {
        ClaimSource::WorkPlan { plan, phase } => {
            let mut text = concat3("plan ", plan.as_str(), ", phase ");
            text.append(phase.as_str());
            text
        },
        ClaimSource::FirstTouch => "first-touch edit".to_owned(),
        ClaimSource::Explicit => "explicit claim".to_owned(),
    }
}

/// Why a holder protects its paths, in words.
pub open spec fn purpose_text(reservation_purpose: ReservationPurpose) -> Seq<char> {
    match reservation_purpose {
        ReservationPurpose::Explained(explanation) => explanation@,
        ReservationPurpose::NotProvidedByCaller => "no reason provided by caller"@,
    }
}

/// Describe why a holder protects its paths.
pub fn purpose_description(reservation_purpose: &ReservationPurpose) -> (text: String)
    ensures
        text@ == purpose_text(*reservation_purpose),
{
    match reservation_purpose {
        ReservationPurpose::Explained(explanation) => explanation.clone(),
        ReservationPurpose::NotProvidedByCaller => "no reason provided by caller".to_owned(),
    }
}

/// Which side of an ordering edge the requester takes.
#[derive(Clone, Copy, Debug, PartialEq, Eq, Structural)]
pub enum OrderingDirection {
    /// The requester integrates before the holder.
    RequesterBeforeHolder,
    /// The holder integrates before the requester.
    HolderBeforeRequester,
}

/// A reasoned answer to an overlap with one named holder.
#[derive(Debug, PartialEq, Eq)]
pub enum PermissiveOverlapAnswer {
    /// Record an ordering edge with the holder.
    Sequence {
        /// The holder.
        blocker: ReservationId,
        /// Which side integrates first.
        direction: OrderingDirection,
    },
    /// Take the paths and leave the order unresolved.
    Defer {
        /// The holder.
        blocker: ReservationId,
    },
    /// Take the paths over the holder.
    Override {
        /// The holder.
        blocker: ReservationId,
    },
}

/// The ordering an overlap answer records, in words.
pub open spec fn direction_text(answer: PermissiveOverlapAnswer) -> Seq<char> {
    match answer {
        PermissiveOverlapAnswer::Sequence { blocker, direction } => match direction {
            OrderingDirection::RequesterBeforeHolder => "requester before holder "@ + blocker@,
            OrderingDirection::HolderBeforeRequester => "holder "@ + blocker@ + " before requester"@,
        },
        PermissiveOverlapAnswer::Defer { blocker } => "none declared; deferred with holder "@
            + blocker@,
        PermissiveOverlapAnswer::Override { blocker } => "none declared; overridden with holder "@
            + blocker@,
    }
}

/// Describe the ordering an overlap answer records.
pub fn overlap_direction_description(answer: &PermissiveOverlapAnswer) -> (text: String)
    ensures
        text@ == direction_text(*answer),
{
    match answer {
        PermissiveOverlapAnswer::Sequence { blocker, direction } => match direction {
            OrderingDirection::RequesterBeforeHolder => concat2(
                "requester before holder ",
                blocker.as_str(),
            ),
            OrderingDirection::HolderBeforeRequester => concat3(
                "holder ",
                blocker.as_str(),
                " before requester",
            ),
        },
        PermissiveOverlapAnswer::Defer { blocker } => concat2(
            "none declared; deferred with holder ",
            blocker.as_str(),
        ),
        PermissiveOverlapAnswer::Override { blocker } => concat2(
            "none declared; overridden with holder ",
            blocker.as_str(),
        ),
    }
}

/// Every fact the caller needs about one holder, one per line.
pub open spec fn holder_facts(conflict: ReservationConflict) -> Seq<char> {
    "Holder `"@ + conflict.reservation_id@ + "`:\n- coordination run id: `"@
        + conflict.holder_run_id@ + "`\n- worktree: `"@ + conflict.holder_worktree_id@
        + "`\n- branch or detached head: `"@ + branch_label(conflict.head_snapshot)
        + "`\n- claimed at: `"@ + conflict.claimed_at@ + "`\n- activity: "@ + activity_text(
        conflict.activity,
    ) + "\n- acquisition source: "@ + source_text(conflict.source)
        + "\n- reservation purpose: "@ + purpose_text(conflict.purpose)
        + "\n- exact shared scopes: "@ + rendered_scopes(conflict.overlapping_scopes.scopes())
}

/// Every holder's facts, separated by blank lines.
pub open spec fn all_holder_facts(conflicts: Seq<ReservationConflict>) -> Seq<char> {
    joined(
        conflicts.map_values(|conflict: ReservationConflict| holder_facts(conflict)),
        "\n\n"@,
    )
}

/// Write the facts about one holder.
fn one_holder_facts(conflict: &ReservationConflict) -> (text: String)
    ensures
        text@ == holder_facts(*conflict),
{
    let mut text = concat3("Holder `", conflict.reservation_id.as_str(), "`:\n- coordination run id: `");
    text.append(conflict.holder_run_id.as_str());
    text.append("`\n- worktree: `");
    text.append(conflict.holder_worktree_id().as_str());
    text.append("`\n- branch or detached head: `");
    let branch = conflict.holder_branch();
    text.append(branch.as_str());
    text.append("`\n- claimed at: `");
    text.append(conflict.claimed_at().as_str());
    text.append("`\n- activity: ");
    let activity = conflict.holder_activity_description();
    text.append(activity.as_str());
    text.append("\n- acquisition source: ");
    let source = source_description(&conflict.source);
    text.append(source.as_str());
    text.append("\n- reservation purpose: ");
    let purpose = purpose_description(&conflict.purpose);
    text.append(purpose.as_str());
    text.append("\n- exact shared scopes: ");
    let scopes = render_scopes(&conflict.overlapping_scopes);
    text.append(scopes.as_str());
    assert(text@ =~= holder_facts(*conflict));
    text
}

/// Write every holder's facts, separated by blank lines.
pub fn claim_holder_facts(conflicts: &[ReservationConflict]) -> (text: String)
    ensures
        text@ == all_holder_facts(conflicts@),
{
    let mut facts: Vec<String> = Vec::new();
    let mut index: usize = 0;
    while index < conflicts.len()
        invariant
            index <= conflicts@.len(),
            texts(facts@) =~= conflicts@.take(index as int).map_values(
                |conflict: ReservationConflict| holder_facts(conflict),
            ),
        decreases conflicts@.len() - index,
    {
        let fact = one_holder_facts(&conflicts[index]);
        let ghost before = facts@;
        facts.push(fact);
        proof {
            assert(texts(facts@) =~= texts(before).push(fact@));
            assert(conflicts@.take(index + 1) =~= conflicts@.take(index as int).push(
                conflicts@[index as int],
            ));
        }
        index += 1;
        assert(texts(facts@) =~= conflicts@.take(index as int).map_values(
            |conflict: ReservationConflict| holder_facts(conflict),
        ));
    }
    assert(conflicts@.take(index as int) =~= conflicts@);
    join(facts.as_slice(), "\n\n")
}

/// The requested scopes an edit is blocked for, followed by every holder's facts.
pub open spec fn edit_holder_facts(
    requested_scopes: Seq<ReservationScope>,
    conflicts: Seq<ReservationConflict>,
) -> Seq<char> {
    "The requested edit is blocked for these scopes: "@ + rendered_scopes(requested_scopes)
        + ".\n\n"@ + all_holder_facts(conflicts)
}

/// Write the requested scopes an edit is blocked for, followed by every holder's facts.
pub fn blocked_edit_holder_facts(
    requested_scopes: &ReservationScopeSet,
    conflicts: &[ReservationConflict],
) -> (text: String)
    ensures
        text@ == edit_holder_facts(requested_scopes.scopes(), conflicts@),
{
    let scopes = render_scopes(requested_scopes);
    let facts = claim_holder_facts(conflicts);
    let mut text = concat3(
        "The requested edit is blocked for these scopes: ",
        scopes.as_str(),
        ".\n\n",
    );
    text.append(facts.as_str());
    text
}

/// The answers a blocked caller may choose, and what each one does.
pub const BLOCKED_EDIT_ANSWER_GUIDANCE: &'static str = "Choose exactly one answer for one named holder. The first four are reasoned `cargo-berth claim` answers, and each requires a non-empty reason. Run the `cargo-berth` invocation shown for each answer from the repository:\n\n1. **Land before the holder** \u{2014} `cargo-berth claim <paths...> --before <holder-reservation-id> --overlap-why \"<reason>\"`. The requester takes the paths and integrates first; the holder remains held until the requester is on trunk. Use this when the holder will build on the requester's change.\n2. **Land after the holder** \u{2014} `cargo-berth claim <paths...> --after <holder-reservation-id> --overlap-why \"<reason>\"`. The requester takes the paths and integrates second; it remains held until the holder's protected tip is on trunk and is an ancestor of the requester's `HEAD`. Use this when the requester will build on the holder.\n3. **Defer the order** \u{2014} `cargo-berth claim <paths...> --defer <holder-reservation-id> --overlap-why \"<reason>\"`. The requester takes the paths, no ordering edge is added, and the unresolved overlap remains visible on the board until someone later sequences it.\n4. **Override** \u{2014} `cargo-berth claim <paths...> --override <holder-reservation-id> --overlap-why \"<reason>\"`. The requester takes the paths, no ordering edge is added, and the override plus its reason remains visible on the board.\n5. **Leave it alone.** Run no engine command, append nothing, and work elsewhere.\n\nOnly **Land before the holder** and **Land after the holder** add an ordering edge. Defer and override add no edge; their recorded overlap remains visible on the board.\n\nAn answered claim only produces a proposal at exit 3. Show that proposal and wait for explicit approval in a later turn before submitting its exact `--proposal` token. Never produce and submit a token in the same turn.\n\nThe trunk-gate bypass is not an edit answer and cannot permit this edit.";

/// The answers a blocked caller may choose, and what each one does.
pub fn blocked_edit_answer_guidance() -> (guidance: &'static str)
    ensures
        guidance@ == BLOCKED_EDIT_ANSWER_GUIDANCE@,
{
    BLOCKED_EDIT_ANSWER_GUIDANCE
}

/// The first-touch holders among the conflicts, in order.
pub open spec fn first_touch_ids(conflicts: Seq<ReservationConflict>) -> Seq<Seq<char>>
    decreases conflicts.len(),
{
    if conflicts.len() == 0 {
        Seq::empty()
    } else {
        let earlier = first_touch_ids(conflicts.drop_last());
        if conflicts.last().source is FirstTouch {
            earlier.push(conflicts.last().reservation_id@)
        } else {
            earlier
        }
    }
}

/// Collect the first-touch holders among the conflicts, in order.
fn first_touch_holder_ids(conflicts: &[ReservationConflict]) -> (ids: Vec<String>)
    ensures
        texts(ids@) == first_touch_ids(conflicts@),
{
    let mut ids: Vec<String> = Vec::new();
    let mut index: usize = 0;
    while index < conflicts.len()
        invariant
            index <= conflicts@.len(),
            texts(ids@) =~= first_touch_ids(conflicts@.take(index as int)),
        decreases conflicts@.len() - index,
    {
        assert(conflicts@.take(index + 1).drop_last() =~= conflicts@.take(index as int));
        if let ClaimSource::FirstTouch = conflicts[index].source {
            let ghost before = ids@;
            ids.push(conflicts[index].reservation_id.clone());
            assert(texts(ids@) =~= texts(before).push(conflicts@[index as int].reservation_id@));
        }
        index += 1;
    }
    assert(conflicts@.take(index as int) =~= conflicts@);
    ids
}

/// The commands that clear one first-touch holder, as a list item.
pub open spec fn disposition_line(reservation_id: Seq<char>) -> Seq<char> {
    "- Reservation `"@ + reservation_id + "`: `cargo-berth release "@ + reservation_id
        + "` once the work is on trunk, `cargo-berth resolve "@ + reservation_id
        + " --integrated-as <TRUNK_OID>` after that release when git cannot prove the integration, or `cargo-berth resolve "@
        + reservation_id + " --abandon --why <WHY>` when the work was discarded."@
}

/// Which claim document explains how a first-touch holder is cleared.
#[derive(Clone, Copy, Debug, PartialEq, Eq, Structural)]
pub enum FirstTouchHolderRecoveryContext {
    /// A refusal presents overlap answers and holder recovery separately.
    Refusal,
    /// A proposal presents the selected answer without the refusal's answer menu.
    Proposal,
}

/// Whether blocked first-touch holders need a disposition description.
#[derive(Debug, PartialEq, Eq)]
pub enum FirstTouchHolderRecoveryDescription {
    /// None of the blocking reservations came from a first-touch edit.
    NotApplicable,
    /// The description names how each first-touch holder can clear its reservation.
    Described(String),
}

/// Whether a description is absent exactly when there is no text, and otherwise says it.
pub open spec fn describes(description: FirstTouchHolderRecoveryDescription, text: Option<Seq<char>>) -> bool {
    match text {
        None => description is NotApplicable,
        Some(text) => description matches FirstTouchHolderRecoveryDescription::Described(said)
            && said@ == text,
    }
}

/// How first-touch holders are cleared, for the document a context names.
pub open spec fn holder_recovery_text(
    conflicts: Seq<ReservationConflict>,
    context: FirstTouchHolderRecoveryContext,
) -> Option<Seq<char>> {
    let ids = first_touch_ids(conflicts);
    if ids.len() == 0 {
        None
    } else {
        Some(
            "A first-touch holder was acquired by whichever edit reached the paths first, so it may protect no work at all. "@
                + (if context is Refusal {
                "An overlap answer does not clear one"@
            } else {
                "The proposal does not clear one"@
            }) + "; these commands do, and they belong to the holder:\n\n"@ + joined(
                ids.map_values(|id: Seq<char>| disposition_line(id)),
                "\n"@,
            )
                + "\n\n`release` records the protected checkpoint and must run from the holder's own worktree. Both `resolve` dispositions run from anywhere but assert facts about the holder's work, so ask the holder before recording one."@,
        )
    }
}

/// Describe the commands that clear each first-touch holder.
pub fn first_touch_holder_recovery_guidance(
    conflicts: &[ReservationConflict],
    context: FirstTouchHolderRecoveryContext,
) -> (description: FirstTouchHolderRecoveryDescription)
    ensures
        describes(description, holder_recovery_text(conflicts@, context)),
{
    let ids = first_touch_holder_ids(conflicts);
    if ids.len() == 0 {
        return FirstTouchHolderRecoveryDescription::NotApplicable;
    }
    let mut lines: Vec<String> = Vec::new();
    let mut index: usize = 0;
    while index < ids.len()
        invariant
            index <= ids@.len(),
            texts(lines@) =~= texts(ids@).take(index as int).map_values(
                |id: Seq<char>| disposition_line(id),
            ),
        decreases ids@.len() - index,
    {
        let id = ids[index].as_str();
        let mut line = concat3("- Reservation `", id, "`: `cargo-berth release ");
        line.append(id);
        line.append("` once the work is on trunk, `cargo-berth resolve ");
        line.append(id);
        line.append(
            " --integrated-as <TRUNK_OID>` after that release when git cannot prove the integration, or `cargo-berth resolve ",
        );
        line.append(id);
        line.append(" --abandon --why <WHY>` when the work was discarded.");
        let ghost before = lines@;
        lines.push(line);
        proof {
            assert(line@ =~= disposition_line(ids@[index as int]@));
            assert(texts(lines@) =~= texts(before).push(line@));
            assert(texts(ids@).take(index + 1) =~= texts(ids@).take(index as int).push(
                ids@[index as int]@,
            ));
        }
        index += 1;
    }
    assert(texts(ids@).take(index as int) =~= texts(ids@));
    let listed = join(lines.as_slice(), "\n");
    let clearing = match context {
        FirstTouchHolderRecoveryContext::Refusal => "An overlap answer does not clear one",
        FirstTouchHolderRecoveryContext::Proposal => "The proposal does not clear one",
    };
    let mut text = concat3(
        "A first-touch holder was acquired by whichever edit reached the paths first, so it may protect no work at all. ",
        clearing,
        "; these commands do, and they belong to the holder:\n\n",
    );
    text.append(listed.as_str());
    text.append(
        "\n\n`release` records the protected checkpoint and must run from the holder's own worktree. Both `resolve` dispositions run from anywhere but assert facts about the holder's work, so ask the holder before recording one.",
    );
    assert(text@ =~= holder_recovery_text(conflicts@, context)->0);
    FirstTouchHolderRecoveryDescription::Described(text)
}

/// Add how first-touch holders are cleared to a document's sections, when any holder is one.
pub fn append_first_touch_holder_recovery_guidance(
    sections: &mut Vec<String>,
    conflicts: &[ReservationConflict],
    context: FirstTouchHolderRecoveryContext,
)
    ensures
        texts(final(sections)@) == match holder_recovery_text(conflicts@, context) {
            None => texts(old(sections)@),
            Some(guidance) => texts(old(sections)@).push(guidance),
        },
{
    match first_touch_holder_recovery_guidance(conflicts, context) {
        FirstTouchHolderRecoveryDescription::NotApplicable => {},
        FirstTouchHolderRecoveryDescription::Described(guidance) => {
            let ghost before = sections@;
            sections.push(guidance);
            assert(texts(sections@) =~= texts(before).push(guidance@));
        },
    }
}

/// The sentence naming the verbs that clear first-touch holders, if any holder is one.
pub open spec fn first_touch_disposition_text(conflicts: Seq<ReservationConflict>) -> Option<Seq<char>> {
    let ids = first_touch_ids(conflicts);
    if ids.len() == 0 {
        None
    } else if ids.len() == 1 {
        Some(
            "Reservation "@ + ids[0] + " came from a first-touch edit, so its holder clears it with cargo-berth release "@
                + ids[0] + " once the work is on trunk, cargo-berth resolve "@ + ids[0]
                + " --integrated-as <TRUNK_OID> after that release when git cannot prove the integration, or cargo-berth resolve "@
                + ids[0] + " --abandon --why <WHY> when the work is discarded."@,
        )
    } else {
        Some(
            "Reservations "@ + joined(ids, ", "@)
                + " came from first-touch edits, so a holder clears one with cargo-berth release <RESERVATION_ID> once the work is on trunk, cargo-berth resolve <RESERVATION_ID> --integrated-as <TRUNK_OID> after that release when git cannot prove the integration, or cargo-berth resolve <RESERVATION_ID> --abandon --why <WHY> when the work is discarded."@,
        )
    }
}

/// Name the verbs that clear a first-touch holder, which no other message reaches.
pub fn first_touch_disposition_description(conflicts: &[ReservationConflict]) -> (description:
    FirstTouchHolderRecoveryDescription)
    ensures
        describes(description, first_touch_disposition_text(conflicts@)),
{
    let ids = first_touch_holder_ids(conflicts);
    if ids.len() == 0 {
        return FirstTouchHolderRecoveryDescription::NotApplicable;
    }
    if ids.len() == 1 {
        let id = ids[0].as_str();
        let mut text = concat3(
            "Reservation ",
            id,
            " came from a first-touch edit, so its holder clears it with cargo-berth release ",
        );
        text.append(id);
        text.append(" once the work is on trunk, cargo-berth resolve ");
        text.append(id);
        text.append(
            " --integrated-as <TRUNK_OID> after that release when git cannot prove the integration, or cargo-berth resolve ",
        );
        text.append(id);
        text.append(" --abandon --why <WHY> when the work is discarded.");
        assert(text@ =~= first_touch_disposition_text(conflicts@)->0);
        return FirstTouchHolderRecoveryDescription::Described(text);
    }
    let listed = join(ids.as_slice(), ", ");
    let text = concat3(
        "Reservations ",
        listed.as_str(),
        " came from first-touch edits, so a holder clears one with cargo-berth release <RESERVATION_ID> once the work is on trunk, cargo-berth resolve <RESERVATION_ID> --integrated-as <TRUNK_OID> after that release when git cannot prove the integration, or cargo-berth resolve <RESERVATION_ID> --abandon --why <WHY> when the work is discarded.",
    );
    FirstTouchHolderRecoveryDescription::Described(text)
}

/// One holder in a list of several, described in a clause.
pub open spec fn holder_clause(conflict: ReservationConflict) -> Seq<char> {
    "reservation "@ + conflict.reservation_id@ + " on "@ + branch_label(conflict.head_snapshot)
        + " ("@ + source_text(conflict.source) + ", "@ + purpose_text(conflict.purpose)
        + ")"@ + " for coordination run "@ + conflict.holder_run_id@
}

/// The sentence naming who holds overlapping paths, and what the caller can do.
pub open spec fn overlap_holder_text(conflicts: Seq<ReservationConflict>) -> Seq<char> {
    if conflicts.len() == 0 {
        "A foreign reservation overlaps the requested paths; reduce the requested scopes or coordinate with the holder, then retry."@
    } else if conflicts.len() == 1 {
        "Reservation "@ + conflicts[0].reservation_id@ + " on "@ + branch_label(
            conflicts[0].head_snapshot,
        ) + " ("@ + source_text(conflicts[0].source) + ", "@ + purpose_text(conflicts[0].purpose)
            + ")"@ + " holds overlapping paths for "@ + conflicts[0].holder_run_id@
            + "; reduce the requested scopes or coordinate with the holder, then retry."@
    } else {
        decimal(conflicts.len()) + " reservations hold overlapping paths: "@ + joined(
            conflicts.map_values(|conflict: ReservationConflict| holder_clause(conflict)),
            "; "@,
        ) + "; reduce the requested scopes or coordinate with the holders, then retry."@
    }
}

/// Write the branch, source and purpose of a holder as `on BRANCH (SOURCE, PURPOSE)`.
fn holder_provenance(conflict: &ReservationConflict) -> (text: String)
    ensures
        text@ == " on "@ + branch_label(conflict.head_snapshot) + " ("@ + source_text(
            conflict.source,
        ) + ", "@ + purpose_text(conflict.purpose) + ")"@,
{
    let branch = conflict.holder_branch();
    let source = source_description(&conflict.source);
    let purpose = purpose_description(&conflict.purpose);
    let mut text = concat3(" on ", branch.as_str(), " (");
    text.append(source.as_str());
    text.append(", ");
    text.append(purpose.as_str());
    text.append(")");
    text
}

/// Name who holds overlapping paths, and what the caller can do.
pub fn overlap_holder_description(conflicts: &[ReservationConflict]) -> (text: String)
    ensures
        text@ == overlap_holder_text(conflicts@),
{
    if conflicts.len() == 0 {
        return "A foreign reservation overlaps the requested paths; reduce the requested scopes or coordinate with the holder, then retry.".to_owned();
    }
    if conflicts.len() == 1 {
        let conflict = &conflicts[0];
        let provenance = holder_provenance(conflict);
        let mut text = concat3("Reservation ", conflict.reservation_id.as_str(), provenance.as_str());
        text.append(" holds overlapping paths for ");
        text.append(conflict.holder_run_id.as_str());
        text.append("; reduce the requested scopes or coordinate with the holder, then retry.");
        assert(text@ =~= overlap_holder_text(conflicts@));
        return text;
    }
    let mut clauses: Vec<String> = Vec::new();
    let mut index: usize = 0;
    while index < conflicts.len()
        invariant
            index <= conflicts@.len(),
            texts(clauses@) =~= conflicts@.take(index as int).map_values(
                |conflict: ReservationConflict| holder_clause(conflict),
            ),
        decreases conflicts@.len() - index,
    {
        let conflict = &conflicts[index];
        let provenance = holder_provenance(conflict);
        let mut clause = concat3("reservation ", conflict.reservation_id.as_str(), provenance.as_str());
        clause.append(" for coordination run ");
        clause.append(conflict.holder_run_id.as_str());
        let ghost before = clauses@;
        clauses.push(clause);
        proof {
            assert(clause@ =~= holder_clause(*conflict));
            assert(texts(clauses@) =~= texts(before).push(clause@));
            assert(conflicts@.take(index + 1) =~= conflicts@.take(index as int).push(*conflict));
        }
        index += 1;
    }
    assert(conflicts@.take(index as int) =~= conflicts@);
    let holders = join(clauses.as_slice(), "; ");
    let count = decimal_text(conflicts.len() as u64);
    let mut text = concat3(count.as_str(), " reservations hold overlapping paths: ", holders.as_str());
    text.append("; reduce the requested scopes or coordinate with the holders, then retry.");
    text
}

/// The message a blocked request reports: who holds the paths, and how first-touch holders
/// clear them.
pub open spec fn blocked_text(conflicts: Seq<ReservationConflict>) -> Seq<char> {
    match first_touch_disposition_text(conflicts) {
        None => overlap_holder_text(conflicts),
        Some(disposition) => overlap_holder_text(conflicts) + " "@ + disposition,
    }
}

/// Write the message a blocked request reports.
pub fn blocked_message(conflicts: &[ReservationConflict]) -> (text: String)
    ensures
        text@ == blocked_text(conflicts@),
{
    let mut message = overlap_holder_description(conflicts);
    match first_touch_disposition_description(conflicts) {
        FirstTouchHolderRecoveryDescription::NotApplicable => {},
        FirstTouchHolderRecoveryDescription::Described(disposition) => {
            message.append(" ");
            message.append(disposition.as_str());
        },
    }
    message
}

/// The closing section of a refusal with several holders.
pub open spec fn several_holders_text() -> Seq<char> {
    "More than one holder remains. Narrow the requested scopes before asking for a proposal, because one proposal binds exactly one blocker."@
}

/// The sections of a refusal: the holder facts, the answer menu, first-touch recovery, and a
/// note when several holders remain.
pub open spec fn refusal_sections(facts: Seq<char>, conflicts: Seq<ReservationConflict>) -> Seq<
    Seq<char>,
> {
    let sections = seq![facts, BLOCKED_EDIT_ANSWER_GUIDANCE@];
    let with_recovery = match holder_recovery_text(conflicts, FirstTouchHolderRecoveryContext::Refusal) {
        None => sections,
        Some(guidance) => sections.push(guidance),
    };
    if conflicts.len() > 1 {
        with_recovery.push(several_holders_text())
    } else {
        with_recovery
    }
}

/// Assemble a refusal document from its holder facts.
fn refusal_detail(facts: String, conflicts: &[ReservationConflict]) -> (text: String)
    ensures
        text@ == joined(refusal_sections(facts@, conflicts@), "\n\n"@),
{
    let ghost facts_text = facts@;
    let mut sections: Vec<String> = Vec::new();
    sections.push(facts);
    sections.push(blocked_edit_answer_guidance().to_owned());
    assert(texts(sections@) =~= seq![facts_text, BLOCKED_EDIT_ANSWER_GUIDANCE@]);
    append_first_touch_holder_recovery_guidance(
        &mut sections,
        conflicts,
        FirstTouchHolderRecoveryContext::Refusal,
    );
    if conflicts.len() > 1 {
        let ghost before = sections@;
        sections.push(
            "More than one holder remains. Narrow the requested scopes before asking for a proposal, because one proposal binds exactly one blocker.".to_owned(),
        );
        assert(texts(sections@) =~= texts(before).push(several_holders_text()));
    }
    assert(texts(sections@) =~= refusal_sections(facts_text, conflicts@));
    join(sections.as_slice(), "\n\n")
}

/// Write the refusal document for a blocked claim.
pub fn blocked_claim_refusal_detail(conflicts: &[ReservationConflict]) -> (text: String)
    ensures
        text@ == joined(refusal_sections(all_holder_facts(conflicts@), conflicts@), "\n\n"@),
{
    let facts = claim_holder_facts(conflicts);
    refusal_detail(facts, conflicts)
}

/// Write the refusal document for a blocked edit.
pub fn blocked_edit_refusal_detail(
    requested_scopes: &ReservationScopeSet,
    conflicts: &[ReservationConflict],
) -> (text: String)
    ensures
        text@ == joined(
            refusal_sections(edit_holder_facts(requested_scopes.scopes(), conflicts@), conflicts@),
            "\n\n"@,
        ),
{
    let facts = blocked_edit_holder_facts(requested_scopes, conflicts);
    refusal_detail(facts, conflicts)
}

/// The sections of an overlap proposal awaiting approval.
pub open spec fn proposal_sections(escalation: OverlapEscalationPayload) -> Seq<Seq<char>> {
    let sections = seq![
        all_holder_facts(escalation.conflicts@),
        "- selected direction: "@ + direction_text(escalation.answer)
            + ".\n- authorization reason: "@ + escalation.authorization_reason@
            + ".\n- consequence: "@ + escalation.consequence@
            + ".\n- proposal: after explicit approval, repeat the claim with the selected answer and supply the exact transient token through `--proposal`.\n- transient token:\n\n`"@
            + escalation.proposal_token@ + "`"@,
    ];
    match holder_recovery_text(escalation.conflicts@, FirstTouchHolderRecoveryContext::Proposal) {
        None => sections,
        Some(guidance) => sections.push(guidance),
    }
}

/// Present an overlap proposal that awaits explicit approval.
pub fn claim_authorization_presentation(escalation: &OverlapEscalationPayload) -> (presentation:
    EnvelopePresentation)
    ensures
        presents(
            presentation,
            "cargo-berth prepared an overlap proposal that awaits explicit approval."@,
            joined(proposal_sections(*escalation), "\n\n"@),
        ),
{
    let direction = overlap_direction_description(&escalation.answer);
    let facts = claim_holder_facts(escalation.conflicts.as_slice());
    let mut proposal = concat3("- selected direction: ", direction.as_str(), ".\n- authorization reason: ");
    proposal.append(escalation.authorization_reason.as_str());
    proposal.append(".\n- consequence: ");
    proposal.append(escalation.consequence.as_str());
    proposal.append(
        ".\n- proposal: after explicit approval, repeat the claim with the selected answer and supply the exact transient token through `--proposal`.\n- transient token:\n\n`",
    );
    proposal.append(escalation.proposal_token.as_str());
    proposal.append("`");
    let ghost facts_text = facts@;
    let ghost proposal_text = proposal@;
    let mut sections: Vec<String> = Vec::new();
    sections.push(facts);
    sections.push(proposal);
    assert(texts(sections@) =~= seq![facts_text, proposal_text]);
    append_first_touch_holder_recovery_guidance(
        &mut sections,
        escalation.conflicts.as_slice(),
        FirstTouchHolderRecoveryContext::Proposal,
    );
    assert(texts(sections@) =~= proposal_sections(*escalation));
    let detail = join(sections.as_slice(), "\n\n");
    engine_result_presentation(
        "cargo-berth prepared an overlap proposal that awaits explicit approval.",
        detail.as_str(),
    )
}

/// The holders named by a list of conflicts, in order.
pub open spec fn conflict_ids(conflicts: Seq<ReservationConflict>) -> Seq<ReservationId> {
    conflicts.map_values(|conflict: ReservationConflict| conflict.reservation_id)
}

/// Collect the holders named by a list of conflicts, in order.
pub(crate) fn conflict_reservation_ids(conflicts: &[ReservationConflict]) -> (ids: Vec<ReservationId>)
    ensures
        ids@ == conflict_ids(conflicts@),
{
    let mut ids: Vec<ReservationId> = Vec::new();
    let mut index: usize = 0;
    while index < conflicts.len()
        invariant
            index <= conflicts@.len(),
            ids@ =~= conflict_ids(conflicts@.take(index as int)),
        decreases conflicts@.len() - index,
    {
        ids.push(conflicts[index].reservation_id.clone());
        index += 1;
        assert(ids@ =~= conflict_ids(conflicts@.take(index as int)));
    }
    assert(conflicts@.take(index as int) =~= conflicts@);
    ids
}

/// The message a clear edit check reports for how its reservation holds the paths.
pub open spec fn clear_check_base(kind: FirstTouchReservationAcquisitionKind) -> Seq<char> {
    match kind {
        FirstTouchReservationAcquisitionKind::Appended => "No foreign reservation overlaps the requested paths; a first-touch reservation was acquired."@,
        FirstTouchReservationAcquisitionKind::Widened => "No foreign reservation overlaps the requested paths; the acting run's first-touch reservation was widened."@,
        FirstTouchReservationAcquisitionKind::AlreadyHeld => "No foreign reservation overlaps the requested paths; the acting run already holds them."@,
    }
}

/// The message refusing to guess among several active reservations.
pub open spec fn ambiguity_message(candidates: Seq<ReservationId>) -> Seq<char> {
    "No usable harness-session mapping selects one active reservation among "@ + joined(
        texts(candidates),
        ", "@,
    )
        + ". Run `cargo-berth check --reservation <reservation-id> <path>...` with one candidate id to select it. No reservation was appended or widened, and no harness-session mapping was published."@
}

/// One holder's line in an authorization request.
pub open spec fn authorization_holder_line(
    conflict: ReservationConflict,
    escalation: OverlapEscalationPayload,
) -> Seq<char> {
    "Holder "@ + conflict.reservation_id@ + ": "@ + source_text(conflict.source)
        + "; shared scopes: "@ + rendered_scopes(conflict.overlapping_scopes.scopes())
        + "; direction: "@ + direction_text(escalation.answer) + "; reason: "@
        + escalation.authorization_reason@ + "; consequence: "@ + escalation.consequence@ + "."@
}

/// The message asking for explicit authorization of an overlap proposal.
pub open spec fn authorization_message(escalation: OverlapEscalationPayload) -> Seq<char> {
    let request = "User authorization is required before this overlap can be recorded: "@
        + escalation.consequence@
        + ". Review every holder, shared scope, plan, phase, direction, and reason in the payload, then rerun this claim with --proposal '"@
        + escalation.proposal_token@ + "'."@;
    if escalation.conflicts@.len() == 0 {
        request
    } else {
        request + "\n"@ + joined(
            escalation.conflicts@.map_values(
                |conflict: ReservationConflict| authorization_holder_line(conflict, escalation),
            ),
            "\n"@,
        )
    }
}

impl OutputEnvelope {
    /// Build a blocked claim response that names every holder.
    pub fn blocked_claim(conflicts: Vec<ReservationConflict>) -> (envelope: Self)
        ensures
            answers(
                envelope,
                CommandVerb::Claim,
                OutputStatus::BlockedByOverlap,
                Seq::empty(),
                conflict_ids(conflicts@),
                blocked_text(conflicts@),
            ),
            presents(
                envelope.presentation,
                "cargo-berth refused this edit because another reservation holds the requested paths."@,
                joined(refusal_sections(all_holder_facts(conflicts@), conflicts@), "\n\n"@),
            ),
            envelope.payload.facts == OutputFacts::Claim(ClaimPayload::Blocked { conflicts }),
    {
        let blocked_by = conflict_reservation_ids(conflicts.as_slice());
        let message = blocked_message(conflicts.as_slice());
        let refusal = blocked_claim_refusal_detail(conflicts.as_slice());
        let block = blocked_edit_refusal_block(refusal.as_str());
        let presentation = EnvelopePresentation::single(block);
        assert(shows_only(presentation, block));
        OutputEnvelope {
            output_contract_version: OUTPUT_CONTRACT_VERSION,
            verb: CommandVerb::Claim,
            status: OutputStatus::BlockedByOverlap,
            exit_code: BerthExit::BlockedByOverlap,
            reservations: Vec::new(),
            blocked_by,
            message,
            presentation,
            payload: OutputPayload::from_facts(OutputFacts::Claim(ClaimPayload::Blocked { conflicts })),
        }
    }

    /// Build a blocked mutation-free edit check.
    pub fn blocked_check(scopes: ReservationScopeSet, conflicts: Vec<ReservationConflict>) -> (envelope:
        Self)
        ensures
            answers(
                envelope,
                CommandVerb::Check,
                OutputStatus::BlockedByOverlap,
                Seq::empty(),
                conflict_ids(conflicts@),
                blocked_text(conflicts@),
            ),
            presents(
                envelope.presentation,
                "cargo-berth refused this edit because another reservation holds the requested paths."@,
                joined(
                    refusal_sections(edit_holder_facts(scopes.scopes(), conflicts@), conflicts@),
                    "\n\n"@,
                ),
            ),
            envelope.payload.facts == OutputFacts::Check(CheckPayload::Blocked { scopes, conflicts }),
    {
        let blocked_by = conflict_reservation_ids(conflicts.as_slice());
        let message = blocked_message(conflicts.as_slice());
        let refusal = blocked_edit_refusal_detail(&scopes, conflicts.as_slice());
        let block = blocked_edit_refusal_block(refusal.as_str());
        let presentation = EnvelopePresentation::single(block);
        assert(shows_only(presentation, block));
        OutputEnvelope {
            output_contract_version: OUTPUT_CONTRACT_VERSION,
            verb: CommandVerb::Check,
            status: OutputStatus::BlockedByOverlap,
            exit_code: BerthExit::BlockedByOverlap,
            reservations: Vec::new(),
            blocked_by,
            message,
            presentation,
            payload: OutputPayload::from_facts(OutputFacts::Check(CheckPayload::Blocked { scopes, conflicts })),
        }
    }

    /// Build a successful edit check whose locked transaction established protection.
    pub fn clear_check(scopes: ReservationScopeSet, acquisition: FirstTouchReservationAcquisition) -> (envelope:
        Self)
        ensures
            answers(
                envelope,
                CommandVerb::Check,
                OutputStatus::Clear,
                seq![acquisition.reservation_id],
                Seq::empty(),
                with_publication_note(
                    clear_check_base(acquisition.kind),
                    acquisition.session_mapping_publication,
                ),
            ),
            acquisition.session_mapping_publication is Published
                ==> envelope.presentation is NothingToShow,
            !(acquisition.session_mapping_publication is Published) ==> presents(
                envelope.presentation,
                "cargo-berth protected this edit, but later commands cannot reuse its session mapping."@,
                envelope.message@,
            ),
            envelope.payload.facts == OutputFacts::Check(CheckPayload::Clear { scopes, acquisition }),
    {
        let base = match acquisition.kind {
            FirstTouchReservationAcquisitionKind::Appended => "No foreign reservation overlaps the requested paths; a first-touch reservation was acquired.",
            FirstTouchReservationAcquisitionKind::Widened => "No foreign reservation overlaps the requested paths; the acting run's first-touch reservation was widened.",
            FirstTouchReservationAcquisitionKind::AlreadyHeld => "No foreign reservation overlaps the requested paths; the acting run already holds them.",
        };
        let message = message_with_session_mapping_publication(
            base.to_owned(),
            &acquisition.session_mapping_publication,
        );
        let presentation = session_mapping_publication_presentation(
            message.as_str(),
            &acquisition.session_mapping_publication,
        );
        let mut reservations: Vec<ReservationId> = Vec::new();
        reservations.push(acquisition.reservation_id.clone());
        assert(reservations@ =~= seq![acquisition.reservation_id]);
        OutputEnvelope {
            output_contract_version: OUTPUT_CONTRACT_VERSION,
            verb: CommandVerb::Check,
            status: OutputStatus::Clear,
            exit_code: BerthExit::Clear,
            reservations,
            blocked_by: Vec::new(),
            message,
            presentation,
            payload: OutputPayload::from_facts(OutputFacts::Check(CheckPayload::Clear { scopes, acquisition })),
        }
    }

    /// Build a mutation-free rejection when no mapping selects one active reservation.
    pub fn ambiguous_active_run_reservations(
        command_verb: CommandVerb,
        candidate_reservation_ids: Vec<ReservationId>,
    ) -> (envelope: Self)
        ensures
            answers(
                envelope,
                command_verb,
                OutputStatus::AmbiguousActiveRunReservations,
                candidate_reservation_ids@,
                Seq::empty(),
                ambiguity_message(candidate_reservation_ids@),
            ),
            presents(
                envelope.presentation,
                "cargo-berth could not select one active reservation for this edit."@,
                ambiguous_first_touch_detail(
                    ambiguity_message(candidate_reservation_ids@),
                    texts(candidate_reservation_ids@),
                ),
            ),
            envelope.payload.facts == OutputFacts::FirstTouchReservationSelection(
                FirstTouchReservationSelectionPayload::AmbiguousActiveRunReservations {
                    candidate_reservation_ids,
                },
            ),
    {
        let rendered = join(candidate_reservation_ids.as_slice(), ", ");
        let message = concat3(
            "No usable harness-session mapping selects one active reservation among ",
            rendered.as_str(),
            ". Run `cargo-berth check --reservation <reservation-id> <path>...` with one candidate id to select it. No reservation was appended or widened, and no harness-session mapping was published.",
        );
        let block = ambiguous_first_touch_block(message.as_str(), candidate_reservation_ids.as_slice());
        let presentation = EnvelopePresentation::single(block);
        assert(shows_only(presentation, block));
        let reservations = clone_texts(&candidate_reservation_ids);
        OutputEnvelope {
            output_contract_version: OUTPUT_CONTRACT_VERSION,
            verb: command_verb,
            status: OutputStatus::AmbiguousActiveRunReservations,
            exit_code: BerthExit::BlockedByOverlap,
            reservations,
            blocked_by: Vec::new(),
            message,
            presentation,
            payload: OutputPayload::from_facts(OutputFacts::FirstTouchReservationSelection(
                    FirstTouchReservationSelectionPayload::AmbiguousActiveRunReservations {
                        candidate_reservation_ids,
                    },
                )),
        }
    }

    /// Build a claim response that requires a second invocation with the current token.
    pub fn claim_authorization_required(escalation: OverlapEscalationPayload) -> (envelope: Self)
        ensures
            answers(
                envelope,
                CommandVerb::Claim,
                OutputStatus::NeedsUserAuthorization,
                Seq::empty(),
                conflict_ids(escalation.conflicts@),
                authorization_message(escalation),
            ),
            presents(
                envelope.presentation,
                "cargo-berth prepared an overlap proposal that awaits explicit approval."@,
                joined(proposal_sections(escalation), "\n\n"@),
            ),
            envelope.payload.facts == OutputFacts::Claim(
                ClaimPayload::NeedsUserAuthorization { escalation },
            ),
    {
        let blocked_by = conflict_reservation_ids(escalation.conflicts.as_slice());
        let mut message = concat3(
            "User authorization is required before this overlap can be recorded: ",
            escalation.consequence.as_str(),
            ". Review every holder, shared scope, plan, phase, direction, and reason in the payload, then rerun this claim with --proposal '",
        );
        message.append(escalation.proposal_token.as_str());
        message.append("'.");
        let direction = overlap_direction_description(&escalation.answer);
        let mut lines: Vec<String> = Vec::new();
        let mut index: usize = 0;
        while index < escalation.conflicts.len()
            invariant
                index <= escalation.conflicts@.len(),
                direction@ == direction_text(escalation.answer),
                texts(lines@) =~= escalation.conflicts@.take(index as int).map_values(
                    |conflict: ReservationConflict| authorization_holder_line(conflict, escalation),
                ),
            decreases escalation.conflicts@.len() - index,
        {
            let conflict = &escalation.conflicts[index];
            let source = source_description(&conflict.source);
            let shared = render_scopes(&conflict.overlapping_scopes);
            let mut line = concat3("Holder ", conflict.reservation_id.as_str(), ": ");
            line.append(source.as_str());
            line.append("; shared scopes: ");
            line.append(shared.as_str());
            line.append("; direction: ");
            line.append(direction.as_str());
            line.append("; reason: ");
            line.append(escalation.authorization_reason.as_str());
            line.append("; consequence: ");
            line.append(escalation.consequence.as_str());
            line.append(".");
            let ghost before = lines@;
            lines.push(line);
            proof {
                assert(line@ =~= authorization_holder_line(*conflict, escalation));
                assert(texts(lines@) =~= texts(before).push(line@));
                assert(escalation.conflicts@.take(index + 1) =~= escalation.conflicts@.take(
                    index as int,
                ).push(*conflict));
            }
            index += 1;
        }
        assert(escalation.conflicts@.take(index as int) =~= escalation.conflicts@);
        if lines.len() > 0 {
            let material = join(lines.as_slice(), "\n");
            message.append("\n");
            message.append(material.as_str());
        }
        assert(message@ =~= authorization_message(escalation));
        let presentation = claim_authorization_presentation(&escalation);
        OutputEnvelope {
            output_contract_version: OUTPUT_CONTRACT_VERSION,
            verb: CommandVerb::Claim,
            status: OutputStatus::NeedsUserAuthorization,
            exit_code: BerthExit::NeedsUserAuthorization,
            reservations: Vec::new(),
            blocked_by,
            message,
            presentation,
            payload: OutputPayload::from_facts(OutputFacts::Claim(ClaimPayload::NeedsUserAuthorization { escalation })),
        }
    }
}

} // verus!
