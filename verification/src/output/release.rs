//! Responses for verbs that change one reservation: claim, release, resolve.
use vstd::prelude::*;

use crate::ids::CoordinationRunId;
use crate::ids::EventId;
use crate::ids::IncursionIncidentId;
use crate::ids::RecordedAt;
use crate::ids::ReservationId;
use crate::ids::WorktreeId;
use crate::output::envelope::answers;
use crate::output::envelope::OutputEnvelope;
use crate::output::envelope::OutputPayload;
use crate::output::envelope::OUTPUT_CONTRACT_VERSION;
use crate::output::hook::engine_result_presentation;
use crate::output::hook::presents;
use crate::output::payload::disposition_status;
use crate::output::payload::release_disposition_status;
use crate::output::payload::release_status;
use crate::output::payload::release_subject;
use crate::output::payload::ClaimPayload;
use crate::output::payload::CoordinationRunMarkerPublication;
use crate::output::payload::OutputFacts;
use crate::output::payload::ReleasePayload;
use crate::output::payload::ResolvePayload;
use crate::output::payload::SessionIdentityMappingPublication;
use crate::output::status::BerthExit;
use crate::output::status::CommandVerb;
use crate::output::status::OutputStatus;
use crate::presentation::degraded_session_mapping_block;
use crate::presentation::shows_only;
use crate::presentation::EnvelopePresentation;
use crate::reservation::lifecycle::IntegrationEvidenceStatus;
use crate::reservation::lifecycle::ReleaseDisposition;
use crate::scope::ReservationScopeSet;
use crate::text::concat2;
use crate::text::concat3;
use crate::text::concat5;
use crate::text::debug_quote;
use crate::text::debug_quoted;
use crate::text::decimal;
use crate::text::decimal_text;
use crate::text::join;
use crate::text::joined;
use crate::text::texts;

verus! {

/// A message followed by what the reader must know when the session mapping was not published.
pub open spec fn with_publication_note(
    message: Seq<char>,
    publication: SessionIdentityMappingPublication,
) -> Seq<char> {
    match publication {
        SessionIdentityMappingPublication::Published => message,
        SessionIdentityMappingPublication::ExplicitSelectionAppliesOnlyToCurrentInvocation => message
            + " The explicit reservation selection applies only to this invocation because no usable harness session id was supplied; name the reservation again on a later check."@,
        SessionIdentityMappingPublication::Unavailable { diagnostic } => message
            + " The harness session mapping could not be published: "@ + diagnostic@
            + ". Name the coordination run and reservation explicitly for later drift checks."@,
    }
}

/// Add to a message what the reader must know when the session mapping was not published.
pub fn message_with_session_mapping_publication(
    message: String,
    publication: &SessionIdentityMappingPublication,
) -> (text: String)
    ensures
        text@ == with_publication_note(message@, *publication),
{
    match publication {
        SessionIdentityMappingPublication::Published => message,
        SessionIdentityMappingPublication::ExplicitSelectionAppliesOnlyToCurrentInvocation => concat2(
            message.as_str(),
            " The explicit reservation selection applies only to this invocation because no usable harness session id was supplied; name the reservation again on a later check.",
        ),
        SessionIdentityMappingPublication::Unavailable { diagnostic } => {
            let mut text = concat3(
                message.as_str(),
                " The harness session mapping could not be published: ",
                diagnostic.as_str(),
            );
            text.append(
                ". Name the coordination run and reservation explicitly for later drift checks.",
            );
            text
        },
    }
}

/// Present a message about a session mapping: nothing when it was published, and the degraded
/// mapping guidance otherwise.
pub fn session_mapping_publication_presentation(
    message: &str,
    publication: &SessionIdentityMappingPublication,
) -> (presentation: EnvelopePresentation)
    ensures
        publication is Published ==> presentation is NothingToShow,
        !(publication is Published) ==> presents(
            presentation,
            "cargo-berth protected this edit, but later commands cannot reuse its session mapping."@,
            message@,
        ),
{
    match publication {
        SessionIdentityMappingPublication::Published => EnvelopePresentation::nothing_to_show(),
        _ => {
            let block = degraded_session_mapping_block(message);
            let presentation = EnvelopePresentation::single(block);
            assert(shows_only(presentation, block));
            presentation
        },
    }
}

/// How `{:?}` writes a terminal disposition.
pub open spec fn disposition_debug(disposition: ReleaseDisposition) -> Seq<char> {
    match disposition {
        ReleaseDisposition::Integrated => "Integrated"@,
        ReleaseDisposition::RewrittenIntegration(witness) => "RewrittenIntegration(RewrittenIntegrationTrunkCommit("@
            + debug_quoted(witness.commit()@) + "))"@,
        ReleaseDisposition::Abandoned(reason) => "Abandoned(AbandonmentReason("@ + debug_quoted(
            reason.text(),
        ) + "))"@,
        ReleaseDisposition::RetiredOrphan(reason) => "RetiredOrphan(OrphanRetirementReason("@
            + debug_quoted(reason.text()) + "))"@,
    }
}

/// Write a terminal disposition as `{:?}` writes it.
pub fn disposition_debug_text(disposition: &ReleaseDisposition) -> (text: String)
    ensures
        text@ == disposition_debug(*disposition),
{
    match disposition {
        ReleaseDisposition::Integrated => "Integrated".to_owned(),
        ReleaseDisposition::RewrittenIntegration(witness) => {
            let quoted = debug_quote(witness.0.as_str());
            concat3(
                "RewrittenIntegration(RewrittenIntegrationTrunkCommit(",
                quoted.as_str(),
                "))",
            )
        },
        ReleaseDisposition::Abandoned(reason) => {
            let quoted = debug_quote(reason.as_str());
            concat3("Abandoned(AbandonmentReason(", quoted.as_str(), "))")
        },
        ReleaseDisposition::RetiredOrphan(reason) => {
            let quoted = debug_quote(reason.as_str());
            concat3("RetiredOrphan(OrphanRetirementReason(", quoted.as_str(), "))")
        },
    }
}

/// The sentence recording a terminal disposition, before any session-mapping note.
pub open spec fn disposition_sentence(
    reservation_id: Seq<char>,
    disposition: ReleaseDisposition,
) -> Seq<char> {
    "Reservation "@ + reservation_id + " recorded disposition "@ + disposition_debug(disposition)
        + "."@
}

/// Write the sentence recording a terminal disposition.
fn disposition_message(reservation_id: &str, disposition: &ReleaseDisposition) -> (text: String)
    ensures
        text@ == disposition_sentence(reservation_id@, *disposition),
{
    let debug = disposition_debug_text(disposition);
    concat5("Reservation ", reservation_id, " recorded disposition ", debug.as_str(), ".")
}

/// The message a release response reports.
pub open spec fn release_message(payload: ReleasePayload) -> Seq<char> {
    let id = release_subject(payload)@;
    match payload {
        ReleasePayload::Checkpointed { protected_tip, session_mapping_publication, .. } =>
            with_publication_note(
            "Reservation "@ + id + " is outstanding at protected tip "@ + protected_tip.commit()@
                + "."@,
            session_mapping_publication,
        ),
        ReleasePayload::Resnapshotted { protected_tip, .. } => "Reservation "@ + id
            + " now retains protected tip "@ + protected_tip.commit()@ + "."@,
        ReleasePayload::EvidenceRevalidated { evidence, .. } => match evidence {
            IntegrationEvidenceStatus::NotIntegrated => "Reservation "@ + id
                + " remains outstanding; its protected tip is not in trunk."@,
            IntegrationEvidenceStatus::Integrated { trunk_oid, .. } => "Reservation "@ + id
                + " has integration evidence in trunk commit "@ + trunk_oid@ + "."@,
            IntegrationEvidenceStatus::TrunkRewritten => "Reservation "@ + id
                + " is blocking again because trunk no longer contains its verified evidence."@,
            IntegrationEvidenceStatus::ObjectUnknown => "Reservation "@ + id
                + " is blocking because git could not resolve its integration evidence."@,
        },
        ReleasePayload::Released { disposition, session_mapping_publication, .. } =>
            with_publication_note(disposition_sentence(id, disposition), session_mapping_publication),
    }
}

/// The message a resolve response reports for every outcome but a duplicate resolution.
pub open spec fn resolve_message(payload: ResolvePayload) -> Seq<char> {
    match payload {
        ResolvePayload::IncursionResolved { incident_id, .. } => "Incursion incident "@
            + incident_id@ + " is resolved."@,
        ResolvePayload::RecordedNow { incident_id, .. } => "Incursion incident "@ + incident_id@
            + " was recorded as resolved."@,
        ResolvePayload::AlreadyRecordedBySameCoordinationActor { incident_id, .. } =>
            "Incursion incident "@ + incident_id@
            + " was already resolved by this worktree coordination run."@,
        ResolvePayload::AlreadyRecordedByDifferentCoordinationActor {
            incident_id,
            resolving_worktree_id,
            resolving_coordination_run_id,
            resolution_event_id,
            resolved_at,
            ..
        } => duplicate_resolution_message(
            incident_id@,
            resolving_worktree_id@,
            resolving_coordination_run_id@,
            resolution_event_id@,
            resolved_at@,
        ),
        ResolvePayload::EveryIncursionResolved { reservation_id, incident_ids } =>
            "Every incursion incident outstanding for reservation "@ + reservation_id@
            + " is resolved: "@ + joined(texts(incident_ids@), ", "@) + "."@,
        ResolvePayload::Recovered { reservation_id, worktree_id } => "Reservation "@
            + reservation_id@ + " is recovered in worktree "@ + worktree_id@ + "."@,
        ResolvePayload::Released { reservation_id, disposition, session_mapping_publication } =>
            with_publication_note(
            disposition_sentence(reservation_id@, disposition),
            session_mapping_publication,
        ),
    }
}

/// The reservation a resolve payload is about.
pub open spec fn resolve_subject(payload: ResolvePayload) -> ReservationId {
    match payload {
        ResolvePayload::IncursionResolved { reservation_id, .. } => reservation_id,
        ResolvePayload::RecordedNow { reservation_id, .. } => reservation_id,
        ResolvePayload::AlreadyRecordedBySameCoordinationActor { reservation_id, .. } =>
            reservation_id,
        ResolvePayload::AlreadyRecordedByDifferentCoordinationActor { reservation_id, .. } =>
            reservation_id,
        ResolvePayload::EveryIncursionResolved { reservation_id, .. } => reservation_id,
        ResolvePayload::Recovered { reservation_id, .. } => reservation_id,
        ResolvePayload::Released { reservation_id, .. } => reservation_id,
    }
}

/// The status a resolve response reports.
pub open spec fn resolve_status(payload: ResolvePayload) -> OutputStatus {
    match payload {
        ResolvePayload::AlreadyRecordedByDifferentCoordinationActor { .. } =>
            OutputStatus::InvalidInput,
        ResolvePayload::Recovered { .. } => OutputStatus::Recovered,
        ResolvePayload::Released { disposition, .. } => disposition_status(disposition),
        _ => OutputStatus::IncursionResolved,
    }
}

/// The message rejecting a resolution that another coordination actor already recorded.
pub open spec fn duplicate_resolution_message(
    incident_id: Seq<char>,
    worktree_id: Seq<char>,
    coordination_run_id: Seq<char>,
    event_id: Seq<char>,
    resolved_at: Seq<char>,
) -> Seq<char> {
    "Incursion incident "@ + incident_id + " was already resolved by worktree "@ + worktree_id
        + " in coordination run "@ + coordination_run_id + ", event "@ + event_id + " at "@
        + resolved_at + "."@
}

/// The message reporting a claim, given how each fallback identity publication went.
pub open spec fn claimed_message(
    scope_count: nat,
    reservation_id: Seq<char>,
    coordination_run_id: Seq<char>,
    marker: CoordinationRunMarkerPublication,
    mapping: SessionIdentityMappingPublication,
) -> Seq<char> {
    let claimed = "Claimed "@ + decimal(scope_count) + " reservation scope(s) as "@ + reservation_id;
    let explicit_only = "The explicit reservation selection applies only to this invocation because no usable harness session id was supplied."@;
    let restore = "Restore coordination run "@ + coordination_run_id
        + " through the process environment"@;
    match (marker, mapping) {
        (CoordinationRunMarkerPublication::Published, SessionIdentityMappingPublication::Published) =>
            claimed + "."@,
        (
            CoordinationRunMarkerPublication::Unavailable { diagnostic },
            SessionIdentityMappingPublication::Published,
        ) => claimed + ", but the coordination-run marker could not be published: "@ + diagnostic@
            + ". "@ + restore + " before subsequent commands."@,
        (
            CoordinationRunMarkerPublication::Published,
            SessionIdentityMappingPublication::ExplicitSelectionAppliesOnlyToCurrentInvocation,
        ) => claimed + ". "@ + explicit_only,
        (
            CoordinationRunMarkerPublication::Unavailable { diagnostic },
            SessionIdentityMappingPublication::ExplicitSelectionAppliesOnlyToCurrentInvocation,
        ) => claimed + ", but the coordination-run marker could not be published: "@ + diagnostic@
            + ". "@ + explicit_only + " "@ + restore + " before subsequent commands."@,
        (
            CoordinationRunMarkerPublication::Published,
            SessionIdentityMappingPublication::Unavailable { diagnostic },
        ) => claimed + ", but the harness session mapping could not be published: "@ + diagnostic@
            + ". Later session-keyed drift checks may require an explicit coordination run and reservation."@,
        (
            CoordinationRunMarkerPublication::Unavailable { diagnostic: marker_diagnostic },
            SessionIdentityMappingPublication::Unavailable { diagnostic: session_diagnostic },
        ) => claimed
            + ", but neither fallback identity publication completed. Coordination-run marker: "@
            + marker_diagnostic@ + ". Harness session mapping: "@ + session_diagnostic@ + ". "@
            + restore + " and name reservation "@ + reservation_id
            + " explicitly for later drift checks."@,
    }
}

/// The detail a claim presents: the reservation id, the message, and any mapping guidance.
pub open spec fn claimed_detail(
    reservation_id: Seq<char>,
    message: Seq<char>,
    mapping: SessionIdentityMappingPublication,
) -> Seq<char> {
    let claimed = "Reservation id: `"@ + reservation_id + "`.\n\n"@ + message;
    match mapping {
        SessionIdentityMappingPublication::Unavailable { diagnostic } => claimed
            + "\n\nThe journal append and reservation `"@ + reservation_id
            + "` are durable, but the harness session mapping is unavailable: "@ + diagnostic@
            + ". Name reservation `"@ + reservation_id + "` explicitly on subsequent commands."@,
        _ => claimed,
    }
}

/// Present a claim: the reservation id, the message, and any mapping guidance.
pub fn claimed_presentation(
    reservation_id: &str,
    message: &str,
    session_mapping_publication: &SessionIdentityMappingPublication,
) -> (presentation: EnvelopePresentation)
    ensures
        presents(
            presentation,
            "cargo-berth claimed reservation "@ + reservation_id@ + "."@,
            claimed_detail(reservation_id@, message@, *session_mapping_publication),
        ),
{
    let summary = concat3("cargo-berth claimed reservation ", reservation_id, ".");
    let mut detail = concat3("Reservation id: `", reservation_id, "`.\n\n");
    detail.append(message);
    match session_mapping_publication {
        SessionIdentityMappingPublication::Unavailable { diagnostic } => {
            detail.append("\n\nThe journal append and reservation `");
            detail.append(reservation_id);
            detail.append("` are durable, but the harness session mapping is unavailable: ");
            detail.append(diagnostic.as_str());
            detail.append(". Name reservation `");
            detail.append(reservation_id);
            detail.append("` explicitly on subsequent commands.");
        },
        _ => {},
    }
    engine_result_presentation(summary.as_str(), detail.as_str())
}

impl OutputEnvelope {
    /// Build a successful claim response, naming any fallback identity that was not published.
    pub fn claimed(
        reservation_id: ReservationId,
        coordination_run_id: CoordinationRunId,
        scopes: ReservationScopeSet,
        marker_publication: CoordinationRunMarkerPublication,
        session_mapping_publication: SessionIdentityMappingPublication,
    ) -> (envelope: Self)
        ensures
            ({
                let message = claimed_message(
                    scopes.scopes().len(),
                    reservation_id@,
                    coordination_run_id@,
                    marker_publication,
                    session_mapping_publication,
                );
                &&& answers(
                    envelope,
                    CommandVerb::Claim,
                    OutputStatus::Claimed,
                    seq![reservation_id],
                    Seq::empty(),
                    message,
                )
                &&& presents(
                    envelope.presentation,
                    "cargo-berth claimed reservation "@ + reservation_id@ + "."@,
                    claimed_detail(reservation_id@, message, session_mapping_publication),
                )
            }),
            envelope.payload.facts == OutputFacts::Claim(
                ClaimPayload::Claimed {
                    reservation_id,
                    coordination_run_id,
                    scopes,
                    marker_publication,
                    session_mapping_publication,
                },
            ),
    {
        let scope_count = decimal_text(scopes.len() as u64);
        let mut message = concat3("Claimed ", scope_count.as_str(), " reservation scope(s) as ");
        message.append(reservation_id.as_str());
        let ghost claimed = message@;
        assert(claimed =~= "Claimed "@ + decimal(scopes.scopes().len()) + " reservation scope(s) as "@ + reservation_id@);
        let explicit_only = "The explicit reservation selection applies only to this invocation because no usable harness session id was supplied.";
        match (&marker_publication, &session_mapping_publication) {
            (
                CoordinationRunMarkerPublication::Published,
                SessionIdentityMappingPublication::Published,
            ) => {
                message.append(".");
                assert(message@ =~= claimed + "."@);
                assert(message@ =~= claimed_message(
                    scopes.scopes().len(),
                    reservation_id@,
                    coordination_run_id@,
                    marker_publication,
                    session_mapping_publication,
                ));
            },
            (
                CoordinationRunMarkerPublication::Unavailable { diagnostic },
                SessionIdentityMappingPublication::Published,
            ) => {
                message.append(", but the coordination-run marker could not be published: ");
                message.append(diagnostic.as_str());
                message.append(". ");
                message.append("Restore coordination run ");
                message.append(coordination_run_id.as_str());
                message.append(" through the process environment");
                message.append(" before subsequent commands.");
                assert(message@ =~= claimed_message(
                    scopes.scopes().len(),
                    reservation_id@,
                    coordination_run_id@,
                    marker_publication,
                    session_mapping_publication,
                ));
            },
            (
                CoordinationRunMarkerPublication::Published,
                SessionIdentityMappingPublication::ExplicitSelectionAppliesOnlyToCurrentInvocation,
            ) => {
                message.append(". ");
                message.append(explicit_only);
                assert(message@ =~= claimed + ". "@ + "The explicit reservation selection applies only to this invocation because no usable harness session id was supplied."@);
                assert(message@ =~= claimed_message(
                    scopes.scopes().len(),
                    reservation_id@,
                    coordination_run_id@,
                    marker_publication,
                    session_mapping_publication,
                ));
            },
            (
                CoordinationRunMarkerPublication::Unavailable { diagnostic },
                SessionIdentityMappingPublication::ExplicitSelectionAppliesOnlyToCurrentInvocation,
            ) => {
                message.append(", but the coordination-run marker could not be published: ");
                message.append(diagnostic.as_str());
                message.append(". ");
                message.append(explicit_only);
                message.append(" ");
                message.append("Restore coordination run ");
                message.append(coordination_run_id.as_str());
                message.append(" through the process environment");
                message.append(" before subsequent commands.");
                assert(message@ =~= claimed_message(
                    scopes.scopes().len(),
                    reservation_id@,
                    coordination_run_id@,
                    marker_publication,
                    session_mapping_publication,
                ));
            },
            (
                CoordinationRunMarkerPublication::Published,
                SessionIdentityMappingPublication::Unavailable { diagnostic },
            ) => {
                message.append(", but the harness session mapping could not be published: ");
                message.append(diagnostic.as_str());
                message.append(
                    ". Later session-keyed drift checks may require an explicit coordination run and reservation.",
                );
                assert(message@ =~= claimed_message(
                    scopes.scopes().len(),
                    reservation_id@,
                    coordination_run_id@,
                    marker_publication,
                    session_mapping_publication,
                ));
            },
            (
                CoordinationRunMarkerPublication::Unavailable { diagnostic: marker_diagnostic },
                SessionIdentityMappingPublication::Unavailable { diagnostic: session_diagnostic },
            ) => {
                message.append(
                    ", but neither fallback identity publication completed. Coordination-run marker: ",
                );
                message.append(marker_diagnostic.as_str());
                message.append(". Harness session mapping: ");
                message.append(session_diagnostic.as_str());
                message.append(". ");
                message.append("Restore coordination run ");
                message.append(coordination_run_id.as_str());
                message.append(" through the process environment");
                message.append(" and name reservation ");
                message.append(reservation_id.as_str());
                message.append(" explicitly for later drift checks.");
                assert(message@ =~= claimed_message(
                    scopes.scopes().len(),
                    reservation_id@,
                    coordination_run_id@,
                    marker_publication,
                    session_mapping_publication,
                ));
            },
        }
        assert(message@ =~= claimed_message(
            scopes.scopes().len(),
            reservation_id@,
            coordination_run_id@,
            marker_publication,
            session_mapping_publication,
        ));
        let presentation = claimed_presentation(
            reservation_id.as_str(),
            message.as_str(),
            &session_mapping_publication,
        );
        let mut reservations: Vec<ReservationId> = Vec::new();
        reservations.push(reservation_id.clone());
        assert(reservations@ =~= seq![reservation_id]);
        OutputEnvelope {
            output_contract_version: OUTPUT_CONTRACT_VERSION,
            verb: CommandVerb::Claim,
            status: OutputStatus::Claimed,
            exit_code: BerthExit::Clear,
            reservations,
            blocked_by: Vec::new(),
            message,
            presentation,
            payload: OutputPayload::from_facts(OutputFacts::Claim(
                    ClaimPayload::Claimed {
                        reservation_id,
                        coordination_run_id,
                        scopes,
                        marker_publication,
                        session_mapping_publication,
                    },
                )),
        }
    }

    /// Build a successful release lifecycle or evidence response.
    pub fn released(release_payload: ReleasePayload) -> (envelope: Self)
        ensures
            answers(
                envelope,
                CommandVerb::Release,
                release_status(release_payload),
                seq![release_subject(release_payload)],
                Seq::empty(),
                release_message(release_payload),
            ),
            presents(
                envelope.presentation,
                "cargo-berth updated reservation "@ + release_subject(release_payload)@ + "."@,
                release_message(release_payload),
            ),
            envelope.payload.facts == OutputFacts::Release(release_payload),
    {
        let reservation_id = release_payload.reservation_id();
        let status = release_payload.output_status();
        let id = reservation_id.as_str();
        let message = match &release_payload {
            ReleasePayload::Checkpointed { protected_tip, session_mapping_publication, .. } => {
                let sentence = concat5(
                    "Reservation ",
                    id,
                    " is outstanding at protected tip ",
                    protected_tip.as_commit().as_str(),
                    ".",
                );
                message_with_session_mapping_publication(sentence, session_mapping_publication)
            },
            ReleasePayload::Resnapshotted { protected_tip, .. } => concat5(
                "Reservation ",
                id,
                " now retains protected tip ",
                protected_tip.as_commit().as_str(),
                ".",
            ),
            ReleasePayload::EvidenceRevalidated { evidence, .. } => match evidence {
                IntegrationEvidenceStatus::NotIntegrated => concat3(
                    "Reservation ",
                    id,
                    " remains outstanding; its protected tip is not in trunk.",
                ),
                IntegrationEvidenceStatus::Integrated { trunk_oid, .. } => concat5(
                    "Reservation ",
                    id,
                    " has integration evidence in trunk commit ",
                    trunk_oid.as_str(),
                    ".",
                ),
                IntegrationEvidenceStatus::TrunkRewritten => concat3(
                    "Reservation ",
                    id,
                    " is blocking again because trunk no longer contains its verified evidence.",
                ),
                IntegrationEvidenceStatus::ObjectUnknown => concat3(
                    "Reservation ",
                    id,
                    " is blocking because git could not resolve its integration evidence.",
                ),
            },
            ReleasePayload::Released { disposition, session_mapping_publication, .. } => {
                let sentence = disposition_message(id, disposition);
                message_with_session_mapping_publication(sentence, session_mapping_publication)
            },
        };
        let summary = concat3("cargo-berth updated reservation ", id, ".");
        let presentation = engine_result_presentation(summary.as_str(), message.as_str());
        let mut reservations: Vec<ReservationId> = Vec::new();
        reservations.push(reservation_id);
        assert(reservations@ =~= seq![release_subject(release_payload)]);
        assert(message@ =~= release_message(release_payload));
        OutputEnvelope {
            output_contract_version: OUTPUT_CONTRACT_VERSION,
            verb: CommandVerb::Release,
            status,
            exit_code: BerthExit::Clear,
            reservations,
            blocked_by: Vec::new(),
            message,
            presentation,
            payload: OutputPayload::from_facts(OutputFacts::Release(release_payload)),
        }
    }

    /// Build a successful recovery response; a duplicate resolution by another coordination
    /// actor is answered as a rejection instead.
    pub fn resolved(resolve_payload: ResolvePayload) -> (envelope: Self)
        ensures
            answers(
                envelope,
                CommandVerb::Resolve,
                resolve_status(resolve_payload),
                seq![resolve_subject(resolve_payload)],
                Seq::empty(),
                resolve_message(resolve_payload),
            ),
            resolve_payload is AlreadyRecordedByDifferentCoordinationActor ==> presents(
                envelope.presentation,
                "cargo-berth rejected a duplicate incursion resolution."@,
                resolve_message(resolve_payload),
            ),
            !(resolve_payload is AlreadyRecordedByDifferentCoordinationActor) ==> presents(
                envelope.presentation,
                "cargo-berth resolved reservation "@ + resolve_subject(resolve_payload)@ + "."@,
                resolve_message(resolve_payload),
            ),
            envelope.payload.facts == OutputFacts::Resolve(resolve_payload),
    {
        let (reservation_id, status, message) = match &resolve_payload {
            ResolvePayload::IncursionResolved { reservation_id, incident_id } => (
                reservation_id.clone(),
                OutputStatus::IncursionResolved,
                concat3("Incursion incident ", incident_id.as_str(), " is resolved."),
            ),
            ResolvePayload::RecordedNow { reservation_id, incident_id } => (
                reservation_id.clone(),
                OutputStatus::IncursionResolved,
                concat3("Incursion incident ", incident_id.as_str(), " was recorded as resolved."),
            ),
            ResolvePayload::AlreadyRecordedBySameCoordinationActor { reservation_id, incident_id } => (
                reservation_id.clone(),
                OutputStatus::IncursionResolved,
                concat3(
                    "Incursion incident ",
                    incident_id.as_str(),
                    " was already resolved by this worktree coordination run.",
                ),
            ),
            ResolvePayload::AlreadyRecordedByDifferentCoordinationActor {
                reservation_id,
                incident_id,
                resolving_worktree_id,
                resolving_coordination_run_id,
                resolution_event_id,
                resolved_at,
            } => {
                return Self::incursion_resolution_recorded_by_different_actor(
                    reservation_id.clone(),
                    incident_id.clone(),
                    resolving_worktree_id.clone(),
                    resolving_coordination_run_id.clone(),
                    resolution_event_id.clone(),
                    resolved_at.clone(),
                );
            },
            ResolvePayload::EveryIncursionResolved { reservation_id, incident_ids } => {
                let listed = join(incident_ids.as_slice(), ", ");
                let mut message = concat3(
                    "Every incursion incident outstanding for reservation ",
                    reservation_id.as_str(),
                    " is resolved: ",
                );
                message.append(listed.as_str());
                message.append(".");
                (reservation_id.clone(), OutputStatus::IncursionResolved, message)
            },
            ResolvePayload::Recovered { reservation_id, worktree_id } => (
                reservation_id.clone(),
                OutputStatus::Recovered,
                concat5(
                    "Reservation ",
                    reservation_id.as_str(),
                    " is recovered in worktree ",
                    worktree_id.as_str(),
                    ".",
                ),
            ),
            ResolvePayload::Released { reservation_id, disposition, session_mapping_publication } => {
                let sentence = disposition_message(reservation_id.as_str(), disposition);
                (
                    reservation_id.clone(),
                    release_disposition_status(disposition),
                    message_with_session_mapping_publication(sentence, session_mapping_publication),
                )
            },
        };
        let summary = concat3("cargo-berth resolved reservation ", reservation_id.as_str(), ".");
        let presentation = engine_result_presentation(summary.as_str(), message.as_str());
        let mut reservations: Vec<ReservationId> = Vec::new();
        reservations.push(reservation_id);
        assert(reservations@ =~= seq![resolve_subject(resolve_payload)]);
        assert(message@ =~= resolve_message(resolve_payload));
        OutputEnvelope {
            output_contract_version: OUTPUT_CONTRACT_VERSION,
            verb: CommandVerb::Resolve,
            status,
            exit_code: BerthExit::Clear,
            reservations,
            blocked_by: Vec::new(),
            message,
            presentation,
            payload: OutputPayload::from_facts(OutputFacts::Resolve(resolve_payload)),
        }
    }

    /// Build a typed rejection for an incident resolved by another coordination actor.
    pub fn incursion_resolution_recorded_by_different_actor(
        reservation_id: ReservationId,
        incident_id: IncursionIncidentId,
        resolving_worktree_id: WorktreeId,
        resolving_coordination_run_id: CoordinationRunId,
        resolution_event_id: EventId,
        resolved_at: RecordedAt,
    ) -> (envelope: Self)
        ensures
            answers(
                envelope,
                CommandVerb::Resolve,
                OutputStatus::InvalidInput,
                seq![reservation_id],
                Seq::empty(),
                duplicate_resolution_message(
                    incident_id@,
                    resolving_worktree_id@,
                    resolving_coordination_run_id@,
                    resolution_event_id@,
                    resolved_at@,
                ),
            ),
            presents(
                envelope.presentation,
                "cargo-berth rejected a duplicate incursion resolution."@,
                envelope.message@,
            ),
            envelope.payload.facts == OutputFacts::Resolve(
                ResolvePayload::AlreadyRecordedByDifferentCoordinationActor {
                    reservation_id,
                    incident_id,
                    resolving_worktree_id,
                    resolving_coordination_run_id,
                    resolution_event_id,
                    resolved_at,
                },
            ),
    {
        let mut message = concat5(
            "Incursion incident ",
            incident_id.as_str(),
            " was already resolved by worktree ",
            resolving_worktree_id.as_str(),
            " in coordination run ",
        );
        message.append(resolving_coordination_run_id.as_str());
        message.append(", event ");
        message.append(resolution_event_id.as_str());
        message.append(" at ");
        message.append(resolved_at.as_str());
        message.append(".");
        let presentation = engine_result_presentation(
            "cargo-berth rejected a duplicate incursion resolution.",
            message.as_str(),
        );
        let mut reservations: Vec<ReservationId> = Vec::new();
        reservations.push(reservation_id.clone());
        assert(reservations@ =~= seq![reservation_id]);
        assert(message@ =~= duplicate_resolution_message(
            incident_id@,
            resolving_worktree_id@,
            resolving_coordination_run_id@,
            resolution_event_id@,
            resolved_at@,
        ));
        OutputEnvelope {
            output_contract_version: OUTPUT_CONTRACT_VERSION,
            verb: CommandVerb::Resolve,
            status: OutputStatus::InvalidInput,
            exit_code: BerthExit::UsageError,
            reservations,
            blocked_by: Vec::new(),
            message,
            presentation,
            payload: OutputPayload::from_facts(OutputFacts::Resolve(
                    ResolvePayload::AlreadyRecordedByDifferentCoordinationActor {
                        reservation_id,
                        incident_id,
                        resolving_worktree_id,
                        resolving_coordination_run_id,
                        resolution_event_id,
                        resolved_at,
                    },
                )),
        }
    }
}

} // verus!
