//! One response from a verb: the six original fields, a presentation, and typed facts.
use vstd::prelude::*;

use crate::ids::ReservationId;
use crate::output::alert::Alert;
use crate::output::drift::drift_non_incursion_presentation;
use crate::output::drift::drift_non_incursion_presents;
use crate::output::drift::drift_renders;
use crate::output::hook::engine_result_presentation;
use crate::output::identity::coordination_identity_summary;
use crate::output::identity::coordination_identity_summary_text;
use crate::output::hook::hook_facing_presentation;
use crate::output::hook::hook_facing_presents;
use crate::output::hook::presents;
use crate::output::hook::EngineAnswerOccasion;
use crate::output::hook::HookCondition;
use crate::output::hook::HookFacingCondition;
use crate::output::hook::LEDGER_UNREADABLE_FAIL_OPEN_MESSAGE;
use crate::output::payload::identity_payload_of;
use crate::output::payload::sequence_blockers;
use crate::output::payload::sequence_rejection_message;
use crate::output::payload::sequence_rejection_status;
use crate::output::payload::ClaimPayload;
use crate::output::payload::CurrentSessionMappingRemoval;
use crate::output::payload::IdentityPayload;
use crate::output::payload::InitializationPayload;
use crate::output::payload::InitializedManagedHook;
use crate::output::payload::LedgerInitialization;
use crate::output::payload::ManagedHookActivation;
use crate::output::payload::ManagedHookInactivity;
use crate::output::payload::OutputFacts;
use crate::output::payload::ReinitializationPayload;
use crate::output::payload::ReservationLifecycleQueryRejection;
use crate::output::payload::SequencePayload;
use crate::output::payload::SequenceRejectionKind;
use crate::output::replay::reason_wire_name;
use crate::output::replay::subject_phrase;
use crate::output::replay::ForcedIntegrationPermitReplayError;
use crate::output::replay::ReplayFailurePayload;
use crate::output::replay::ReservationReplayError;
use crate::output::status::status_exit;
use crate::output::status::BerthExit;
use crate::output::status::CommandVerb;
use crate::output::status::OutputStatus;
use crate::presentation::coordination_identity_block;
use crate::presentation::coordination_identity_detail;
use crate::presentation::replay_failure_block;
use crate::presentation::replay_failure_detail;
use crate::presentation::unverifiable_incursion_block;
use crate::presentation::EnvelopePresentation;
use crate::text::concat2;
use crate::text::concat3;
use crate::text::decimal;
use crate::text::decimal_text;

verus! {

/// The generated-output contract version reported by every response envelope.
pub const OUTPUT_CONTRACT_VERSION: u32 = 2;

/// The verb-keyed facts consumers need without parsing prose.
#[derive(Debug, PartialEq, Eq)]
pub struct OutputPayload {
    /// The verb-keyed result.
    pub facts: OutputFacts,
    /// Durable coordination alerts relevant to this response.
    pub alerts: Vec<Alert>,
}

impl OutputPayload {
    /// Carry these facts.
    pub fn from_facts(facts: OutputFacts) -> (payload: Self)
        ensures
            payload.facts == facts,
            payload.alerts@.len() == 0,
    {
        OutputPayload { facts, alerts: Vec::new() }
    }
}

/// One response from a `cargo-berth` verb.
#[derive(Debug, PartialEq, Eq)]
pub struct OutputEnvelope {
    /// The generated output contract generation that produced this response.
    pub output_contract_version: u32,
    /// The verb that produced this response.
    pub verb: CommandVerb,
    /// The response's lifecycle status.
    pub status: OutputStatus,
    /// The process exit status for this response.
    pub exit_code: BerthExit,
    /// Reservations relevant to this response.
    pub reservations: Vec<ReservationId>,
    /// Reservations that block this response.
    pub blocked_by: Vec<ReservationId>,
    /// A human-readable explanation of this response.
    pub message: String,
    /// Render-ready output supplied by the engine that decided this response.
    pub presentation: EnvelopePresentation,
    /// The verb-keyed facts consumers need without parsing prose.
    pub payload: OutputPayload,
}

/// Every envelope reports the current contract version and the process outcome its status
/// calls for.
pub open spec fn well_formed(envelope: OutputEnvelope) -> bool {
    envelope.output_contract_version == OUTPUT_CONTRACT_VERSION && envelope.exit_code
        == status_exit(envelope.status)
}

/// An envelope answers a verb with this status, these reservations and this message.
pub open spec fn answers(
    envelope: OutputEnvelope,
    verb: CommandVerb,
    status: OutputStatus,
    reservations: Seq<ReservationId>,
    blocked_by: Seq<ReservationId>,
    message: Seq<char>,
) -> bool {
    &&& well_formed(envelope)
    &&& envelope.verb == verb
    &&& envelope.status == status
    &&& envelope.reservations@ == reservations
    &&& envelope.blocked_by@ == blocked_by
    &&& envelope.message@ == message
}

/// Trusted rendering produced inside the installed post-tool-use engine process.
#[derive(Debug, PartialEq, Eq)]
pub enum PostToolUseRendering {
    /// The hook has no feedback to publish.
    NoFeedback,
    /// The hook can publish this complete typed feedback.
    Feedback { summary: String, detail: String },
    /// What the response carries is decided by the live state of the reported incursions.
    FeedbackDecidedByLiveIncursionState,
}

/// Whether a rendering is the immediate stop published when a live board read cannot confirm
/// whether a reported incursion still needs resolution.
pub open spec fn unverifiable_feedback(rendering: PostToolUseRendering) -> bool {
    feedback(
        rendering,
        "cargo-berth could not verify the live incursion state."@,
        "STOP: the PostToolUse drift response named an incursion, but a current board read could not confirm whether it still needs resolution."@,
    )
}

/// The feedback when a live board read cannot confirm whether a reported incursion still needs
/// resolution: an immediate stop.
pub fn unverifiable_live_incursion_rendering() -> (rendering: PostToolUseRendering)
    ensures
        unverifiable_feedback(rendering),
{
    let block = unverifiable_incursion_block();
    PostToolUseRendering::Feedback { summary: block.summary, detail: block.detail }
}

/// Whether the post-commit hook should stay silent or print a warning.
#[derive(Debug, PartialEq, Eq)]
pub enum PostCommitRendering {
    /// The full comparison found nothing the hook needs to report.
    Silent,
    /// The hook must print this diagnostic while leaving the commit standing.
    Warning(String),
}

/// What the post-commit hook prints for a drift response.
pub open spec fn post_commit_warning(status: OutputStatus, message: Seq<char>) -> Option<Seq<char>> {
    match status {
        OutputStatus::Clear | OutputStatus::Unconfigured => None,
        OutputStatus::Widened | OutputStatus::Incursion | OutputStatus::DriftCollision => Some(
            message,
        ),
        OutputStatus::LedgerUnreadable => Some(
            "cargo-berth could not check this commit's drift because the ledger was unreadable. "@
                + message
                + " Run `cargo-berth drift --full` by hand; this commit remains in place."@,
        ),
        OutputStatus::Contention => Some(
            "cargo-berth could not check this commit's drift because the ledger lock deadline was exhausted. "@
                + message
                + " Run `cargo-berth drift --full` by hand; this commit remains in place."@,
        ),
        _ => Some(
            "cargo-berth could not complete the post-commit drift check. "@ + message
                + " Run `cargo-berth drift --full` by hand; this commit remains in place."@,
        ),
    }
}

/// Whether a post-commit rendering is the one a status and message call for.
pub open spec fn post_commit_renders(rendering: PostCommitRendering, status: OutputStatus, message: Seq<char>) -> bool {
    match post_commit_warning(status, message) {
        None => rendering is Silent,
        Some(warning) => rendering matches PostCommitRendering::Warning(text) && text@ == warning,
    }
}

/// The summary a replay hard stop states for each verb.
pub open spec fn replay_stop_summary(verb: CommandVerb) -> Seq<char> {
    match verb {
        CommandVerb::Check => LEDGER_UNREADABLE_FAIL_OPEN_MESSAGE@,
        CommandVerb::Board => "cargo-berth stopped on invalid reservation history at SessionStart."@,
        CommandVerb::Drift => "cargo-berth stopped on invalid reservation history after Bash."@,
        _ => "cargo-berth stopped on invalid reservation history."@,
    }
}

/// Whether a rendering is feedback with exactly this summary and detail.
pub open spec fn feedback(rendering: PostToolUseRendering, summary: Seq<char>, detail: Seq<char>) -> bool {
    rendering matches PostToolUseRendering::Feedback { summary: said, detail: explained }
        && said@ == summary && explained@ == detail
}

/// What the post-tool-use hook publishes for an envelope.
pub open spec fn post_tool_use_renders(envelope: OutputEnvelope, rendering: PostToolUseRendering) -> bool {
    match envelope.payload.facts {
        OutputFacts::Drift(report) => drift_renders(
            rendering,
            report,
            envelope.message@,
            envelope.payload.alerts@,
        ),
        OutputFacts::ReplayFailure(failure) => feedback(
            rendering,
            replay_stop_summary(envelope.verb),
            replay_failure_detail(reason_wire_name(failure.reason), subject_phrase(failure.subject)),
        ),
        OutputFacts::CoordinationIdentity(rejection) => feedback(
            rendering,
            coordination_identity_summary_text(envelope.verb),
            coordination_identity_detail(rejection.kind@, rejection.recovery_actions@),
        ),
        OutputFacts::FirstTouchReservationSelection(..) => feedback(
            rendering,
            "cargo-berth could not select one active reservation for first-touch attribution."@,
            "DRIFT ATTRIBUTION REQUIRED: "@ + envelope.message@,
        ),
        OutputFacts::NoFacts => if envelope.status is Unconfigured {
            rendering is NoFeedback
        } else {
            states_condition(rendering, envelope.presentation, envelope.message@)
        },
        _ => feedback(
            rendering,
            "cargo-berth rejected an unexpected PostToolUse response."@,
            envelope.message@,
        ),
    }
}

/// Whether a rendering states the condition a presentation already rendered: nothing when it
/// shows nothing, its first block, and otherwise the generic summary over the message.
pub open spec fn states_condition(
    rendering: PostToolUseRendering,
    presentation: EnvelopePresentation,
    message: Seq<char>,
) -> bool {
    match presentation {
        EnvelopePresentation::NothingToShow => rendering is NoFeedback,
        EnvelopePresentation::RenderedBlocks { blocks } => if blocks@.len() > 0 {
            feedback(rendering, blocks@[0].summary@, blocks@[0].detail@)
        } else {
            feedback(rendering, "cargo-berth could not inspect this Bash call."@, message)
        },
        EnvelopePresentation::NotProvided => feedback(
            rendering,
            "cargo-berth could not inspect this Bash call."@,
            message,
        ),
    }
}

/// Whether a presentation is what a refresh of this envelope from this rendering installs:
/// a drift response whose incursions wait for a live board shows what it can say without one.
pub open spec fn refreshed_presents(
    presentation: EnvelopePresentation,
    rendering: PostToolUseRendering,
    envelope: OutputEnvelope,
) -> bool {
    match rendering {
        PostToolUseRendering::NoFeedback => presentation is NothingToShow,
        PostToolUseRendering::Feedback { summary, detail } => presents(
            presentation,
            summary@,
            detail@,
        ),
        PostToolUseRendering::FeedbackDecidedByLiveIncursionState => match envelope.payload.facts {
            OutputFacts::Drift(report) => drift_non_incursion_presents(
                presentation,
                report,
                envelope.payload.alerts@,
            ),
            _ => presents(
                presentation,
                "cargo-berth rejected an unexpected live-board presentation request."@,
                envelope.message@,
            ),
        },
    }
}

/// The message of a ledger that could not be read.
pub open spec fn ledger_unreadable_message(diagnostic: Seq<char>) -> Seq<char> {
    "The reservation ledger could not be read: "@ + diagnostic
}

/// The message of a repository that is not participating in coordination.
pub open spec fn unconfigured_message(expected_configuration_path: Seq<char>) -> Seq<char> {
    "this repository has no cargo-berth configuration at "@ + expected_configuration_path
        + "; run `cargo-berth init` to create it"@
}

/// The message of a terminal view that failed after it opened.
pub open spec fn terminal_view_failure_message(diagnostic: Seq<char>) -> Seq<char> {
    "The terminal view failed after it opened: "@ + diagnostic
        + ". Run `cargo-berth board --json` instead."@
}

/// The message after confirmed reinitialization.
pub open spec fn reinitialized_message(payload: ReinitializationPayload) -> Seq<char> {
    "Reinitialized cargo-berth after confirmed order review; discarded "@ + decimal(
        payload.discarded_bytes as nat,
    ) + " journal bytes across "@ + decimal(payload.discarded_complete_records as nat)
        + " complete record(s). "@ + decimal(payload.pending_environment_bypasses as nat)
        + " environment bypass marker(s) remain reportable."@
}

/// The sentence initialization adds for one hook.
pub open spec fn hook_sentence(hook: InitializedManagedHook) -> Seq<char> {
    match hook.activation {
        ManagedHookActivation::Active { .. } => Seq::empty(),
        ManagedHookActivation::Inactive { reason } => match reason {
            ManagedHookInactivity::PreservedUnmanaged => " Hook '"@ + hook.name@
                + "' is occupied by an unmanaged hook, so cargo-berth protection for that hook is not active. Incorporate the existing hook in a wrapper or move it aside, then rerun cargo berth init."@,
            ManagedHookInactivity::InstallationFailed { diagnostic } => " Hook '"@ + hook.name@
                + "' is not active because cargo-berth could not install it: "@ + diagnostic@
                + ". Resolve the reported hook installation error, then rerun cargo berth init."@,
        },
    }
}

/// The sentences initialization adds for a list of hooks, in order.
pub open spec fn hook_sentences(hooks: Seq<InitializedManagedHook>) -> Seq<char>
    decreases hooks.len(),
{
    if hooks.len() == 0 {
        Seq::empty()
    } else {
        hook_sentences(hooks.drop_last()) + hook_sentence(hooks.last())
    }
}

/// The message after initialization: the fixed sentence, then one sentence per inactive hook.
pub open spec fn initialization_text(hooks: Seq<InitializedManagedHook>) -> Seq<char> {
    "Initialized the cargo-berth ledger."@ + hook_sentences(hooks)
}

/// Report initialization, naming every managed hook that is not in force and why.
pub fn initialization_message(hooks: &[InitializedManagedHook]) -> (message: String)
    ensures
        message@ == initialization_text(hooks@),
{
    let mut message = "Initialized the cargo-berth ledger.".to_owned();
    let mut index: usize = 0;
    while index < hooks.len()
        invariant
            index <= hooks@.len(),
            message@ == initialization_text(hooks@.take(index as int)),
        decreases hooks@.len() - index,
    {
        let hook = &hooks[index];
        match &hook.activation {
            ManagedHookActivation::Active { .. } => {},
            ManagedHookActivation::Inactive { reason } => match reason {
                ManagedHookInactivity::PreservedUnmanaged => {
                    message.append(" Hook '");
                    message.append(hook.name.as_str());
                    message.append(
                        "' is occupied by an unmanaged hook, so cargo-berth protection for that hook is not active. Incorporate the existing hook in a wrapper or move it aside, then rerun cargo berth init.",
                    );
                },
                ManagedHookInactivity::InstallationFailed { diagnostic } => {
                    message.append(" Hook '");
                    message.append(hook.name.as_str());
                    message.append("' is not active because cargo-berth could not install it: ");
                    message.append(diagnostic.as_str());
                    message.append(
                        ". Resolve the reported hook installation error, then rerun cargo berth init.",
                    );
                },
            },
        }
        proof {
            let before = hooks@.take(index as int);
            let after = hooks@.take(index + 1);
            assert(after.drop_last() =~= before);
            assert(after.last() == *hook);
            assert(hook_sentences(after) == hook_sentences(before) + hook_sentence(*hook));
            if hook.activation is Active {
                assert(hook_sentence(*hook) =~= Seq::<char>::empty());
            }
        }
        index += 1;
    }
    assert(hooks@.take(hooks@.len() as int) =~= hooks@);
    message
}

impl OutputEnvelope {
    /// Return the process exit status selected by the engine.
    pub fn exit_code(&self) -> (exit: BerthExit)
        ensures
            exit == self.exit_code,
    {
        self.exit_code
    }

    /// Borrow the render-ready output selected by the engine.
    pub fn presentation(&self) -> (presentation: &EnvelopePresentation)
        ensures
            *presentation == self.presentation,
    {
        &self.presentation
    }

    /// Build an envelope reporting no facts and no reservations.
    fn without_facts(
        verb: CommandVerb,
        status: OutputStatus,
        message: String,
        presentation: EnvelopePresentation,
    ) -> (envelope: Self)
        ensures
            answers(envelope, verb, status, Seq::empty(), Seq::empty(), message@),
            envelope.presentation == presentation,
            envelope.payload.facts is NoFacts,
    {
        OutputEnvelope {
            output_contract_version: OUTPUT_CONTRACT_VERSION,
            verb,
            status,
            exit_code: status.exit(),
            reservations: Vec::new(),
            blocked_by: Vec::new(),
            message,
            presentation,
            payload: OutputPayload::from_facts(OutputFacts::NoFacts),
        }
    }

    /// Build the response for a verb that has no engine behind it yet.
    pub fn unimplemented(command_verb: CommandVerb) -> (envelope: Self)
        ensures
            answers(
                envelope,
                command_verb,
                OutputStatus::Unimplemented,
                Seq::empty(),
                Seq::empty(),
                "The reservation engine is not implemented."@,
            ),
            envelope.presentation is NotProvided,
            envelope.payload.facts is NoFacts,
    {
        Self::without_facts(
            command_verb,
            OutputStatus::Unimplemented,
            "The reservation engine is not implemented.".to_owned(),
            EnvelopePresentation::NotProvided,
        )
    }

    /// Build a ledger-unreadable response, stated in the words of the verb and occasion.
    pub fn ledger_unreadable_on(
        command_verb: CommandVerb,
        diagnostic: &str,
        occasion: EngineAnswerOccasion,
    ) -> (envelope: Self)
        ensures
            answers(
                envelope,
                command_verb,
                OutputStatus::LedgerUnreadable,
                Seq::empty(),
                Seq::empty(),
                ledger_unreadable_message(diagnostic@),
            ),
            forall|budget_seconds: nat|
                hook_facing_presents(
                    envelope.presentation,
                    command_verb,
                    HookCondition::LedgerUnreadable(envelope.message@),
                    occasion,
                    budget_seconds,
                ),
            envelope.payload.facts is NoFacts,
    {
        let message = concat2("The reservation ledger could not be read: ", diagnostic);
        let condition = HookFacingCondition::LedgerUnreadable { message: message.as_str() };
        let presentation = hook_facing_presentation(command_verb, &condition, occasion, 0);
        Self::without_facts(command_verb, OutputStatus::LedgerUnreadable, message, presentation)
    }

    /// Build a ledger-unreadable response for a verb invoked directly.
    pub fn ledger_unreadable(command_verb: CommandVerb, diagnostic: &str) -> (envelope: Self)
        ensures
            answers(
                envelope,
                command_verb,
                OutputStatus::LedgerUnreadable,
                Seq::empty(),
                Seq::empty(),
                ledger_unreadable_message(diagnostic@),
            ),
            forall|budget_seconds: nat|
                hook_facing_presents(
                    envelope.presentation,
                    command_verb,
                    HookCondition::LedgerUnreadable(envelope.message@),
                    EngineAnswerOccasion::DirectInvocation,
                    budget_seconds,
                ),
            envelope.payload.facts is NoFacts,
    {
        Self::ledger_unreadable_on(command_verb, diagnostic, EngineAnswerOccasion::DirectInvocation)
    }

    /// Convert a ledger failure into the requesting verb's public response.
    pub fn ledger_error(command_verb: CommandVerb, error: &LedgerError) -> (envelope: Self)
        ensures
            answers(
                envelope,
                command_verb,
                OutputStatus::LedgerUnreadable,
                Seq::empty(),
                Seq::empty(),
                ledger_unreadable_message(ledger_error_text(*error)),
            ),
            forall|budget_seconds: nat|
                hook_facing_presents(
                    envelope.presentation,
                    command_verb,
                    HookCondition::LedgerUnreadable(envelope.message@),
                    EngineAnswerOccasion::DirectInvocation,
                    budget_seconds,
                ),
            envelope.payload.facts is NoFacts,
    {
        let description = error.message();
        Self::ledger_unreadable(command_verb, description.as_str())
    }

    /// Build a response for a repository that is not participating in coordination.
    pub fn unconfigured_on(
        command_verb: CommandVerb,
        expected_configuration_path: &str,
        occasion: EngineAnswerOccasion,
    ) -> (envelope: Self)
        ensures
            answers(
                envelope,
                command_verb,
                OutputStatus::Unconfigured,
                Seq::empty(),
                Seq::empty(),
                unconfigured_message(expected_configuration_path@),
            ),
            forall|budget_seconds: nat|
                hook_facing_presents(
                    envelope.presentation,
                    command_verb,
                    HookCondition::Unconfigured,
                    occasion,
                    budget_seconds,
                ),
            envelope.payload.facts is NoFacts,
    {
        let presentation = hook_facing_presentation(
            command_verb,
            &HookFacingCondition::Unconfigured,
            occasion,
            0,
        );
        let message = concat3(
            "this repository has no cargo-berth configuration at ",
            expected_configuration_path,
            "; run `cargo-berth init` to create it",
        );
        Self::without_facts(command_verb, OutputStatus::Unconfigured, message, presentation)
    }

    /// Build a response for a repository that is not participating in coordination, for a
    /// verb invoked directly.
    pub fn unconfigured(command_verb: CommandVerb, expected_configuration_path: &str) -> (envelope:
        Self)
        ensures
            answers(
                envelope,
                command_verb,
                OutputStatus::Unconfigured,
                Seq::empty(),
                Seq::empty(),
                unconfigured_message(expected_configuration_path@),
            ),
            forall|budget_seconds: nat|
                hook_facing_presents(
                    envelope.presentation,
                    command_verb,
                    HookCondition::Unconfigured,
                    EngineAnswerOccasion::DirectInvocation,
                    budget_seconds,
                ),
            envelope.payload.facts is NoFacts,
    {
        Self::unconfigured_on(
            command_verb,
            expected_configuration_path,
            EngineAnswerOccasion::DirectInvocation,
        )
    }

    /// Build a caller-correctable request rejection.
    pub fn invalid_input_on(
        command_verb: CommandVerb,
        diagnostic: &str,
        occasion: EngineAnswerOccasion,
    ) -> (envelope: Self)
        ensures
            answers(
                envelope,
                command_verb,
                OutputStatus::InvalidInput,
                Seq::empty(),
                Seq::empty(),
                diagnostic@,
            ),
            forall|budget_seconds: nat|
                hook_facing_presents(
                    envelope.presentation,
                    command_verb,
                    HookCondition::InvalidInput(diagnostic@),
                    occasion,
                    budget_seconds,
                ),
            envelope.payload.facts is NoFacts,
    {
        let presentation = hook_facing_presentation(
            command_verb,
            &HookFacingCondition::InvalidInput { diagnostic },
            occasion,
            0,
        );
        Self::without_facts(
            command_verb,
            OutputStatus::InvalidInput,
            diagnostic.to_owned(),
            presentation,
        )
    }

    /// Build a caller-correctable request rejection for a verb invoked directly.
    pub fn invalid_input(command_verb: CommandVerb, diagnostic: &str) -> (envelope: Self)
        ensures
            answers(
                envelope,
                command_verb,
                OutputStatus::InvalidInput,
                Seq::empty(),
                Seq::empty(),
                diagnostic@,
            ),
            forall|budget_seconds: nat|
                hook_facing_presents(
                    envelope.presentation,
                    command_verb,
                    HookCondition::InvalidInput(diagnostic@),
                    EngineAnswerOccasion::DirectInvocation,
                    budget_seconds,
                ),
            envelope.payload.facts is NoFacts,
    {
        Self::invalid_input_on(command_verb, diagnostic, EngineAnswerOccasion::DirectInvocation)
    }

    /// Build a bounded lock-contention result with retry guidance.
    ///
    /// `retry_budget_seconds` is the single lock wait the engine already spent.
    pub fn contention_on(
        command_verb: CommandVerb,
        diagnostic: &str,
        occasion: EngineAnswerOccasion,
        retry_budget_seconds: u64,
    ) -> (envelope: Self)
        ensures
            answers(
                envelope,
                command_verb,
                OutputStatus::Contention,
                Seq::empty(),
                Seq::empty(),
                diagnostic@,
            ),
            hook_facing_presents(
                envelope.presentation,
                command_verb,
                HookCondition::Contention(diagnostic@),
                occasion,
                retry_budget_seconds as nat,
            ),
            envelope.payload.facts is NoFacts,
    {
        let presentation = hook_facing_presentation(
            command_verb,
            &HookFacingCondition::Contention { diagnostic },
            occasion,
            retry_budget_seconds,
        );
        Self::without_facts(command_verb, OutputStatus::Contention, diagnostic.to_owned(), presentation)
    }

    /// Build an internal-failure response after the terminal board was visible.
    pub fn terminal_view_failed_after_board_opened(diagnostic: &str) -> (envelope: Self)
        ensures
            answers(
                envelope,
                CommandVerb::Board,
                OutputStatus::TerminalViewFailed,
                Seq::empty(),
                Seq::empty(),
                terminal_view_failure_message(diagnostic@),
            ),
            envelope.presentation is NotProvided,
            envelope.payload.facts is NoFacts,
    {
        let mut message = concat2("The terminal view failed after it opened: ", diagnostic);
        message.append(". Run `cargo-berth board --json` instead.");
        Self::without_facts(
            CommandVerb::Board,
            OutputStatus::TerminalViewFailed,
            message,
            EnvelopePresentation::NotProvided,
        )
    }

    /// Build the recovery response for a reference-transaction hook installed before issuing-
    /// checkout capture.
    pub fn legacy_hook_outdated() -> (envelope: Self)
        ensures
            answers(
                envelope,
                CommandVerb::Integrate,
                OutputStatus::LegacyHookOutdated,
                Seq::empty(),
                Seq::empty(),
                "The installed reference-transaction hook is out of date; run `cargo-berth init` to replace it, then retry integration."@,
            ),
            envelope.presentation is NotProvided,
            envelope.payload.facts is NoFacts,
    {
        Self::without_facts(
            CommandVerb::Integrate,
            OutputStatus::LegacyHookOutdated,
            "The installed reference-transaction hook is out of date; run `cargo-berth init` to replace it, then retry integration.".to_owned(),
            EnvelopePresentation::NotProvided,
        )
    }

    /// Build the successful response for completed initialization.
    pub fn initialized(initialization: LedgerInitialization, hooks: Vec<InitializedManagedHook>) -> (
        envelope: Self)
        ensures
            answers(
                envelope,
                CommandVerb::Init,
                OutputStatus::Initialized,
                Seq::empty(),
                Seq::empty(),
                initialization_text(hooks@),
            ),
            envelope.presentation is NotProvided,
            envelope.payload.facts matches OutputFacts::Init(payload) && payload.ledger
                == initialization.ledger && payload.configuration == initialization.configuration
                && payload.hooks@ == hooks@,
    {
        let message = initialization_message(hooks.as_slice());
        OutputEnvelope {
            output_contract_version: OUTPUT_CONTRACT_VERSION,
            verb: CommandVerb::Init,
            status: OutputStatus::Initialized,
            exit_code: BerthExit::Clear,
            reservations: Vec::new(),
            blocked_by: Vec::new(),
            message,
            presentation: EnvelopePresentation::NotProvided,
            payload: OutputPayload::from_facts(OutputFacts::Init(
                    InitializationPayload {
                        ledger: initialization.ledger,
                        configuration: initialization.configuration,
                        hooks,
                    },
                )),
        }
    }

    /// Build the successful response for an explicit projection-only repair.
    pub fn projection_repaired() -> (envelope: Self)
        ensures
            answers(
                envelope,
                CommandVerb::Init,
                OutputStatus::ProjectionRepaired,
                Seq::empty(),
                Seq::empty(),
                "Rebuilt reservations.json from journal truth without changing the journal."@,
            ),
            envelope.presentation is NotProvided,
            envelope.payload.facts is ProjectionRepair,
    {
        OutputEnvelope {
            output_contract_version: OUTPUT_CONTRACT_VERSION,
            verb: CommandVerb::Init,
            status: OutputStatus::ProjectionRepaired,
            exit_code: BerthExit::Clear,
            reservations: Vec::new(),
            blocked_by: Vec::new(),
            message: "Rebuilt reservations.json from journal truth without changing the journal.".to_owned(),
            presentation: EnvelopePresentation::NotProvided,
            payload: OutputPayload::from_facts(OutputFacts::ProjectionRepair),
        }
    }

    /// Build the result of confirmed journal reinitialization.
    pub fn reinitialized(
        discarded_bytes: u64,
        discarded_complete_records: u64,
        pending_environment_bypasses: u64,
    ) -> (envelope: Self)
        ensures
            answers(
                envelope,
                CommandVerb::Init,
                OutputStatus::Reinitialized,
                Seq::empty(),
                Seq::empty(),
                reinitialized_message(
                    ReinitializationPayload {
                        discarded_bytes,
                        discarded_complete_records,
                        pending_environment_bypasses,
                    },
                ),
            ),
            envelope.presentation is NotProvided,
            envelope.payload.facts == OutputFacts::Reinitialize(
                ReinitializationPayload {
                    discarded_bytes,
                    discarded_complete_records,
                    pending_environment_bypasses,
                },
            ),
    {
        let bytes = decimal_text(discarded_bytes);
        let records = decimal_text(discarded_complete_records);
        let bypasses = decimal_text(pending_environment_bypasses);
        let mut message = concat2(
            "Reinitialized cargo-berth after confirmed order review; discarded ",
            bytes.as_str(),
        );
        message.append(" journal bytes across ");
        message.append(records.as_str());
        message.append(" complete record(s). ");
        message.append(bypasses.as_str());
        message.append(" environment bypass marker(s) remain reportable.");
        OutputEnvelope {
            output_contract_version: OUTPUT_CONTRACT_VERSION,
            verb: CommandVerb::Init,
            status: OutputStatus::Reinitialized,
            exit_code: BerthExit::Clear,
            reservations: Vec::new(),
            blocked_by: Vec::new(),
            message,
            presentation: EnvelopePresentation::NotProvided,
            payload: OutputPayload::from_facts(OutputFacts::Reinitialize(
                    ReinitializationPayload {
                        discarded_bytes,
                        discarded_complete_records,
                        pending_environment_bypasses,
                    },
                )),
        }
    }

    /// Build a typed rejection for an unknown reservation lifecycle query.
    pub fn reservation_lifecycle_query_rejected(rejection: ReservationLifecycleQueryRejection) -> (
        envelope: Self)
        ensures
            ({
                let ReservationLifecycleQueryRejection::UnknownReservation { reservation_id } =
                    rejection;
                answers(
                    envelope,
                    CommandVerb::Board,
                    OutputStatus::InvalidInput,
                    seq![reservation_id],
                    Seq::empty(),
                    "Reservation "@ + reservation_id@ + " does not exist."@,
                )
            }),
            envelope.presentation is NotProvided,
            envelope.payload.facts == OutputFacts::Reservation(rejection),
    {
        let reservation_id = rejection.reservation_id();
        let message = concat3("Reservation ", reservation_id.as_str(), " does not exist.");
        let mut reservations: Vec<ReservationId> = Vec::new();
        reservations.push(reservation_id);
        OutputEnvelope {
            output_contract_version: OUTPUT_CONTRACT_VERSION,
            verb: CommandVerb::Board,
            status: OutputStatus::InvalidInput,
            exit_code: BerthExit::UsageError,
            reservations,
            blocked_by: Vec::new(),
            message,
            presentation: EnvelopePresentation::NotProvided,
            payload: OutputPayload::from_facts(OutputFacts::Reservation(rejection)),
        }
    }

    /// Build a typed rejection when no additional live reservation is permitted.
    pub fn reservation_limit_reached(maximum: u32) -> (envelope: Self)
        ensures
            ({
                let message = "The configured maximum of "@ + decimal(maximum as nat)
                    + " live reservations has been reached."@;
                &&& answers(
                    envelope,
                    CommandVerb::Claim,
                    OutputStatus::ReservationLimitReached,
                    Seq::empty(),
                    Seq::empty(),
                    message,
                )
                &&& presents(envelope.presentation, message, message)
            }),
            envelope.payload.facts == OutputFacts::Claim(
                ClaimPayload::ReservationLimitReached { maximum },
            ),
    {
        let count = decimal_text(maximum as u64);
        let message = concat3(
            "The configured maximum of ",
            count.as_str(),
            " live reservations has been reached.",
        );
        let presentation = engine_result_presentation(message.as_str(), message.as_str());
        OutputEnvelope {
            output_contract_version: OUTPUT_CONTRACT_VERSION,
            verb: CommandVerb::Claim,
            status: OutputStatus::ReservationLimitReached,
            exit_code: BerthExit::BlockedByOverlap,
            reservations: Vec::new(),
            blocked_by: Vec::new(),
            message,
            presentation,
            payload: OutputPayload::from_facts(OutputFacts::Claim(ClaimPayload::ReservationLimitReached { maximum })),
        }
    }

    /// Build a typed claim rejection when no additional ordering edge is permitted.
    pub fn claim_ordering_edge_limit_reached(maximum: u32) -> (envelope: Self)
        ensures
            ({
                let message = "The configured maximum of "@ + decimal(maximum as nat)
                    + " ordering edges has been reached."@;
                &&& answers(
                    envelope,
                    CommandVerb::Claim,
                    OutputStatus::OrderingEdgeLimitReached,
                    Seq::empty(),
                    Seq::empty(),
                    message,
                )
                &&& presents(envelope.presentation, message, message)
            }),
            envelope.payload.facts == OutputFacts::Claim(
                ClaimPayload::OrderingEdgeLimitReached { maximum },
            ),
    {
        let count = decimal_text(maximum as u64);
        let message = concat3(
            "The configured maximum of ",
            count.as_str(),
            " ordering edges has been reached.",
        );
        let presentation = engine_result_presentation(message.as_str(), message.as_str());
        OutputEnvelope {
            output_contract_version: OUTPUT_CONTRACT_VERSION,
            verb: CommandVerb::Claim,
            status: OutputStatus::OrderingEdgeLimitReached,
            exit_code: BerthExit::BlockedByOrdering,
            reservations: Vec::new(),
            blocked_by: Vec::new(),
            message,
            presentation,
            payload: OutputPayload::from_facts(OutputFacts::Claim(ClaimPayload::OrderingEdgeLimitReached { maximum })),
        }
    }

    /// Build a locked semantic rejection for a requested deferral resolution.
    pub fn sequence_rejected(
        first: ReservationId,
        then: ReservationId,
        reason: SequenceRejectionKind,
    ) -> (envelope: Self)
        ensures
            answers(
                envelope,
                CommandVerb::Sequence,
                sequence_rejection_status(reason),
                seq![first, then],
                sequence_blockers(reason, first, then),
                sequence_rejection_message(reason, first@, then@),
            ),
            presents(
                envelope.presentation,
                "cargo-berth did not record the requested ordering edge."@,
                sequence_rejection_message(reason, first@, then@),
            ),
            envelope.payload.facts == OutputFacts::Sequence(
                SequencePayload::Rejected { first, then, reason },
            ),
    {
        let (status, exit_code, message) = reason.response(&first, &then);
        let blocked_by = reason.blocked_by(&first, &then);
        let presentation = engine_result_presentation(
            "cargo-berth did not record the requested ordering edge.",
            message.as_str(),
        );
        let mut reservations: Vec<ReservationId> = Vec::new();
        reservations.push(first.clone());
        reservations.push(then.clone());
        assert(reservations@ =~= seq![first, then]);
        OutputEnvelope {
            output_contract_version: OUTPUT_CONTRACT_VERSION,
            verb: CommandVerb::Sequence,
            status,
            exit_code,
            reservations,
            blocked_by,
            message,
            presentation,
            payload: OutputPayload::from_facts(OutputFacts::Sequence(SequencePayload::Rejected { first, then, reason })),
        }
    }

    /// Build the result of removing only the current harness-session mapping.
    pub fn current_session_mapping_removed(removal: CurrentSessionMappingRemoval) -> (envelope:
        Self)
        ensures
            answers(
                envelope,
                CommandVerb::Identity,
                match removal {
                    CurrentSessionMappingRemoval::CurrentSessionUnavailable => OutputStatus::SessionMappingUnavailable,
                    _ => OutputStatus::SessionMappingCleared,
                },
                Seq::empty(),
                Seq::empty(),
                match removal {
                    CurrentSessionMappingRemoval::Removed => "Removed the current harness-session mapping. No reservation or edit decision changed."@,
                    CurrentSessionMappingRemoval::AlreadyAbsent => "The current harness session had no stored mapping. No reservation or edit decision changed."@,
                    CurrentSessionMappingRemoval::CurrentSessionUnavailable => "No usable CARGO_BERTH_SESSION_ID selected a session mapping. Run this recovery command from the harness session that supplied the rejected command; no session mapping changed."@,
                },
            ),
            envelope.presentation is NotProvided,
            envelope.payload.facts == OutputFacts::Identity(identity_payload_of(removal)),
    {
        let (status, message) = match removal {
            CurrentSessionMappingRemoval::Removed => (
                OutputStatus::SessionMappingCleared,
                "Removed the current harness-session mapping. No reservation or edit decision changed.",
            ),
            CurrentSessionMappingRemoval::AlreadyAbsent => (
                OutputStatus::SessionMappingCleared,
                "The current harness session had no stored mapping. No reservation or edit decision changed.",
            ),
            CurrentSessionMappingRemoval::CurrentSessionUnavailable => (
                OutputStatus::SessionMappingUnavailable,
                "No usable CARGO_BERTH_SESSION_ID selected a session mapping. Run this recovery command from the harness session that supplied the rejected command; no session mapping changed.",
            ),
        };
        OutputEnvelope {
            output_contract_version: OUTPUT_CONTRACT_VERSION,
            verb: CommandVerb::Identity,
            status,
            exit_code: status.exit(),
            reservations: Vec::new(),
            blocked_by: Vec::new(),
            message: message.to_owned(),
            presentation: EnvelopePresentation::NotProvided,
            payload: OutputPayload::from_facts(OutputFacts::Identity(IdentityPayload::from(removal))),
        }
    }

    /// Build a successful activity-renewal response.
    pub fn renewed(reservation_id: ReservationId) -> (envelope: Self)
        ensures
            answers(
                envelope,
                CommandVerb::Renew,
                OutputStatus::Renewed,
                seq![reservation_id],
                Seq::empty(),
                "Reservation "@ + reservation_id@ + " activity was renewed."@,
            ),
            envelope.presentation is NothingToShow,
            envelope.payload.facts == (OutputFacts::Renew { reservation_id }),
    {
        let message = concat3("Reservation ", reservation_id.as_str(), " activity was renewed.");
        let mut reservations: Vec<ReservationId> = Vec::new();
        reservations.push(reservation_id.clone());
        OutputEnvelope {
            output_contract_version: OUTPUT_CONTRACT_VERSION,
            verb: CommandVerb::Renew,
            status: OutputStatus::Renewed,
            exit_code: BerthExit::Clear,
            reservations,
            blocked_by: Vec::new(),
            message,
            presentation: EnvelopePresentation::nothing_to_show(),
            payload: OutputPayload::from_facts(OutputFacts::Renew { reservation_id }),
        }
    }

    /// The verb this response is recorded under.
    pub fn verb(&self) -> (verb: CommandVerb)
        ensures
            verb == self.verb,
    {
        self.verb
    }

    /// Build a bounded lock-contention result for a verb invoked directly.
    ///
    /// `retry_budget_seconds` is the single lock wait the engine already spent.
    pub fn contention(command_verb: CommandVerb, diagnostic: &str, retry_budget_seconds: u64) -> (envelope: Self)
        ensures
            answers(
                envelope,
                command_verb,
                OutputStatus::Contention,
                Seq::empty(),
                Seq::empty(),
                diagnostic@,
            ),
            hook_facing_presents(
                envelope.presentation,
                command_verb,
                HookCondition::Contention(diagnostic@),
                EngineAnswerOccasion::DirectInvocation,
                retry_budget_seconds as nat,
            ),
            envelope.payload.facts is NoFacts,
    {
        Self::contention_on(
            command_verb,
            diagnostic,
            EngineAnswerOccasion::DirectInvocation,
            retry_budget_seconds,
        )
    }

    /// Decide what the post-commit hook prints: nothing for a clear or unconfigured result, the
    /// drift message for a finding, and otherwise a warning that the commit stands unchecked.
    pub fn post_commit_rendering(&self) -> (rendering: PostCommitRendering)
        ensures
            post_commit_renders(rendering, self.status, self.message@),
    {
        let by_hand = " Run `cargo-berth drift --full` by hand; this commit remains in place.";
        match self.status {
            OutputStatus::Clear | OutputStatus::Unconfigured => PostCommitRendering::Silent,
            OutputStatus::Widened | OutputStatus::Incursion | OutputStatus::DriftCollision => {
                PostCommitRendering::Warning(self.message.clone())
            },
            OutputStatus::LedgerUnreadable => PostCommitRendering::Warning(
                concat3(
                    "cargo-berth could not check this commit's drift because the ledger was unreadable. ",
                    self.message.as_str(),
                    by_hand,
                ),
            ),
            OutputStatus::Contention => PostCommitRendering::Warning(
                concat3(
                    "cargo-berth could not check this commit's drift because the ledger lock deadline was exhausted. ",
                    self.message.as_str(),
                    by_hand,
                ),
            ),
            _ => PostCommitRendering::Warning(
                concat3(
                    "cargo-berth could not complete the post-commit drift check. ",
                    self.message.as_str(),
                    by_hand,
                ),
            ),
        }
    }

    /// Render an installed-engine post-tool-use result without reparsing its envelope.
    pub fn post_tool_use_rendering(&self) -> (rendering: PostToolUseRendering)
        ensures
            post_tool_use_renders(*self, rendering),
    {
        match &self.payload.facts {
            OutputFacts::Drift(report) => self.post_tool_use_drift_rendering(report),
            OutputFacts::ReplayFailure(failure) => {
                let summary = match self.verb {
                    CommandVerb::Check => LEDGER_UNREADABLE_FAIL_OPEN_MESSAGE,
                    CommandVerb::Board => "cargo-berth stopped on invalid reservation history at SessionStart.",
                    CommandVerb::Drift => "cargo-berth stopped on invalid reservation history after Bash.",
                    _ => "cargo-berth stopped on invalid reservation history.",
                };
                let reason = failure.rendered_reason();
                let subject = failure.rendered_subject();
                let block = replay_failure_block(summary, reason.as_str(), subject.as_str());
                PostToolUseRendering::Feedback { summary: block.summary, detail: block.detail }
            },
            OutputFacts::CoordinationIdentity(rejection) => {
                let block = coordination_identity_block(
                    coordination_identity_summary(self.verb),
                    rejection.kind.as_str(),
                    rejection.recovery_actions.as_str(),
                );
                PostToolUseRendering::Feedback { summary: block.summary, detail: block.detail }
            },
            OutputFacts::FirstTouchReservationSelection(..) => PostToolUseRendering::Feedback {
                summary: "cargo-berth could not select one active reservation for first-touch attribution.".to_owned(),
                detail: concat2("DRIFT ATTRIBUTION REQUIRED: ", self.message.as_str()),
            },
            OutputFacts::NoFacts => {
                let unconfigured = match self.status {
                    OutputStatus::Unconfigured => true,
                    _ => false,
                };
                if unconfigured {
                    PostToolUseRendering::NoFeedback
                } else {
                    self.stated_condition_rendering()
                }
            },
            _ => PostToolUseRendering::Feedback {
                summary: "cargo-berth rejected an unexpected PostToolUse response.".to_owned(),
                detail: self.message.clone(),
            },
        }
    }

    /// State a response that carries no facts in the words the deciding verb chose.
    pub fn stated_condition_rendering(&self) -> (rendering: PostToolUseRendering)
        ensures
            states_condition(rendering, self.presentation, self.message@),
    {
        match &self.presentation {
            EnvelopePresentation::NothingToShow => PostToolUseRendering::NoFeedback,
            EnvelopePresentation::RenderedBlocks { blocks } => {
                if blocks.len() > 0 {
                    let stated = blocks[0].clone();
                    PostToolUseRendering::Feedback { summary: stated.summary, detail: stated.detail }
                } else {
                    PostToolUseRendering::Feedback {
                        summary: "cargo-berth could not inspect this Bash call.".to_owned(),
                        detail: self.message.clone(),
                    }
                }
            },
            EnvelopePresentation::NotProvided => PostToolUseRendering::Feedback {
                summary: "cargo-berth could not inspect this Bash call.".to_owned(),
                detail: self.message.clone(),
            },
        }
    }

    /// Replace the presentation with what the post-tool-use hook would publish.
    pub fn refresh_post_tool_use_presentation(&mut self)
        ensures
            final(self).payload == old(self).payload,
            final(self).message == old(self).message,
            final(self).verb == old(self).verb,
            final(self).status == old(self).status,
            final(self).exit_code == old(self).exit_code,
            final(self).output_contract_version == old(self).output_contract_version,
            final(self).reservations == old(self).reservations,
            final(self).blocked_by == old(self).blocked_by,
            exists|rendering: PostToolUseRendering|
                post_tool_use_renders(*old(self), rendering) && refreshed_presents(
                    final(self).presentation,
                    rendering,
                    *old(self),
                ),
    {
        let rendering = self.post_tool_use_rendering();
        let ghost observed = rendering;
        match rendering {
            PostToolUseRendering::NoFeedback => {
                self.presentation = EnvelopePresentation::nothing_to_show();
            },
            PostToolUseRendering::Feedback { summary, detail } => {
                self.presentation = engine_result_presentation(summary.as_str(), detail.as_str());
            },
            PostToolUseRendering::FeedbackDecidedByLiveIncursionState => {
                self.presentation = match &self.payload.facts {
                    OutputFacts::Drift(report) => drift_non_incursion_presentation(
                        report,
                        self.payload.alerts.as_slice(),
                    ),
                    _ => engine_result_presentation(
                        "cargo-berth rejected an unexpected live-board presentation request.",
                        self.message.as_str(),
                    ),
                };
            },
        }
        assert(refreshed_presents(self.presentation, observed, *old(self)));
    }

    /// Build a typed hard-stop response for a rejected reservation replay.
    ///
    /// `description` is the replay error's own account of the violation.
    pub fn replay_failure(
        command_verb: CommandVerb,
        error: &ReservationReplayError,
        description: &str,
    ) -> (envelope: Self)
        ensures
            answers(
                envelope,
                command_verb,
                OutputStatus::LedgerUnreadable,
                Seq::empty(),
                Seq::empty(),
                "The reservation ledger could not be replayed: "@ + description@,
            ),
            envelope.payload.facts matches OutputFacts::ReplayFailure(payload) && (
            payload.reason,
            payload.subject,
            ) == crate::output::replay::reservation_failure(*error) && payload.effect is HardStop,
            presents(
                envelope.presentation,
                replay_stop_summary(command_verb),
                replay_failure_detail(
                    reason_wire_name(crate::output::replay::reservation_failure(*error).0),
                    subject_phrase(crate::output::replay::reservation_failure(*error).1),
                ),
            ),
    {
        let payload = ReplayFailurePayload::from_reservation_replay_error(error);
        let mut envelope = OutputEnvelope {
            output_contract_version: OUTPUT_CONTRACT_VERSION,
            verb: command_verb,
            status: OutputStatus::LedgerUnreadable,
            exit_code: BerthExit::LedgerUnreadable,
            reservations: Vec::new(),
            blocked_by: Vec::new(),
            message: concat2("The reservation ledger could not be replayed: ", description),
            presentation: EnvelopePresentation::NotProvided,
            payload: OutputPayload::from_facts(OutputFacts::ReplayFailure(payload)),
        };
        envelope.refresh_post_tool_use_presentation();
        envelope
    }

    /// Build a typed hard-stop response for invalid forced-integration permit history.
    ///
    /// `description` is the permit replay error's own account of the violation.
    pub fn forced_integration_permit_replay_failure(
        error: &ForcedIntegrationPermitReplayError,
        description: &str,
    ) -> (envelope: Self)
        ensures
            answers(
                envelope,
                CommandVerb::Integrate,
                OutputStatus::LedgerUnreadable,
                Seq::empty(),
                Seq::empty(),
                "The forced-integration permit journal could not be replayed: "@ + description@,
            ),
            envelope.payload.facts matches OutputFacts::ReplayFailure(payload) && payload.reason
                == crate::output::replay::permit_failure_reason(*error) && payload.subject
                == crate::output::replay::ReplayFailureSubject::ForcedIntegrationPermit(
                crate::output::replay::permit_failure_subject(*error),
            ) && payload.effect is HardStop,
            presents(
                envelope.presentation,
                replay_stop_summary(CommandVerb::Integrate),
                replay_failure_detail(
                    reason_wire_name(crate::output::replay::permit_failure_reason(*error)),
                    "forced-integration permit "@ + crate::output::replay::permit_failure_subject(
                        *error,
                    )@,
                ),
            ),
    {
        let payload = ReplayFailurePayload::from_permit_replay_error(error);
        let mut envelope = OutputEnvelope {
            output_contract_version: OUTPUT_CONTRACT_VERSION,
            verb: CommandVerb::Integrate,
            status: OutputStatus::LedgerUnreadable,
            exit_code: BerthExit::LedgerUnreadable,
            reservations: Vec::new(),
            blocked_by: Vec::new(),
            message: concat2(
                "The forced-integration permit journal could not be replayed: ",
                description,
            ),
            presentation: EnvelopePresentation::NotProvided,
            payload: OutputPayload::from_facts(OutputFacts::ReplayFailure(payload)),
        };
        envelope.refresh_post_tool_use_presentation();
        envelope
    }
}

/// A configuration file that could not be accepted.
#[derive(Debug, PartialEq, Eq)]
pub enum ConfigError {
    /// The configuration named a key this engine does not know.
    UnknownKey(String),
}

/// A failure to open, read or publish the ledger.
#[derive(Debug, PartialEq, Eq)]
pub enum LedgerError {
    /// The configuration could not be read.
    Config(ConfigError),
}

/// The account a ledger failure gives of itself.
pub open spec fn ledger_error_text(error: LedgerError) -> Seq<char> {
    match error {
        LedgerError::Config(ConfigError::UnknownKey(key)) => "ledger configuration failed: unknown berth configuration key: "@
            + key@,
    }
}

impl LedgerError {
    /// The account this failure gives of itself.
    pub fn message(&self) -> (text: String)
        ensures
            text@ == ledger_error_text(*self),
    {
        match self {
            LedgerError::Config(ConfigError::UnknownKey(key)) => concat2(
                "ledger configuration failed: unknown berth configuration key: ",
                key.as_str(),
            ),
        }
    }
}

} // verus!
