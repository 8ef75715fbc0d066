//! How the conditions a harness hook reads are stated for each verb and occasion.
use vstd::prelude::*;

use crate::output::status::CommandVerb;
use crate::presentation::block_reads;
use crate::presentation::engine_message_block;
use crate::presentation::shows_only;
use crate::presentation::EnvelopePresentation;
use crate::text::concat2;
use crate::text::concat3;
use crate::text::decimal;
use crate::text::decimal_text;

verus! {

/// The one sentence a fail-open edit decision states, wherever it is rendered.
pub const LEDGER_UNREADABLE_FAIL_OPEN_MESSAGE: &'static str = "cargo-berth could not establish edit safety; editing is allowed because ledger loss fails open.";

/// A presentation that shows exactly one block with this summary and detail.
pub open spec fn presents(presentation: EnvelopePresentation, summary: Seq<char>, detail: Seq<char>) -> bool {
    presentation matches EnvelopePresentation::RenderedBlocks { blocks } && blocks@.len() == 1
        && block_reads(blocks@[0], summary, detail)
}

/// Present a block as the engine's complete result.
pub fn engine_result_presentation(summary: &str, detail: &str) -> (presentation: EnvelopePresentation)
    ensures
        presents(presentation, summary@, detail@),
{
    let block = engine_message_block(summary, detail);
    let presentation = EnvelopePresentation::single(block);
    assert(shows_only(presentation, block));
    presentation
}

/// The occasion an engine response is produced on, for the text that names it.
#[derive(Clone, Copy, Debug, PartialEq, Eq, Structural)]
pub enum EngineAnswerOccasion {
    /// No harness hook drives this process, so the response names no event.
    DirectInvocation,
    /// A `PostToolUse` hook owns this answer, taken after one Bash call completed.
    CompletedBashCall,
    /// A `SessionStart` hook owns this answer, taken while one session opened.
    OpeningSession,
}

/// The words naming an occasion at the end of a condition clause.
pub open spec fn occasion_suffix(occasion: EngineAnswerOccasion) -> Seq<char> {
    match occasion {
        EngineAnswerOccasion::DirectInvocation => Seq::empty(),
        EngineAnswerOccasion::CompletedBashCall => " after Bash"@,
        EngineAnswerOccasion::OpeningSession => " at SessionStart"@,
    }
}

impl EngineAnswerOccasion {
    /// Complete one condition clause with the occasion the engine met it on.
    pub fn summary_for(&self, condition: &str) -> (summary: String)
        ensures
            summary@ == condition@ + occasion_suffix(*self) + "."@,
    {
        let occasion = match self {
            EngineAnswerOccasion::DirectInvocation => "",
            EngineAnswerOccasion::CompletedBashCall => " after Bash",
            EngineAnswerOccasion::OpeningSession => " at SessionStart",
        };
        proof {
            reveal_strlit("");
        }
        concat3(condition, occasion, ".")
    }
}

/// The engine conditions a harness hook reads, in the words the deciding verb states.
pub enum HookFacingCondition<'condition> {
    /// This repository is not participating in coordination.
    Unconfigured,
    /// The reservation ledger could not be read.
    LedgerUnreadable { message: &'condition str },
    /// The bounded ledger-lock deadline was exhausted before the ledger came free.
    Contention { diagnostic: &'condition str },
    /// The request itself could not be accepted.
    InvalidInput { diagnostic: &'condition str },
}

/// A hook-facing condition with its text taken as a sequence of characters.
pub enum HookCondition {
    /// This repository is not participating in coordination.
    Unconfigured,
    /// The reservation ledger could not be read; the message says why.
    LedgerUnreadable(Seq<char>),
    /// The ledger-lock deadline was exhausted; the diagnostic says how.
    Contention(Seq<char>),
    /// The request could not be accepted; the diagnostic says why.
    InvalidInput(Seq<char>),
}

impl View for HookFacingCondition<'_> {
    type V = HookCondition;

    open spec fn view(&self) -> HookCondition {
        match self {
            HookFacingCondition::Unconfigured => HookCondition::Unconfigured,
            HookFacingCondition::LedgerUnreadable { message } => HookCondition::LedgerUnreadable(message@),
            HookFacingCondition::Contention { diagnostic } => HookCondition::Contention(diagnostic@),
            HookFacingCondition::InvalidInput { diagnostic } => HookCondition::InvalidInput(diagnostic@),
        }
    }
}

/// The sentence stating that the single bounded lock wait is already spent.
pub open spec fn spent_retry_budget(
    occasion: EngineAnswerOccasion,
    unretried: Seq<char>,
    budget_seconds: nat,
) -> Seq<char> {
    let spent = "The engine already spent its single "@ + decimal(budget_seconds)
        + "-second retry budget"@;
    match occasion {
        EngineAnswerOccasion::DirectInvocation => spent + "."@,
        _ => spent + "; "@ + unretried + "."@,
    }
}

/// State that the bounded ledger-lock wait is already spent, and who did not spend it twice.
pub fn spent_retry_budget_sentence(
    occasion: EngineAnswerOccasion,
    unretried: &str,
    retry_budget_seconds: u64,
) -> (sentence: String)
    ensures
        sentence@ == spent_retry_budget(occasion, unretried@, retry_budget_seconds as nat),
{
    let seconds = decimal_text(retry_budget_seconds);
    let mut sentence = concat3(
        "The engine already spent its single ",
        seconds.as_str(),
        "-second retry budget",
    );
    match occasion {
        EngineAnswerOccasion::DirectInvocation => {
            sentence.append(".");
        },
        _ => {
            sentence.append("; ");
            sentence.append(unretried);
            sentence.append(".");
        },
    }
    sentence
}

/// Whether a presentation states a condition as `hook pre-tool-use` publishes it.
pub open spec fn check_presents(presentation: EnvelopePresentation, condition: HookCondition) -> bool {
    match condition {
        HookCondition::Unconfigured => presentation is NothingToShow,
        HookCondition::LedgerUnreadable(message) => presents(
            presentation,
            LEDGER_UNREADABLE_FAIL_OPEN_MESSAGE@,
            message,
        ),
        HookCondition::Contention(diagnostic) => presents(
            presentation,
            "cargo-berth rejected this edit because another cargo-berth operation still holds the ledger lock."@,
            diagnostic,
        ),
        HookCondition::InvalidInput(diagnostic) => presents(
            presentation,
            "cargo-berth rejected this edit because it could not accept the request."@,
            diagnostic,
        ),
    }
}

/// State one condition in the words `hook pre-tool-use` publishes about a pending edit.
pub fn pre_tool_use_check_presentation(condition: &HookFacingCondition<'_>) -> (presentation:
    EnvelopePresentation)
    ensures
        check_presents(presentation, condition@),
{
    match condition {
        HookFacingCondition::Unconfigured => EnvelopePresentation::nothing_to_show(),
        HookFacingCondition::LedgerUnreadable { message } => engine_result_presentation(
            LEDGER_UNREADABLE_FAIL_OPEN_MESSAGE,
            message,
        ),
        HookFacingCondition::Contention { diagnostic } => engine_result_presentation(
            "cargo-berth rejected this edit because another cargo-berth operation still holds the ledger lock.",
            diagnostic,
        ),
        HookFacingCondition::InvalidInput { diagnostic } => engine_result_presentation(
            "cargo-berth rejected this edit because it could not accept the request.",
            diagnostic,
        ),
    }
}

/// Whether a presentation states a condition in the words a `board` reader is owed.
pub open spec fn board_presents(
    presentation: EnvelopePresentation,
    condition: HookCondition,
    occasion: EngineAnswerOccasion,
    budget_seconds: nat,
) -> bool {
    match condition {
        HookCondition::Unconfigured => presentation is NothingToShow,
        HookCondition::LedgerUnreadable(message) => presents(
            presentation,
            "cargo-berth could not read the reservation ledger"@ + occasion_suffix(occasion) + "."@,
            message + " Run `cargo-berth board --json` again after repairing the ledger."@,
        ),
        HookCondition::Contention(diagnostic) => presents(
            presentation,
            "cargo-berth exhausted its ledger-lock deadline"@ + occasion_suffix(occasion) + "."@,
            diagnostic + " "@ + spent_retry_budget(
                occasion,
                "the hook did not invoke board again"@,
                budget_seconds,
            ) + " Run `cargo-berth board --json` when the ledger is free."@,
        ),
        HookCondition::InvalidInput(..) => presentation is NotProvided,
    }
}

/// State one condition in the words a `board` reader is owed, hook or terminal alike.
///
/// A repository outside coordination is deliberate silence; an unreadable ledger and an
/// exhausted lock deadline are both reported and told apart; a rejected request is the caller's
/// own and is read from `message`.
pub fn board_presentation(
    condition: &HookFacingCondition<'_>,
    occasion: EngineAnswerOccasion,
    retry_budget_seconds: u64,
) -> (presentation: EnvelopePresentation)
    ensures
        board_presents(presentation, condition@, occasion, retry_budget_seconds as nat),
{
    match condition {
        HookFacingCondition::Unconfigured => EnvelopePresentation::nothing_to_show(),
        HookFacingCondition::LedgerUnreadable { message } => {
            let summary = occasion.summary_for("cargo-berth could not read the reservation ledger");
            let detail = concat2(
                message,
                " Run `cargo-berth board --json` again after repairing the ledger.",
            );
            engine_result_presentation(summary.as_str(), detail.as_str())
        },
        HookFacingCondition::Contention { diagnostic } => {
            let summary = occasion.summary_for("cargo-berth exhausted its ledger-lock deadline");
            let spent = spent_retry_budget_sentence(
                occasion,
                "the hook did not invoke board again",
                retry_budget_seconds,
            );
            let mut detail = concat3(diagnostic, " ", spent.as_str());
            detail.append(" Run `cargo-berth board --json` when the ledger is free.");
            engine_result_presentation(summary.as_str(), detail.as_str())
        },
        HookFacingCondition::InvalidInput { .. } => EnvelopePresentation::NotProvided,
    }
}

/// Whether a presentation states a condition in the words a `drift` reader is owed.
pub open spec fn drift_presents(
    presentation: EnvelopePresentation,
    condition: HookCondition,
    occasion: EngineAnswerOccasion,
    budget_seconds: nat,
) -> bool {
    match condition {
        HookCondition::Unconfigured => presentation is NothingToShow,
        HookCondition::LedgerUnreadable(message) => presents(
            presentation,
            "cargo-berth could not read the reservation ledger"@ + occasion_suffix(occasion) + "."@,
            message,
        ),
        HookCondition::Contention(diagnostic) => presents(
            presentation,
            "cargo-berth exhausted its ledger-lock deadline"@ + occasion_suffix(occasion) + "."@,
            diagnostic + " "@ + spent_retry_budget(
                occasion,
                "it was not invoked again"@,
                budget_seconds,
            ),
        ),
        HookCondition::InvalidInput(diagnostic) => presents(
            presentation,
            "cargo-berth could not select or validate the drift reservation."@,
            diagnostic + " Run `cargo-berth drift --reservation <id> --json` by hand."@,
        ),
    }
}

/// State one condition in the words a `drift` reader is owed, hook or terminal alike.
///
/// The Bash call a post-tool-use hook reports on has already run, so none of these conditions
/// blocks anything; the reader learns which reason left the call uncompared.
pub fn drift_presentation(
    condition: &HookFacingCondition<'_>,
    occasion: EngineAnswerOccasion,
    retry_budget_seconds: u64,
) -> (presentation: EnvelopePresentation)
    ensures
        drift_presents(presentation, condition@, occasion, retry_budget_seconds as nat),
{
    match condition {
        HookFacingCondition::Unconfigured => EnvelopePresentation::nothing_to_show(),
        HookFacingCondition::LedgerUnreadable { message } => {
            let summary = occasion.summary_for("cargo-berth could not read the reservation ledger");
            engine_result_presentation(summary.as_str(), message)
        },
        HookFacingCondition::Contention { diagnostic } => {
            let summary = occasion.summary_for("cargo-berth exhausted its ledger-lock deadline");
            let spent = spent_retry_budget_sentence(
                occasion,
                "it was not invoked again",
                retry_budget_seconds,
            );
            let detail = concat3(diagnostic, " ", spent.as_str());
            engine_result_presentation(summary.as_str(), detail.as_str())
        },
        HookFacingCondition::InvalidInput { diagnostic } => {
            let detail = concat2(
                diagnostic,
                " Run `cargo-berth drift --reservation <id> --json` by hand.",
            );
            engine_result_presentation(
                "cargo-berth could not select or validate the drift reservation.",
                detail.as_str(),
            )
        },
    }
}

/// Whether a presentation states a condition as the deciding verb's reader is owed it: only
/// `check`, `board` and `drift` reach a hook, and every other verb provides none.
pub open spec fn hook_facing_presents(
    presentation: EnvelopePresentation,
    command_verb: CommandVerb,
    condition: HookCondition,
    occasion: EngineAnswerOccasion,
    budget_seconds: nat,
) -> bool {
    match command_verb {
        CommandVerb::Check => check_presents(presentation, condition),
        CommandVerb::Board => board_presents(presentation, condition, occasion, budget_seconds),
        CommandVerb::Drift => drift_presents(presentation, condition, occasion, budget_seconds),
        _ => presentation is NotProvided,
    }
}

/// Carry a presentation only for the verbs a harness hook reads.
pub fn hook_facing_presentation(
    command_verb: CommandVerb,
    condition: &HookFacingCondition<'_>,
    occasion: EngineAnswerOccasion,
    retry_budget_seconds: u64,
) -> (presentation: EnvelopePresentation)
    ensures
        hook_facing_presents(
            presentation,
            command_verb,
            condition@,
            occasion,
            retry_budget_seconds as nat,
        ),
{
    match command_verb {
        CommandVerb::Check => pre_tool_use_check_presentation(condition),
        CommandVerb::Board => board_presentation(condition, occasion, retry_budget_seconds),
        CommandVerb::Drift => drift_presentation(condition, occasion, retry_budget_seconds),
        _ => EnvelopePresentation::NotProvided,
    }
}

/// A repository outside coordination is silent for every hook-read verb, and every verb no
/// hook reads provides no presentation, whatever the occasion.
pub proof fn unconfigured_repositories_stay_silent(
    presentation: EnvelopePresentation,
    command_verb: CommandVerb,
    occasion: EngineAnswerOccasion,
    budget_seconds: nat,
)
    requires
        hook_facing_presents(
            presentation,
            command_verb,
            HookCondition::Unconfigured,
            occasion,
            budget_seconds,
        ),
    ensures
        presentation is NothingToShow || presentation is NotProvided,
        (command_verb is Check || command_verb is Board || command_verb is Drift)
            ==> presentation is NothingToShow,
{
}

} // verus!
