//! What a `drift` observation found after a write, and the words a response states it in.
use vstd::prelude::*;

use crate::ids::named;
use crate::ids::wire_ordered;
use crate::ids::wire_ordered_texts;
use crate::ids::GitObjectId;
use crate::ids::IncursionIncidentId;
use crate::ids::ReservationId;
use crate::ids::ReservationScopePath;
use crate::output::claim::conflict_ids;
use crate::output::claim::conflict_reservation_ids;
use crate::output::payload::FirstTouchReservationAcquisition;
use crate::output::payload::OutputFacts;
use crate::output::alert::lost_evidence_lines;
use crate::output::alert::lost_evidence_messages;
use crate::output::alert::Alert;
use crate::output::board::membership_of;
use crate::output::board::BoardModel;
use crate::output::board::LiveIncursionMembership;
use crate::output::envelope::answers;
use crate::output::envelope::feedback;
use crate::output::envelope::post_tool_use_renders;
use crate::output::envelope::refreshed_presents;
use crate::output::envelope::OutputPayload;
use crate::output::envelope::OUTPUT_CONTRACT_VERSION;
use crate::output::envelope::unverifiable_feedback;
use crate::output::envelope::unverifiable_live_incursion_rendering;
use crate::output::envelope::OutputEnvelope;
use crate::output::envelope::PostToolUseRendering;
use crate::output::hook::engine_result_presentation;
use crate::output::hook::presents;
use crate::output::status::status_exit;
use crate::output::status::BerthExit;
use crate::output::status::CommandVerb;
use crate::output::status::OutputStatus;
use crate::presentation::automatic_widening_block;
use crate::presentation::incursion_sentence;
use crate::presentation::outstanding_incursion_block;
use crate::presentation::lost_integration_evidence_block;
use crate::presentation::shows_only;
use crate::presentation::EnvelopePresentation;
use crate::reservation::conflict::ReservationConflict;
use crate::text::concat2;
use crate::text::concat3;
use crate::text::frame_each;
use crate::text::framed;
use crate::text::join;
use crate::text::joined;
use crate::text::texts;

verus! {

/// How a commit behind an incursion reached the phase.
#[derive(Clone, Copy, Debug, PartialEq, Eq, Structural)]
pub enum IncursionCommitOrigin {
    /// The phase itself authored the commit.
    PhaseAuthored,
    /// The commit was already on trunk, so the phase received it.
    AlreadyOnTrunk,
    /// The commit's origin could not be determined.
    Unknown,
}

/// A commit that brought some of an incursion's entered paths.
#[derive(Debug, PartialEq, Eq)]
pub struct IncursionCommit {
    /// The commit's full object name.
    pub commit: GitObjectId,
    /// The commit's subject line.
    pub subject: String,
    /// How the commit reached the phase.
    pub origin: IncursionCommitOrigin,
    /// The entered paths the commit touched.
    pub paths: Vec<String>,
}

/// One change a drift observation made to, or found in, a reservation.
#[derive(Debug, PartialEq, Eq)]
pub enum DriftEffect {
    /// Unreserved changed paths were added to the reservation.
    Widened {
        /// The file paths the reservation now also covers.
        added_scopes: Vec<ReservationScopePath>,
    },
    /// The write entered paths a foreign edit-blocking reservation holds.
    Incursion {
        /// The recorded incident.
        incident_id: IncursionIncidentId,
        /// The foreign holders.
        foreign_reservation_ids: Vec<ReservationId>,
        /// The entered paths.
        paths: Vec<String>,
        /// The commits that brought entered paths, when any did.
        commits: Vec<IncursionCommit>,
    },
    /// A widening gained a foreign blocker before its lock was acquired.
    Collision {
        /// The foreign holders.
        foreign_reservation_ids: Vec<ReservationId>,
        /// The paths the reservation could not widen to.
        paths: Vec<String>,
    },
}

/// The three kinds of drift effect.
#[derive(Clone, Copy, Debug, PartialEq, Eq, Structural)]
pub enum DriftEffectKind {
    /// A widening.
    Widened,
    /// An incursion.
    Incursion,
    /// A collision.
    Collision,
}

/// The kind of a drift effect.
pub open spec fn effect_kind(effect: DriftEffect) -> DriftEffectKind {
    match effect {
        DriftEffect::Widened { .. } => DriftEffectKind::Widened,
        DriftEffect::Incursion { .. } => DriftEffectKind::Incursion,
        DriftEffect::Collision { .. } => DriftEffectKind::Collision,
    }
}

/// Whether a drift effect is of this kind.
pub fn effect_is(effect: &DriftEffect, kind: DriftEffectKind) -> (matched: bool)
    ensures
        matched == (effect_kind(*effect) == kind),
{
    match (effect, kind) {
        (DriftEffect::Widened { .. }, DriftEffectKind::Widened) => true,
        (DriftEffect::Incursion { .. }, DriftEffectKind::Incursion) => true,
        (DriftEffect::Collision { .. }, DriftEffectKind::Collision) => true,
        _ => false,
    }
}

/// What a drift observation found for one selected reservation.
#[derive(Debug, PartialEq, Eq)]
pub enum ReservationDriftResult {
    /// No changed path fell outside the reservation's coverage.
    Unchanged {
        /// The reservation compared.
        reservation_id: ReservationId,
    },
    /// Git could not read the reservation's phase-start object, so nothing was compared.
    PhaseStartObjectUnknown {
        /// The reservation that could not be compared.
        reservation_id: ReservationId,
        /// The unreadable phase-start object.
        phase_start: GitObjectId,
    },
    /// The observation changed or found something in the reservation.
    Changed {
        /// The reservation compared.
        reservation_id: ReservationId,
        /// Each effect, in the order it was observed.
        effects: Vec<DriftEffect>,
    },
}

/// Whether free changed paths beside a post-write incursion were protected.
#[derive(Debug, PartialEq, Eq)]
pub enum PostWriteFreePathProtection {
    /// Nothing was reserved.
    NotAcquired,
    /// A first-touch reservation now protects the free paths.
    Acquired {
        /// The reservation that protects them.
        acquisition: FirstTouchReservationAcquisition,
        /// The free paths it protects.
        scopes: Vec<ReservationScopePath>,
    },
}

/// How changed paths no selected reservation covered were attributed.
#[derive(Debug, PartialEq, Eq)]
pub enum DriftPathAttributionOutcome {
    /// Every changed path was already covered.
    NotNeeded,
    /// The changed paths were attributed to one selected reservation.
    Attributed {
        /// The reservation they were attributed to.
        reservation_id: ReservationId,
    },
    /// A first-touch reservation now protects the changed paths.
    FirstTouchReserved {
        /// The reservation that protects them.
        acquisition: FirstTouchReservationAcquisition,
    },
    /// Changed paths lie inside foreign reservations.
    IncursionDetected {
        /// The changed paths inside foreign reservations.
        paths: Vec<String>,
        /// The foreign holders.
        conflicts: Vec<ReservationConflict>,
        /// Whether the remaining free paths were protected.
        protection: PostWriteFreePathProtection,
    },
    /// Several reservations could own the changed paths.
    Ambiguous {
        /// The candidate reservations.
        candidates: Vec<ReservationId>,
        /// The changed paths.
        paths: Vec<String>,
    },
    /// No coordination run was identified to own the changed paths.
    CoordinationRunRequired {
        /// The changed paths.
        paths: Vec<String>,
    },
}

/// Everything one drift observation found.
#[derive(Debug, PartialEq, Eq)]
pub struct DriftReport {
    /// One result per selected reservation.
    pub results: Vec<ReservationDriftResult>,
    /// How changed paths no selected reservation covered were attributed.
    pub path_attribution: DriftPathAttributionOutcome,
}

/// The reservation a drift result is about.
pub open spec fn result_reservation(result: ReservationDriftResult) -> ReservationId {
    match result {
        ReservationDriftResult::Unchanged { reservation_id } => reservation_id,
        ReservationDriftResult::PhaseStartObjectUnknown { reservation_id, .. } => reservation_id,
        ReservationDriftResult::Changed { reservation_id, .. } => reservation_id,
    }
}

/// The effects a drift result carries: none unless the reservation changed.
pub open spec fn result_effects(result: ReservationDriftResult) -> Seq<DriftEffect> {
    match result {
        ReservationDriftResult::Changed { effects, .. } => effects@,
        _ => Seq::empty(),
    }
}

/// Whether some result carries an effect of this kind.
pub open spec fn reports(results: Seq<ReservationDriftResult>, kind: DriftEffectKind) -> bool {
    exists|index: int, position: int|
        #![trigger result_effects(results[index])[position]]
        0 <= index < results.len() && 0 <= position < result_effects(results[index]).len()
            && effect_kind(result_effects(results[index])[position]) == kind
}

/// Whether some result could not be compared for want of its phase-start object.
pub open spec fn reports_unknown_phase_start(results: Seq<ReservationDriftResult>) -> bool {
    exists|index: int| 0 <= index < results.len() && #[trigger] results[index] is PhaseStartObjectUnknown
}

/// Whether some result carries any effect at all.
pub open spec fn reports_any_effect(results: Seq<ReservationDriftResult>) -> bool {
    exists|index: int| 0 <= index < results.len() && #[trigger] result_effects(results[index]).len() > 0
}

/// Whether the attribution outcome needed no words: every path was covered or attributed.
pub open spec fn attribution_is_quiet(attribution: DriftPathAttributionOutcome) -> bool {
    attribution is NotNeeded || attribution is Attributed
}

/// Whether the observation found something a reader must be told.
pub open spec fn reportable(report: DriftReport) -> bool {
    ||| reports_any_effect(report.results@)
    ||| reports_unknown_phase_start(report.results@)
    ||| !attribution_is_quiet(report.path_attribution)
}

/// Whether the observation blocks further work, exactly when its status does: an incursion,
/// a collision, or changed paths that still need an attribution.
pub open spec fn blocking(report: DriftReport) -> bool {
    let status = drift_status(report);
    status is Incursion || status is DriftCollision || status is DriftAttributionRequired
}

/// Whether one result carries an effect the predicate accepts.
pub fn result_has_effect(
    result: &ReservationDriftResult,
    matches_effect: impl Fn(&DriftEffect) -> bool,
) -> (found: bool)
    requires
        forall|effect: &DriftEffect| matches_effect.requires((effect,)),
    ensures
        found ==> exists|position: int|
            0 <= position < result_effects(*result).len() && matches_effect.ensures(
                (&result_effects(*result)[position],),
                true,
            ),
        !found ==> forall|position: int|
            0 <= position < result_effects(*result).len() ==> matches_effect.ensures(
                (&result_effects(*result)[position],),
                false,
            ),
{
    match result {
        ReservationDriftResult::Changed { effects, .. } => {
            let mut position: usize = 0;
            while position < effects.len()
                invariant
                    position <= effects@.len(),
                    effects@ == result_effects(*result),
                    forall|effect: &DriftEffect| matches_effect.requires((effect,)),
                    forall|earlier: int|
                        0 <= earlier < position ==> matches_effect.ensures(
                            (&effects@[earlier],),
                            false,
                        ),
                decreases effects@.len() - position,
            {
                if matches_effect(&effects[position]) {
                    return true;
                }
                position += 1;
            }
            false
        },
        _ => false,
    }
}

/// Whether some result carries an effect of this kind.
pub fn reports_effect(results: &[ReservationDriftResult], kind: DriftEffectKind) -> (found: bool)
    ensures
        found == reports(results@, kind),
{
    let mut index: usize = 0;
    while index < results.len()
        invariant
            index <= results@.len(),
            forall|earlier: int, position: int|
                #![trigger result_effects(results@[earlier])[position]]
                0 <= earlier < index && 0 <= position < result_effects(results@[earlier]).len()
                    ==> effect_kind(result_effects(results@[earlier])[position]) != kind,
        decreases results@.len() - index,
    {
        let matches_kind = |effect: &DriftEffect| -> (matched: bool)
            ensures
                matched == (effect_kind(*effect) == kind),
            { effect_is(effect, kind) };
        if result_has_effect(&results[index], matches_kind) {
            return true;
        }
        index += 1;
    }
    false
}

/// The reservations a report compared, one per result, in report order.
pub open spec fn report_reservations(results: Seq<ReservationDriftResult>) -> Seq<ReservationId> {
    results.map_values(|result: ReservationDriftResult| result_reservation(result))
}

/// The holders an effect names as blocking it.
pub open spec fn effect_blockers(effect: DriftEffect) -> Seq<ReservationId> {
    match effect {
        DriftEffect::Widened { .. } => Seq::empty(),
        DriftEffect::Incursion { foreign_reservation_ids, .. } => foreign_reservation_ids@,
        DriftEffect::Collision { foreign_reservation_ids, .. } => foreign_reservation_ids@,
    }
}

/// The holders a reservation's effects name as blocking it, in effect order.
pub open spec fn effects_blockers(effects: Seq<DriftEffect>) -> Seq<ReservationId>
    decreases effects.len(),
{
    if effects.len() == 0 {
        Seq::empty()
    } else {
        effects_blockers(effects.drop_last()) + effect_blockers(effects.last())
    }
}

/// The holders the results' effects name as blocking them, in report order.
pub open spec fn results_blockers(results: Seq<ReservationDriftResult>) -> Seq<ReservationId>
    decreases results.len(),
{
    if results.len() == 0 {
        Seq::empty()
    } else {
        results_blockers(results.drop_last()) + effects_blockers(result_effects(results.last()))
    }
}

/// Every holder the observation names as blocking it: the results' holders, then those of a
/// post-write incursion.
pub open spec fn report_blocker_candidates(report: DriftReport) -> Seq<ReservationId> {
    results_blockers(report.results@) + match report.path_attribution {
        DriftPathAttributionOutcome::IncursionDetected { conflicts, .. } => conflict_ids(
            conflicts@,
        ),
        _ => Seq::empty(),
    }
}

/// Add a list of texts after another.
fn append_texts(listed: &mut Vec<ReservationId>, more: &[ReservationId])
    ensures
        final(listed)@ == old(listed)@ + more@,
{
    let ghost start = listed@;
    let mut index: usize = 0;
    while index < more.len()
        invariant
            index <= more@.len(),
            listed@ == start + more@.take(index as int),
        decreases more@.len() - index,
    {
        listed.push(more[index].clone());
        assert(listed@ =~= start + more@.take(index + 1));
        index += 1;
    }
    assert(more@.take(more@.len() as int) =~= more@);
}

impl DriftReport {
    /// Whether the observation found something a reader must be told.
    pub fn has_reportable_effect(&self) -> (reportable_effect: bool)
        ensures
            reportable_effect == reportable(*self),
    {
        let mut index: usize = 0;
        while index < self.results.len()
            invariant
                index <= self.results@.len(),
                forall|earlier: int|
                    0 <= earlier < index ==> !(#[trigger] self.results@[earlier] is PhaseStartObjectUnknown)
                        && result_effects(self.results@[earlier]).len() == 0,
            decreases self.results@.len() - index,
        {
            match &self.results[index] {
                ReservationDriftResult::Unchanged { .. } => {},
                ReservationDriftResult::PhaseStartObjectUnknown { .. } => {
                    return true;
                },
                ReservationDriftResult::Changed { effects, .. } => {
                    if effects.len() > 0 {
                        assert(result_effects(self.results@[index as int]).len() > 0);
                        return true;
                    }
                },
            }
            index += 1;
        }
        match &self.path_attribution {
            DriftPathAttributionOutcome::NotNeeded => false,
            DriftPathAttributionOutcome::Attributed { .. } => false,
            _ => true,
        }
    }

    /// Whether the observation blocks further work, exactly when its status does.
    pub fn has_blocking_effect(&self) -> (blocking_effect: bool)
        ensures
            blocking_effect == blocking(*self),
    {
        match drift_status_of(self) {
            OutputStatus::Incursion => true,
            OutputStatus::DriftCollision => true,
            OutputStatus::DriftAttributionRequired => true,
            _ => false,
        }
    }

    /// The reservations the observation compared, one per result, in report order.
    pub fn reservation_ids(&self) -> (reservation_ids: Vec<ReservationId>)
        ensures
            reservation_ids@ == report_reservations(self.results@),
    {
        let mut reservation_ids: Vec<ReservationId> = Vec::new();
        let mut index: usize = 0;
        while index < self.results.len()
            invariant
                index <= self.results@.len(),
                reservation_ids@ == report_reservations(self.results@.take(index as int)),
            decreases self.results@.len() - index,
        {
            let reservation_id = match &self.results[index] {
                ReservationDriftResult::Unchanged { reservation_id } => reservation_id,
                ReservationDriftResult::PhaseStartObjectUnknown { reservation_id, .. } => reservation_id,
                ReservationDriftResult::Changed { reservation_id, .. } => reservation_id,
            };
            reservation_ids.push(reservation_id.clone());
            assert(reservation_ids@ =~= report_reservations(self.results@.take(index + 1)));
            index += 1;
        }
        assert(self.results@.take(self.results@.len() as int) =~= self.results@);
        reservation_ids
    }

    /// Every holder that blocks the observation, each named once, in wire order.
    pub fn blocking_reservation_ids(&self) -> (blockers: Vec<ReservationId>)
        ensures
            wire_ordered(blockers@),
            named(blockers@) == named(report_blocker_candidates(*self)),
    {
        let mut candidates: Vec<ReservationId> = Vec::new();
        let mut index: usize = 0;
        while index < self.results.len()
            invariant
                index <= self.results@.len(),
                candidates@ == results_blockers(self.results@.take(index as int)),
            decreases self.results@.len() - index,
        {
            assert(self.results@.take(index + 1).drop_last() =~= self.results@.take(index as int));
            match &self.results[index] {
                ReservationDriftResult::Changed { effects, .. } => {
                    let ghost before = candidates@;
                    let mut position: usize = 0;
                    while position < effects.len()
                        invariant
                            position <= effects@.len(),
                            candidates@ == before + effects_blockers(effects@.take(position as int)),
                        decreases effects@.len() - position,
                    {
                        assert(effects@.take(position + 1).drop_last() =~= effects@.take(
                            position as int,
                        ));
                        match &effects[position] {
                            DriftEffect::Widened { .. } => {
                                assert(candidates@ =~= before + effects_blockers(
                                    effects@.take(position + 1),
                                ));
                            },
                            DriftEffect::Incursion { foreign_reservation_ids, .. } => {
                                append_texts(&mut candidates, foreign_reservation_ids.as_slice());
                                assert(candidates@ =~= before + effects_blockers(
                                    effects@.take(position + 1),
                                ));
                            },
                            DriftEffect::Collision { foreign_reservation_ids, .. } => {
                                append_texts(&mut candidates, foreign_reservation_ids.as_slice());
                                assert(candidates@ =~= before + effects_blockers(
                                    effects@.take(position + 1),
                                ));
                            },
                        }
                        position += 1;
                    }
                    assert(effects@.take(effects@.len() as int) =~= effects@);
                },
                _ => {
                    assert(candidates@ =~= results_blockers(self.results@.take(index + 1)));
                },
            }
            index += 1;
        }
        assert(self.results@.take(self.results@.len() as int) =~= self.results@);
        match &self.path_attribution {
            DriftPathAttributionOutcome::IncursionDetected { conflicts, .. } => {
                let holders = conflict_reservation_ids(conflicts.as_slice());
                append_texts(&mut candidates, holders.as_slice());
            },
            _ => {
                assert(candidates@ =~= report_blocker_candidates(*self));
            },
        }
        wire_ordered_texts(candidates.as_slice())
    }
}

/// How a response names the way an incursion commit reached the phase.
pub open spec fn origin_phrase(origin: IncursionCommitOrigin) -> Seq<char> {
    match origin {
        IncursionCommitOrigin::PhaseAuthored => "this phase authored it"@,
        IncursionCommitOrigin::AlreadyOnTrunk => "already on trunk, so this phase received it"@,
        IncursionCommitOrigin::Unknown => "origin undetermined"@,
    }
}

/// The abbreviated object name a reader can paste into a git command: its first eight
/// characters, or all of a shorter name.
pub open spec fn short_object_name(commit: Seq<char>) -> Seq<char> {
    if commit.len() < 8 {
        commit
    } else {
        commit.take(8)
    }
}

/// How a response names one incursion commit.
pub open spec fn commit_phrase(commit: IncursionCommit) -> Seq<char> {
    short_object_name(commit.commit@) + " \""@ + commit.subject@ + "\" ("@ + origin_phrase(
        commit.origin,
    ) + ") covering "@ + joined(texts(commit.paths@), ", "@)
}

/// The phrases of several incursion commits, in order.
pub open spec fn commit_phrases(commits: Seq<IncursionCommit>) -> Seq<Seq<char>> {
    commits.map_values(|commit: IncursionCommit| commit_phrase(commit))
}

/// The sentence naming the commits behind an incursion, or nothing when there are none.
pub open spec fn incursion_commits_phrase(commits: Seq<IncursionCommit>) -> Seq<char> {
    if commits.len() == 0 {
        Seq::empty()
    } else {
        " Committed by "@ + joined(commit_phrases(commits), "; "@) + "."@
    }
}

/// Name one incursion commit.
fn commit_text(commit: &IncursionCommit) -> (text: String)
    ensures
        text@ == commit_phrase(*commit),
{
    let length = commit.commit.as_str().unicode_len();
    let shown: usize = if length < 8 {
        length
    } else {
        8
    };
    let short = commit.commit.as_str().substring_char(0, shown);
    assert(short@ == short_object_name(commit.commit@)) by {
        if length < 8 {
            assert(commit.commit@.subrange(0, length as int) =~= commit.commit@);
        }
    }
    let origin = match commit.origin {
        IncursionCommitOrigin::PhaseAuthored => "this phase authored it",
        IncursionCommitOrigin::AlreadyOnTrunk => "already on trunk, so this phase received it",
        IncursionCommitOrigin::Unknown => "origin undetermined",
    };
    let paths = join(commit.paths.as_slice(), ", ");
    let mut text = concat3(short, " \"", commit.subject.as_str());
    text.append("\" (");
    text.append(origin);
    text.append(") covering ");
    text.append(paths.as_str());
    text
}

/// Name the commits behind an incursion's entered paths, or nothing when it has none.
///
/// A path that arrived on a commit and a path just written read identically otherwise, so
/// the reader could not tell a false incursion from a real one without rebuilding the phase
/// range by hand.
pub fn render_incursion_commits(commits: &[IncursionCommit]) -> (text: String)
    ensures
        text@ == incursion_commits_phrase(commits@),
{
    if commits.len() == 0 {
        return String::new();
    }
    let mut phrases: Vec<String> = Vec::new();
    let mut index: usize = 0;
    while index < commits.len()
        invariant
            index <= commits@.len(),
            texts(phrases@) == commit_phrases(commits@).take(index as int),
        decreases commits@.len() - index,
    {
        let phrase = commit_text(&commits[index]);
        proof {
            let all = commit_phrases(commits@);
            assert(all.take(index + 1) =~= all.take(index as int).push(phrase@));
        }
        phrases.push(phrase);
        assert(texts(phrases@) =~= commit_phrases(commits@).take(index + 1));
        index += 1;
    }
    assert(commit_phrases(commits@).take(commits@.len() as int) =~= commit_phrases(commits@));
    let rendered = join(phrases.as_slice(), "; ");
    concat3(" Committed by ", rendered.as_str(), ".")
}

/// The words that state how uncovered changed paths were attributed, or nothing when every
/// path was covered or attributed.
pub open spec fn attribution_text(attribution: DriftPathAttributionOutcome) -> Seq<char> {
    match attribution {
        DriftPathAttributionOutcome::NotNeeded => Seq::empty(),
        DriftPathAttributionOutcome::Attributed { .. } => Seq::empty(),
        DriftPathAttributionOutcome::FirstTouchReserved { acquisition } => "First-touch reservation "@
            + acquisition.reservation_id@ + " now protects the changed paths."@,
        DriftPathAttributionOutcome::IncursionDetected { paths, conflicts, protection } => {
            let incursion = "Post-write detection found changed paths "@ + joined(
                texts(paths@),
                ", "@,
            ) + " inside foreign reservations "@ + joined(texts(conflict_ids(conflicts@)), ", "@)
                + ". The write already happened; stop and resolve the incursion before making more changes."@;
            match protection {
                PostWriteFreePathProtection::NotAcquired => incursion,
                PostWriteFreePathProtection::Acquired { acquisition, scopes } => incursion
                    + " First-touch reservation "@ + acquisition.reservation_id@
                    + " now protects the free paths "@ + joined(texts(scopes@), ", "@)
                    + ". If no coordination run was identified before this observation, one was started; CARGO_BERTH_RUN can select an existing run for later invocations."@,
            }
        },
        DriftPathAttributionOutcome::Ambiguous { candidates, paths } => "Changed paths "@ + joined(
            texts(paths@),
            ", "@,
        ) + " were not widened because attribution is ambiguous among reservations "@ + joined(
            texts(candidates@),
            ", "@,
        ) + ". Run `cargo-berth drift --reservation <id>` with one listed reservation."@,
        DriftPathAttributionOutcome::CoordinationRunRequired { paths } => "Changed paths "@
            + joined(texts(paths@), ", "@)
            + " were not widened because no coordination run was identified. Set CARGO_BERTH_RUN to the run that owns the target reservation, then run `cargo-berth drift --reservation <id>`."@,
    }
}

/// State how uncovered changed paths were attributed, or nothing when every path was covered
/// or attributed.
pub fn drift_path_attribution_message(attribution: &DriftPathAttributionOutcome) -> (message:
    String)
    ensures
        message@ == attribution_text(*attribution),
{
    match attribution {
        DriftPathAttributionOutcome::NotNeeded => String::new(),
        DriftPathAttributionOutcome::Attributed { .. } => String::new(),
        DriftPathAttributionOutcome::FirstTouchReserved { acquisition } => concat3(
            "First-touch reservation ",
            acquisition.reservation_id.as_str(),
            " now protects the changed paths.",
        ),
        DriftPathAttributionOutcome::IncursionDetected { paths, conflicts, protection } => {
            let entered = join(paths.as_slice(), ", ");
            let holder_ids = conflict_reservation_ids(conflicts.as_slice());
            let holders = join(holder_ids.as_slice(), ", ");
            let mut message = concat3(
                "Post-write detection found changed paths ",
                entered.as_str(),
                " inside foreign reservations ",
            );
            message.append(holders.as_str());
            message.append(
                ". The write already happened; stop and resolve the incursion before making more changes.",
            );
            match protection {
                PostWriteFreePathProtection::NotAcquired => {},
                PostWriteFreePathProtection::Acquired { acquisition, scopes } => {
                    let free = join(scopes.as_slice(), ", ");
                    message.append(" First-touch reservation ");
                    message.append(acquisition.reservation_id.as_str());
                    message.append(" now protects the free paths ");
                    message.append(free.as_str());
                    message.append(
                        ". If no coordination run was identified before this observation, one was started; CARGO_BERTH_RUN can select an existing run for later invocations.",
                    );
                },
            }
            message
        },
        DriftPathAttributionOutcome::Ambiguous { candidates, paths } => {
            let changed = join(paths.as_slice(), ", ");
            let listed = join(candidates.as_slice(), ", ");
            let mut message = concat3(
                "Changed paths ",
                changed.as_str(),
                " were not widened because attribution is ambiguous among reservations ",
            );
            message.append(listed.as_str());
            message.append(". Run `cargo-berth drift --reservation <id>` with one listed reservation.");
            message
        },
        DriftPathAttributionOutcome::CoordinationRunRequired { paths } => {
            let changed = join(paths.as_slice(), ", ");
            concat3(
                "Changed paths ",
                changed.as_str(),
                " were not widened because no coordination run was identified. Set CARGO_BERTH_RUN to the run that owns the target reservation, then run `cargo-berth drift --reservation <id>`.",
            )
        },
    }
}

/// The sentence stating one effect a drift observation had on a reservation.
pub open spec fn effect_sentence(reservation_id: Seq<char>, effect: DriftEffect) -> Seq<char> {
    match effect {
        DriftEffect::Widened { added_scopes } => "Widened reservation "@ + reservation_id
            + " to cover "@ + joined(framed(texts(added_scopes@), "file:"@, ""@), ", "@) + "."@,
        DriftEffect::Incursion { incident_id, foreign_reservation_ids, paths, commits } =>
            "Incursion "@ + incident_id@ + ": reservation "@ + reservation_id + " entered "@
            + joined(texts(paths@), ", "@) + " held by foreign reservation(s) "@ + joined(
            texts(foreign_reservation_ids@),
            ", "@,
        ) + "."@ + incursion_commits_phrase(commits@)
            + " Stop and resolve the overlap with `cargo-berth resolve "@ + reservation_id
            + " --incursion "@ + incident_id@
            + "` before making more changes. If no coordination run was identified before first-touch attribution, CARGO_BERTH_RUN can select an existing run for later invocations."@,
        DriftEffect::Collision { foreign_reservation_ids, paths } => "Reservation "@
            + reservation_id + " could not widen to "@ + joined(texts(paths@), ", "@)
            + " because foreign reservation(s) "@ + joined(texts(foreign_reservation_ids@), ", "@)
            + " acquired an edit-blocking overlap. Stop and resolve the collision."@,
    }
}

/// The sentence stating that a reservation could not be compared.
pub open spec fn unknown_phase_start_sentence(reservation_id: Seq<char>, phase_start: Seq<char>) -> Seq<
    char,
> {
    "Reservation "@ + reservation_id
        + " could not be compared because git could not read phase-start object "@ + phase_start
        + ". Restore that object before using this drift result."@
}

/// A message with one more sentence, set off by a space unless the message was empty.
pub open spec fn with_sentence(message: Seq<char>, sentence: Seq<char>) -> Seq<char> {
    if message.len() == 0 {
        sentence
    } else {
        message + " "@ + sentence
    }
}

/// A message with the sentence of each effect on one reservation added in turn.
pub open spec fn with_effect_sentences(
    message: Seq<char>,
    reservation_id: Seq<char>,
    effects: Seq<DriftEffect>,
) -> Seq<char>
    decreases effects.len(),
{
    if effects.len() == 0 {
        message
    } else {
        with_sentence(
            with_effect_sentences(message, reservation_id, effects.drop_last()),
            effect_sentence(reservation_id, effects.last()),
        )
    }
}

/// A message with what one result says added.
pub open spec fn with_result_sentences(message: Seq<char>, result: ReservationDriftResult) -> Seq<
    char,
> {
    match result {
        ReservationDriftResult::Unchanged { .. } => message,
        ReservationDriftResult::PhaseStartObjectUnknown { reservation_id, phase_start } => with_sentence(
            message,
            unknown_phase_start_sentence(reservation_id@, phase_start@),
        ),
        ReservationDriftResult::Changed { reservation_id, effects } => with_effect_sentences(
            message,
            reservation_id@,
            effects@,
        ),
    }
}

/// A message with what each result says added in turn.
pub open spec fn with_results_sentences(
    message: Seq<char>,
    results: Seq<ReservationDriftResult>,
) -> Seq<char>
    decreases results.len(),
{
    if results.len() == 0 {
        message
    } else {
        with_result_sentences(with_results_sentences(message, results.drop_last()), results.last())
    }
}

/// The message a drift response states: a quiet sentence when nothing needs reporting,
/// otherwise the attribution followed by each result's sentences.
pub open spec fn drift_text(report: DriftReport) -> Seq<char> {
    if !reportable(report) {
        if report.results@.len() == 0 {
            "No active reservation in this worktree required a drift check."@
        } else {
            "No changed path fell outside the selected reservation coverage."@
        }
    } else {
        with_results_sentences(attribution_text(report.path_attribution), report.results@)
    }
}

/// State one effect a drift observation had on a reservation.
fn effect_sentence_text(reservation_id: &str, effect: &DriftEffect) -> (sentence: String)
    ensures
        sentence@ == effect_sentence(reservation_id@, *effect),
{
    match effect {
        DriftEffect::Widened { added_scopes } => {
            let files = frame_each(added_scopes.as_slice(), "file:", "");
            let rendered = join(files.as_slice(), ", ");
            let mut sentence = concat3("Widened reservation ", reservation_id, " to cover ");
            sentence.append(rendered.as_str());
            sentence.append(".");
            sentence
        },
        DriftEffect::Incursion { incident_id, foreign_reservation_ids, paths, commits } => {
            let entered = join(paths.as_slice(), ", ");
            let holders = join(foreign_reservation_ids.as_slice(), ", ");
            let committed = render_incursion_commits(commits.as_slice());
            let mut sentence = concat3("Incursion ", incident_id.as_str(), ": reservation ");
            sentence.append(reservation_id);
            sentence.append(" entered ");
            sentence.append(entered.as_str());
            sentence.append(" held by foreign reservation(s) ");
            sentence.append(holders.as_str());
            sentence.append(".");
            sentence.append(committed.as_str());
            sentence.append(" Stop and resolve the overlap with `cargo-berth resolve ");
            sentence.append(reservation_id);
            sentence.append(" --incursion ");
            sentence.append(incident_id.as_str());
            sentence.append(
                "` before making more changes. If no coordination run was identified before first-touch attribution, CARGO_BERTH_RUN can select an existing run for later invocations.",
            );
            sentence
        },
        DriftEffect::Collision { foreign_reservation_ids, paths } => {
            let blocked = join(paths.as_slice(), ", ");
            let holders = join(foreign_reservation_ids.as_slice(), ", ");
            let mut sentence = concat3("Reservation ", reservation_id, " could not widen to ");
            sentence.append(blocked.as_str());
            sentence.append(" because foreign reservation(s) ");
            sentence.append(holders.as_str());
            sentence.append(" acquired an edit-blocking overlap. Stop and resolve the collision.");
            sentence
        },
    }
}

/// Add a sentence to a message, set off by a space unless the message is empty.
fn add_sentence(message: &mut String, sentence: &str)
    ensures
        final(message)@ == with_sentence(old(message)@, sentence@),
{
    if message.as_str().unicode_len() > 0 {
        message.append(" ");
    }
    message.append(sentence);
}

/// State everything one drift observation found.
pub fn drift_message(report: &DriftReport) -> (message: String)
    ensures
        message@ == drift_text(*report),
{
    if !report.has_reportable_effect() {
        return if report.results.len() == 0 {
            "No active reservation in this worktree required a drift check.".to_owned()
        } else {
            "No changed path fell outside the selected reservation coverage.".to_owned()
        };
    }
    let ghost opening = attribution_text(report.path_attribution);
    let mut message = drift_path_attribution_message(&report.path_attribution);
    let mut index: usize = 0;
    while index < report.results.len()
        invariant
            index <= report.results@.len(),
            message@ == with_results_sentences(opening, report.results@.take(index as int)),
        decreases report.results@.len() - index,
    {
        assert(report.results@.take(index + 1).drop_last() =~= report.results@.take(index as int));
        match &report.results[index] {
            ReservationDriftResult::Unchanged { .. } => {},
            ReservationDriftResult::PhaseStartObjectUnknown { reservation_id, phase_start } => {
                let mut sentence = concat3(
                    "Reservation ",
                    reservation_id.as_str(),
                    " could not be compared because git could not read phase-start object ",
                );
                sentence.append(phase_start.as_str());
                sentence.append(". Restore that object before using this drift result.");
                add_sentence(&mut message, sentence.as_str());
            },
            ReservationDriftResult::Changed { reservation_id, effects } => {
                let ghost before = message@;
                let mut position: usize = 0;
                while position < effects.len()
                    invariant
                        position <= effects@.len(),
                        message@ == with_effect_sentences(
                            before,
                            reservation_id@,
                            effects@.take(position as int),
                        ),
                    decreases effects@.len() - position,
                {
                    assert(effects@.take(position + 1).drop_last() =~= effects@.take(
                        position as int,
                    ));
                    let sentence = effect_sentence_text(reservation_id.as_str(), &effects[position]);
                    add_sentence(&mut message, sentence.as_str());
                    position += 1;
                }
                assert(effects@.take(effects@.len() as int) =~= effects@);
            },
        }
        index += 1;
    }
    assert(report.results@.take(report.results@.len() as int) =~= report.results@);
    message
}

/// The added file paths of a reservation's first widening, if it has one.
pub open spec fn first_widening(effects: Seq<DriftEffect>) -> Option<Seq<ReservationScopePath>>
    decreases effects.len(),
{
    if effects.len() == 0 {
        None
    } else {
        match effects[0] {
            DriftEffect::Widened { added_scopes } => Some(added_scopes@),
            _ => first_widening(effects.drop_first()),
        }
    }
}

/// The holders and paths of a reservation's first collision, if it has one.
pub open spec fn first_collision(effects: Seq<DriftEffect>) -> Option<
    (Seq<ReservationId>, Seq<String>),
>
    decreases effects.len(),
{
    if effects.len() == 0 {
        None
    } else {
        match effects[0] {
            DriftEffect::Collision { foreign_reservation_ids, paths } => Some(
                (foreign_reservation_ids@, paths@),
            ),
            _ => first_collision(effects.drop_first()),
        }
    }
}

/// The detail line announcing that a reservation widened to these file paths.
pub open spec fn widening_line(reservation_id: Seq<char>, added_scopes: Seq<ReservationScopePath>) -> Seq<
    char,
> {
    "AUTO-WIDEN: reservation "@ + reservation_id + " now covers "@ + joined(
        framed(texts(added_scopes), "file:"@, ""@),
        ", "@,
    )
}

/// The detail line announcing that a reservation could not widen past new holders.
pub open spec fn collision_line(
    reservation_id: Seq<char>,
    foreign_reservation_ids: Seq<ReservationId>,
    paths: Seq<String>,
) -> Seq<char> {
    "COLLISION: reservation "@ + reservation_id + " could not widen to "@ + joined(
        texts(paths),
        ", "@,
    ) + " because "@ + joined(texts(foreign_reservation_ids), ", "@)
        + " now holds the path. STOP and resolve the overlap before making more changes."@
}

/// The widening line of each changed reservation's first widening, in report order.
pub open spec fn widening_lines(results: Seq<ReservationDriftResult>) -> Seq<Seq<char>>
    decreases results.len(),
{
    if results.len() == 0 {
        Seq::empty()
    } else {
        let earlier = widening_lines(results.drop_last());
        match results.last() {
            ReservationDriftResult::Changed { reservation_id, effects } => match first_widening(
                effects@,
            ) {
                Some(added_scopes) => earlier.push(widening_line(reservation_id@, added_scopes)),
                None => earlier,
            },
            _ => earlier,
        }
    }
}

/// The collision line of each changed reservation's first collision, in report order.
pub open spec fn collision_lines(results: Seq<ReservationDriftResult>) -> Seq<Seq<char>>
    decreases results.len(),
{
    if results.len() == 0 {
        Seq::empty()
    } else {
        let earlier = collision_lines(results.drop_last());
        match results.last() {
            ReservationDriftResult::Changed { reservation_id, effects } => match first_collision(
                effects@,
            ) {
                Some(found) => earlier.push(collision_line(reservation_id@, found.0, found.1)),
                None => earlier,
            },
            _ => earlier,
        }
    }
}

/// State that a reservation could not widen past new holders.
pub fn collision_detail(
    reservation_id: &ReservationId,
    foreign_reservation_ids: &[ReservationId],
    paths: &[String],
) -> (detail: String)
    ensures
        detail@ == collision_line(reservation_id@, foreign_reservation_ids@, paths@),
{
    let blocked = join(paths, ", ");
    let holders = join(foreign_reservation_ids, ", ");
    let mut detail = concat3("COLLISION: reservation ", reservation_id.as_str(), " could not widen to ");
    detail.append(blocked.as_str());
    detail.append(" because ");
    detail.append(holders.as_str());
    detail.append(" now holds the path. STOP and resolve the overlap before making more changes.");
    detail
}

/// The widening line of a reservation's first widening, if it has one.
fn first_widening_line(reservation_id: &ReservationId, effects: &[DriftEffect]) -> (line: Option<
    String,
>)
    ensures
        match first_widening(effects@) {
            Some(added_scopes) => line matches Some(text) && text@ == widening_line(
                reservation_id@,
                added_scopes,
            ),
            None => line is None,
        },
{
    assert(effects@.subrange(0, effects@.len() as int) =~= effects@);
    let mut position: usize = 0;
    while position < effects.len()
        invariant
            position <= effects@.len(),
            first_widening(effects@) == first_widening(effects@.subrange(position as int, effects@.len() as int)),
        decreases effects@.len() - position,
    {
        let ghost rest = effects@.subrange(position as int, effects@.len() as int);
        assert(rest.drop_first() =~= effects@.subrange(position + 1, effects@.len() as int));
        match &effects[position] {
            DriftEffect::Widened { added_scopes } => {
                let files = frame_each(added_scopes.as_slice(), "file:", "");
                let block = automatic_widening_block(reservation_id.as_str(), files.as_slice());
                return Some(block.detail);
            },
            _ => {},
        }
        position += 1;
    }
    assert(effects@.subrange(effects@.len() as int, effects@.len() as int).len() == 0);
    None
}

/// The collision line of a reservation's first collision, if it has one.
fn first_collision_line(reservation_id: &ReservationId, effects: &[DriftEffect]) -> (line: Option<
    String,
>)
    ensures
        match first_collision(effects@) {
            Some(found) => line matches Some(text) && text@ == collision_line(
                reservation_id@,
                found.0,
                found.1,
            ),
            None => line is None,
        },
{
    assert(effects@.subrange(0, effects@.len() as int) =~= effects@);
    let mut position: usize = 0;
    while position < effects.len()
        invariant
            position <= effects@.len(),
            first_collision(effects@) == first_collision(effects@.subrange(position as int, effects@.len() as int)),
        decreases effects@.len() - position,
    {
        let ghost rest = effects@.subrange(position as int, effects@.len() as int);
        assert(rest.drop_first() =~= effects@.subrange(position + 1, effects@.len() as int));
        match &effects[position] {
            DriftEffect::Collision { foreign_reservation_ids, paths } => {
                return Some(
                    collision_detail(
                        reservation_id,
                        foreign_reservation_ids.as_slice(),
                        paths.as_slice(),
                    ),
                );
            },
            _ => {},
        }
        position += 1;
    }
    assert(effects@.subrange(effects@.len() as int, effects@.len() as int).len() == 0);
    None
}

/// The widening line of each changed reservation's first widening, in report order.
pub fn automatic_widening_details(report: &DriftReport) -> (details: Vec<String>)
    ensures
        texts(details@) == widening_lines(report.results@),
{
    let mut details: Vec<String> = Vec::new();
    let mut index: usize = 0;
    while index < report.results.len()
        invariant
            index <= report.results@.len(),
            texts(details@) == widening_lines(report.results@.take(index as int)),
        decreases report.results@.len() - index,
    {
        assert(report.results@.take(index + 1).drop_last() =~= report.results@.take(index as int));
        match &report.results[index] {
            ReservationDriftResult::Changed { reservation_id, effects } => {
                match first_widening_line(reservation_id, effects.as_slice()) {
                    Some(line) => {
                        details.push(line);
                        assert(texts(details@) =~= widening_lines(report.results@.take(index + 1)));
                    },
                    None => {},
                }
            },
            _ => {},
        }
        index += 1;
    }
    assert(report.results@.take(report.results@.len() as int) =~= report.results@);
    details
}

/// The collision line of each changed reservation's first collision, in report order.
pub fn collision_details(report: &DriftReport) -> (details: Vec<String>)
    ensures
        texts(details@) == collision_lines(report.results@),
{
    let mut details: Vec<String> = Vec::new();
    let mut index: usize = 0;
    while index < report.results.len()
        invariant
            index <= report.results@.len(),
            texts(details@) == collision_lines(report.results@.take(index as int)),
        decreases report.results@.len() - index,
    {
        assert(report.results@.take(index + 1).drop_last() =~= report.results@.take(index as int));
        match &report.results[index] {
            ReservationDriftResult::Changed { reservation_id, effects } => {
                match first_collision_line(reservation_id, effects.as_slice()) {
                    Some(line) => {
                        details.push(line);
                        assert(texts(details@) =~= collision_lines(report.results@.take(index + 1)));
                    },
                    None => {},
                }
            },
            _ => {},
        }
        index += 1;
    }
    assert(report.results@.take(report.results@.len() as int) =~= report.results@);
    details
}

/// The status a drift response reports: an incursion first, then a collision, a widening,
/// a needed attribution, an unreadable phase start, and otherwise clear.
pub open spec fn drift_status(report: DriftReport) -> OutputStatus {
    let results = report.results@;
    if reports(results, DriftEffectKind::Incursion) || report.path_attribution is IncursionDetected {
        OutputStatus::Incursion
    } else if reports(results, DriftEffectKind::Collision) {
        OutputStatus::DriftCollision
    } else if reports(results, DriftEffectKind::Widened) || report.path_attribution is FirstTouchReserved {
        OutputStatus::Widened
    } else if report.path_attribution is Ambiguous || report.path_attribution is CoordinationRunRequired {
        OutputStatus::DriftAttributionRequired
    } else if reports_unknown_phase_start(results) {
        OutputStatus::ObjectUnknown
    } else {
        OutputStatus::Clear
    }
}

/// The words that open a post-tool-use drift feedback line, by what the observation found.
#[derive(Clone, Copy, Debug, PartialEq, Eq, Structural)]
pub enum DriftFeedbackPrefix {
    /// A first-touch reservation now protects the changed paths.
    FirstTouchClaim,
    /// A post-write incursion, and nothing was reserved.
    PostWriteNothingReserved,
    /// A post-write incursion beside newly protected free paths.
    PostWriteIncursion,
    /// The changed paths need an attribution.
    AttributionRequired,
    /// A widening met a new holder.
    Collision,
    /// A reservation widened.
    AutoWiden,
    /// Nothing calls for an opening.
    Unprefixed,
}

/// Which opening a drift feedback takes.
pub open spec fn feedback_prefix(
    attribution: DriftPathAttributionOutcome,
    has_collision: bool,
    has_widen: bool,
) -> DriftFeedbackPrefix {
    match attribution {
        DriftPathAttributionOutcome::FirstTouchReserved { .. } => DriftFeedbackPrefix::FirstTouchClaim,
        DriftPathAttributionOutcome::IncursionDetected { protection, .. } => match protection {
            PostWriteFreePathProtection::NotAcquired => DriftFeedbackPrefix::PostWriteNothingReserved,
            PostWriteFreePathProtection::Acquired { .. } => DriftFeedbackPrefix::PostWriteIncursion,
        },
        DriftPathAttributionOutcome::Ambiguous { .. } => DriftFeedbackPrefix::AttributionRequired,
        DriftPathAttributionOutcome::CoordinationRunRequired { .. } => DriftFeedbackPrefix::AttributionRequired,
        _ => if has_collision {
            DriftFeedbackPrefix::Collision
        } else if has_widen {
            DriftFeedbackPrefix::AutoWiden
        } else {
            DriftFeedbackPrefix::Unprefixed
        },
    }
}

/// The opening words of a prefixed feedback line.
pub open spec fn prefix_text(prefix: DriftFeedbackPrefix) -> Seq<char> {
    match prefix {
        DriftFeedbackPrefix::FirstTouchClaim => "FIRST-TOUCH CLAIM: "@,
        DriftFeedbackPrefix::PostWriteNothingReserved => "POST-WRITE INCURSION: nothing was reserved. "@,
        DriftFeedbackPrefix::PostWriteIncursion => "POST-WRITE INCURSION: "@,
        DriftFeedbackPrefix::AttributionRequired => "DRIFT ATTRIBUTION REQUIRED: "@,
        DriftFeedbackPrefix::Collision => "COLLISION: "@,
        DriftFeedbackPrefix::AutoWiden => "AUTO-WIDEN: "@,
        DriftFeedbackPrefix::Unprefixed => Seq::empty(),
    }
}

/// Whether an opening calls for an immediate stop.
pub open spec fn prefix_stops(prefix: DriftFeedbackPrefix) -> bool {
    match prefix {
        DriftFeedbackPrefix::FirstTouchClaim => false,
        DriftFeedbackPrefix::AutoWiden => false,
        DriftFeedbackPrefix::Unprefixed => false,
        _ => true,
    }
}

/// The feedback lines a drift observation contributes before any alert.
pub open spec fn drift_feedback_lines(
    report: DriftReport,
    message: Seq<char>,
    prefix: DriftFeedbackPrefix,
) -> Seq<Seq<char>> {
    match prefix {
        DriftFeedbackPrefix::Collision => widening_lines(report.results@) + collision_lines(
            report.results@,
        ),
        DriftFeedbackPrefix::AutoWiden => widening_lines(report.results@),
        DriftFeedbackPrefix::Unprefixed => if reportable(report) {
            seq![message]
        } else {
            Seq::empty()
        },
        _ => seq![prefix_text(prefix) + message],
    }
}

/// The summary and detail of drift feedback with no incursion, as a pair; `None` when there
/// is nothing to say.
pub open spec fn drift_feedback(report: DriftReport, message: Seq<char>, alerts: Seq<Alert>) -> Option<
    (Seq<char>, Seq<char>),
> {
    let has_collision = reports(report.results@, DriftEffectKind::Collision);
    let prefix = feedback_prefix(
        report.path_attribution,
        has_collision,
        reports(report.results@, DriftEffectKind::Widened),
    );
    let lost = lost_evidence_lines(alerts);
    let lines = drift_feedback_lines(report, message, prefix) + lost;
    let stops = prefix_stops(prefix);
    if lines.len() == 0 {
        None
    } else if !stops && !has_collision && lost.len() > 0 {
        Some(
            (
                "cargo-berth detected lost integration evidence for released work."@,
                joined(lines, "\n"@),
            ),
        )
    } else if stops || has_collision {
        Some(("cargo-berth detected drift that requires an immediate stop."@, joined(lines, "\n"@)))
    } else {
        Some(("cargo-berth widened this worktree reservation footprint."@, joined(lines, "\n"@)))
    }
}

/// What the post-tool-use hook publishes for a drift response: incursions wait for a live
/// board read, and otherwise the feedback the observation and its alerts call for.
pub open spec fn drift_renders(
    rendering: PostToolUseRendering,
    report: DriftReport,
    message: Seq<char>,
    alerts: Seq<Alert>,
) -> bool {
    if reports(report.results@, DriftEffectKind::Incursion) {
        rendering is FeedbackDecidedByLiveIncursionState
    } else {
        match drift_feedback(report, message, alerts) {
            None => rendering is NoFeedback,
            Some(said) => feedback(rendering, said.0, said.1),
        }
    }
}

/// Whether a presentation shows what a drift response with incursions shows before a live
/// board read: its widenings and lost-evidence alerts, or nothing.
pub open spec fn drift_non_incursion_presents(
    presentation: EnvelopePresentation,
    report: DriftReport,
    alerts: Seq<Alert>,
) -> bool {
    let widening = widening_lines(report.results@);
    let lost = lost_evidence_lines(alerts);
    if widening.len() == 0 && lost.len() == 0 {
        presentation is NothingToShow
    } else if lost.len() > 0 {
        presents(
            presentation,
            "cargo-berth detected lost integration evidence for released work."@,
            joined(widening + lost, "\n"@),
        )
    } else {
        presents(
            presentation,
            "cargo-berth widened this worktree reservation footprint."@,
            joined(widening, "\n"@),
        )
    }
}

/// Whether a presentation shows what the post-tool-use hook would publish for a drift
/// response.
pub open spec fn drift_presents(
    presentation: EnvelopePresentation,
    report: DriftReport,
    message: Seq<char>,
    alerts: Seq<Alert>,
) -> bool {
    if reports(report.results@, DriftEffectKind::Incursion) {
        drift_non_incursion_presents(presentation, report, alerts)
    } else {
        match drift_feedback(report, message, alerts) {
            None => presentation is NothingToShow,
            Some(said) => presents(presentation, said.0, said.1),
        }
    }
}

/// Write a list of texts after another.
fn append_lines(lines: &mut Vec<String>, more: Vec<String>)
    ensures
        texts(final(lines)@) == texts(old(lines)@) + texts(more@),
{
    let ghost added = more@;
    let mut more = more;
    lines.append(&mut more);
    assert(texts(lines@) =~= texts(old(lines)@) + texts(added));
}

/// Show what a drift response with incursions shows before a live board read: its widenings
/// and lost-evidence alerts, or nothing.
pub fn drift_non_incursion_presentation(report: &DriftReport, alerts: &[Alert]) -> (presentation:
    EnvelopePresentation)
    ensures
        drift_non_incursion_presents(presentation, *report, alerts@),
{
    let mut details = automatic_widening_details(report);
    let lost = lost_evidence_messages(alerts);
    if details.len() == 0 && lost.len() == 0 {
        return EnvelopePresentation::nothing_to_show();
    }
    if lost.len() > 0 {
        append_lines(&mut details, lost);
        let detail = join(details.as_slice(), "\n");
        let block = lost_integration_evidence_block(detail.as_str());
        let presentation = EnvelopePresentation::single(block);
        assert(shows_only(presentation, block));
        presentation
    } else {
        let detail = join(details.as_slice(), "\n");
        engine_result_presentation(
            "cargo-berth widened this worktree reservation footprint.",
            detail.as_str(),
        )
    }
}

/// Which opening a drift feedback takes.
fn choose_feedback_prefix(
    attribution: &DriftPathAttributionOutcome,
    has_collision: bool,
    has_widen: bool,
) -> (prefix: DriftFeedbackPrefix)
    ensures
        prefix == feedback_prefix(*attribution, has_collision, has_widen),
{
    match attribution {
        DriftPathAttributionOutcome::FirstTouchReserved { .. } => DriftFeedbackPrefix::FirstTouchClaim,
        DriftPathAttributionOutcome::IncursionDetected { protection, .. } => match protection {
            PostWriteFreePathProtection::NotAcquired => DriftFeedbackPrefix::PostWriteNothingReserved,
            PostWriteFreePathProtection::Acquired { .. } => DriftFeedbackPrefix::PostWriteIncursion,
        },
        DriftPathAttributionOutcome::Ambiguous { .. } => DriftFeedbackPrefix::AttributionRequired,
        DriftPathAttributionOutcome::CoordinationRunRequired { .. } => DriftFeedbackPrefix::AttributionRequired,
        _ => if has_collision {
            DriftFeedbackPrefix::Collision
        } else if has_widen {
            DriftFeedbackPrefix::AutoWiden
        } else {
            DriftFeedbackPrefix::Unprefixed
        },
    }
}

/// A list holding one line: the opening words and the message.
fn opened_line(opening: &str, message: &str) -> (lines: Vec<String>)
    ensures
        texts(lines@) == seq![opening@ + message@],
{
    let lines = vec![concat2(opening, message)];
    assert(texts(lines@) =~= seq![opening@ + message@]);
    lines
}

/// The feedback lines a drift observation contributes before any alert.
fn drift_feedback_messages(
    report: &DriftReport,
    message: &String,
    prefix: DriftFeedbackPrefix,
) -> (lines: Vec<String>)
    ensures
        texts(lines@) == drift_feedback_lines(*report, message@, prefix),
{
    match prefix {
        DriftFeedbackPrefix::Collision => {
            let mut lines = automatic_widening_details(report);
            append_lines(&mut lines, collision_details(report));
            lines
        },
        DriftFeedbackPrefix::AutoWiden => automatic_widening_details(report),
        DriftFeedbackPrefix::Unprefixed => {
            if report.has_reportable_effect() {
                let lines = vec![message.clone()];
                assert(texts(lines@) =~= seq![message@]);
                lines
            } else {
                let lines: Vec<String> = Vec::new();
                assert(texts(lines@) =~= Seq::<Seq<char>>::empty());
                lines
            }
        },
        DriftFeedbackPrefix::FirstTouchClaim => opened_line("FIRST-TOUCH CLAIM: ", message.as_str()),
        DriftFeedbackPrefix::PostWriteNothingReserved => opened_line(
            "POST-WRITE INCURSION: nothing was reserved. ",
            message.as_str(),
        ),
        DriftFeedbackPrefix::PostWriteIncursion => opened_line(
            "POST-WRITE INCURSION: ",
            message.as_str(),
        ),
        DriftFeedbackPrefix::AttributionRequired => opened_line(
            "DRIFT ATTRIBUTION REQUIRED: ",
            message.as_str(),
        ),
    }
}

/// The live-board line of an incursion the board still lists as outstanding.
pub open spec fn outstanding_incursion_line(
    reservation_id: Seq<char>,
    paths: Seq<String>,
    foreign_reservation_ids: Seq<ReservationId>,
    incident_id: Seq<char>,
    commits: Seq<IncursionCommit>,
) -> Seq<char> {
    incursion_sentence(reservation_id, texts(paths), texts(foreign_reservation_ids), incident_id)
        + incursion_commits_phrase(commits) + " STOP. Resolve with `cargo-berth resolve "@
        + reservation_id + " --incursion "@ + incident_id + "` before making more changes."@
}

/// The stop lines and notice lines a path attribution adds for a live board read.
pub open spec fn attribution_live_lines(attribution: DriftPathAttributionOutcome) -> (
    Seq<Seq<char>>,
    Seq<Seq<char>>,
) {
    let said = attribution_text(attribution);
    match attribution {
        DriftPathAttributionOutcome::FirstTouchReserved { .. } => (
            Seq::empty(),
            seq!["FIRST-TOUCH CLAIM: "@ + said],
        ),
        DriftPathAttributionOutcome::IncursionDetected { .. } => (
            seq!["POST-WRITE INCURSION: "@ + said],
            Seq::empty(),
        ),
        DriftPathAttributionOutcome::Ambiguous { .. } => (
            seq!["DRIFT ATTRIBUTION REQUIRED: "@ + said],
            Seq::empty(),
        ),
        DriftPathAttributionOutcome::CoordinationRunRequired { .. } => (
            seq!["DRIFT ATTRIBUTION REQUIRED: "@ + said],
            Seq::empty(),
        ),
        _ => (Seq::empty(), Seq::empty()),
    }
}

/// Add the line a path attribution calls for to the stop lines or the notice lines.
pub fn append_live_path_attribution_rendering(
    attribution: &DriftPathAttributionOutcome,
    immediate_stop_messages: &mut Vec<String>,
    notice_messages: &mut Vec<String>,
)
    ensures
        texts(final(immediate_stop_messages)@) == texts(old(immediate_stop_messages)@)
            + attribution_live_lines(*attribution).0,
        texts(final(notice_messages)@) == texts(old(notice_messages)@) + attribution_live_lines(
            *attribution,
        ).1,
{
    let message = drift_path_attribution_message(attribution);
    match attribution {
        DriftPathAttributionOutcome::FirstTouchReserved { .. } => {
            notice_messages.push(concat2("FIRST-TOUCH CLAIM: ", message.as_str()));
        },
        DriftPathAttributionOutcome::IncursionDetected { .. } => {
            immediate_stop_messages.push(concat2("POST-WRITE INCURSION: ", message.as_str()));
        },
        DriftPathAttributionOutcome::Ambiguous { .. } => {
            immediate_stop_messages.push(concat2("DRIFT ATTRIBUTION REQUIRED: ", message.as_str()));
        },
        DriftPathAttributionOutcome::CoordinationRunRequired { .. } => {
            immediate_stop_messages.push(concat2("DRIFT ATTRIBUTION REQUIRED: ", message.as_str()));
        },
        _ => {},
    }
    assert(texts(immediate_stop_messages@) =~= texts(old(immediate_stop_messages)@)
        + attribution_live_lines(*attribution).0);
    assert(texts(notice_messages@) =~= texts(old(notice_messages)@) + attribution_live_lines(
        *attribution,
    ).1);
}

/// The summary of live-board feedback: a stop when anything calls for one, then lost
/// evidence, and otherwise a widening.
pub open spec fn live_summary(stops: Seq<Seq<char>>, lost: Seq<Seq<char>>) -> Seq<char> {
    if stops.len() > 0 {
        "cargo-berth detected drift that requires an immediate stop."@
    } else if lost.len() > 0 {
        "cargo-berth detected lost integration evidence for released work."@
    } else {
        "cargo-berth widened this worktree reservation footprint."@
    }
}

/// Whether a rendering is the live-board feedback for these stop, notice and lost-evidence
/// lines: nothing when all are empty, otherwise every line under the summary they call for.
pub open spec fn live_feedback(
    rendering: PostToolUseRendering,
    stops: Seq<Seq<char>>,
    notices: Seq<Seq<char>>,
    lost: Seq<Seq<char>>,
) -> bool {
    if stops.len() == 0 && notices.len() == 0 && lost.len() == 0 {
        rendering is NoFeedback
    } else {
        feedback(rendering, live_summary(stops, lost), joined(stops + notices + lost, "\n"@))
    }
}

/// Publish the stop lines, then the notices, then the lost-evidence lines, under the summary
/// they call for; nothing when all are empty.
pub fn live_board_feedback(
    immediate_stop_messages: Vec<String>,
    notice_messages: Vec<String>,
    lost_evidence_messages: Vec<String>,
) -> (rendering: PostToolUseRendering)
    ensures
        live_feedback(
            rendering,
            texts(immediate_stop_messages@),
            texts(notice_messages@),
            texts(lost_evidence_messages@),
        ),
{
    if immediate_stop_messages.len() == 0 && notice_messages.len() == 0
        && lost_evidence_messages.len() == 0 {
        return PostToolUseRendering::NoFeedback;
    }
    let summary = if immediate_stop_messages.len() > 0 {
        "cargo-berth detected drift that requires an immediate stop."
    } else if lost_evidence_messages.len() > 0 {
        "cargo-berth detected lost integration evidence for released work."
    } else {
        "cargo-berth widened this worktree reservation footprint."
    };
    let ghost stops = texts(immediate_stop_messages@);
    let ghost notices = texts(notice_messages@);
    let ghost lost = texts(lost_evidence_messages@);
    let mut lines = immediate_stop_messages;
    append_lines(&mut lines, notice_messages);
    append_lines(&mut lines, lost_evidence_messages);
    assert(texts(lines@) == stops + notices + lost);
    PostToolUseRendering::Feedback { summary: summary.to_owned(), detail: join(lines.as_slice(), "\n") }
}

impl OutputEnvelope {
    /// Render a drift response for the post-tool-use hook: incursions wait for a live board
    /// read, and otherwise the feedback the observation and its alerts call for.
    pub fn post_tool_use_drift_rendering(&self, report: &DriftReport) -> (rendering:
        PostToolUseRendering)
        ensures
            drift_renders(rendering, *report, self.message@, self.payload.alerts@),
    {
        if reports_effect(report.results.as_slice(), DriftEffectKind::Incursion) {
            return PostToolUseRendering::FeedbackDecidedByLiveIncursionState;
        }
        let has_collision = reports_effect(report.results.as_slice(), DriftEffectKind::Collision);
        let has_widen = reports_effect(report.results.as_slice(), DriftEffectKind::Widened);
        let lost = lost_evidence_messages(self.payload.alerts.as_slice());
        let prefix = choose_feedback_prefix(&report.path_attribution, has_collision, has_widen);
        let immediate_stop = match prefix {
            DriftFeedbackPrefix::FirstTouchClaim => false,
            DriftFeedbackPrefix::AutoWiden => false,
            DriftFeedbackPrefix::Unprefixed => false,
            _ => true,
        };
        let lost_count = lost.len();
        let mut messages = drift_feedback_messages(report, &self.message, prefix);
        append_lines(&mut messages, lost);
        if messages.len() == 0 {
            return PostToolUseRendering::NoFeedback;
        }
        let detail = join(messages.as_slice(), "\n");
        if !immediate_stop && !has_collision && lost_count > 0 {
            let block = lost_integration_evidence_block(detail.as_str());
            return PostToolUseRendering::Feedback { summary: block.summary, detail: block.detail };
        }
        let summary = if immediate_stop || has_collision {
            "cargo-berth detected drift that requires an immediate stop."
        } else {
            "cargo-berth widened this worktree reservation footprint."
        };
        PostToolUseRendering::Feedback { summary: summary.to_owned(), detail }
    }
}

/// Whether an effect is an incursion a live board cannot place.
pub open spec fn unverifiable_incursion(effect: DriftEffect, board: BoardModel) -> bool {
    match effect {
        DriftEffect::Incursion { incident_id, .. } => membership_of(board, incident_id@) is Unverifiable,
        _ => false,
    }
}

/// Whether some reported incursion is one a live board cannot place.
pub open spec fn live_unverifiable(results: Seq<ReservationDriftResult>, board: BoardModel) -> bool {
    exists|index: int, position: int|
        #![trigger result_effects(results[index])[position]]
        0 <= index < results.len() && 0 <= position < result_effects(results[index]).len()
            && unverifiable_incursion(result_effects(results[index])[position], board)
}

/// The stop lines and notice lines after one more effect is read against a live board:
/// an outstanding incursion and a collision stop, a widening is a notice, and an incursion
/// already resolved adds nothing.
pub open spec fn with_live_effect(
    lines: (Seq<Seq<char>>, Seq<Seq<char>>),
    reservation_id: Seq<char>,
    effect: DriftEffect,
    board: BoardModel,
) -> (Seq<Seq<char>>, Seq<Seq<char>>) {
    match effect {
        DriftEffect::Incursion { incident_id, foreign_reservation_ids, paths, commits } => if membership_of(
            board,
            incident_id@,
        ) is Outstanding {
            (
                lines.0.push(
                    outstanding_incursion_line(
                        reservation_id,
                        paths@,
                        foreign_reservation_ids@,
                        incident_id@,
                        commits@,
                    ),
                ),
                lines.1,
            )
        } else {
            lines
        },
        DriftEffect::Widened { added_scopes } => (
            lines.0,
            lines.1.push(widening_line(reservation_id, added_scopes@)),
        ),
        DriftEffect::Collision { foreign_reservation_ids, paths } => (
            lines.0.push(collision_line(reservation_id, foreign_reservation_ids@, paths@)),
            lines.1,
        ),
    }
}

/// The stop lines and notice lines after a reservation's effects are read in turn.
pub open spec fn with_live_effects(
    lines: (Seq<Seq<char>>, Seq<Seq<char>>),
    reservation_id: Seq<char>,
    effects: Seq<DriftEffect>,
    board: BoardModel,
) -> (Seq<Seq<char>>, Seq<Seq<char>>)
    decreases effects.len(),
{
    if effects.len() == 0 {
        lines
    } else {
        with_live_effect(
            with_live_effects(lines, reservation_id, effects.drop_last(), board),
            reservation_id,
            effects.last(),
            board,
        )
    }
}

/// The stop lines and notice lines after every changed reservation's effects are read in
/// turn.
pub open spec fn with_live_results(
    lines: (Seq<Seq<char>>, Seq<Seq<char>>),
    results: Seq<ReservationDriftResult>,
    board: BoardModel,
) -> (Seq<Seq<char>>, Seq<Seq<char>>)
    decreases results.len(),
{
    if results.len() == 0 {
        lines
    } else {
        let earlier = with_live_results(lines, results.drop_last(), board);
        match results.last() {
            ReservationDriftResult::Changed { reservation_id, effects } => with_live_effects(
                earlier,
                reservation_id@,
                effects@,
                board,
            ),
            _ => earlier,
        }
    }
}

/// What the post-tool-use hook publishes for a drift report read against a live board:
/// an immediate stop when the board cannot place a reported incursion, otherwise the lines
/// the attribution, the effects and the lost-evidence alerts call for.
pub open spec fn live_board_reading(
    rendering: PostToolUseRendering,
    report: DriftReport,
    board: BoardModel,
    alerts: Seq<Alert>,
) -> bool {
    if live_unverifiable(report.results@, board) {
        unverifiable_feedback(rendering)
    } else {
        let lines = with_live_results(
            attribution_live_lines(report.path_attribution),
            report.results@,
            board,
        );
        live_feedback(rendering, lines.0, lines.1, lost_evidence_lines(alerts))
    }
}

/// What the post-tool-use hook publishes for a response read against a later live board:
/// only a drift response against a board read can be placed, and anything else stops.
pub open spec fn live_board_renders(
    envelope: OutputEnvelope,
    live_board: OutputEnvelope,
    rendering: PostToolUseRendering,
) -> bool {
    match envelope.payload.facts {
        OutputFacts::Drift(report) => match live_board.payload.facts {
            OutputFacts::Board(board) => live_board_reading(
                rendering,
                report,
                board,
                envelope.payload.alerts@,
            ),
            _ => unverifiable_feedback(rendering),
        },
        _ => unverifiable_feedback(rendering),
    }
}

/// Write the live-board line of an incursion the board still lists as outstanding.
fn outstanding_incursion_text(
    reservation_id: &ReservationId,
    incident_id: &IncursionIncidentId,
    foreign_reservation_ids: &[ReservationId],
    paths: &[String],
    commits: &[IncursionCommit],
) -> (line: String)
    ensures
        line@ == outstanding_incursion_line(
            reservation_id@,
            paths@,
            foreign_reservation_ids@,
            incident_id@,
            commits@,
        ),
{
    let committed = render_incursion_commits(commits);
    outstanding_incursion_block(
        reservation_id.as_str(),
        paths,
        foreign_reservation_ids,
        incident_id.as_str(),
        committed.as_str(),
    )
}

impl OutputEnvelope {
    /// Render drift-reported incursions against a board read taken after that drift response.
    pub fn post_tool_use_rendering_with_live_board(&self, live_board: &Self) -> (rendering:
        PostToolUseRendering)
        ensures
            live_board_renders(*self, *live_board, rendering),
    {
        let report = match &self.payload.facts {
            OutputFacts::Drift(report) => report,
            _ => {
                return unverifiable_live_incursion_rendering();
            },
        };
        let board = match &live_board.payload.facts {
            OutputFacts::Board(board) => board,
            _ => {
                return unverifiable_live_incursion_rendering();
            },
        };
        let ghost opening = attribution_live_lines(report.path_attribution);
        let mut immediate_stop_messages: Vec<String> = Vec::new();
        let mut notice_messages: Vec<String> = Vec::new();
        append_live_path_attribution_rendering(
            &report.path_attribution,
            &mut immediate_stop_messages,
            &mut notice_messages,
        );
        assert(texts(immediate_stop_messages@) =~= opening.0);
        assert(texts(notice_messages@) =~= opening.1);
        let mut index: usize = 0;
        while index < report.results.len()
            invariant
                index <= report.results@.len(),
                self.payload.facts == OutputFacts::Drift(*report),
                live_board.payload.facts == OutputFacts::Board(*board),
                (texts(immediate_stop_messages@), texts(notice_messages@)) == with_live_results(
                    opening,
                    report.results@.take(index as int),
                    *board,
                ),
                forall|earlier: int, position: int|
                    #![trigger result_effects(report.results@[earlier])[position]]
                    0 <= earlier < index && 0 <= position < result_effects(
                        report.results@[earlier],
                    ).len() ==> !unverifiable_incursion(
                        result_effects(report.results@[earlier])[position],
                        *board,
                    ),
            decreases report.results@.len() - index,
        {
            assert(report.results@.take(index + 1).drop_last() =~= report.results@.take(
                index as int,
            ));
            match &report.results[index] {
                ReservationDriftResult::Changed { reservation_id, effects } => {
                    let ghost before = (texts(immediate_stop_messages@), texts(notice_messages@));
                    let mut position: usize = 0;
                    while position < effects.len()
                        invariant
                            position <= effects@.len(),
                            index < report.results@.len(),
                            self.payload.facts == OutputFacts::Drift(*report),
                            live_board.payload.facts == OutputFacts::Board(*board),
                            effects@ == result_effects(report.results@[index as int]),
                            (texts(immediate_stop_messages@), texts(notice_messages@))
                                == with_live_effects(
                                before,
                                reservation_id@,
                                effects@.take(position as int),
                                *board,
                            ),
                            forall|earlier: int|
                                0 <= earlier < position ==> !unverifiable_incursion(
                                    #[trigger] effects@[earlier],
                                    *board,
                                ),
                        decreases effects@.len() - position,
                    {
                        assert(effects@.take(position + 1).drop_last() =~= effects@.take(
                            position as int,
                        ));
                        match &effects[position] {
                            DriftEffect::Incursion {
                                incident_id,
                                foreign_reservation_ids,
                                paths,
                                commits,
                            } => {
                                match board.live_incursion_membership(incident_id) {
                                    LiveIncursionMembership::Outstanding => {
                                        let line = outstanding_incursion_text(
                                            reservation_id,
                                            incident_id,
                                            foreign_reservation_ids.as_slice(),
                                            paths.as_slice(),
                                            commits.as_slice(),
                                        );
                                        immediate_stop_messages.push(line);
                                        assert(texts(immediate_stop_messages@) =~= with_live_effects(
                                            before,
                                            reservation_id@,
                                            effects@.take(position + 1),
                                            *board,
                                        ).0);
                                    },
                                    LiveIncursionMembership::Recorded => {},
                                    LiveIncursionMembership::Unverifiable => {
                                        assert(unverifiable_incursion(
                                            result_effects(report.results@[index as int])[position as int],
                                            *board,
                                        ));
                                        assert(live_unverifiable(report.results@, *board));
                                        return unverifiable_live_incursion_rendering();
                                    },
                                }
                            },
                            DriftEffect::Widened { added_scopes } => {
                                let files = frame_each(added_scopes.as_slice(), "file:", "");
                                let block = automatic_widening_block(
                                    reservation_id.as_str(),
                                    files.as_slice(),
                                );
                                notice_messages.push(block.detail);
                                assert(texts(notice_messages@) =~= with_live_effects(
                                    before,
                                    reservation_id@,
                                    effects@.take(position + 1),
                                    *board,
                                ).1);
                            },
                            DriftEffect::Collision { foreign_reservation_ids, paths } => {
                                let line = collision_detail(
                                    reservation_id,
                                    foreign_reservation_ids.as_slice(),
                                    paths.as_slice(),
                                );
                                immediate_stop_messages.push(line);
                                assert(texts(immediate_stop_messages@) =~= with_live_effects(
                                    before,
                                    reservation_id@,
                                    effects@.take(position + 1),
                                    *board,
                                ).0);
                            },
                        }
                        position += 1;
                    }
                    assert(effects@.take(effects@.len() as int) =~= effects@);
                },
                _ => {},
            }
            index += 1;
        }
        assert(report.results@.take(report.results@.len() as int) =~= report.results@);
        let lost_evidence_messages = lost_evidence_messages(self.payload.alerts.as_slice());
        live_board_feedback(immediate_stop_messages, notice_messages, lost_evidence_messages)
    }
}

/// Whether some result could not be compared for want of its phase-start object.
fn reports_unknown_phase_start_object(results: &[ReservationDriftResult]) -> (found: bool)
    ensures
        found == reports_unknown_phase_start(results@),
{
    let mut index: usize = 0;
    while index < results.len()
        invariant
            index <= results@.len(),
            forall|earlier: int| 0 <= earlier < index ==> !(#[trigger] results@[earlier] is PhaseStartObjectUnknown),
        decreases results@.len() - index,
    {
        match &results[index] {
            ReservationDriftResult::PhaseStartObjectUnknown { .. } => {
                return true;
            },
            _ => {},
        }
        index += 1;
    }
    false
}

/// The status a drift report calls for.
fn drift_status_of(report: &DriftReport) -> (status: OutputStatus)
    ensures
        status == drift_status(*report),
{
    let has_incursion = reports_effect(report.results.as_slice(), DriftEffectKind::Incursion);
    let has_collision = reports_effect(report.results.as_slice(), DriftEffectKind::Collision);
    let has_widen = reports_effect(report.results.as_slice(), DriftEffectKind::Widened);
    let (incursion_detected, first_touch_reserved, attribution_required) = match &report.path_attribution {
        DriftPathAttributionOutcome::IncursionDetected { .. } => (true, false, false),
        DriftPathAttributionOutcome::FirstTouchReserved { .. } => (false, true, false),
        DriftPathAttributionOutcome::Ambiguous { .. } => (false, false, true),
        DriftPathAttributionOutcome::CoordinationRunRequired { .. } => (false, false, true),
        _ => (false, false, false),
    };
    if has_incursion || incursion_detected {
        OutputStatus::Incursion
    } else if has_collision {
        OutputStatus::DriftCollision
    } else if has_widen || first_touch_reserved {
        OutputStatus::Widened
    } else if attribution_required {
        OutputStatus::DriftAttributionRequired
    } else if reports_unknown_phase_start_object(report.results.as_slice()) {
        OutputStatus::ObjectUnknown
    } else {
        OutputStatus::Clear
    }
}

/// A refreshed drift response shows what the post-tool-use hook would publish for it.
pub(crate) proof fn refreshed_drift_presents(
    before: OutputEnvelope,
    report: DriftReport,
    presentation: EnvelopePresentation,
    rendering: PostToolUseRendering,
)
    requires
        before.payload.facts == OutputFacts::Drift(report),
        post_tool_use_renders(before, rendering),
        refreshed_presents(presentation, rendering, before),
    ensures
        drift_presents(presentation, report, before.message@, before.payload.alerts@),
{
}

impl OutputEnvelope {
    /// Build a complete drift response, its status and process outcome in agreement.
    pub fn drift(report: DriftReport) -> (envelope: Self)
        ensures
            answers(
                envelope,
                CommandVerb::Drift,
                drift_status(report),
                report_reservations(report.results@),
                envelope.blocked_by@,
                drift_text(report),
            ),
            wire_ordered(envelope.blocked_by@),
            named(envelope.blocked_by@) == named(report_blocker_candidates(report)),
            drift_presents(envelope.presentation, report, drift_text(report), Seq::empty()),
            envelope.payload.facts == OutputFacts::Drift(report),
            envelope.payload.alerts@.len() == 0,
    {
        let status = drift_status_of(&report);
        let exit_code = if report.has_blocking_effect() {
            BerthExit::BlockedByOverlap
        } else {
            BerthExit::Clear
        };
        let reservations = report.reservation_ids();
        let blocked_by = report.blocking_reservation_ids();
        let message = drift_message(&report);
        let ghost facts = OutputFacts::Drift(report);
        let mut envelope = OutputEnvelope {
            output_contract_version: OUTPUT_CONTRACT_VERSION,
            verb: CommandVerb::Drift,
            status,
            exit_code,
            reservations,
            blocked_by,
            message,
            presentation: EnvelopePresentation::NotProvided,
            payload: OutputPayload::from_facts(OutputFacts::Drift(report)),
        };
        let ghost before = envelope;
        envelope.refresh_post_tool_use_presentation();
        proof {
            let rendering = choose|rendering: PostToolUseRendering|
                post_tool_use_renders(before, rendering) && refreshed_presents(
                    envelope.presentation,
                    rendering,
                    before,
                );
            refreshed_drift_presents(before, report, envelope.presentation, rendering);
            assert(before.payload.alerts@ =~= Seq::<Alert>::empty());
        }
        envelope
    }
}

/// A drift response blocks further work exactly when its status calls for the overlap exit:
/// an incursion, a collision or a needed attribution blocks, and a widening, an unreadable
/// phase start or a clear observation does not.
pub proof fn drift_exit_follows_status(report: DriftReport)
    ensures
        blocking(report) <==> status_exit(drift_status(report)) == BerthExit::BlockedByOverlap,
        !blocking(report) <==> status_exit(drift_status(report)) == BerthExit::Clear,
{
}

/// Whether no result of a report carries an effect of this kind.
pub open spec fn carries_no(report: DriftReport, kind: DriftEffectKind) -> bool {
    forall|index: int, position: int|
        0 <= index < report.results@.len() && 0 <= position < result_effects(report.results@[index]).len()
            ==> effect_kind(#[trigger] result_effects(report.results@[index])[position]) != kind
}

/// An incursion always stops further work: a report with an incursion effect, or whose
/// unreserved paths were found to be an incursion, answers `incursion` with the overlap exit.
pub proof fn an_incursion_always_blocks(report: DriftReport, index: int, position: int)
    requires
        report.path_attribution is IncursionDetected || (0 <= index < report.results@.len() && 0 <= position
            < result_effects(report.results@[index]).len() && result_effects(report.results@[index])[position] is Incursion),
    ensures
        drift_status(report) == OutputStatus::Incursion,
        blocking(report),
        status_exit(drift_status(report)) == BerthExit::BlockedByOverlap,
{
    if !(report.path_attribution is IncursionDetected) {
        assert(effect_kind(result_effects(report.results@[index])[position]) == DriftEffectKind::Incursion);
    }
}

/// A collision blocks unless an incursion outranks it: a report carrying a collision effect
/// and no incursion answers `drift_collision` with the overlap exit.
pub proof fn a_collision_without_incursion_blocks(report: DriftReport, index: int, position: int)
    requires
        0 <= index < report.results@.len(),
        0 <= position < result_effects(report.results@[index]).len(),
        result_effects(report.results@[index])[position] is Collision,
        carries_no(report, DriftEffectKind::Incursion),
        !(report.path_attribution is IncursionDetected),
    ensures
        drift_status(report) == OutputStatus::DriftCollision,
        blocking(report),
        status_exit(drift_status(report)) == BerthExit::BlockedByOverlap,
{
    assert(effect_kind(result_effects(report.results@[index])[position]) == DriftEffectKind::Collision);
}

/// A widening alone does not block: a report carrying a widening effect and neither an
/// incursion nor a collision answers `widened` with a clear exit.
pub proof fn a_widening_alone_does_not_block(report: DriftReport, index: int, position: int)
    requires
        0 <= index < report.results@.len(),
        0 <= position < result_effects(report.results@[index]).len(),
        result_effects(report.results@[index])[position] is Widened,
        carries_no(report, DriftEffectKind::Incursion),
        carries_no(report, DriftEffectKind::Collision),
        !(report.path_attribution is IncursionDetected),
    ensures
        drift_status(report) == OutputStatus::Widened,
        !blocking(report),
        status_exit(drift_status(report)) == BerthExit::Clear,
{
    assert(effect_kind(result_effects(report.results@[index])[position]) == DriftEffectKind::Widened);
}

/// Unattributed paths with no drift effect stop the session for an attribution: a report
/// without effects whose attribution was ambiguous or needs a coordination run answers
/// `drift_attribution_required` and blocks.
pub proof fn a_needed_attribution_blocks(report: DriftReport)
    requires
        carries_no(report, DriftEffectKind::Incursion),
        carries_no(report, DriftEffectKind::Collision),
        carries_no(report, DriftEffectKind::Widened),
        report.path_attribution is Ambiguous || report.path_attribution is CoordinationRunRequired,
    ensures
        drift_status(report) == OutputStatus::DriftAttributionRequired,
        blocking(report),
        status_exit(drift_status(report)) == BerthExit::BlockedByOverlap,
{
}

/// A quiet observation is clear: no effect, every unreserved path covered or attributed, and
/// every phase start readable answers `clear` and does not block.
pub proof fn a_quiet_observation_is_clear(report: DriftReport)
    requires
        carries_no(report, DriftEffectKind::Incursion),
        carries_no(report, DriftEffectKind::Collision),
        carries_no(report, DriftEffectKind::Widened),
        report.path_attribution is NotNeeded || report.path_attribution is Attributed,
        forall|index: int| 0 <= index < report.results@.len() ==> !(#[trigger] report.results@[index] is PhaseStartObjectUnknown),
    ensures
        drift_status(report) == OutputStatus::Clear,
        !blocking(report),
        status_exit(drift_status(report)) == BerthExit::Clear,
{
}

} // verus!
