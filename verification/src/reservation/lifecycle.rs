//! Reservation progress and independently revalidated integration evidence.
//!
//! Checkpoint and release end a run's editing lifetime. Successful merge-extent emptiness
//! clears branch protection, and once a run has done work it also ends the run: reconciliation
//! checkpoints the run at a head trunk contains and settles it as integrated. An ended run with
//! an empty extent is retained only for audit.
use vstd::prelude::*;

use crate::ids::GitObjectId;
use crate::reservation::evidence::ProtectedReservationTip;
use crate::text::trim_whitespace;
use crate::text::trimmed;

verus! {

/// Whether git found the first commit in the history of the second.
#[derive(Clone, Copy, Debug, PartialEq, Eq, Structural)]
pub enum Reachability {
    /// The first commit is an ancestor of (or equal to) the second.
    Ancestor,
    /// Both commits exist, and the first is not in the history of the second.
    NotAncestor,
    /// Git could not resolve one of the commits.
    ObjectUnknown,
}

/// The git fact supporting an integrated evidence status.
#[derive(Clone, Copy, Debug, PartialEq, Eq, Structural)]
pub enum IntegrationProof {
    /// Current trunk contains the protected commit itself.
    ProtectedTipAncestor,
    /// Current trunk contains the verified rewritten-integration witness.
    RewrittenWitnessAncestor,
    /// Current trunk contains every protected scoped patch under an equivalent commit identity.
    ScopedPatchEquivalent,
}

impl IntegrationProof {
    /// The stable wire spelling of this proof.
    pub fn wire_name(&self) -> (name: &'static str)
        ensures
            name@ == match *self {
                IntegrationProof::ProtectedTipAncestor => "protected_tip_ancestor"@,
                IntegrationProof::RewrittenWitnessAncestor => "rewritten_witness_ancestor"@,
                IntegrationProof::ScopedPatchEquivalent => "scoped_patch_equivalent"@,
            },
    {
        match self {
            IntegrationProof::ProtectedTipAncestor => "protected_tip_ancestor",
            IntegrationProof::RewrittenWitnessAncestor => "rewritten_witness_ancestor",
            IntegrationProof::ScopedPatchEquivalent => "scoped_patch_equivalent",
        }
    }
}

impl Default for IntegrationProof {
    fn default() -> (proof: Self)
        ensures
            proof == IntegrationProof::ProtectedTipAncestor,
    {
        IntegrationProof::ProtectedTipAncestor
    }
}

/// The verified trunk commit witnessing rewritten integration.
#[derive(Debug, PartialEq, Eq)]
pub struct RewrittenIntegrationTrunkCommit(pub GitObjectId);

impl RewrittenIntegrationTrunkCommit {
    /// The witnessing trunk commit.
    pub open spec fn commit(self) -> GitObjectId {
        self.0
    }

    /// Name this trunk commit as the witness.
    pub fn new(commit: GitObjectId) -> (witness: Self)
        ensures
            witness.commit() == commit,
    {
        RewrittenIntegrationTrunkCommit(commit)
    }

    /// Borrow the witnessing commit.
    pub fn as_commit(&self) -> (commit: &GitObjectId)
        ensures
            *commit == self.commit(),
    {
        &self.0
    }

    /// Revalidate this witness by ancestry alone, without replaying the original phase.
    ///
    /// The ancestry query is asked exactly once, about the witness itself.
    pub fn revalidate_ancestry<Query: FnOnce(&GitObjectId) -> Reachability>(
        &self,
        trunk: &GitObjectId,
        reachability: Query,
    ) -> (status: IntegrationEvidenceStatus)
        requires
            reachability.requires((&self.0,)),
        ensures
            exists|answer: Reachability|
                reachability.ensures((&self.0,), answer) && status == witness_ancestry_status(
                    *self,
                    *trunk,
                    answer,
                ),
    {
        let answer = reachability(&self.0);
        let status = match answer {
            Reachability::Ancestor => IntegrationEvidenceStatus::Integrated {
                trunk_oid: trunk.clone(),
                proof: IntegrationProof::RewrittenWitnessAncestor,
                witness: IntegrationWitness::Historical(self.clone()),
            },
            Reachability::NotAncestor => IntegrationEvidenceStatus::TrunkRewritten,
            Reachability::ObjectUnknown => IntegrationEvidenceStatus::ObjectUnknown,
        };
        assert(reachability.ensures((&self.0,), answer) && status == witness_ancestry_status(
            *self,
            *trunk,
            answer,
        ));
        status
    }
}

/// What a rewritten-integration witness proves once git has answered its ancestry query.
pub open spec fn witness_ancestry_status(
    witness: RewrittenIntegrationTrunkCommit,
    trunk: GitObjectId,
    answer: Reachability,
) -> IntegrationEvidenceStatus {
    match answer {
        Reachability::Ancestor => IntegrationEvidenceStatus::Integrated {
            trunk_oid: trunk,
            proof: IntegrationProof::RewrittenWitnessAncestor,
            witness: IntegrationWitness::Historical(witness),
        },
        Reachability::NotAncestor => IntegrationEvidenceStatus::TrunkRewritten,
        Reachability::ObjectUnknown => IntegrationEvidenceStatus::ObjectUnknown,
    }
}

impl Clone for RewrittenIntegrationTrunkCommit {
    fn clone(&self) -> (copy: Self)
        ensures
            copy == *self,
    {
        RewrittenIntegrationTrunkCommit(self.0.clone())
    }
}

impl From<GitObjectId> for RewrittenIntegrationTrunkCommit {
    fn from(commit: GitObjectId) -> (witness: Self) {
        RewrittenIntegrationTrunkCommit(commit)
    }
}

impl vstd::std_specs::convert::FromSpecImpl<GitObjectId> for RewrittenIntegrationTrunkCommit {
    open spec fn obeys_from_spec() -> bool {
        true
    }

    open spec fn from_spec(commit: GitObjectId) -> Self {
        RewrittenIntegrationTrunkCommit(commit)
    }
}

/// Which trunk commit witnesses the protected work within an evaluated trunk.
#[derive(Debug, PartialEq, Eq)]
pub enum IntegrationWitness {
    /// The evaluated trunk itself witnesses integration.
    EvaluatedTrunk,
    /// An earlier verified trunk commit witnesses rewritten integration.
    Historical(RewrittenIntegrationTrunkCommit),
}

impl IntegrationWitness {
    /// The witness identity, resolved against the trunk used for this evaluation.
    pub open spec fn resolved(self, evaluated_trunk: GitObjectId) -> RewrittenIntegrationTrunkCommit {
        match self {
            IntegrationWitness::EvaluatedTrunk => RewrittenIntegrationTrunkCommit(evaluated_trunk),
            IntegrationWitness::Historical(commit) => commit,
        }
    }

    /// Resolve the witness identity against the trunk used for this evaluation.
    pub fn resolve(&self, evaluated_trunk: &GitObjectId) -> (witness: RewrittenIntegrationTrunkCommit)
        ensures
            witness == self.resolved(*evaluated_trunk),
    {
        match self {
            IntegrationWitness::EvaluatedTrunk => RewrittenIntegrationTrunkCommit(
                evaluated_trunk.clone(),
            ),
            IntegrationWitness::Historical(commit) => commit.clone(),
        }
    }
}

impl Clone for IntegrationWitness {
    fn clone(&self) -> (copy: Self)
        ensures
            copy == *self,
    {
        match self {
            IntegrationWitness::EvaluatedTrunk => IntegrationWitness::EvaluatedTrunk,
            IntegrationWitness::Historical(commit) => IntegrationWitness::Historical(commit.clone()),
        }
    }
}

impl Default for IntegrationWitness {
    fn default() -> (witness: Self)
        ensures
            witness == IntegrationWitness::EvaluatedTrunk,
    {
        IntegrationWitness::EvaluatedTrunk
    }
}

/// What the current trunk proves about retained reservation evidence.
#[derive(Debug, PartialEq, Eq)]
pub enum IntegrationEvidenceStatus {
    /// The protected commit is not reachable from current trunk.
    NotIntegrated,
    /// Current trunk contains the protected integration evidence.
    Integrated {
        /// The current trunk commit that was checked.
        trunk_oid: GitObjectId,
        /// The git fact that established integration.
        proof: IntegrationProof,
        /// The commit witnessing integration within the evaluated trunk.
        witness: IntegrationWitness,
    },
    /// Trunk no longer contains evidence that was previously verified.
    TrunkRewritten,
    /// Git could not resolve the object needed for the reachability query.
    ObjectUnknown,
}

impl IntegrationEvidenceStatus {
    /// The historical checkpoint-only edit decision: only integrated evidence clears.
    pub fn edit_blocking_status(&self) -> (status: EditBlockingStatus)
        ensures
            status == (if *self is Integrated {
                EditBlockingStatus::Clear
            } else {
                EditBlockingStatus::Blocking
            }),
    {
        match self {
            IntegrationEvidenceStatus::Integrated { .. } => EditBlockingStatus::Clear,
            _ => EditBlockingStatus::Blocking,
        }
    }
}

impl Clone for IntegrationEvidenceStatus {
    fn clone(&self) -> (copy: Self)
        ensures
            copy == *self,
    {
        match self {
            IntegrationEvidenceStatus::NotIntegrated => IntegrationEvidenceStatus::NotIntegrated,
            IntegrationEvidenceStatus::Integrated { trunk_oid, proof, witness } => {
                IntegrationEvidenceStatus::Integrated {
                    trunk_oid: trunk_oid.clone(),
                    proof: *proof,
                    witness: witness.clone(),
                }
            },
            IntegrationEvidenceStatus::TrunkRewritten => IntegrationEvidenceStatus::TrunkRewritten,
            IntegrationEvidenceStatus::ObjectUnknown => IntegrationEvidenceStatus::ObjectUnknown,
        }
    }
}

/// The effective edit decision derived from reservation lifecycle and integration evidence.
#[derive(Clone, Copy, Debug, PartialEq, Eq, Structural)]
pub enum EditBlockingStatus {
    /// The reservation still blocks foreign edits.
    Blocking,
    /// The reservation is released or its outstanding evidence permits foreign edits.
    Clear,
}

impl EditBlockingStatus {
    /// The stable wire spelling of this decision.
    pub fn wire_name(&self) -> (name: &'static str)
        ensures
            name@ == (if *self is Blocking {
                "blocking"@
            } else {
                "clear"@
            }),
    {
        match self {
            EditBlockingStatus::Blocking => "blocking",
            EditBlockingStatus::Clear => "clear",
        }
    }
}

/// The required explanation for a user-confirmed abandonment.
#[derive(Debug, PartialEq, Eq)]
pub struct AbandonmentReason(String);

/// An abandonment reason was empty once surrounding whitespace was removed.
#[derive(Clone, Copy, Debug, PartialEq, Eq, Structural)]
pub struct EmptyAbandonmentReason;

impl EmptyAbandonmentReason {
    /// The sentence reporting this error.
    pub fn message(&self) -> (text: &'static str)
        ensures
            text@ == "an abandonment reason cannot be empty"@,
    {
        "an abandonment reason cannot be empty"
    }
}

impl AbandonmentReason {
    /// The explanation as recorded.
    pub closed spec fn text(self) -> Seq<char> {
        self.0@
    }

    /// Accept an explanation that is not blank, recording it without surrounding whitespace.
    pub fn parse(value: &str) -> (reason: Result<Self, EmptyAbandonmentReason>)
        ensures
            reason is Ok <==> trimmed(value@).len() > 0,
            reason matches Ok(reason) ==> reason.text() == trimmed(value@),
    {
        let remainder = trim_whitespace(value);
        if remainder.is_empty() {
            Err(EmptyAbandonmentReason)
        } else {
            Ok(AbandonmentReason(remainder.to_owned()))
        }
    }

    /// The explanation as text.
    pub fn as_str(&self) -> (text: &str)
        ensures
            text@ == self.text(),
    {
        self.0.as_str()
    }
}

impl Clone for AbandonmentReason {
    fn clone(&self) -> (copy: Self)
        ensures
            copy == *self,
    {
        AbandonmentReason(self.0.clone())
    }
}

/// The required explanation for a user-confirmed orphan retirement.
#[derive(Debug, PartialEq, Eq)]
pub struct OrphanRetirementReason(String);

/// An orphan-retirement reason was empty once surrounding whitespace was removed.
#[derive(Clone, Copy, Debug, PartialEq, Eq, Structural)]
pub struct EmptyOrphanRetirementReason;

impl EmptyOrphanRetirementReason {
    /// The sentence reporting this error.
    pub fn message(&self) -> (text: &'static str)
        ensures
            text@ == "an orphan-retirement reason cannot be empty"@,
    {
        "an orphan-retirement reason cannot be empty"
    }
}

impl OrphanRetirementReason {
    /// The explanation as recorded.
    pub closed spec fn text(self) -> Seq<char> {
        self.0@
    }

    /// Accept an explanation that is not blank, recording it without surrounding whitespace.
    pub fn parse(value: &str) -> (reason: Result<Self, EmptyOrphanRetirementReason>)
        ensures
            reason is Ok <==> trimmed(value@).len() > 0,
            reason matches Ok(reason) ==> reason.text() == trimmed(value@),
    {
        let remainder = trim_whitespace(value);
        if remainder.is_empty() {
            Err(EmptyOrphanRetirementReason)
        } else {
            Ok(OrphanRetirementReason(remainder.to_owned()))
        }
    }

    /// The explanation as text.
    pub fn as_str(&self) -> (text: &str)
        ensures
            text@ == self.text(),
    {
        self.0.as_str()
    }
}

impl Clone for OrphanRetirementReason {
    fn clone(&self) -> (copy: Self)
        ensures
            copy == *self,
    {
        OrphanRetirementReason(self.0.clone())
    }
}

/// A verified or user-confirmed terminal reservation outcome.
#[derive(Debug, PartialEq, Eq)]
pub enum ReleaseDisposition {
    /// Git proved the protected work reached trunk.
    Integrated,
    /// An alternate trunk commit witnesses verified rewritten integration.
    RewrittenIntegration(RewrittenIntegrationTrunkCommit),
    /// The user deliberately discarded the reservation's work.
    Abandoned(AbandonmentReason),
    /// The user confirmed an orphaned reservation can retire.
    RetiredOrphan(OrphanRetirementReason),
}

/// Whether two dispositions record the same outcome with the same evidence text.
pub open spec fn same_disposition(left: ReleaseDisposition, right: ReleaseDisposition) -> bool {
    match (left, right) {
        (ReleaseDisposition::Integrated, ReleaseDisposition::Integrated) => true,
        (
            ReleaseDisposition::RewrittenIntegration(left),
            ReleaseDisposition::RewrittenIntegration(right),
        ) => left.commit()@ == right.commit()@,
        (ReleaseDisposition::Abandoned(left), ReleaseDisposition::Abandoned(right)) => left.text()
            == right.text(),
        (ReleaseDisposition::RetiredOrphan(left), ReleaseDisposition::RetiredOrphan(right)) => {
            left.text() == right.text()
        },
        _ => false,
    }
}

/// Whether this disposition records a user decision rather than git evidence.
pub open spec fn is_user_decision(disposition: ReleaseDisposition) -> bool {
    disposition is Abandoned || disposition is RetiredOrphan
}

impl ReleaseDisposition {
    /// Compare two dispositions by outcome and evidence text.
    pub fn same_as(&self, other: &ReleaseDisposition) -> (same: bool)
        ensures
            same == same_disposition(*self, *other),
    {
        match (self, other) {
            (ReleaseDisposition::Integrated, ReleaseDisposition::Integrated) => true,
            (
                ReleaseDisposition::RewrittenIntegration(left),
                ReleaseDisposition::RewrittenIntegration(right),
            ) => left.0.eq(&right.0),
            (ReleaseDisposition::Abandoned(left), ReleaseDisposition::Abandoned(right)) => left.0.eq(
                &right.0,
            ),
            (ReleaseDisposition::RetiredOrphan(left), ReleaseDisposition::RetiredOrphan(right)) => {
                left.0.eq(&right.0)
            },
            _ => false,
        }
    }

    /// Return whether future trunk checks may invalidate this disposition.
    pub fn revalidation_subject(&self) -> (subject: ReleaseRevalidationSubject<'_>)
        ensures
            match *self {
                ReleaseDisposition::Integrated => subject is ProtectedTip,
                ReleaseDisposition::RewrittenIntegration(commit) => subject
                    == ReleaseRevalidationSubject::RewrittenIntegration(&commit),
                _ => subject is NoEvidence,
            },
    {
        match self {
            ReleaseDisposition::Integrated => ReleaseRevalidationSubject::ProtectedTip,
            ReleaseDisposition::RewrittenIntegration(commit) => {
                ReleaseRevalidationSubject::RewrittenIntegration(commit)
            },
            ReleaseDisposition::Abandoned(_) => ReleaseRevalidationSubject::NoEvidence,
            ReleaseDisposition::RetiredOrphan(_) => ReleaseRevalidationSubject::NoEvidence,
        }
    }
}

impl Clone for ReleaseDisposition {
    fn clone(&self) -> (copy: Self)
        ensures
            copy == *self,
    {
        match self {
            ReleaseDisposition::Integrated => ReleaseDisposition::Integrated,
            ReleaseDisposition::RewrittenIntegration(commit) => {
                ReleaseDisposition::RewrittenIntegration(commit.clone())
            },
            ReleaseDisposition::Abandoned(reason) => ReleaseDisposition::Abandoned(reason.clone()),
            ReleaseDisposition::RetiredOrphan(reason) => ReleaseDisposition::RetiredOrphan(
                reason.clone(),
            ),
        }
    }
}

/// The commit role, if any, that a released reservation must revalidate.
#[derive(Clone, Copy, Debug, PartialEq, Eq)]
pub enum ReleaseRevalidationSubject<'reservation> {
    /// Ordinary integration continues to use the retained protected tip.
    ProtectedTip,
    /// Rewritten integration requires ancestry of its verified trunk witness.
    RewrittenIntegration(&'reservation RewrittenIntegrationTrunkCommit),
    /// A deliberate retirement has no future git evidence to revalidate.
    NoEvidence,
}

/// A journal sequence requested a lifecycle transition from the wrong state.
#[derive(Clone, Copy, Debug, PartialEq, Eq, Structural)]
pub enum LifecycleTransitionError {
    /// A checkpoint operation named a reservation that was not active.
    CheckpointRequiresActive,
    /// A resnapshot operation named a reservation that was not outstanding.
    ResnapshotRequiresOutstanding,
    /// A release operation named a reservation without a protected checkpoint.
    ReleaseRequiresCheckpoint,
    /// A second terminal disposition named an already released reservation.
    AlreadyReleased,
    /// A replacement record did not name the disposition currently retained by replay.
    SupersededDispositionMismatch,
    /// A replacement disposition named a reservation without an earlier release.
    ReplacementRequiresRelease,
}

impl LifecycleTransitionError {
    /// The sentence reporting this error.
    pub fn message(&self) -> (text: &'static str)
        ensures
            text@ == match *self {
                LifecycleTransitionError::CheckpointRequiresActive => "checkpoint requires an active reservation"@,
                LifecycleTransitionError::ResnapshotRequiresOutstanding => "resnapshot requires an outstanding reservation"@,
                LifecycleTransitionError::ReleaseRequiresCheckpoint => "release requires a checkpointed reservation"@,
                LifecycleTransitionError::AlreadyReleased => "reservation is already released"@,
                LifecycleTransitionError::SupersededDispositionMismatch => "superseded disposition does not match the current release"@,
                LifecycleTransitionError::ReplacementRequiresRelease => "replacement disposition requires a released reservation"@,
            },
    {
        match self {
            LifecycleTransitionError::CheckpointRequiresActive => "checkpoint requires an active reservation",
            LifecycleTransitionError::ResnapshotRequiresOutstanding => "resnapshot requires an outstanding reservation",
            LifecycleTransitionError::ReleaseRequiresCheckpoint => "release requires a checkpointed reservation",
            LifecycleTransitionError::AlreadyReleased => "reservation is already released",
            LifecycleTransitionError::SupersededDispositionMismatch => "superseded disposition does not match the current release",
            LifecycleTransitionError::ReplacementRequiresRelease => "replacement disposition requires a released reservation",
        }
    }
}

/// How far a reservation has progressed through the coordination protocol.
#[derive(Debug, PartialEq, Eq)]
pub enum ReservationLifecycle {
    /// The holder may still change the reserved paths.
    Active,
    /// The holder checkpointed a fixed commit that has not received a disposition.
    Outstanding {
        /// The fixed commit used for every ordinary integration query.
        protected_tip: ProtectedReservationTip,
    },
    /// A verified or user-confirmed disposition ended the work.
    Released {
        /// The evidence or decision that ended the work.
        disposition: ReleaseDisposition,
    },
}

/// The lifecycle after a first checkpoint, or why the checkpoint is refused.
pub open spec fn checkpointed(
    lifecycle: ReservationLifecycle,
    protected_tip: ProtectedReservationTip,
) -> Result<ReservationLifecycle, LifecycleTransitionError> {
    match lifecycle {
        ReservationLifecycle::Active => Ok(ReservationLifecycle::Outstanding { protected_tip }),
        _ => Err(LifecycleTransitionError::CheckpointRequiresActive),
    }
}

/// The lifecycle after replacing the protected commit, or why the replacement is refused.
pub open spec fn resnapshotted(
    lifecycle: ReservationLifecycle,
    protected_tip: ProtectedReservationTip,
) -> Result<ReservationLifecycle, LifecycleTransitionError> {
    match lifecycle {
        ReservationLifecycle::Outstanding { .. } => Ok(
            ReservationLifecycle::Outstanding { protected_tip },
        ),
        _ => Err(LifecycleTransitionError::ResnapshotRequiresOutstanding),
    }
}

/// The lifecycle after an ordinary release, or why the release is refused.
pub open spec fn released(
    lifecycle: ReservationLifecycle,
    disposition: ReleaseDisposition,
) -> Result<ReservationLifecycle, LifecycleTransitionError> {
    match lifecycle {
        ReservationLifecycle::Outstanding { .. } => Ok(ReservationLifecycle::Released { disposition }),
        ReservationLifecycle::Active => Err(LifecycleTransitionError::ReleaseRequiresCheckpoint),
        ReservationLifecycle::Released { .. } => Err(LifecycleTransitionError::AlreadyReleased),
    }
}

/// The lifecycle after a user-confirmed abandonment or retirement, or why it is refused.
pub open spec fn released_after_user_confirmation(
    lifecycle: ReservationLifecycle,
    disposition: ReleaseDisposition,
) -> Result<ReservationLifecycle, LifecycleTransitionError> {
    if !is_user_decision(disposition) {
        Err(LifecycleTransitionError::ReleaseRequiresCheckpoint)
    } else {
        match lifecycle {
            ReservationLifecycle::Released { .. } => Err(LifecycleTransitionError::AlreadyReleased),
            _ => Ok(ReservationLifecycle::Released { disposition }),
        }
    }
}

/// The lifecycle after replacing a retained disposition, or why the replacement is refused.
pub open spec fn disposition_replaced(
    lifecycle: ReservationLifecycle,
    superseded: ReleaseDisposition,
    replacement: ReleaseDisposition,
) -> Result<ReservationLifecycle, LifecycleTransitionError> {
    match lifecycle {
        ReservationLifecycle::Released { disposition } => if same_disposition(
            disposition,
            superseded,
        ) {
            Ok(ReservationLifecycle::Released { disposition: replacement })
        } else {
            Err(LifecycleTransitionError::SupersededDispositionMismatch)
        },
        _ => Err(LifecycleTransitionError::ReplacementRequiresRelease),
    }
}

/// A transition call reported `outcome` and left `after`: the new lifecycle on success, the
/// untouched lifecycle with the refusal otherwise.
pub open spec fn applied(
    before: ReservationLifecycle,
    after: ReservationLifecycle,
    result: Result<(), LifecycleTransitionError>,
    outcome: Result<ReservationLifecycle, LifecycleTransitionError>,
) -> bool {
    match outcome {
        Ok(next) => result is Ok && after == next,
        Err(error) => result == Err::<(), LifecycleTransitionError>(error) && after == before,
    }
}

impl ReservationLifecycle {
    /// Move an active reservation to its first protected checkpoint.
    pub fn checkpoint(&mut self, protected_tip: ProtectedReservationTip) -> (result: Result<
        (),
        LifecycleTransitionError,
    >)
        ensures
            applied(*old(self), *final(self), result, checkpointed(*old(self), protected_tip)),
    {
        match self {
            ReservationLifecycle::Active => {
                *self = ReservationLifecycle::Outstanding { protected_tip };
                Ok(())
            },
            _ => Err(LifecycleTransitionError::CheckpointRequiresActive),
        }
    }

    /// Replace the protected commit after an outstanding reservation is rebased.
    pub fn resnapshot(&mut self, protected_tip: ProtectedReservationTip) -> (result: Result<
        (),
        LifecycleTransitionError,
    >)
        ensures
            applied(*old(self), *final(self), result, resnapshotted(*old(self), protected_tip)),
    {
        match self {
            ReservationLifecycle::Outstanding { .. } => {
                *self = ReservationLifecycle::Outstanding { protected_tip };
                Ok(())
            },
            _ => Err(LifecycleTransitionError::ResnapshotRequiresOutstanding),
        }
    }

    /// Record a terminal disposition while retaining integration evidence.
    pub fn release(&mut self, disposition: ReleaseDisposition) -> (result: Result<
        (),
        LifecycleTransitionError,
    >)
        ensures
            applied(*old(self), *final(self), result, released(*old(self), disposition)),
    {
        match self {
            ReservationLifecycle::Outstanding { .. } => {
                *self = ReservationLifecycle::Released { disposition };
                Ok(())
            },
            ReservationLifecycle::Active => Err(LifecycleTransitionError::ReleaseRequiresCheckpoint),
            ReservationLifecycle::Released { .. } => Err(LifecycleTransitionError::AlreadyReleased),
        }
    }

    /// Record an abandonment or orphan retirement after explicit user confirmation.
    pub fn release_after_user_confirmation(&mut self, disposition: ReleaseDisposition) -> (result:
        Result<(), LifecycleTransitionError>)
        ensures
            applied(
                *old(self),
                *final(self),
                result,
                released_after_user_confirmation(*old(self), disposition),
            ),
    {
        let user_decision = match disposition {
            ReleaseDisposition::Abandoned(_) => true,
            ReleaseDisposition::RetiredOrphan(_) => true,
            _ => false,
        };
        if !user_decision {
            return Err(LifecycleTransitionError::ReleaseRequiresCheckpoint);
        }
        match self {
            ReservationLifecycle::Released { .. } => Err(LifecycleTransitionError::AlreadyReleased),
            _ => {
                *self = ReservationLifecycle::Released { disposition };
                Ok(())
            },
        }
    }

    /// Replace invalidated git-backed release evidence without erasing its history.
    pub fn replace_release_disposition(
        &mut self,
        superseded: &ReleaseDisposition,
        replacement: ReleaseDisposition,
    ) -> (result: Result<(), LifecycleTransitionError>)
        ensures
            applied(
                *old(self),
                *final(self),
                result,
                disposition_replaced(*old(self), *superseded, replacement),
            ),
    {
        let matches_superseded = match &*self {
            ReservationLifecycle::Released { disposition } => disposition.same_as(superseded),
            _ => {
                return Err(LifecycleTransitionError::ReplacementRequiresRelease);
            },
        };
        if matches_superseded {
            *self = ReservationLifecycle::Released { disposition: replacement };
            Ok(())
        } else {
            Err(LifecycleTransitionError::SupersededDispositionMismatch)
        }
    }
}

impl Clone for ReservationLifecycle {
    fn clone(&self) -> (copy: Self)
        ensures
            copy == *self,
    {
        match self {
            ReservationLifecycle::Active => ReservationLifecycle::Active,
            ReservationLifecycle::Outstanding { protected_tip } => ReservationLifecycle::Outstanding {
                protected_tip: protected_tip.clone(),
            },
            ReservationLifecycle::Released { disposition } => ReservationLifecycle::Released {
                disposition: disposition.clone(),
            },
        }
    }
}

/// A released reservation is terminal: checkpoint, resnapshot and both kinds of release are
/// refused, and replacing its disposition leaves it released.
pub proof fn released_lifecycle_is_terminal(
    lifecycle: ReservationLifecycle,
    protected_tip: ProtectedReservationTip,
    disposition: ReleaseDisposition,
    superseded: ReleaseDisposition,
    replacement: ReleaseDisposition,
)
    requires
        lifecycle is Released,
    ensures
        checkpointed(lifecycle, protected_tip) is Err,
        resnapshotted(lifecycle, protected_tip) is Err,
        released(lifecycle, disposition) is Err,
        released_after_user_confirmation(lifecycle, disposition) is Err,
        disposition_replaced(lifecycle, superseded, replacement) matches Ok(next) ==> next is Released,
{
}

/// The ordinary path: an active reservation checkpointed at a tip and then released ends
/// released with exactly that disposition.
pub proof fn checkpoint_then_release_settles(
    protected_tip: ProtectedReservationTip,
    disposition: ReleaseDisposition,
)
    ensures
        checkpointed(ReservationLifecycle::Active, protected_tip) == Ok::<
            ReservationLifecycle,
            LifecycleTransitionError,
        >(ReservationLifecycle::Outstanding { protected_tip }),
        released(ReservationLifecycle::Outstanding { protected_tip }, disposition) == Ok::<
            ReservationLifecycle,
            LifecycleTransitionError,
        >(ReservationLifecycle::Released { disposition }),
{
}

/// Without a checkpoint, only a user decision (abandonment or orphan retirement) can end a
/// reservation; an ordinary release of active work is refused.
pub proof fn only_user_decisions_end_active_work(disposition: ReleaseDisposition)
    ensures
        released(ReservationLifecycle::Active, disposition) == Err::<
            ReservationLifecycle,
            LifecycleTransitionError,
        >(LifecycleTransitionError::ReleaseRequiresCheckpoint),
        released_after_user_confirmation(ReservationLifecycle::Active, disposition) is Ok
            <==> is_user_decision(disposition),
{
}

/// A resnapshot changes only the protected tip: the reservation stays outstanding, and a second
/// resnapshot to the earlier tip restores the earlier lifecycle.
pub proof fn resnapshot_only_moves_the_tip(
    first: ProtectedReservationTip,
    second: ProtectedReservationTip,
)
    ensures
        resnapshotted(ReservationLifecycle::Outstanding { protected_tip: first }, second) == Ok::<
            ReservationLifecycle,
            LifecycleTransitionError,
        >(ReservationLifecycle::Outstanding { protected_tip: second }),
        resnapshotted(ReservationLifecycle::Outstanding { protected_tip: second }, first) == Ok::<
            ReservationLifecycle,
            LifecycleTransitionError,
        >(ReservationLifecycle::Outstanding { protected_tip: first }),
        resnapshotted(ReservationLifecycle::Active, second) is Err,
{
}

/// Two dispositions agree with themselves.
pub proof fn same_disposition_is_reflexive(disposition: ReleaseDisposition)
    ensures
        same_disposition(disposition, disposition),
{
}

/// Replacing a retained disposition and then replacing the replacement with the original
/// restores the original release.
pub proof fn disposition_replacement_round_trips(
    original: ReleaseDisposition,
    replacement: ReleaseDisposition,
)
    ensures
        disposition_replaced(
            ReservationLifecycle::Released { disposition: original },
            original,
            replacement,
        ) == Ok::<ReservationLifecycle, LifecycleTransitionError>(
            ReservationLifecycle::Released { disposition: replacement },
        ),
        disposition_replaced(
            ReservationLifecycle::Released { disposition: replacement },
            replacement,
            original,
        ) == Ok::<ReservationLifecycle, LifecycleTransitionError>(
            ReservationLifecycle::Released { disposition: original },
        ),
{
}

/// A user-confirmed abandonment or orphan retirement ends any work not yet released, active or
/// outstanding: the call succeeds and the lifecycle becomes released with exactly that
/// disposition. Released work refuses it and stays as it was, and so does any work for a
/// disposition that is not a user decision.
pub proof fn user_decisions_end_unreleased_work(
    before: ReservationLifecycle,
    after: ReservationLifecycle,
    result: Result<(), LifecycleTransitionError>,
    disposition: ReleaseDisposition,
)
    requires
        applied(before, after, result, released_after_user_confirmation(before, disposition)),
    ensures
        (disposition is Abandoned || disposition is RetiredOrphan) && !(before is Released) ==> result is Ok
            && after == (ReservationLifecycle::Released { disposition }),
        before is Released ==> result is Err && after == before,
        !(disposition is Abandoned || disposition is RetiredOrphan) ==> result is Err && after == before,
{
}

/// A first checkpoint protects active work at the given tip and nothing else: from `Active`
/// the call succeeds and the lifecycle becomes outstanding at that tip; any other lifecycle
/// refuses it and stays as it was.
pub proof fn checkpoint_protects_only_active_work(
    before: ReservationLifecycle,
    after: ReservationLifecycle,
    result: Result<(), LifecycleTransitionError>,
    protected_tip: ProtectedReservationTip,
)
    requires
        applied(before, after, result, checkpointed(before, protected_tip)),
    ensures
        before is Active ==> result is Ok && after == (ReservationLifecycle::Outstanding { protected_tip }),
        !(before is Active) ==> result is Err && after == before,
{
}

/// A resnapshot moves an outstanding checkpoint to the given tip and nothing else: from
/// `Outstanding` the call succeeds with the new tip; any other lifecycle refuses it and stays.
pub proof fn resnapshot_moves_only_outstanding_checkpoints(
    before: ReservationLifecycle,
    after: ReservationLifecycle,
    result: Result<(), LifecycleTransitionError>,
    protected_tip: ProtectedReservationTip,
)
    requires
        applied(before, after, result, resnapshotted(before, protected_tip)),
    ensures
        before is Outstanding ==> result is Ok && after == (ReservationLifecycle::Outstanding { protected_tip }),
        !(before is Outstanding) ==> result is Err && after == before,
{
}

/// An ordinary release ends exactly checkpointed work: from `Outstanding` the call succeeds
/// and records the disposition; active work is refused for want of a checkpoint, released
/// work as already released, and both stay as they were.
pub proof fn release_ends_only_checkpointed_work(
    before: ReservationLifecycle,
    after: ReservationLifecycle,
    result: Result<(), LifecycleTransitionError>,
    disposition: ReleaseDisposition,
)
    requires
        applied(before, after, result, released(before, disposition)),
    ensures
        before is Outstanding ==> result is Ok && after == (ReservationLifecycle::Released { disposition }),
        before is Active ==> result == Err::<(), LifecycleTransitionError>(
            LifecycleTransitionError::ReleaseRequiresCheckpoint,
        ) && after == before,
        before is Released ==> result == Err::<(), LifecycleTransitionError>(
            LifecycleTransitionError::AlreadyReleased,
        ) && after == before,
{
}

/// Replacing a disposition needs the release it replaces: a released lifecycle whose
/// disposition is the superseded one takes the replacement; anything else refuses and stays.
pub proof fn replacement_needs_the_superseded_release(
    before: ReservationLifecycle,
    after: ReservationLifecycle,
    result: Result<(), LifecycleTransitionError>,
    superseded: ReleaseDisposition,
    replacement: ReleaseDisposition,
)
    requires
        applied(before, after, result, disposition_replaced(before, superseded, replacement)),
    ensures
        before == (ReservationLifecycle::Released { disposition: superseded }) ==> result is Ok && after
            == (ReservationLifecycle::Released { disposition: replacement }),
        !(before is Released) ==> result is Err && after == before,
        result is Ok ==> after == (ReservationLifecycle::Released { disposition: replacement }),
{
    if before == (ReservationLifecycle::Released { disposition: superseded }) {
        same_disposition_is_reflexive(superseded);
    }
}

} // verus!
