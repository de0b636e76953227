//! The upload workflow: put the object, then check it and archive it if the
//! operator asked for that.
//!
//! The operator's two decisions are taken before the first network call and
//! stay fixed. The put is retried under the retry policy and its exhaustion
//! fails the upload. Verification and archiving come after a successful put
//! and cannot fail it.

use vstd::prelude::*;
use crate::address::ContentAddress;
use crate::archive::ObjectMetadata;
use crate::retry::{
    AttemptOutcome, PolicyModel, RetryAction, RetryModel, RetryPhase, RetryPolicy, RetryState,
};

verus! {

/// An amount in the network's smallest fee unit, as four 64-bit limbs, the
/// least significant first.
#[derive(Clone, Copy, Debug, PartialEq, Eq)]
pub struct TokenAmount {
    pub limbs: [u64; 4],
}

/// What a successful put gives: its cost and the address of the object.
#[derive(Clone, Copy, Debug, PartialEq, Eq)]
pub struct UploadOutcome {
    pub cost: TokenAmount,
    pub address: ContentAddress,
}

/// The operator's decisions, taken before any network activity.
#[derive(Clone, Copy, Debug, PartialEq, Eq)]
pub struct UploadPlan {
    /// Fetch the object after the upload and compare it with what was sent.
    pub verify: bool,
    /// Create an archive that refers to the object after the upload.
    pub archive: bool,
}

/// Where an upload stands.
#[derive(Clone, Copy, Debug, PartialEq, Eq)]
pub enum UploadStage {
    /// The object is being put; attempts may still fail and be repeated.
    Uploading,
    /// The object is stored and is being checked.
    Verifying,
    /// The object is stored and its archive is being put.
    Archiving,
    /// The object is stored and nothing is left to do.
    Completed,
    /// Every attempt to put the object failed.
    Failed,
}

/// What became of the archive.
#[derive(Clone, Copy, Debug, PartialEq, Eq)]
pub enum ArchiveReport {
    /// No archive was made: none was asked for, or the upload has not got
    /// that far.
    NotMade,
    /// The archive is stored.
    Stored { cost: TokenAmount, address: ContentAddress },
    /// Every attempt to put the archive failed.
    GaveUp { attempts: u32 },
    /// The archive could not be built.
    NotBuilt,
}

/// What the caller reports to the upload.
#[derive(Clone, Copy, Debug, PartialEq, Eq)]
pub enum UploadEvent {
    /// An attempt to put the object failed.
    PutFailed,
    /// The object is stored.
    PutSucceeded { cost: TokenAmount, address: ContentAddress },
    /// The verification is over, however it ended.
    VerificationEnded,
    /// An attempt to put the archive failed.
    ArchivePutFailed,
    /// The archive is stored.
    ArchivePutSucceeded { cost: TokenAmount, address: ContentAddress },
    /// The archive could not be built.
    ArchiveNotBuilt,
}

/// What the caller of an upload does next.
#[derive(Clone, Copy, Debug, PartialEq, Eq)]
pub enum UploadAction {
    /// Put the object: the first attempt.
    PutObject { attempt: u32 },
    /// Pause, then put the object again.
    WaitThenPutObject { delay_secs: u64, attempt: u32 },
    /// Fetch the object once and compare it with what was sent.
    Verify { address: ContentAddress },
    /// Build the archive for the object and put it: the first attempt.
    PutArchive { attempt: u32, address: ContentAddress, metadata: ObjectMetadata },
    /// Pause, then put the archive again.
    WaitThenPutArchive {
        delay_secs: u64,
        attempt: u32,
        address: ContentAddress,
        metadata: ObjectMetadata,
    },
    /// Stop: the upload succeeded.
    Complete { outcome: UploadOutcome, archive: ArchiveReport },
    /// Stop: the upload failed after this many attempts.
    Abort { attempts: u32 },
}

/// The state of an upload.
pub struct UploadModel {
    pub plan: UploadPlan,
    pub policy: PolicyModel,
    pub metadata: ObjectMetadata,
    pub stage: UploadStage,
    /// The retry sequence of the put or, from the archiving stage on, of the
    /// archive's put.
    pub retry: RetryModel,
    pub outcome: Option<UploadOutcome>,
    pub archive: ArchiveReport,
}

impl UploadModel {
    /// The stage agrees with the plan, with the retry sequence and with
    /// whether the object is stored.
    pub open spec fn wf(self) -> bool {
        &&& self.retry.wf()
        &&& self.retry.policy == self.policy
        &&& match self.stage {
            UploadStage::Uploading => {
                &&& self.retry.phase == RetryPhase::Running
                &&& self.outcome is None
                &&& self.archive == ArchiveReport::NotMade
            },
            UploadStage::Verifying => {
                &&& self.plan.verify
                &&& self.outcome is Some
                &&& self.archive == ArchiveReport::NotMade
            },
            UploadStage::Archiving => {
                &&& self.plan.archive
                &&& self.retry.phase == RetryPhase::Running
                &&& self.outcome is Some
                &&& self.archive == ArchiveReport::NotMade
            },
            UploadStage::Completed => {
                &&& self.outcome is Some
                &&& !self.plan.archive ==> self.archive == ArchiveReport::NotMade
            },
            UploadStage::Failed => {
                &&& self.retry.phase == RetryPhase::Exhausted
                &&& self.outcome is None
                &&& self.archive == ArchiveReport::NotMade
            },
        }
    }

    /// The state before the first put, for content of `size` bytes read at
    /// time `now`.
    pub open spec fn begin(plan: UploadPlan, policy: PolicyModel, size: u64, now: u64) -> UploadModel {
        UploadModel {
            plan,
            policy,
            metadata: ObjectMetadata { size, created: now, modified: now },
            stage: UploadStage::Uploading,
            retry: RetryModel::start(policy),
            outcome: None,
            archive: ArchiveReport::NotMade,
        }
    }

    /// The state in which the archive's put begins, or the completed state
    /// when no archive was asked for.
    pub open spec fn after_verification(self) -> UploadModel {
        if self.plan.archive {
            UploadModel {
                stage: UploadStage::Archiving,
                retry: RetryModel::start(self.policy),
                ..self
            }
        } else {
            UploadModel { stage: UploadStage::Completed, ..self }
        }
    }

    /// The state after `event`. An event that does not belong to the stage
    /// changes nothing.
    pub open spec fn step(self, event: UploadEvent) -> UploadModel {
        match (self.stage, event) {
            (UploadStage::Uploading, UploadEvent::PutFailed) => {
                let retry = self.retry.step(AttemptOutcome::Failure);
                if retry.phase == RetryPhase::Exhausted {
                    UploadModel { stage: UploadStage::Failed, retry, ..self }
                } else {
                    UploadModel { retry, ..self }
                }
            },
            (UploadStage::Uploading, UploadEvent::PutSucceeded { cost, address }) => {
                let stored = UploadModel {
                    retry: self.retry.step(AttemptOutcome::Success),
                    outcome: Some(UploadOutcome { cost, address }),
                    ..self
                };
                if self.plan.verify {
                    UploadModel { stage: UploadStage::Verifying, ..stored }
                } else {
                    stored.after_verification()
                }
            },
            (UploadStage::Verifying, UploadEvent::VerificationEnded) => self.after_verification(),
            (UploadStage::Archiving, UploadEvent::ArchivePutFailed) => {
                let retry = self.retry.step(AttemptOutcome::Failure);
                if retry.phase == RetryPhase::Exhausted {
                    UploadModel {
                        stage: UploadStage::Completed,
                        retry,
                        archive: ArchiveReport::GaveUp { attempts: retry.failures as u32 },
                        ..self
                    }
                } else {
                    UploadModel { retry, ..self }
                }
            },
            (UploadStage::Archiving, UploadEvent::ArchivePutSucceeded { cost, address }) => {
                UploadModel {
                    stage: UploadStage::Completed,
                    retry: self.retry.step(AttemptOutcome::Success),
                    archive: ArchiveReport::Stored { cost, address },
                    ..self
                }
            },
            (UploadStage::Archiving, UploadEvent::ArchiveNotBuilt) => UploadModel {
                stage: UploadStage::Completed,
                archive: ArchiveReport::NotBuilt,
                ..self
            },
            _ => self,
        }
    }

    /// What the caller does in this state.
    pub open spec fn action(self) -> UploadAction {
        match self.stage {
            UploadStage::Uploading => match self.retry.action() {
                RetryAction::WaitThenAttempt { delay_secs, number } => UploadAction::WaitThenPutObject {
                    delay_secs,
                    attempt: number,
                },
                _ => UploadAction::PutObject { attempt: 1 },
            },
            UploadStage::Verifying => UploadAction::Verify { address: self.outcome.unwrap().address },
            UploadStage::Archiving => match self.retry.action() {
                RetryAction::WaitThenAttempt { delay_secs, number } => UploadAction::WaitThenPutArchive {
                    delay_secs,
                    attempt: number,
                    address: self.outcome.unwrap().address,
                    metadata: self.metadata,
                },
                _ => UploadAction::PutArchive {
                    attempt: 1,
                    address: self.outcome.unwrap().address,
                    metadata: self.metadata,
                },
            },
            UploadStage::Completed => UploadAction::Complete {
                outcome: self.outcome.unwrap(),
                archive: self.archive,
            },
            UploadStage::Failed => UploadAction::Abort { attempts: self.retry.failures as u32 },
        }
    }

    /// The state after a whole series of events, in order.
    pub open spec fn run(self, events: Seq<UploadEvent>) -> UploadModel
        decreases events.len(),
    {
        if events.len() == 0 {
            self
        } else {
            self.run(events.drop_last()).step(events.last())
        }
    }
}

/// Every event keeps the state well formed and leaves the plan, the policy
/// and the metadata as they were.
pub proof fn lemma_step_preserves_wf(state: UploadModel, event: UploadEvent)
    requires
        state.wf(),
    ensures
        state.step(event).wf(),
        state.step(event).plan == state.plan,
        state.step(event).policy == state.policy,
        state.step(event).metadata == state.metadata,
{
}

/// In every state the action keeps to the plan and to the policy: a
/// verification is asked for only if the plan has one, an archive only if the
/// plan has one, and no put is numbered beyond the attempts allowed.
pub proof fn lemma_action_keeps_to_plan(state: UploadModel)
    requires
        state.wf(),
    ensures
        state.action() is Verify ==> state.plan.verify,
        state.action() is PutArchive || state.action() is WaitThenPutArchive ==> state.plan.archive,
        match state.action() {
            UploadAction::PutObject { attempt } => attempt == 1,
            UploadAction::WaitThenPutObject { attempt, delay_secs } => 1 < attempt
                <= state.policy.max_attempts && delay_secs == state.policy.delay_secs,
            UploadAction::PutArchive { attempt, .. } => attempt == 1,
            UploadAction::WaitThenPutArchive { attempt, delay_secs, .. } => 1 < attempt
                <= state.policy.max_attempts && delay_secs == state.policy.delay_secs,
            _ => true,
        },
{
}

/// A series of events keeps the state well formed and leaves the plan, the
/// policy and the metadata as they were.
pub proof fn lemma_run_preserves_wf(state: UploadModel, events: Seq<UploadEvent>)
    requires
        state.wf(),
    ensures
        state.run(events).wf(),
        state.run(events).plan == state.plan,
        state.run(events).policy == state.policy,
        state.run(events).metadata == state.metadata,
    decreases events.len(),
{
    if events.len() > 0 {
        lemma_run_preserves_wf(state, events.drop_last());
        lemma_step_preserves_wf(state.run(events.drop_last()), events.last());
    }
}

/// Once the object is stored the upload cannot fail: whatever happens to the
/// verification and to the archive, the outcome of the put stands.
pub proof fn lemma_stored_upload_never_fails(state: UploadModel, events: Seq<UploadEvent>)
    requires
        state.wf(),
        state.outcome is Some,
    ensures
        state.run(events).outcome == state.outcome,
        state.run(events).stage != UploadStage::Failed,
    decreases events.len(),
{
    if events.len() > 0 {
        lemma_stored_upload_never_fails(state, events.drop_last());
        lemma_run_preserves_wf(state, events.drop_last());
    }
}

/// The upload fails only by exhausting the put: the failed state names as
/// many attempts as the policy allows.
pub proof fn lemma_failure_means_exhaustion(state: UploadModel)
    requires
        state.wf(),
        state.stage == UploadStage::Failed,
    ensures
        state.action() == (UploadAction::Abort { attempts: state.policy.max_attempts as u32 }),
{
}

/// With neither verification nor archive asked for, a successful put
/// completes the upload at once.
pub proof fn lemma_plain_upload_completes_on_put(
    state: UploadModel,
    cost: TokenAmount,
    address: ContentAddress,
)
    requires
        state.wf(),
        state.stage == UploadStage::Uploading,
        !state.plan.verify,
        !state.plan.archive,
    ensures
        state.step(UploadEvent::PutSucceeded { cost, address }).action() == (UploadAction::Complete {
            outcome: UploadOutcome { cost, address },
            archive: ArchiveReport::NotMade,
        }),
{
}

/// An upload in progress.
#[derive(Clone, Copy, Debug)]
pub struct UploadPipeline {
    plan: UploadPlan,
    policy: RetryPolicy,
    metadata: ObjectMetadata,
    stage: UploadStage,
    retry: RetryState,
    outcome: Option<UploadOutcome>,
    archive: ArchiveReport,
}

impl View for UploadPipeline {
    type V = UploadModel;

    closed spec fn view(&self) -> UploadModel {
        UploadModel {
            plan: self.plan,
            policy: self.policy@,
            metadata: self.metadata,
            stage: self.stage,
            retry: self.retry@,
            outcome: self.outcome,
            archive: self.archive,
        }
    }
}

impl UploadPipeline {
    #[verifier::type_invariant]
    spec fn inv(self) -> bool {
        self@.wf()
    }

    /// Starts the upload of content of `content_len` bytes, read at time
    /// `now` (seconds since the Unix epoch). The metadata records that size
    /// and `now` for both timestamps.
    pub fn begin(plan: UploadPlan, policy: RetryPolicy, content_len: usize, now: u64) -> (r: (
        UploadPipeline,
        UploadAction,
    ))
        ensures
            r.0@ == UploadModel::begin(plan, policy@, content_len as u64, now),
            r.0@.wf(),
            r.1 == r.0@.action(),
    {
        let retry = RetryState::start(policy);
        let pipeline = UploadPipeline {
            plan,
            policy,
            metadata: ObjectMetadata::stamped(content_len as u64, now),
            stage: UploadStage::Uploading,
            retry,
            outcome: None,
            archive: ArchiveReport::NotMade,
        };
        let action = pipeline.action();
        (pipeline, action)
    }

    /// The operator's decisions.
    pub fn plan(&self) -> (plan: UploadPlan)
        ensures
            plan == self@.plan,
    {
        self.plan
    }

    /// The metadata of the uploaded object.
    pub fn metadata(&self) -> (metadata: ObjectMetadata)
        ensures
            metadata == self@.metadata,
    {
        self.metadata
    }

    /// The stage of the upload.
    pub fn stage(&self) -> (stage: UploadStage)
        ensures
            stage == self@.stage,
            self@.wf(),
    {
        proof {
            use_type_invariant(self);
        }
        self.stage
    }

    /// What the put gave, once it has succeeded.
    pub fn outcome(&self) -> (outcome: Option<UploadOutcome>)
        ensures
            outcome == self@.outcome,
    {
        self.outcome
    }

    /// What the caller does next.
    pub fn action(&self) -> (action: UploadAction)
        ensures
            action == self@.action(),
            self@.wf(),
    {
        proof {
            use_type_invariant(self);
        }
        match self.stage {
            UploadStage::Uploading => match self.retry.action() {
                RetryAction::WaitThenAttempt { delay_secs, number } => UploadAction::WaitThenPutObject {
                    delay_secs,
                    attempt: number,
                },
                _ => UploadAction::PutObject { attempt: 1 },
            },
            UploadStage::Verifying => match self.outcome {
                Some(outcome) => UploadAction::Verify { address: outcome.address },
                None => unreached(),
            },
            UploadStage::Archiving => match self.outcome {
                Some(outcome) => match self.retry.action() {
                    RetryAction::WaitThenAttempt { delay_secs, number } => UploadAction::WaitThenPutArchive {
                        delay_secs,
                        attempt: number,
                        address: outcome.address,
                        metadata: self.metadata,
                    },
                    _ => UploadAction::PutArchive {
                        attempt: 1,
                        address: outcome.address,
                        metadata: self.metadata,
                    },
                },
                None => unreached(),
            },
            UploadStage::Completed => match self.outcome {
                Some(outcome) => UploadAction::Complete { outcome, archive: self.archive },
                None => unreached(),
            },
            UploadStage::Failed => UploadAction::Abort { attempts: self.retry.attempts() },
        }
    }

    fn after_verification(self) -> (next: UploadPipeline)
        requires
            self@.outcome is Some,
            self@.archive == ArchiveReport::NotMade,
        ensures
            next@ == self@.after_verification(),
    {
        proof {
            use_type_invariant(&self);
        }
        if self.plan.archive {
            UploadPipeline {
                plan: self.plan,
                policy: self.policy,
                metadata: self.metadata,
                stage: UploadStage::Archiving,
                retry: RetryState::start(self.policy),
                outcome: self.outcome,
                archive: self.archive,
            }
        } else {
            UploadPipeline {
                plan: self.plan,
                policy: self.policy,
                metadata: self.metadata,
                stage: UploadStage::Completed,
                retry: self.retry,
                outcome: self.outcome,
                archive: self.archive,
            }
        }
    }

    /// The state after `event`.
    pub fn step(self, event: UploadEvent) -> (next: UploadPipeline)
        ensures
            next@ == self@.step(event),
            next@.wf(),
    {
        proof {
            use_type_invariant(&self);
            lemma_step_preserves_wf(self@, event);
        }
        match (self.stage, event) {
            (UploadStage::Uploading, UploadEvent::PutFailed) => {
                let retry = self.retry.step(AttemptOutcome::Failure);
                let stage = match retry.phase() {
                    RetryPhase::Exhausted => UploadStage::Failed,
                    _ => UploadStage::Uploading,
                };
                UploadPipeline {
                    plan: self.plan,
                    policy: self.policy,
                    metadata: self.metadata,
                    stage,
                    retry,
                    outcome: self.outcome,
                    archive: self.archive,
                }
            },
            (UploadStage::Uploading, UploadEvent::PutSucceeded { cost, address }) => {
                let retry = self.retry.step(AttemptOutcome::Success);
                let outcome = Some(UploadOutcome { cost, address });
                if self.plan.verify {
                    UploadPipeline {
                        plan: self.plan,
                        policy: self.policy,
                        metadata: self.metadata,
                        stage: UploadStage::Verifying,
                        retry,
                        outcome,
                        archive: self.archive,
                    }
                } else if self.plan.archive {
                    UploadPipeline {
                        plan: self.plan,
                        policy: self.policy,
                        metadata: self.metadata,
                        stage: UploadStage::Archiving,
                        retry: RetryState::start(self.policy),
                        outcome,
                        archive: self.archive,
                    }
                } else {
                    UploadPipeline {
                        plan: self.plan,
                        policy: self.policy,
                        metadata: self.metadata,
                        stage: UploadStage::Completed,
                        retry,
                        outcome,
                        archive: self.archive,
                    }
                }
            },
            (UploadStage::Verifying, UploadEvent::VerificationEnded) => self.after_verification(),
            (UploadStage::Archiving, UploadEvent::ArchivePutFailed) => {
                let retry = self.retry.step(AttemptOutcome::Failure);
                match retry.phase() {
                    RetryPhase::Exhausted => UploadPipeline {
                        plan: self.plan,
                        policy: self.policy,
                        metadata: self.metadata,
                        stage: UploadStage::Completed,
                        retry,
                        outcome: self.outcome,
                        archive: ArchiveReport::GaveUp { attempts: retry.attempts() },
                    },
                    _ => UploadPipeline {
                        plan: self.plan,
                        policy: self.policy,
                        metadata: self.metadata,
                        stage: UploadStage::Archiving,
                        retry,
                        outcome: self.outcome,
                        archive: self.archive,
                    },
                }
            },
            (UploadStage::Archiving, UploadEvent::ArchivePutSucceeded { cost, address }) => {
                UploadPipeline {
                    plan: self.plan,
                    policy: self.policy,
                    metadata: self.metadata,
                    stage: UploadStage::Completed,
                    retry: self.retry.step(AttemptOutcome::Success),
                    outcome: self.outcome,
                    archive: ArchiveReport::Stored { cost, address },
                }
            },
            (UploadStage::Archiving, UploadEvent::ArchiveNotBuilt) => UploadPipeline {
                plan: self.plan,
                policy: self.policy,
                metadata: self.metadata,
                stage: UploadStage::Completed,
                retry: self.retry,
                outcome: self.outcome,
                archive: ArchiveReport::NotBuilt,
            },
            _ => self,
        }
    }

    /// Takes an event and says what to do next.
    pub fn advance(self, event: UploadEvent) -> (r: (UploadPipeline, UploadAction))
        ensures
            r.0@ == self@.step(event),
            r.0@.wf(),
            r.1 == r.0@.action(),
    {
        let next = self.step(event);
        let action = next.action();
        (next, action)
    }
}

} // verus!
