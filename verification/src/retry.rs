//! Bounded retry with a constant delay.
//!
//! A remote write may fail for reasons that pass. The retry machine decides,
//! after each attempt, whether to stop, to give up, or to wait and try again.
//! It performs nothing itself: the caller makes the attempt and the pause the
//! machine asks for and reports how the attempt went. `execute` is such a
//! caller for operations that can be run as plain closures.

use vstd::prelude::*;

verus! {

/// Attempts allowed by the standard policy.
pub const STANDARD_MAX_ATTEMPTS: u32 = 50;

/// Seconds between attempts under the standard policy.
pub const STANDARD_DELAY_SECS: u64 = 5;

/// What a retry policy says: how many attempts are allowed, and how long to
/// pause between two of them. The pause does not grow.
pub struct PolicyModel {
    pub max_attempts: nat,
    pub delay_secs: nat,
}

/// A retry policy. It always allows at least one attempt.
#[derive(Clone, Copy, Debug, PartialEq, Eq)]
pub struct RetryPolicy {
    max_attempts: u32,
    delay_secs: u64,
}

impl View for RetryPolicy {
    type V = PolicyModel;

    closed spec fn view(&self) -> PolicyModel {
        PolicyModel { max_attempts: self.max_attempts as nat, delay_secs: self.delay_secs as nat }
    }
}

impl RetryPolicy {
    #[verifier::type_invariant]
    spec fn inv(self) -> bool {
        self.max_attempts >= 1
    }

    /// A policy of `max_attempts` attempts with `delay_secs` seconds between
    /// them, or nothing when `max_attempts` is zero.
    pub fn new(max_attempts: u32, delay_secs: u64) -> (policy: Option<RetryPolicy>)
        ensures
            policy is None <==> max_attempts == 0,
            policy matches Some(p) ==> p@ == (PolicyModel {
                max_attempts: max_attempts as nat,
                delay_secs: delay_secs as nat,
            }),
    {
        if max_attempts == 0 {
            None
        } else {
            Some(RetryPolicy { max_attempts, delay_secs })
        }
    }

    /// Fifty attempts, five seconds apart.
    pub fn standard() -> (policy: RetryPolicy)
        ensures
            policy@ == (PolicyModel { max_attempts: 50, delay_secs: 5 }),
    {
        RetryPolicy { max_attempts: STANDARD_MAX_ATTEMPTS, delay_secs: STANDARD_DELAY_SECS }
    }

    /// The number of attempts allowed, at least one.
    pub fn max_attempts(&self) -> (n: u32)
        ensures
            n == self@.max_attempts,
            n >= 1,
    {
        proof {
            use_type_invariant(self);
        }
        self.max_attempts
    }

    /// The pause between two attempts, in seconds.
    pub fn delay_secs(&self) -> (d: u64)
        ensures
            d == self@.delay_secs,
    {
        self.delay_secs
    }
}

impl Default for RetryPolicy {
    fn default() -> (policy: RetryPolicy)
        ensures
            policy@ == (PolicyModel { max_attempts: 50, delay_secs: 5 }),
    {
        RetryPolicy::standard()
    }
}

/// How one attempt went.
#[derive(Clone, Copy, Debug, PartialEq, Eq)]
pub enum AttemptOutcome {
    Success,
    Failure,
}

/// Where a retry sequence stands.
#[derive(Clone, Copy, Debug, PartialEq, Eq)]
pub enum RetryPhase {
    /// An attempt is due or under way.
    Running,
    /// An attempt succeeded.
    Succeeded,
    /// Every allowed attempt failed.
    Exhausted,
}

/// What the caller of a retry machine does next.
#[derive(Clone, Copy, Debug, PartialEq, Eq)]
pub enum RetryAction {
    /// Make the first attempt now.
    Attempt { number: u32 },
    /// Pause for `delay_secs` seconds, then make attempt `number`.
    WaitThenAttempt { delay_secs: u64, number: u32 },
    /// Stop: attempt number `attempts` succeeded.
    Finish { attempts: u32 },
    /// Stop: all `attempts` attempts failed.
    GiveUp { attempts: u32 },
}

/// The state of a retry sequence: its policy, the attempts that have failed,
/// and its phase.
pub struct RetryModel {
    pub policy: PolicyModel,
    pub failures: nat,
    pub phase: RetryPhase,
}

impl RetryModel {
    /// While running or after success fewer attempts have failed than are
    /// allowed; after exhaustion exactly as many.
    pub open spec fn wf(self) -> bool {
        &&& self.policy.max_attempts >= 1
        &&& self.policy.max_attempts <= u32::MAX
        &&& self.policy.delay_secs <= u64::MAX
        &&& match self.phase {
            RetryPhase::Running => self.failures < self.policy.max_attempts,
            RetryPhase::Succeeded => self.failures < self.policy.max_attempts,
            RetryPhase::Exhausted => self.failures == self.policy.max_attempts,
        }
    }

    /// The state before the first attempt.
    pub open spec fn start(policy: PolicyModel) -> RetryModel {
        RetryModel { policy, failures: 0, phase: RetryPhase::Running }
    }

    /// The state after the attempt under way ended with `outcome`. A sequence
    /// that has stopped stays as it is.
    pub open spec fn step(self, outcome: AttemptOutcome) -> RetryModel {
        match self.phase {
            RetryPhase::Running => match outcome {
                AttemptOutcome::Success => RetryModel { phase: RetryPhase::Succeeded, ..self },
                AttemptOutcome::Failure => if self.failures + 1 >= self.policy.max_attempts {
                    RetryModel {
                        failures: self.failures + 1,
                        phase: RetryPhase::Exhausted,
                        ..self
                    }
                } else {
                    RetryModel { failures: self.failures + 1, ..self }
                },
            },
            _ => self,
        }
    }

    /// What the caller does in this state.
    pub open spec fn action(self) -> RetryAction {
        match self.phase {
            RetryPhase::Running => if self.failures == 0 {
                RetryAction::Attempt { number: 1 }
            } else {
                RetryAction::WaitThenAttempt {
                    delay_secs: self.policy.delay_secs as u64,
                    number: (self.failures + 1) as u32,
                }
            },
            RetryPhase::Succeeded => RetryAction::Finish { attempts: (self.failures + 1) as u32 },
            RetryPhase::Exhausted => RetryAction::GiveUp { attempts: self.failures as u32 },
        }
    }

    /// Attempts started so far, the one under way included.
    pub open spec fn attempts(self) -> nat {
        match self.phase {
            RetryPhase::Exhausted => self.failures,
            _ => self.failures + 1,
        }
    }

    /// Pauses asked for so far: one after each failure but the last allowed.
    pub open spec fn delays(self) -> nat {
        match self.phase {
            RetryPhase::Exhausted => (self.failures - 1) as nat,
            _ => self.failures,
        }
    }

    /// The state after a whole series of outcomes, in order.
    pub open spec fn run(self, outcomes: Seq<AttemptOutcome>) -> RetryModel
        decreases outcomes.len(),
    {
        if outcomes.len() == 0 {
            self
        } else {
            self.run(outcomes.drop_last()).step(outcomes.last())
        }
    }
}

/// `n` failed attempts in a row.
pub open spec fn failures_only(n: nat) -> Seq<AttemptOutcome> {
    Seq::new(n, |i: int| AttemptOutcome::Failure)
}

/// A step keeps a well-formed state well formed, never changes the policy,
/// and never takes back an attempt.
pub proof fn lemma_step_preserves_wf(state: RetryModel, outcome: AttemptOutcome)
    requires
        state.wf(),
    ensures
        state.step(outcome).wf(),
        state.step(outcome).policy == state.policy,
        state.step(outcome).attempts() >= state.attempts(),
        state.step(outcome).attempts() <= state.policy.max_attempts,
{
}

/// Whatever the outcomes, the sequence never makes more attempts than the
/// policy allows, nor more than one beyond the outcomes it was given, and it
/// pauses once less than it attempts.
pub proof fn lemma_run_stays_within_policy(policy: PolicyModel, outcomes: Seq<AttemptOutcome>)
    requires
        RetryModel::start(policy).wf(),
    ensures
        ({
            let end = RetryModel::start(policy).run(outcomes);
            &&& end.wf()
            &&& end.policy == policy
            &&& 1 <= end.attempts() <= policy.max_attempts
            &&& end.attempts() <= outcomes.len() + 1
            &&& end.delays() == end.attempts() - 1
        }),
    decreases outcomes.len(),
{
    if outcomes.len() > 0 {
        lemma_run_stays_within_policy(policy, outcomes.drop_last());
        lemma_step_preserves_wf(
            RetryModel::start(policy).run(outcomes.drop_last()),
            outcomes.last(),
        );
    }
}

/// After `n` failures in a row the sequence is still running if attempts are
/// left, and exhausted otherwise.
pub proof fn lemma_run_of_failures(policy: PolicyModel, n: nat)
    requires
        RetryModel::start(policy).wf(),
    ensures
        n < policy.max_attempts ==> RetryModel::start(policy).run(failures_only(n)) == (RetryModel {
            policy,
            failures: n,
            phase: RetryPhase::Running,
        }),
        n >= policy.max_attempts ==> RetryModel::start(policy).run(failures_only(n)) == (
        RetryModel { policy, failures: policy.max_attempts, phase: RetryPhase::Exhausted }),
    decreases n,
{
    if n > 0 {
        lemma_run_of_failures(policy, (n - 1) as nat);
        assert(failures_only(n).drop_last() =~= failures_only((n - 1) as nat));
        assert(failures_only(n).last() == AttemptOutcome::Failure);
    }
}

/// An operation that fails `k` times and then succeeds, with `k` less than
/// the attempts allowed, ends in success after exactly `k + 1` attempts and
/// exactly `k` pauses.
pub proof fn lemma_success_after_failures(policy: PolicyModel, k: nat)
    requires
        RetryModel::start(policy).wf(),
        k < policy.max_attempts,
    ensures
        ({
            let end = RetryModel::start(policy).run(
                failures_only(k).push(AttemptOutcome::Success),
            );
            &&& end.phase == RetryPhase::Succeeded
            &&& end.attempts() == k + 1
            &&& end.delays() == k
            &&& end.action() == RetryAction::Finish { attempts: (k + 1) as u32 }
        }),
{
    let outcomes = failures_only(k).push(AttemptOutcome::Success);
    lemma_run_of_failures(policy, k);
    assert(outcomes.drop_last() =~= failures_only(k));
    assert(outcomes.last() == AttemptOutcome::Success);
}

/// An operation that always fails is attempted exactly as often as the policy
/// allows, with a pause between attempts and none after the last, and the
/// sequence gives up naming that number of attempts. Further failures change
/// nothing.
pub proof fn lemma_always_failing_exhausts(policy: PolicyModel, n: nat)
    requires
        RetryModel::start(policy).wf(),
        n >= policy.max_attempts,
    ensures
        ({
            let end = RetryModel::start(policy).run(failures_only(n));
            &&& end.phase == RetryPhase::Exhausted
            &&& end.attempts() == policy.max_attempts
            &&& end.delays() == policy.max_attempts - 1
            &&& end.action() == RetryAction::GiveUp { attempts: policy.max_attempts as u32 }
        }),
{
    lemma_run_of_failures(policy, n);
}

/// A retry sequence in progress.
#[derive(Clone, Copy, Debug, PartialEq, Eq)]
pub struct RetryState {
    policy: RetryPolicy,
    failures: u32,
    phase: RetryPhase,
}

impl View for RetryState {
    type V = RetryModel;

    closed spec fn view(&self) -> RetryModel {
        RetryModel { policy: self.policy@, failures: self.failures as nat, phase: self.phase }
    }
}

impl RetryState {
    #[verifier::type_invariant]
    spec fn inv(self) -> bool {
        self@.wf()
    }

    /// The state before the first attempt.
    pub fn start(policy: RetryPolicy) -> (state: RetryState)
        ensures
            state@ == RetryModel::start(policy@),
            state@.wf(),
    {
        proof {
            use_type_invariant(&policy);
        }
        RetryState { policy, failures: 0, phase: RetryPhase::Running }
    }

    /// The policy of this sequence.
    pub fn policy(&self) -> (policy: RetryPolicy)
        ensures
            policy@ == self@.policy,
    {
        self.policy
    }

    /// The phase of this sequence.
    pub fn phase(&self) -> (phase: RetryPhase)
        ensures
            phase == self@.phase,
            self@.wf(),
    {
        proof {
            use_type_invariant(self);
        }
        self.phase
    }

    /// Attempts started so far.
    pub fn attempts(&self) -> (n: u32)
        ensures
            n == self@.attempts(),
            self@.wf(),
    {
        proof {
            use_type_invariant(self);
        }
        match self.phase {
            RetryPhase::Exhausted => self.failures,
            _ => self.failures + 1,
        }
    }

    /// Pauses asked for so far.
    pub fn delays(&self) -> (n: u32)
        ensures
            n == self@.delays(),
            self@.wf(),
    {
        proof {
            use_type_invariant(self);
        }
        match self.phase {
            RetryPhase::Exhausted => self.failures - 1,
            _ => self.failures,
        }
    }

    /// What the caller does next.
    pub fn action(&self) -> (action: RetryAction)
        ensures
            action == self@.action(),
            self@.wf(),
    {
        proof {
            use_type_invariant(self);
        }
        match self.phase {
            RetryPhase::Running => if self.failures == 0 {
                RetryAction::Attempt { number: 1 }
            } else {
                RetryAction::WaitThenAttempt {
                    delay_secs: self.policy.delay_secs(),
                    number: self.failures + 1,
                }
            },
            RetryPhase::Succeeded => RetryAction::Finish { attempts: self.failures + 1 },
            RetryPhase::Exhausted => RetryAction::GiveUp { attempts: self.failures },
        }
    }

    /// The state after the attempt under way ended with `outcome`.
    pub fn step(self, outcome: AttemptOutcome) -> (next: RetryState)
        ensures
            next@ == self@.step(outcome),
            next@.wf(),
    {
        proof {
            use_type_invariant(&self);
        }
        match self.phase {
            RetryPhase::Running => match outcome {
                AttemptOutcome::Success => RetryState {
                    policy: self.policy,
                    failures: self.failures,
                    phase: RetryPhase::Succeeded,
                },
                AttemptOutcome::Failure => if self.failures + 1 >= self.policy.max_attempts() {
                    RetryState {
                        policy: self.policy,
                        failures: self.failures + 1,
                        phase: RetryPhase::Exhausted,
                    }
                } else {
                    RetryState {
                        policy: self.policy,
                        failures: self.failures + 1,
                        phase: RetryPhase::Running,
                    }
                },
            },
            _ => self,
        }
    }

    /// Takes the outcome of the attempt under way and says what to do next.
    pub fn advance(self, outcome: AttemptOutcome) -> (r: (RetryState, RetryAction))
        ensures
            r.0@ == self@.step(outcome),
            r.1 == r.0@.action(),
            r.0@.wf(),
    {
        let next = self.step(outcome);
        let action = next.action();
        (next, action)
    }
}

/// The failure of a retried operation: every allowed attempt failed.
#[derive(Debug)]
pub struct ExhaustedError<E> {
    /// The error of the last attempt.
    pub last_error: E,
    /// How many attempts were made.
    pub attempts: u32,
    /// The name of the operation, for diagnostics.
    pub label: String,
}

/// Runs `operation` until it succeeds or `policy` allows no further attempt,
/// calling `wait` with the policy's delay between two attempts.
///
/// Returns the first success. When every attempt failed, returns the error of
/// the last one together with the number of attempts, which is the policy's
/// maximum, and the label.
pub fn execute<T, E, Op, Wait>(operation: Op, wait: Wait, policy: RetryPolicy, label: &str) -> (r:
    Result<T, ExhaustedError<E>>) where Op: Fn() -> Result<T, E>, Wait: Fn(u64)
    requires
        call_requires(operation, ()),
        call_requires(wait, (policy@.delay_secs as u64,)),
    ensures
        r matches Ok(value) ==> call_ensures(operation, (), Ok::<T, E>(value)),
        r matches Err(e) ==> {
            &&& e.attempts == policy@.max_attempts
            &&& e.label@ == label@
            &&& call_ensures(operation, (), Err::<T, E>(e.last_error))
        },
{
    let mut state = RetryState::start(policy);
    loop
        invariant
            state@.wf(),
            state@.phase == RetryPhase::Running,
            state@.policy == policy@,
            call_requires(operation, ()),
            call_requires(wait, (policy@.delay_secs as u64,)),
        decreases state@.policy.max_attempts - state@.failures,
    {
        match operation() {
            Ok(value) => {
                return Ok(value);
            },
            Err(error) => {
                let (next, action) = state.advance(AttemptOutcome::Failure);
                match action {
                    RetryAction::WaitThenAttempt { delay_secs, number: _ } => {
                        wait(delay_secs);
                        state = next;
                    },
                    RetryAction::GiveUp { attempts } => {
                        return Err(
                            ExhaustedError { last_error: error, attempts, label: label.to_owned() },
                        );
                    },
                    _ => {
                        return unreached();
                    },
                }
            },
        }
    }
}

} // verus!
