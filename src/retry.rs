use vstd::prelude::*;
use rand::rngs::StdRng;
use crate::backoff::BackoffPolicy;

verus! {

/// The phase of a retry task, with the number of the current attempt
/// (the first attempt is number 1).
#[derive(Clone, Copy, Debug, PartialEq, Eq)]
pub enum RetryState {
    /// An attempt is in flight.
    Requesting { attempt: u32 },
    /// The last attempt failed; the task waits out a backoff delay.
    Sleeping { attempt: u32 },
}

/// What polling the attempt in flight gave.
#[derive(Clone, Copy, Debug, PartialEq, Eq)]
pub enum ActionPoll<T> {
    /// The attempt has not finished yet.
    NotReady,
    /// The attempt succeeded with this value.
    Succeeded(T),
    /// The attempt failed; its error is dropped.
    Failed,
}

/// What polling the backoff timer gave.
#[derive(Clone, Copy, Debug, PartialEq, Eq)]
pub enum TimerPoll {
    /// The delay has not elapsed yet.
    NotReady,
    /// The delay has elapsed.
    Fired,
    /// The timer itself failed.
    Failed,
}

/// What the driver of a retry task is to do next.
#[derive(Clone, Copy, Debug, PartialEq, Eq)]
pub enum RetryStep<T> {
    /// Report "not ready" and wait for the next wakeup.
    Suspend,
    /// The task is complete with this value.
    Complete(T),
    /// Arm the backoff timer for this delay.
    Sleep(u64),
    /// Start a fresh attempt through the action factory.
    StartAttempt,
    /// The timer failed: abort the task.
    Abort,
}

impl RetryState {
    /// The number of the current attempt.
    pub open spec fn spec_attempt(self) -> u32 {
        match self {
            RetryState::Requesting { attempt } => attempt,
            RetryState::Sleeping { attempt } => attempt,
        }
    }
}

/// The number of the attempt after `attempt`, held at the largest `u32`.
pub open spec fn next_attempt(attempt: u32) -> u32 {
    if attempt < u32::MAX {
        (attempt + 1) as u32
    } else {
        attempt
    }
}

/// The delay a step asks for: that of `Sleep`, zero for the others.
pub open spec fn delay_of<T>(step: RetryStep<T>) -> u64 {
    match step {
        RetryStep::Sleep(d) => d,
        _ => 0,
    }
}

/// The next state and step after the attempt in flight was polled, where a
/// failure is followed by a sleep of `delay`.
pub open spec fn spec_after_action<T>(s: RetryState, outcome: ActionPoll<T>, delay: u64) -> (
    RetryState,
    RetryStep<T>,
) {
    match outcome {
        ActionPoll::NotReady => (s, RetryStep::Suspend),
        ActionPoll::Succeeded(v) => (s, RetryStep::Complete(v)),
        ActionPoll::Failed => (
            RetryState::Sleeping { attempt: next_attempt(s.spec_attempt()) },
            RetryStep::Sleep(delay),
        ),
    }
}

/// The next state and step after the backoff timer was polled.
pub open spec fn spec_after_timer<T>(s: RetryState, outcome: TimerPoll) -> (RetryState, RetryStep<T>) {
    match outcome {
        TimerPoll::NotReady => (s, RetryStep::Suspend),
        TimerPoll::Fired => (
            RetryState::Requesting { attempt: s.spec_attempt() },
            RetryStep::StartAttempt,
        ),
        TimerPoll::Failed => (s, RetryStep::Abort),
    }
}

/// The state after `n` backoff cycles from `s`: each a failed attempt, then
/// the timer firing.
pub open spec fn spec_fail_cycles(s: RetryState, n: nat) -> RetryState
    decreases n,
{
    if n == 0 {
        s
    } else {
        let slept = spec_after_action::<()>(spec_fail_cycles(s, (n - 1) as nat), ActionPoll::Failed, 0).0;
        spec_after_timer::<()>(slept, TimerPoll::Fired).0
    }
}

/// A task that retries an operation until it succeeds, sleeping a "full
/// jitter" delay after each failure.
///
/// The task decides; its driver performs: it starts attempts, polls them and
/// the timer, and hands what it saw to the task, which answers with the next
/// step.
pub struct RetryTask {
    state: RetryState,
    policy: BackoffPolicy,
}

impl RetryTask {
    /// The task's phase and attempt number.
    pub closed spec fn spec_state(&self) -> RetryState {
        self.state
    }

    /// The backoff policy the task follows.
    pub closed spec fn spec_policy(&self) -> BackoffPolicy {
        self.policy
    }

    /// Creates a task whose first attempt is in flight.
    pub fn new(policy: BackoffPolicy) -> (r: RetryTask)
        ensures
            r.spec_state() == (RetryState::Requesting { attempt: 1 }),
            r.spec_policy() == policy,
    {
        RetryTask { state: RetryState::Requesting { attempt: 1 }, policy }
    }

    /// Returns the task's phase and attempt number.
    pub fn state(&self) -> (r: RetryState)
        ensures
            r == self.spec_state(),
    {
        self.state
    }

    /// Returns the number of the current attempt.
    pub fn attempt(&self) -> (r: u32)
        ensures
            r == self.spec_state().spec_attempt(),
    {
        match self.state {
            RetryState::Requesting { attempt } => attempt,
            RetryState::Sleeping { attempt } => attempt,
        }
    }

    /// Returns the backoff policy the task follows.
    pub fn policy(&self) -> (r: BackoffPolicy)
        ensures
            r == self.spec_policy(),
    {
        self.policy
    }

    /// Takes the outcome of polling the attempt in flight; a failure moves
    /// the task to sleep for `delay`.
    pub fn after_action<T>(&mut self, outcome: ActionPoll<T>, delay: u64) -> (r: RetryStep<T>)
        requires
            old(self).spec_state() is Requesting,
        ensures
            (final(self).spec_state(), r) == spec_after_action(old(self).spec_state(), outcome, delay),
            final(self).spec_policy() == old(self).spec_policy(),
    {
        match outcome {
            ActionPoll::NotReady => RetryStep::Suspend,
            ActionPoll::Succeeded(v) => RetryStep::Complete(v),
            ActionPoll::Failed => {
                let a = self.attempt();
                let next = if a < u32::MAX {
                    a + 1
                } else {
                    a
                };
                self.state = RetryState::Sleeping { attempt: next };
                RetryStep::Sleep(delay)
            },
        }
    }

    /// Takes the outcome of polling the attempt in flight; after a failure
    /// the delay is drawn from `rng` by the task's policy for the next
    /// attempt number.
    pub fn on_action<T>(&mut self, outcome: ActionPoll<T>, rng: &mut StdRng) -> (r: RetryStep<T>)
        requires
            old(self).spec_state() is Requesting,
        ensures
            (final(self).spec_state(), r) == spec_after_action(
                old(self).spec_state(),
                outcome,
                delay_of(r),
            ),
            final(self).spec_policy() == old(self).spec_policy(),
            outcome is Failed && old(self).spec_policy().spec_cap(
                next_attempt(old(self).spec_state().spec_attempt()) as nat,
            ) > 0 ==> delay_of(r) < old(self).spec_policy().spec_cap(
                next_attempt(old(self).spec_state().spec_attempt()) as nat,
            ),
            outcome is Failed && old(self).spec_policy().spec_cap(
                next_attempt(old(self).spec_state().spec_attempt()) as nat,
            ) == 0 ==> delay_of(r) == 0,
    {
        match outcome {
            ActionPoll::Failed => {
                let a = self.attempt();
                let next = if a < u32::MAX {
                    a + 1
                } else {
                    a
                };
                let delay = self.policy.full_jitter(rng, next);
                self.after_action(outcome, delay)
            },
            _ => self.after_action(outcome, 0),
        }
    }

    /// Takes the outcome of polling the backoff timer: once it fires a fresh
    /// attempt is due under the same attempt number; a timer failure aborts.
    pub fn on_timer<T>(&mut self, outcome: TimerPoll) -> (r: RetryStep<T>)
        requires
            old(self).spec_state() is Sleeping,
        ensures
            (final(self).spec_state(), r) == spec_after_timer::<T>(old(self).spec_state(), outcome),
            final(self).spec_policy() == old(self).spec_policy(),
    {
        match outcome {
            TimerPoll::NotReady => RetryStep::Suspend,
            TimerPoll::Fired => {
                let a = self.attempt();
                self.state = RetryState::Requesting { attempt: a };
                RetryStep::StartAttempt
            },
            TimerPoll::Failed => RetryStep::Abort,
        }
    }
}

/// A task whose first `n` attempts fail and whose next one succeeds completes
/// with the success value after exactly `n` backoff cycles: every failure
/// leads to a sleep and never to completion, each cycle advances the attempt
/// number by one, and the success completes the task at once.
pub proof fn lemma_retry_liveness<T>(n: nat, v: T, delay: u64)
    requires
        n + 1 <= u32::MAX,
    ensures
        spec_fail_cycles(RetryState::Requesting { attempt: 1 }, n) == (RetryState::Requesting {
            attempt: (n + 1) as u32,
        }),
        forall|k: nat|
            k < n ==> spec_after_action::<T>(
                #[trigger] spec_fail_cycles(RetryState::Requesting { attempt: 1 }, k),
                ActionPoll::Failed,
                delay,
            ).1 == RetryStep::<T>::Sleep(delay),
        spec_after_action(
            spec_fail_cycles(RetryState::Requesting { attempt: 1 }, n),
            ActionPoll::Succeeded(v),
            delay,
        ).1 == RetryStep::Complete(v),
    decreases n,
{
    if n > 0 {
        lemma_retry_liveness::<T>((n - 1) as nat, v, delay);
    }
}

} // verus!
