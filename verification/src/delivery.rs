//! Delivery tasks and their retry policy.
//!
//! A task is one signed payload bound for one inbox. It stays pending
//! until it is delivered or has failed for good; a transient failure
//! postpones it by a delay that doubles with every attempt up to a cap,
//! and a bounded number of attempts ends it.

use vstd::prelude::*;

verus! {

/// How often and how soon a task is tried again. Delays are in the unit
/// of the caller's clock.
#[derive(Clone, Copy, PartialEq, Eq, Structural, Debug)]
pub struct RetryPolicy {
    pub base_delay: u64,
    pub max_delay: u64,
    pub max_attempts: u32,
}

#[derive(Clone, Copy, PartialEq, Eq, Structural, Debug)]
pub enum TaskStatus {
    Pending,
    Delivered,
    /// Failed for good; recorded, and never tried again.
    Failed,
}

/// How one delivery attempt ended.
#[derive(Clone, Copy, PartialEq, Eq, Structural, Debug)]
pub enum AttemptOutcome {
    Delivered,
    /// A timeout, a refused connection, or a server-side error.
    Transient,
    /// The destination rejected the request or its signature.
    Permanent,
}

/// What came back from one delivery request.
#[derive(Clone, Copy, PartialEq, Eq, Structural, Debug)]
pub enum AttemptResult {
    /// The destination answered with this status code.
    Status(u16),
    /// No answer within the time allowed for one attempt.
    TimedOut,
    ConnectionRefused,
    /// The destination answered that the signature does not verify.
    SignatureRejected,
}

/// How an attempt ended, by what came back: a success status delivers; a
/// timeout, a refused connection and a server-side error status are
/// transient; a rejected signature and any other status are permanent.
pub open spec fn outcome_of(result: AttemptResult) -> AttemptOutcome {
    match result {
        AttemptResult::Status(code) => if 200 <= code < 300 {
            AttemptOutcome::Delivered
        } else if 500 <= code < 600 {
            AttemptOutcome::Transient
        } else {
            AttemptOutcome::Permanent
        },
        AttemptResult::TimedOut => AttemptOutcome::Transient,
        AttemptResult::ConnectionRefused => AttemptOutcome::Transient,
        AttemptResult::SignatureRejected => AttemptOutcome::Permanent,
    }
}

/// How an attempt ended, by what came back.
pub fn classify(result: AttemptResult) -> (o: AttemptOutcome)
    ensures
        o == outcome_of(result),
{
    match result {
        AttemptResult::Status(code) => {
            if 200 <= code && code < 300 {
                AttemptOutcome::Delivered
            } else if 500 <= code && code < 600 {
                AttemptOutcome::Transient
            } else {
                AttemptOutcome::Permanent
            }
        },
        AttemptResult::TimedOut => AttemptOutcome::Transient,
        AttemptResult::ConnectionRefused => AttemptOutcome::Transient,
        AttemptResult::SignatureRejected => AttemptOutcome::Permanent,
    }
}

/// One payload bound for one inbox.
#[derive(PartialEq, Eq, Debug)]
pub struct DeliveryTask {
    pub destination_inbox_url: String,
    pub signed_payload: String,
    pub attempt_count: u32,
    pub next_attempt_at: u64,
    pub intent_id: u64,
    pub status: TaskStatus,
}

/// Two to the power of `n`.
pub open spec fn pow2(n: nat) -> nat
    decreases n,
{
    if n == 0 {
        1
    } else {
        2 * pow2((n - 1) as nat)
    }
}

/// The delay after the attempt numbered `attempt` (from zero): the base
/// delay doubled `attempt` times, capped at the maximum.
pub open spec fn backoff(policy: RetryPolicy, attempt: nat) -> int {
    if policy.base_delay * pow2(attempt) < policy.max_delay {
        policy.base_delay * pow2(attempt)
    } else {
        policy.max_delay as int
    }
}

/// The attempt count after one more attempt; it stops at the largest
/// number it can hold.
pub open spec fn bump(count: u32) -> u32 {
    if count < u32::MAX {
        (count + 1) as u32
    } else {
        count
    }
}

/// `a + b`, or the largest time there is where the sum exceeds it.
pub open spec fn time_after(a: u64, b: int) -> u64 {
    if a + b > u64::MAX {
        u64::MAX
    } else {
        (a + b) as u64
    }
}

/// The task after an attempt that ended at `now` with `outcome`.
///
/// A task that is delivered or failed stays as it is. A delivery ends the
/// task as delivered, a permanent failure as failed, at once. A transient
/// failure ends it as failed when the attempts are used up, and otherwise
/// postpones it by the backoff delay of the attempt just made.
pub open spec fn after_attempt(
    task: DeliveryTask,
    outcome: AttemptOutcome,
    now: u64,
    policy: RetryPolicy,
) -> DeliveryTask {
    if task.status != TaskStatus::Pending {
        task
    } else {
        match outcome {
            AttemptOutcome::Delivered => DeliveryTask {
                status: TaskStatus::Delivered,
                attempt_count: bump(task.attempt_count),
                ..task
            },
            AttemptOutcome::Permanent => DeliveryTask {
                status: TaskStatus::Failed,
                attempt_count: bump(task.attempt_count),
                ..task
            },
            AttemptOutcome::Transient => if bump(task.attempt_count) >= policy.max_attempts {
                DeliveryTask {
                    status: TaskStatus::Failed,
                    attempt_count: bump(task.attempt_count),
                    ..task
                }
            } else {
                DeliveryTask {
                    attempt_count: bump(task.attempt_count),
                    next_attempt_at: time_after(now, backoff(policy, task.attempt_count as nat)),
                    ..task
                }
            },
        }
    }
}

/// Whether an attempt on the task is due at `now`.
pub open spec fn due(task: DeliveryTask, now: u64) -> bool {
    task.status == TaskStatus::Pending && task.next_attempt_at <= now
}

/// The task after `n` transient failures in a row, each at `now`.
pub open spec fn after_failures(task: DeliveryTask, n: nat, now: u64, policy: RetryPolicy) -> DeliveryTask
    decreases n,
{
    if n == 0 {
        task
    } else {
        after_attempt(
            after_failures(task, (n - 1) as nat, now, policy),
            AttemptOutcome::Transient,
            now,
            policy,
        )
    }
}

/// The delay after the attempt numbered `attempt` (from zero).
pub fn backoff_delay(policy: &RetryPolicy, attempt: u32) -> (d: u64)
    ensures
        d == backoff(*policy, attempt as nat),
{
    let mut d: u64 = if policy.base_delay < policy.max_delay {
        policy.base_delay
    } else {
        policy.max_delay
    };
    let mut i: u32 = 0;
    assert(policy.base_delay * pow2(0) == policy.base_delay) by (nonlinear_arith)
        requires
            pow2(0) == 1,
    ;
    while i < attempt
        invariant
            i <= attempt,
            d == backoff(*policy, i as nat),
        decreases attempt - i,
    {
        let ghost full = policy.base_delay * pow2(i as nat);
        assert(policy.base_delay * pow2((i + 1) as nat) == 2 * full) by (nonlinear_arith)
            requires
                pow2((i + 1) as nat) == 2 * pow2(i as nat),
                full == policy.base_delay * pow2(i as nat),
        ;
        assert(full >= 0) by (nonlinear_arith)
            requires
                full == policy.base_delay * pow2(i as nat),
        ;
        if d < policy.max_delay {
            if d > policy.max_delay - d {
                d = policy.max_delay;
            } else {
                d = d + d;
            }
        }
        i += 1;
    }
    d
}

impl DeliveryTask {
    /// A fresh task: no attempt made yet, the first one due at `now`.
    pub fn new(destination_inbox_url: String, signed_payload: String, intent_id: u64, now: u64) -> (t:
        DeliveryTask)
        ensures
            t == (DeliveryTask {
                destination_inbox_url,
                signed_payload,
                attempt_count: 0,
                next_attempt_at: now,
                intent_id,
                status: TaskStatus::Pending,
            }),
    {
        DeliveryTask {
            destination_inbox_url,
            signed_payload,
            attempt_count: 0,
            next_attempt_at: now,
            intent_id,
            status: TaskStatus::Pending,
        }
    }

    /// Whether an attempt is due at `now`.
    pub fn is_due(&self, now: u64) -> (b: bool)
        ensures
            b == due(*self, now),
    {
        self.status == TaskStatus::Pending && self.next_attempt_at <= now
    }

    /// Whether the task has ended, delivered or failed.
    pub fn is_terminal(&self) -> (b: bool)
        ensures
            b == (self.status != TaskStatus::Pending),
    {
        self.status != TaskStatus::Pending
    }

    /// Records the end of an attempt and returns the task's new status.
    pub fn record_attempt(&mut self, outcome: AttemptOutcome, now: u64, policy: &RetryPolicy) -> (status:
        TaskStatus)
        ensures
            *final(self) == after_attempt(*old(self), outcome, now, *policy),
            status == final(self).status,
    {
        if self.status != TaskStatus::Pending {
            return self.status;
        }
        let made: u32 = self.attempt_count;
        let count: u32 = if made < u32::MAX {
            made + 1
        } else {
            made
        };
        self.attempt_count = count;
        match outcome {
            AttemptOutcome::Delivered => {
                self.status = TaskStatus::Delivered;
            },
            AttemptOutcome::Permanent => {
                self.status = TaskStatus::Failed;
            },
            AttemptOutcome::Transient => {
                if count >= policy.max_attempts {
                    self.status = TaskStatus::Failed;
                } else {
                    let delay: u64 = backoff_delay(policy, made);
                    self.next_attempt_at = now.saturating_add(delay);
                }
            },
        }
        self.status
    }
}

/// A task that has ended stays as it is whatever is recorded on it, and no
/// attempt on it is ever due again.
pub proof fn terminal_is_final(
    task: DeliveryTask,
    outcome: AttemptOutcome,
    now: u64,
    policy: RetryPolicy,
)
    requires
        task.status != TaskStatus::Pending,
    ensures
        after_attempt(task, outcome, now, policy) == task,
        !due(task, now),
{
}

/// The attempt that uses up the budget ends the task as failed, and only
/// a pending task can become a failed one: the step to failed is taken
/// once.
pub proof fn exhaustion_fails_once(
    task: DeliveryTask,
    outcome: AttemptOutcome,
    now: u64,
    policy: RetryPolicy,
)
    ensures
        task.status == TaskStatus::Pending && outcome == AttemptOutcome::Transient && task.attempt_count
            + 1 >= policy.max_attempts ==> after_attempt(task, outcome, now, policy).status
            == TaskStatus::Failed,
        after_attempt(task, outcome, now, policy).status == TaskStatus::Failed && task.status
            != TaskStatus::Failed ==> task.status == TaskStatus::Pending && outcome
            != AttemptOutcome::Delivered,
        task.status == TaskStatus::Pending && outcome == AttemptOutcome::Permanent ==> after_attempt(
            task,
            outcome,
            now,
            policy,
        ).status == TaskStatus::Failed,
{
}

/// The retry budget is bounded: a fresh task that meets nothing but
/// transient failures has failed for good after `max_attempts` of them
/// (after one, where the policy allows none), and is pending before.
pub proof fn budget_is_bounded(task: DeliveryTask, n: nat, now: u64, policy: RetryPolicy)
    requires
        task.status == TaskStatus::Pending,
        task.attempt_count == 0,
    ensures
        0 < n && n >= policy.max_attempts ==> after_failures(task, n, now, policy).status
            == TaskStatus::Failed,
        n < policy.max_attempts ==> after_failures(task, n, now, policy).status == TaskStatus::Pending
            && after_failures(task, n, now, policy).attempt_count == n,
    decreases n,
{
    if n > 0 {
        budget_is_bounded(task, (n - 1) as nat, now, policy);
    }
}

/// Every attempt on a task sends the same payload to the same inbox under
/// the same intent, so that the receiver can tell a repeated delivery from
/// a new one.
pub proof fn attempts_repeat_the_delivery(
    task: DeliveryTask,
    outcome: AttemptOutcome,
    now: u64,
    policy: RetryPolicy,
)
    ensures
        after_attempt(task, outcome, now, policy).destination_inbox_url
            == task.destination_inbox_url,
        after_attempt(task, outcome, now, policy).signed_payload == task.signed_payload,
        after_attempt(task, outcome, now, policy).intent_id == task.intent_id,
{
}

/// The delay never exceeds the cap, and never shrinks from one attempt to
/// the next.
pub proof fn backoff_is_capped_and_grows(policy: RetryPolicy, attempt: nat)
    ensures
        0 <= backoff(policy, attempt) <= policy.max_delay,
        backoff(policy, attempt) <= backoff(policy, attempt + 1),
{
    let now = policy.base_delay * pow2(attempt);
    assert(policy.base_delay * pow2(attempt + 1) == 2 * now) by (nonlinear_arith)
        requires
            pow2(attempt + 1) == 2 * pow2(attempt),
            now == policy.base_delay * pow2(attempt),
    ;
    assert(now >= 0) by (nonlinear_arith)
        requires
            now == policy.base_delay * pow2(attempt),
    ;
}

} // verus!
