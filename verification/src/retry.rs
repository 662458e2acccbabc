//! The bounded-retry policy that wraps every outbound platform call:
//! up to a fixed number of attempts with linear backoff between them.
//! The executor only decides — the caller performs the attempt, reports
//! a failure, and either waits the returned delay and tries again or
//! gives up with the last error.

use vstd::prelude::*;

verus! {

/// A retry policy: how many attempts at most, and the backoff unit.
#[derive(Clone, Copy, PartialEq, Eq, Structural, Debug)]
pub struct RetryPolicy {
    pub max_attempts: u64,
    pub base_delay_ms: u64,
}

/// A usable policy: at least one attempt, a positive backoff unit, and
/// no delay overflowing when scaled by the attempt number.
pub open spec fn policy_wf(p: RetryPolicy) -> bool {
    1 <= p.max_attempts && 1 <= p.base_delay_ms && p.base_delay_ms * p.max_attempts <= u64::MAX
}

/// The wait after the `attempt`-th failure (1-based): linear backoff.
pub open spec fn backoff_ms(p: RetryPolicy, attempt: nat) -> nat {
    (p.base_delay_ms * attempt) as nat
}

/// Law: backoff waits strictly increase from attempt to attempt.
pub proof fn lemma_backoff_increases(p: RetryPolicy, i: nat, j: nat)
    requires
        policy_wf(p),
        i < j,
    ensures
        backoff_ms(p, i) < backoff_ms(p, j),
{
    assert(p.base_delay_ms * i < p.base_delay_ms * j) by (nonlinear_arith)
        requires
            i < j,
            p.base_delay_ms >= 1,
    ;
}

/// What to do after a failed attempt: wait and try again, or give up
/// and surface the last error.
#[derive(Clone, Copy, PartialEq, Eq, Structural, Debug)]
pub enum RetryStep {
    Wait { delay_ms: u64 },
    GiveUp,
}

/// Tracks one operation's attempts against a policy.
pub struct RetryExecutor {
    pub policy: RetryPolicy,
    pub failures: u64,
}

impl RetryExecutor {
    /// A fresh executor: no attempt has failed yet.
    pub fn new(policy: RetryPolicy) -> (r: Self)
        requires
            policy_wf(policy),
        ensures
            r.policy == policy,
            r.failures == 0,
    {
        RetryExecutor { policy, failures: 0 }
    }

    /// Decides after one more failed attempt: wait `base * attempt`
    /// before the next attempt while attempts remain, give up once the
    /// ceiling is reached.
    pub fn on_failure(&mut self) -> (r: RetryStep)
        requires
            policy_wf(old(self).policy),
            old(self).failures < old(self).policy.max_attempts,
        ensures
            final(self).policy == old(self).policy,
            final(self).failures == old(self).failures + 1,
            r == if final(self).failures < final(self).policy.max_attempts {
                RetryStep::Wait {
                    delay_ms: backoff_ms(final(self).policy, final(self).failures as nat) as u64,
                }
            } else {
                RetryStep::GiveUp
            },
    {
        self.failures = self.failures + 1;
        if self.failures < self.policy.max_attempts {
            proof {
                assert(self.policy.base_delay_ms * self.failures <= self.policy.base_delay_ms
                    * self.policy.max_attempts) by (nonlinear_arith)
                    requires
                        self.failures <= self.policy.max_attempts,
                        self.policy.base_delay_ms >= 0,
                ;
            }
            RetryStep::Wait { delay_ms: self.policy.base_delay_ms * self.failures }
        } else {
            RetryStep::GiveUp
        }
    }
}

/// The index of the first successful attempt in a run of outcomes, or
/// their number if every attempt fails.
pub open spec fn first_success(outcomes: Seq<bool>) -> int
    decreases outcomes.len(),
{
    if outcomes.len() == 0 {
        0
    } else if outcomes[0] {
        0
    } else {
        1 + first_success(outcomes.drop_first())
    }
}

pub proof fn lemma_first_success_exact(outcomes: Seq<bool>, j: int)
    requires
        0 <= j <= outcomes.len(),
        forall|k: int| 0 <= k < j ==> !outcomes[k],
        j < outcomes.len() ==> outcomes[j],
    ensures
        first_success(outcomes) == j,
    decreases j,
{
    if j > 0 {
        lemma_first_success_exact(outcomes.drop_first(), j - 1);
    }
}

/// What one full retried operation came to.
pub struct RetryRun {
    /// Whether some attempt succeeded.
    pub succeeded: bool,
    /// How many attempts were made.
    pub attempts_made: u64,
    /// The waits between attempts, in order.
    pub delays_ms: Vec<u64>,
}

/// Law: a retried operation whose attempts come out as `outcomes` (one
/// entry per allowed attempt, `true` for success) succeeds exactly when
/// some allowed attempt succeeds, stops at the first success, exhausts
/// every attempt otherwise, and waits the strictly increasing linear
/// backoff between consecutive attempts — and only between them.
pub fn run_attempts(policy: RetryPolicy, outcomes: &Vec<bool>) -> (r: RetryRun)
    requires
        policy_wf(policy),
        outcomes@.len() == policy.max_attempts,
    ensures
        r.succeeded == (first_success(outcomes@) < policy.max_attempts),
        r.attempts_made == if r.succeeded {
            first_success(outcomes@) + 1
        } else {
            policy.max_attempts as int
        },
        r.delays_ms@.len() == r.attempts_made - 1,
        forall|k: int|
            0 <= k < r.delays_ms@.len() ==> r.delays_ms@[k] == backoff_ms(
                policy,
                (k + 1) as nat,
            ) as u64,
{
    let mut exec = RetryExecutor::new(policy);
    let mut delays: Vec<u64> = Vec::new();
    let n = outcomes.len();
    let mut i: usize = 0;
    loop
        invariant
            0 <= i < n,
            n == outcomes@.len(),
            n == policy.max_attempts,
            policy_wf(policy),
            exec.policy == policy,
            exec.failures == i,
            delays@.len() == i,
            forall|k: int| 0 <= k < i ==> !outcomes@[k],
            forall|k: int|
                0 <= k < delays@.len() ==> delays@[k] == backoff_ms(policy, (k + 1) as nat) as u64,
        decreases n - i,
    {
        if outcomes[i] {
            proof {
                lemma_first_success_exact(outcomes@, i as int);
            }
            return RetryRun { succeeded: true, attempts_made: i as u64 + 1, delays_ms: delays };
        }
        let step = exec.on_failure();
        if i + 1 == n {
            proof {
                lemma_first_success_exact(outcomes@, n as int);
            }
            return RetryRun { succeeded: false, attempts_made: n as u64, delays_ms: delays };
        }
        match step {
            RetryStep::Wait { delay_ms } => {
                delays.push(delay_ms);
            },
            RetryStep::GiveUp => {
                // on_failure only gives up once every attempt is spent,
                // and attempts remain here
                assert(false);
            },
        }
        i = i + 1;
    }
}

} // verus!
