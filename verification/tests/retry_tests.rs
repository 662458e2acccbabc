use chatguard::retry::{RetryExecutor, RetryPolicy, RetryStep, run_attempts};

fn policy() -> RetryPolicy {
    RetryPolicy { max_attempts: 3, base_delay_ms: 500 }
}

#[test]
fn succeeds_on_third_attempt_after_two_increasing_waits() {
    let outcomes = vec![false, false, true];
    let run = run_attempts(policy(), &outcomes);
    assert!(run.succeeded);
    assert_eq!(run.attempts_made, 3);
    assert_eq!(run.delays_ms, vec![500, 1000]);
    assert!(run.delays_ms[0] < run.delays_ms[1]);
}

#[test]
fn exhausts_exactly_three_attempts_when_all_fail() {
    let outcomes = vec![false, false, false];
    let run = run_attempts(policy(), &outcomes);
    assert!(!run.succeeded);
    assert_eq!(run.attempts_made, 3);
    assert_eq!(run.delays_ms, vec![500, 1000]);
}

#[test]
fn first_attempt_success_waits_never() {
    let outcomes = vec![true, false, false];
    let run = run_attempts(policy(), &outcomes);
    assert!(run.succeeded);
    assert_eq!(run.attempts_made, 1);
    assert!(run.delays_ms.is_empty());
}

#[test]
fn executor_waits_linearly_then_gives_up() {
    let mut exec = RetryExecutor::new(policy());
    assert_eq!(exec.on_failure(), RetryStep::Wait { delay_ms: 500 });
    assert_eq!(exec.on_failure(), RetryStep::Wait { delay_ms: 1000 });
    assert_eq!(exec.on_failure(), RetryStep::GiveUp);
}

#[test]
fn single_attempt_policy_gives_up_at_once() {
    let mut exec = RetryExecutor::new(RetryPolicy { max_attempts: 1, base_delay_ms: 500 });
    assert_eq!(exec.on_failure(), RetryStep::GiveUp);
}
