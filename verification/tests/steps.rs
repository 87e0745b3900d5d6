use cx::app::decrement;
use cx::app::retry::{retry_step, RetryResult, RetryStep};
use cx::app::supervise::{supervise_step, SuperviseStep};

#[test]
fn decrement_keeps_unbounded_budgets_unbounded() {
    assert_eq!(decrement(None), None);
    assert_eq!(decrement(Some(5)), Some(4));
    assert_eq!(decrement(Some(1)), Some(0));
}

#[test]
fn retry_step_follows_the_transition_table() {
    assert_eq!(retry_step(Some(3), true), RetryStep::Stop(RetryResult::Success));
    assert_eq!(retry_step(None, true), RetryStep::Stop(RetryResult::Success));
    assert_eq!(retry_step(Some(1), false), RetryStep::Stop(RetryResult::Failure));
    assert_eq!(retry_step(Some(3), false), RetryStep::SleepThenRetry(Some(2)));
    assert_eq!(retry_step(None, false), RetryStep::SleepThenRetry(None));
}

#[test]
fn supervise_step_follows_the_transition_table() {
    assert_eq!(supervise_step(Some(1)), SuperviseStep::Stop);
    assert_eq!(supervise_step(Some(4)), SuperviseStep::SleepThenContinue(Some(3)));
    assert_eq!(supervise_step(None), SuperviseStep::SleepThenContinue(None));
}
