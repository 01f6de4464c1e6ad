use rand::rngs::StdRng;
use rand::SeedableRng;
use tokio_bits::backoff::BackoffPolicy;
use tokio_bits::retry::{ActionPoll, RetryState, RetryStep, RetryTask, TimerPoll};

#[test]
fn standard_policy_caps() {
    let p = BackoffPolicy::standard();
    assert_eq!(p.base, 1);
    assert_eq!(p.max_delay, 60);
    assert_eq!(p.cap(0), 1);
    assert_eq!(p.cap(1), 2);
    assert_eq!(p.cap(2), 4);
    assert_eq!(p.cap(5), 32);
    assert_eq!(p.cap(6), 60);
    assert_eq!(p.cap(100), 60);
    assert_eq!(p.cap(u32::MAX), 60);
}

#[test]
fn cap_edge_policies() {
    assert_eq!(BackoffPolicy::new(0, 60).cap(10), 0);
    assert_eq!(BackoffPolicy::new(100, 60).cap(0), 60);
    assert_eq!(BackoffPolicy::new(3, 1000).cap(3), 24);
    assert_eq!(BackoffPolicy::new(1, u64::MAX).cap(63), 1u64 << 63);
    assert_eq!(BackoffPolicy::new(1, u64::MAX).cap(64), u64::MAX);
    assert_eq!(BackoffPolicy::new(5, 0).cap(2), 0);
}

#[test]
fn jitter_stays_below_cap() {
    let p = BackoffPolicy::standard();
    let mut rng = StdRng::seed_from_u64(7);
    for attempt in 1..40u32 {
        let cap = p.cap(attempt);
        for _ in 0..50 {
            let d = p.full_jitter(&mut rng, attempt);
            assert!(d < cap);
            assert!(d < 60);
        }
    }
}

#[test]
fn jitter_is_not_the_bound_itself() {
    let p = BackoffPolicy::new(1, 2);
    let mut rng = StdRng::seed_from_u64(1);
    for _ in 0..100 {
        assert!(p.full_jitter(&mut rng, 1) <= 1);
    }
}

#[test]
fn jitter_with_zero_cap_is_zero() {
    let p = BackoffPolicy::new(0, 60);
    let mut rng = StdRng::seed_from_u64(3);
    assert_eq!(p.full_jitter(&mut rng, 4), 0);
}

#[test]
fn retry_fails_twice_then_succeeds_with_ok() {
    let mut rng = StdRng::seed_from_u64(42);
    let mut task = RetryTask::new(BackoffPolicy::new(1, 60));
    assert_eq!(task.state(), RetryState::Requesting { attempt: 1 });
    let mut sleeps = 0;
    let mut outcomes = vec![ActionPoll::Failed, ActionPoll::Failed, ActionPoll::Succeeded("ok")].into_iter();
    let result = loop {
        match task.state() {
            RetryState::Requesting { .. } => {
                match task.on_action(outcomes.next().unwrap(), &mut rng) {
                    RetryStep::Complete(v) => break v,
                    RetryStep::Sleep(d) => {
                        assert!(d < task.policy().cap(task.attempt()));
                        sleeps += 1;
                    }
                    other => panic!("unexpected step {:?}", other),
                }
            }
            RetryState::Sleeping { .. } => {
                assert_eq!(task.on_timer::<&str>(TimerPoll::Fired), RetryStep::StartAttempt);
            }
        }
    };
    assert_eq!(result, "ok");
    assert_eq!(sleeps, 2);
    assert_eq!(task.attempt(), 3);
}

#[test]
fn retry_completes_after_exactly_n_cycles() {
    for n in 0..10u32 {
        let mut rng = StdRng::seed_from_u64(n as u64);
        let mut task = RetryTask::new(BackoffPolicy::standard());
        let mut sleeps = 0;
        for _ in 0..n {
            match task.on_action::<u32>(ActionPoll::Failed, &mut rng) {
                RetryStep::Sleep(_) => sleeps += 1,
                other => panic!("unexpected step {:?}", other),
            }
            assert_eq!(task.on_timer::<u32>(TimerPoll::NotReady), RetryStep::Suspend);
            assert_eq!(task.on_timer::<u32>(TimerPoll::Fired), RetryStep::StartAttempt);
        }
        assert_eq!(task.on_action(ActionPoll::<u32>::NotReady, &mut rng), RetryStep::Suspend);
        assert_eq!(task.on_action(ActionPoll::Succeeded(n), &mut rng), RetryStep::Complete(n));
        assert_eq!(sleeps, n);
        assert_eq!(task.attempt(), n + 1);
    }
}

#[test]
fn failed_attempt_moves_to_sleep_with_given_delay() {
    let mut task = RetryTask::new(BackoffPolicy::standard());
    assert_eq!(task.after_action::<i32>(ActionPoll::Failed, 17), RetryStep::Sleep(17));
    assert_eq!(task.state(), RetryState::Sleeping { attempt: 2 });
}

#[test]
fn timer_failure_aborts() {
    let mut rng = StdRng::seed_from_u64(9);
    let mut task = RetryTask::new(BackoffPolicy::standard());
    task.on_action::<()>(ActionPoll::Failed, &mut rng);
    assert_eq!(task.on_timer::<()>(TimerPoll::Failed), RetryStep::Abort);
    assert_eq!(task.state(), RetryState::Sleeping { attempt: 2 });
}
