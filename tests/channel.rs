use tokio_bits::tube::{Readiness, TubeError, TubeState};

#[test]
fn end_to_end_channel_releases_latest_then_fails_fast() {
    let mut s = TubeState::new(0u32, 100, 0);
    s.set_next(5, 0);
    assert_eq!(s.poll_next(50), Ok(Readiness::NotReady));
    assert_eq!(s.poll_next(100), Ok(Readiness::Ready(5)));
    assert_eq!(s.poll_next(200), Err(TubeError::NoPendingValue));
}

#[test]
fn initial_value_released_after_interval() {
    let mut s = TubeState::new(7i64, 10, 1000);
    assert_eq!(s.interval(), 10);
    assert_eq!(s.armed_at(), 1000);
    assert_eq!(s.poll_next(1000), Ok(Readiness::NotReady));
    assert_eq!(s.poll_next(1009), Ok(Readiness::NotReady));
    assert_eq!(s.poll_next(1010), Ok(Readiness::Ready(7)));
}

#[test]
fn last_send_between_firings_wins() {
    let mut s = TubeState::new(String::from("a"), 100, 0);
    s.set_next(String::from("b"), 10);
    s.set_next(String::from("c"), 20);
    s.set_next(String::from("d"), 30);
    assert_eq!(s.poll_next(129), Ok(Readiness::NotReady));
    assert_eq!(s.poll_next(130), Ok(Readiness::Ready(String::from("d"))));
    assert_eq!(s.poll_next(131), Err(TubeError::NoPendingValue));
}

#[test]
fn send_resets_timer_to_full_interval() {
    let mut s = TubeState::new(1u8, 100, 0);
    s.set_next(2, 90);
    assert_eq!(s.poll_next(100), Ok(Readiness::NotReady));
    assert_eq!(s.poll_next(189), Ok(Readiness::NotReady));
    assert_eq!(s.poll_next(190), Ok(Readiness::Ready(2)));
}

#[test]
fn feedback_loop_delivers_each_cycle() {
    let mut s = TubeState::new(0u64, 100, 0);
    let mut now: u64 = 0;
    let mut seen = Vec::new();
    while seen.len() < 3 {
        now += 25;
        if let Ok(Readiness::Ready(v)) = s.poll_next(now) {
            seen.push(v);
            s.set_next(v + 1, now);
        }
    }
    assert_eq!(seen, vec![0, 1, 2]);
    assert_eq!(now, 300);
}

#[test]
fn zero_interval_is_due_at_once() {
    let mut s = TubeState::new(3u16, 0, 42);
    assert_eq!(s.poll_next(42), Ok(Readiness::Ready(3)));
}

#[test]
fn largest_ticks_do_not_overflow() {
    let mut s = TubeState::new(9u32, u64::MAX, u64::MAX);
    assert_eq!(s.poll_next(u64::MAX), Ok(Readiness::NotReady));
    let mut t = TubeState::new(9u32, 1, u64::MAX - 1);
    assert_eq!(t.poll_next(u64::MAX - 1), Ok(Readiness::NotReady));
    assert_eq!(t.poll_next(u64::MAX), Ok(Readiness::Ready(9)));
}
