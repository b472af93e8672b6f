use horizon_client::pacing::{sleep_seconds, MAX_SLEEP_SECS, MIN_SLEEP_SECS};

#[test]
fn pause_bounds_are_one_and_ten_seconds() {
    assert_eq!(MIN_SLEEP_SECS, 1);
    assert_eq!(MAX_SLEEP_SECS, 10);
}

#[test]
fn pause_lies_within_the_bounds() {
    for _ in 0..10_000 {
        let seconds = sleep_seconds();
        assert!(MIN_SLEEP_SECS <= seconds && seconds <= MAX_SLEEP_SECS);
    }
}

#[test]
fn pause_is_not_constant() {
    let first = sleep_seconds();
    let mut differs = false;
    for _ in 0..1_000 {
        if sleep_seconds() != first {
            differs = true;
        }
    }
    assert!(differs);
}

#[test]
fn pause_takes_every_length() {
    let mut seen = [false; 10];
    for _ in 0..10_000 {
        seen[(sleep_seconds() - 1) as usize] = true;
    }
    assert!(seen.iter().all(|hit| *hit));
}
