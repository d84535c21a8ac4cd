use netproxy::time::Stopwatch;

#[test]
fn a_new_stopwatch_is_paused_at_zero() {
    let stopwatch = Stopwatch::new(500);
    assert!(!stopwatch.is_running());
    assert_eq!(stopwatch.read(500), 0);
    assert_eq!(stopwatch.read(9_000), 0);
    assert_eq!(
        stopwatch,
        Stopwatch::Paused {
            paused_since: 500,
            runtime: 0
        }
    );
}

#[test]
fn a_running_stopwatch_shows_the_time_since_its_start() {
    let stopwatch = Stopwatch::start_new(1_000);
    assert!(stopwatch.is_running());
    assert_eq!(stopwatch.read(1_000), 0);
    assert_eq!(stopwatch.read(2_500), 1_500);
    assert_eq!(stopwatch.read(10), 0);
}

#[test]
fn a_stopped_stopwatch_keeps_its_reading() {
    let mut stopwatch = Stopwatch::start_new(1_000);
    stopwatch.stop(2_500);
    assert!(!stopwatch.is_running());
    assert_eq!(stopwatch.read(2_500), 1_500);
    assert_eq!(stopwatch.read(1_000_000), 1_500);
    stopwatch.stop(5_000);
    assert_eq!(
        stopwatch,
        Stopwatch::Paused {
            paused_since: 2_500,
            runtime: 1_500
        }
    );
    stopwatch.start(6_000);
    assert!(stopwatch.is_running());
    assert_eq!(stopwatch.read(6_100), 100);
    assert_eq!(netproxy::time::format(u128::from(stopwatch.read(6_100)), -1), "100ns");
}
