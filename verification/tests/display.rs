use std::time::Duration;

#[test]
fn display() {
    let one_nano = Duration::from_secs_f64(0.000000001);
    let one_micro = Duration::from_secs_f64(0.000001);
    let one_milli = Duration::from_secs_f64(0.001);
    let one_sec = Duration::from_secs(1);
    let one_minute = Duration::from_secs(60);
    let one_hour = Duration::from_secs(3600);
    let one_day = Duration::from_secs(86400);

    println!("one_nano: {}", netproxy::time::format(one_nano.as_nanos(), -1));
    println!("one_micro: {}", netproxy::time::format(one_micro.as_nanos(), -1));
    println!("one_milli: {}", netproxy::time::format(one_milli.as_nanos(), -1));
    println!("one_sec: {}", netproxy::time::format(one_sec.as_nanos(), -1));
    println!("one_minute: {}", netproxy::time::format(one_minute.as_nanos(), -1));
    println!("one_hour: {}", netproxy::time::format(one_hour.as_nanos(), -1));
    println!("one_day: {}", netproxy::time::format(one_day.as_nanos(), -1));
    println!(
        "Everything above: {}",
        netproxy::time::format(
            (one_nano + one_micro + one_milli + one_sec + one_minute + one_hour + one_day)
                .as_nanos(),
            -1
        )
    );

    println!();

    println!("{}", netproxy::time::format(Duration::from_secs(3661).as_nanos(), -1));
    println!("{}", netproxy::time::format(Duration::from_secs(31546321).as_nanos(), -1));
}

#[test]
fn format_shows_each_unit_once() {
    assert_eq!(netproxy::time::format(1, -1), "1ns");
    assert_eq!(netproxy::time::format(1_000, -1), "1\u{b5}s");
    assert_eq!(netproxy::time::format(1_000_000, -1), "1ms");
    assert_eq!(netproxy::time::format(Duration::from_secs(1).as_nanos(), -1), "1s");
    assert_eq!(netproxy::time::format(Duration::from_secs(60).as_nanos(), -1), "1m");
    assert_eq!(netproxy::time::format(Duration::from_secs(3600).as_nanos(), -1), "1h");
    assert_eq!(netproxy::time::format(Duration::from_secs(86400).as_nanos(), -1), "1d");
    assert_eq!(
        netproxy::time::format(Duration::from_secs(86400 + 3600 + 60 + 1).as_nanos() + 1_001_001, -1),
        "1d 1h 1m 1s 1ms 1\u{b5}s 1ns"
    );
    assert_eq!(netproxy::time::format(Duration::from_secs(3661).as_nanos(), -1), "1h 1m 1s");
    assert_eq!(netproxy::time::format(Duration::from_secs(31546321).as_nanos(), -1), "1y 2h 52m 1s");
}

#[test]
fn format_limits_the_units_to_the_precision() {
    let duration = Duration::new(80000, 0).as_nanos();
    assert_eq!(netproxy::time::format(duration, 1), "22h");
    assert_eq!(netproxy::time::format(duration, 2), "22h 13m");
    assert_eq!(netproxy::time::format(duration, -1), "22h 13m 20s");
    assert_eq!(netproxy::time::format(duration, 0), "");
    assert_eq!(netproxy::time::format(0, -1), "0ns");
    assert_eq!(netproxy::time::format(0, 0), "0ns");
    assert_eq!(netproxy::time::format(Duration::from_secs(8 * 86400).as_nanos(), -1), "1w 1d");
    assert_eq!(netproxy::time::format(u128::from(u64::MAX), 1), "584y");
}
