use proxynet::clock::hold_at_max;
use proxynet::clock::millis_between;
use proxynet::clock::Clock;
use proxynet::clock::NANOS_PER_MILLI;
use proxynet::clock::NANOS_PER_SEC;

#[test]
fn units() {
    assert_eq!(NANOS_PER_SEC, 1_000_000_000);
    assert_eq!(NANOS_PER_MILLI, 1_000_000);
}

#[test]
fn millis_between_counts_whole_milliseconds() {
    assert_eq!(millis_between(0, 0), 0);
    assert_eq!(millis_between(0, 999_999), 0);
    assert_eq!(millis_between(0, 1_000_000), 1);
    assert_eq!(millis_between(1_000_000, 3_500_000), 2);
    assert_eq!(millis_between(5, 12 * NANOS_PER_MILLI + 5), 12);
}

#[test]
fn millis_between_is_zero_when_time_ran_backwards() {
    assert_eq!(millis_between(5, 3), 0);
    assert_eq!(millis_between(u64::MAX, 0), 0);
}

#[test]
fn millis_between_of_the_longest_span() {
    assert_eq!(millis_between(0, u64::MAX), 18_446_744_073_709);
}

#[test]
fn clock_does_not_run_backwards() {
    let clock = Clock::new();
    let first = clock.now();
    let second = clock.now();
    assert!(first <= second);
}

#[test]
fn clock_advances() {
    let clock = Clock::new();
    let first = clock.now();
    let mut second = clock.now();
    let mut spins: u64 = 0;
    while second == first && spins < 1_000_000_000 {
        second = clock.now();
        spins += 1;
    }
    assert!(second > first);
    assert!(second < 60 * NANOS_PER_SEC);
}

#[test]
fn read_gives_both_clocks() {
    let clock = Clock::new();
    let before = clock.now();
    let moment = clock.read();
    assert!(moment.now >= before);
    // Some time after the year 2020.
    assert!(moment.timestamp > 1_577_836_800);
}

#[test]
fn hold_at_max_keeps_a_count_that_fits() {
    assert_eq!(hold_at_max(0), 0);
    assert_eq!(hold_at_max(1), 1);
    assert_eq!(hold_at_max(1_000_000_000), 1_000_000_000);
    assert_eq!(hold_at_max(u64::MAX as u128), u64::MAX);
}

#[test]
fn hold_at_max_holds_a_count_that_does_not_fit() {
    assert_eq!(hold_at_max(u64::MAX as u128 + 1), u64::MAX);
    assert_eq!(hold_at_max(u128::MAX), u64::MAX);
}
