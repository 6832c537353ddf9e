use yawe::timer::Timer;

#[test]
fn timer_expires_exactly_at_its_duration() {
    let t = Timer::new(2300, 10_000);
    assert!(!t.is_expired(12_299));
    assert!(t.is_expired(12_300));
    assert!(t.is_expired(12_301));
    assert_eq!(t.get_elapsed_time(12_000), 2000);
}

#[test]
fn zero_timer_is_expired_at_once() {
    let t = Timer::new(0, 5);
    assert!(t.is_expired(5));
    assert!(!t.is_expired(4));
    assert_eq!(Timer::default(), Timer::new(0, 0));
}
