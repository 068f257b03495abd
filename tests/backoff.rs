use tagoio_mqtt_relay::backoff::calculate_backoff;

#[test]
fn backoff_doubles_then_saturates() {
    assert_eq!(calculate_backoff(0), 5);
    assert_eq!(calculate_backoff(1), 10);
    assert_eq!(calculate_backoff(2), 20);
    assert_eq!(calculate_backoff(3), 40);
    assert_eq!(calculate_backoff(4), 60);
    assert_eq!(calculate_backoff(5), 60);
    assert_eq!(calculate_backoff(20), 60);
    assert_eq!(calculate_backoff(u32::MAX), 60);
}

#[test]
fn backoff_bounded_and_monotonic() {
    let mut prev = 0;
    for a in 0..100u32 {
        let d = calculate_backoff(a);
        assert!((5..=60).contains(&d));
        assert!(d >= prev);
        prev = d;
    }
}
