use tagoio_mqtt_relay::limiter::{Admission, ForwardLimiter, FORWARD_PERMITS};

#[test]
fn at_most_fifty_forwards_in_flight() {
    let mut l = ForwardLimiter::new();
    for _ in 0..FORWARD_PERMITS {
        assert_eq!(l.try_acquire(), Admission::Admitted);
    }
    assert_eq!(l.in_flight(), 50);
    assert_eq!(l.try_acquire(), Admission::Wait);
    assert_eq!(l.in_flight(), 50);
    l.release();
    assert_eq!(l.try_acquire(), Admission::Admitted);
    assert_eq!(l.in_flight(), 50);
}

#[test]
fn closed_limiter_drops_publishes() {
    let mut l = ForwardLimiter::new();
    assert_eq!(l.try_acquire(), Admission::Admitted);
    l.close();
    assert_eq!(l.try_acquire(), Admission::Dropped);
    l.release();
    assert_eq!(l.in_flight(), 0);
}
