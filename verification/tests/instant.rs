use rumato::instant::Instant;

#[test]
fn has_reached_orders_by_seconds_then_nanoseconds() {
    let deadline = Instant { secs: 100, nanos: 500 };
    assert!(deadline.has_reached(&deadline));
    assert!(Instant { secs: 100, nanos: 501 }.has_reached(&deadline));
    assert!(!Instant { secs: 100, nanos: 499 }.has_reached(&deadline));
    assert!(Instant { secs: 101, nanos: 0 }.has_reached(&deadline));
    assert!(!Instant { secs: 99, nanos: 999_999_999 }.has_reached(&deadline));
    assert!(Instant { secs: -1, nanos: 0 }.has_reached(&Instant { secs: -2, nanos: 9 }));
}

#[test]
fn after_seconds_shifts_the_seconds_only() {
    let start = Instant { secs: 1_000, nanos: 123 };
    assert_eq!(start.after_seconds(0), start);
    assert_eq!(start.after_seconds(10), Instant { secs: 1_010, nanos: 123 });
    assert_eq!(
        Instant { secs: -5, nanos: 1 }.after_seconds(u32::MAX),
        Instant { secs: 4_294_967_290, nanos: 1 }
    );
    assert_eq!(
        Instant { secs: i64::MAX - 1, nanos: 0 }.after_seconds(1),
        Instant { secs: i64::MAX, nanos: 0 }
    );
}

#[test]
fn seconds_until_counts_whole_seconds_and_stops_at_zero() {
    let deadline = Instant { secs: 100, nanos: 0 };
    assert_eq!(Instant { secs: 90, nanos: 0 }.seconds_until(&deadline), 10);
    assert_eq!(Instant { secs: 90, nanos: 999_999_999 }.seconds_until(&deadline), 10);
    assert_eq!(Instant { secs: 99, nanos: 1 }.seconds_until(&deadline), 1);
    assert_eq!(Instant { secs: 100, nanos: 0 }.seconds_until(&deadline), 0);
    assert_eq!(Instant { secs: 250, nanos: 0 }.seconds_until(&deadline), 0);
    assert_eq!(
        Instant { secs: i64::MIN, nanos: 0 }.seconds_until(&Instant { secs: i64::MAX, nanos: 0 }),
        u64::MAX
    );
    assert_eq!(Instant { secs: -10, nanos: 0 }.seconds_until(&Instant { secs: -3, nanos: 0 }), 7);
}
