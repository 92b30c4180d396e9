use nri_mux::timestamp::{
    prost_timestamp_to_u64, u64_to_prost_timestamp, Timestamp, MAX_NANOS, MAX_SECONDS,
    SECOND_TO_NANOS,
};

#[test]
fn nanoseconds_split_into_seconds_and_rest() {
    assert_eq!(u64_to_prost_timestamp(0), Timestamp { seconds: 0, nanos: 0 });
    assert_eq!(u64_to_prost_timestamp(999_999_999), Timestamp { seconds: 0, nanos: 999_999_999 });
    assert_eq!(u64_to_prost_timestamp(1_000_000_000), Timestamp { seconds: 1, nanos: 0 });
    assert_eq!(
        u64_to_prost_timestamp(1_700_000_000_123_456_789),
        Timestamp { seconds: 1_700_000_000, nanos: 123_456_789 }
    );
    assert_eq!(
        u64_to_prost_timestamp(u64::MAX),
        Timestamp { seconds: 18_446_744_073, nanos: 709_551_615 }
    );
}

#[test]
fn seconds_and_rest_add_up_to_nanoseconds() {
    assert_eq!(prost_timestamp_to_u64(&Timestamp { seconds: 0, nanos: 0 }), 0);
    assert_eq!(prost_timestamp_to_u64(&Timestamp { seconds: 1, nanos: 1 }), 1_000_000_001);
    assert_eq!(
        prost_timestamp_to_u64(&Timestamp { seconds: 1_700_000_000, nanos: 123_456_789 }),
        1_700_000_000_123_456_789
    );
}

#[test]
fn negative_parts_count_as_zero() {
    assert_eq!(prost_timestamp_to_u64(&Timestamp { seconds: -5, nanos: 7 }), 7);
    assert_eq!(prost_timestamp_to_u64(&Timestamp { seconds: 5, nanos: -7 }), 5_000_000_000);
    assert_eq!(prost_timestamp_to_u64(&Timestamp { seconds: i64::MIN, nanos: i32::MIN }), 0);
}

#[test]
fn the_nanosecond_part_is_held_below_one_second() {
    assert_eq!(SECOND_TO_NANOS, 1_000_000_000);
    assert_eq!(MAX_NANOS, 999_999_999);
    assert_eq!(MAX_SECONDS, 253_402_300_799);
    assert_eq!(
        prost_timestamp_to_u64(&Timestamp { seconds: 2, nanos: 1_500_000_000 }),
        2_999_999_999
    );
    assert_eq!(prost_timestamp_to_u64(&Timestamp { seconds: 0, nanos: i32::MAX }), 999_999_999);
}

#[test]
fn splitting_and_adding_up_are_inverse() {
    for n in [0u64, 1, 999_999_999, 1_000_000_000, 1_234_567_890_123, u64::MAX] {
        assert_eq!(prost_timestamp_to_u64(&u64_to_prost_timestamp(n)), n);
    }
}
