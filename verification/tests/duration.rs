use dobby::convert_millis_to_hms;
use dobby::duration::{SECONDS_PER_DAY, SECONDS_PER_HOUR, SECONDS_PER_MINUTE};

fn seconds_of(b: (u64, u64, u64, u64)) -> u64 {
    b.0 * SECONDS_PER_DAY + b.1 * SECONDS_PER_HOUR + b.2 * SECONDS_PER_MINUTE + b.3
}

#[test]
fn zero_millis_is_all_zero() {
    assert_eq!(convert_millis_to_hms(0), (0, 0, 0, 0));
}

#[test]
fn sub_second_remainder_is_discarded() {
    assert_eq!(convert_millis_to_hms(999), (0, 0, 0, 0));
    assert_eq!(convert_millis_to_hms(1000), (0, 0, 0, 1));
    assert_eq!(convert_millis_to_hms(1999), (0, 0, 0, 1));
}

#[test]
fn one_of_each_unit() {
    assert_eq!(convert_millis_to_hms(90_061_000), (1, 1, 1, 1));
}

#[test]
fn unit_boundaries() {
    assert_eq!(convert_millis_to_hms(59_999), (0, 0, 0, 59));
    assert_eq!(convert_millis_to_hms(60_000), (0, 0, 1, 0));
    assert_eq!(convert_millis_to_hms(3_599_999), (0, 0, 59, 59));
    assert_eq!(convert_millis_to_hms(3_600_000), (0, 1, 0, 0));
    assert_eq!(convert_millis_to_hms(86_399_999), (0, 23, 59, 59));
    assert_eq!(convert_millis_to_hms(86_400_000), (1, 0, 0, 0));
}

#[test]
fn largest_counter() {
    // 4294967295 ms = 4294967 s = 49 d 17 h 2 m 47 s
    assert_eq!(convert_millis_to_hms(u32::MAX), (49, 17, 2, 47));
}

#[test]
fn breakdown_adds_up_and_is_normalized() {
    let mut millis: u32 = 0;
    for _ in 0..20_000 {
        let b = convert_millis_to_hms(millis);
        assert_eq!(seconds_of(b), (millis / 1000) as u64);
        assert!(b.1 < 24 && b.2 < 60 && b.3 < 60);
        millis = millis.wrapping_mul(1_664_525).wrapping_add(1_013_904_223);
    }
}
