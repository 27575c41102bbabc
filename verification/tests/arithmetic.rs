use std::time::Duration;

use sysclock::Timespec;

#[test]
fn span_of_later_from_earlier_is_ok() {
    let later = Timespec::new(5, 100);
    let earlier = Timespec::new(3, 50);
    assert_eq!(later.sub_timespec(&earlier), Ok(Duration::new(2, 50)));
}

#[test]
fn span_borrows_a_second_when_nanoseconds_fall_short() {
    let later = Timespec::new(5, 100);
    let earlier = Timespec::new(3, 200);
    let span = later.sub_timespec(&earlier);
    assert_eq!(span, Ok(Duration::new(1, 999_999_900)));
    let d = span.unwrap();
    assert_eq!(d.as_secs(), 1);
    assert_eq!(d.subsec_nanos(), 999_999_900);
}

#[test]
fn span_of_earlier_from_later_is_err_with_same_magnitude() {
    let later = Timespec::new(5, 100);
    let earlier = Timespec::new(3, 200);
    assert_eq!(earlier.sub_timespec(&later), Err(Duration::new(1, 999_999_900)));
}

#[test]
fn span_is_antisymmetric() {
    let points = [
        Timespec::new(i64::MIN, 0),
        Timespec::new(-2, 999_999_999),
        Timespec::new(-1, 0),
        Timespec::new(0, 0),
        Timespec::new(0, 1),
        Timespec::new(0, 999_999_999),
        Timespec::new(1, 0),
        Timespec::new(1_700_000_000, 500_000_000),
        Timespec::new(i64::MAX, 999_999_999),
    ];
    for a in points.iter() {
        for b in points.iter() {
            let ab = a.sub_timespec(b);
            let ba = b.sub_timespec(a);
            if a == b {
                assert_eq!(ab, Ok(Duration::new(0, 0)));
                assert_eq!(ba, Ok(Duration::new(0, 0)));
            } else {
                match ab {
                    Ok(d) => assert_eq!(ba, Err(d)),
                    Err(d) => assert_eq!(ba, Ok(d)),
                }
                assert_eq!(ab.is_ok(), a > b);
            }
        }
    }
}

#[test]
fn span_of_equal_timestamps_is_ok_zero() {
    let t = Timespec::new(77, 88);
    assert_eq!(t.sub_timespec(&t), Ok(Duration::ZERO));
}

#[test]
fn span_across_the_whole_range_fits() {
    let first = Timespec::new(i64::MIN, 0);
    let last = Timespec::new(i64::MAX, 999_999_999);
    assert_eq!(last.sub_timespec(&first), Ok(Duration::new(u64::MAX, 999_999_999)));
    assert_eq!(first.sub_timespec(&last), Err(Duration::new(u64::MAX, 999_999_999)));
}

#[test]
fn span_across_zero() {
    let before = Timespec::new(-1, 750_000_000);
    let after = Timespec::new(1, 250_000_000);
    assert_eq!(after.sub_timespec(&before), Ok(Duration::new(1, 500_000_000)));
}

#[test]
fn add_without_carry() {
    let t = Timespec::new(10, 100);
    assert_eq!(t.checked_add_duration(&Duration::new(5, 200)), Some(Timespec::new(15, 300)));
}

#[test]
fn add_carries_a_full_second() {
    let t = Timespec::new(0, 999_999_999);
    assert_eq!(t.checked_add_duration(&Duration::new(0, 1)), Some(Timespec::new(1, 0)));
}

#[test]
fn add_carries_and_keeps_the_remainder() {
    let t = Timespec::new(0, 999_999_999);
    assert_eq!(t.checked_add_duration(&Duration::new(0, 2)), Some(Timespec::new(1, 1)));
}

#[test]
fn add_with_largest_nanoseconds_on_both_sides() {
    let t = Timespec::new(-3, 999_999_999);
    assert_eq!(
        t.checked_add_duration(&Duration::new(2, 999_999_999)),
        Some(Timespec::new(0, 999_999_998))
    );
}

#[test]
fn add_overflows_at_the_last_second() {
    let t = Timespec::new(i64::MAX, 0);
    assert_eq!(t.checked_add_duration(&Duration::new(1, 0)), None);
}

#[test]
fn add_overflows_through_the_carry() {
    let t = Timespec::new(i64::MAX, 999_999_999);
    assert_eq!(t.checked_add_duration(&Duration::new(0, 1)), None);
    assert_eq!(
        t.checked_add_duration(&Duration::new(0, 0)),
        Some(Timespec::new(i64::MAX, 999_999_999))
    );
}

#[test]
fn add_reaches_the_last_second() {
    let t = Timespec::new(i64::MAX - 1, 0);
    assert_eq!(t.checked_add_duration(&Duration::new(1, 5)), Some(Timespec::new(i64::MAX, 5)));
}

#[test]
fn add_refuses_seconds_beyond_the_signed_range() {
    let too_long = Duration::new(i64::MAX as u64 + 1, 0);
    assert_eq!(Timespec::new(-10, 0).checked_add_duration(&too_long), None);
    assert_eq!(Timespec::new(i64::MIN, 0).checked_add_duration(&too_long), None);
    let longest = Duration::new(i64::MAX as u64, 0);
    assert_eq!(
        Timespec::new(i64::MIN, 0).checked_add_duration(&longest),
        Some(Timespec::new(-1, 0))
    );
}

#[test]
fn sub_without_borrow() {
    let t = Timespec::new(10, 300);
    assert_eq!(t.checked_sub_duration(&Duration::new(5, 200)), Some(Timespec::new(5, 100)));
}

#[test]
fn sub_borrows_a_full_second() {
    let t = Timespec::new(1, 0);
    assert_eq!(t.checked_sub_duration(&Duration::new(0, 1)), Some(Timespec::new(0, 999_999_999)));
}

#[test]
fn sub_goes_below_zero() {
    let t = Timespec::new(0, 0);
    assert_eq!(t.checked_sub_duration(&Duration::new(0, 1)), Some(Timespec::new(-1, 999_999_999)));
    assert_eq!(t.checked_sub_duration(&Duration::new(2, 0)), Some(Timespec::new(-2, 0)));
}

#[test]
fn sub_overflows_at_the_first_second() {
    let t = Timespec::new(i64::MIN, 0);
    assert_eq!(t.checked_sub_duration(&Duration::new(1, 0)), None);
}

#[test]
fn sub_overflows_through_the_borrow() {
    let t = Timespec::new(i64::MIN, 0);
    assert_eq!(t.checked_sub_duration(&Duration::new(0, 1)), None);
    assert_eq!(t.checked_sub_duration(&Duration::new(0, 0)), Some(Timespec::new(i64::MIN, 0)));
}

#[test]
fn sub_refuses_seconds_beyond_the_signed_range() {
    let too_long = Duration::new(i64::MAX as u64 + 1, 0);
    assert_eq!(Timespec::new(i64::MAX, 0).checked_sub_duration(&too_long), None);
    let longest = Duration::new(i64::MAX as u64, 0);
    assert_eq!(
        Timespec::new(i64::MAX, 0).checked_sub_duration(&longest),
        Some(Timespec::new(0, 0))
    );
    assert_eq!(
        Timespec::new(-1, 0).checked_sub_duration(&longest),
        Some(Timespec::new(i64::MIN, 0))
    );
}

#[test]
fn add_then_sub_gives_the_start_back() {
    let starts = [
        Timespec::new(0, 0),
        Timespec::new(0, 999_999_999),
        Timespec::new(-5, 1),
        Timespec::new(i64::MIN, 0),
        Timespec::new(i64::MAX - 2, 999_999_999),
        Timespec::new(1_700_000_000, 123_456_789),
    ];
    let shifts = [
        Duration::new(0, 0),
        Duration::new(0, 1),
        Duration::new(0, 999_999_999),
        Duration::new(1, 0),
        Duration::new(1, 999_999_999),
        Duration::new(86_400, 500_000_000),
        Duration::new(i64::MAX as u64, 0),
    ];
    let mut fitted: u32 = 0;
    for a in starts.iter() {
        for d in shifts.iter() {
            if let Some(sum) = a.checked_add_duration(d) {
                fitted += 1;
                assert!(sum.nsecs() < 1_000_000_000);
                assert!(sum >= *a);
                assert_eq!(sum.checked_sub_duration(d), Some(*a));
                assert_eq!(sum.sub_timespec(a), Ok(*d));
            }
        }
    }
    assert_eq!(fitted, 39);
}

#[test]
fn sub_then_add_gives_the_start_back() {
    let a = Timespec::new(3, 100);
    let d = Duration::new(7, 200);
    let back = a.checked_sub_duration(&d).unwrap();
    assert_eq!(back, Timespec::new(-5, 999_999_900));
    assert_eq!(back.checked_add_duration(&d), Some(a));
}
