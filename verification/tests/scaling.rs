use lamp_control::colour::UNIT;
use lamp_control::common::{scale, scalegen};

#[test]
fn scale_half_range() {
    assert_eq!(scale(50, 100, 360), 180);
}

#[test]
fn scale_full_range() {
    assert_eq!(scale(100, 100, 360), 360);
}

#[test]
fn scale_zero_range() {
    assert_eq!(scale(0, 100, 360), 0);
}

#[test]
fn scale_cuts_off_what_is_left() {
    assert_eq!(scale(1, 3, 10), 3);
    assert_eq!(scale(2, 3, 10), 6);
    assert_eq!(scale(99, 100, 255), 252);
}

#[test]
fn scale_to_a_negative_range_rounds_toward_zero() {
    assert_eq!(scale(1, 3, -10), -3);
    assert_eq!(scale(3, 3, -10), -10);
    assert_eq!(scale(0, 3, -10), 0);
}

#[test]
fn scale_keeps_the_order() {
    let mut last = scale(0, 100, 255);
    assert_eq!(last, 0);
    for v in 1..=100 {
        let next = scale(v, 100, 255);
        assert!(last <= next);
        last = next;
    }
    assert_eq!(last, 255);
}

#[test]
fn scale_does_not_overflow_on_large_ranges() {
    assert_eq!(scale(isize::MAX, isize::MAX, isize::MAX), isize::MAX);
    assert_eq!(scale(isize::MAX, isize::MAX, isize::MIN), isize::MIN);
    assert_eq!(scale(isize::MAX / 2, isize::MAX, 4), 1);
}

#[test]
fn scalegen_hundred_half_range() {
    assert_eq!(scalegen(UNIT / 2, UNIT, 100), 50);
}

#[test]
fn scalegen_hundred_tenth() {
    assert_eq!(scalegen(UNIT / 10, UNIT, 100), 10);
}

#[test]
fn scalegen_hundred_zero() {
    assert_eq!(scalegen(0, UNIT, 100), 0);
}

#[test]
fn scalegen_gen_half_of_one() {
    assert_eq!(scalegen(UNIT / 2, UNIT, 360), 180);
}

#[test]
fn scalegen_gen_whole_of_one() {
    assert_eq!(scalegen(UNIT, UNIT, 360), 360);
}

#[test]
fn scalegen_gen_half_of_two() {
    assert_eq!(scalegen(UNIT / 2, 2 * UNIT, 360), 90);
}

#[test]
fn scalegen_gen_ten_of_hundred() {
    assert_eq!(scalegen(10 * UNIT, 100 * UNIT, 360), 36);
}

#[test]
fn scalegen_rounds_to_the_nearest() {
    // a tenth of 255 is 25.5
    assert_eq!(scalegen(UNIT / 10, UNIT, 255), 26);
    assert_eq!(scalegen(UNIT, UNIT, 255), 255);
    assert_eq!(scalegen(0, UNIT, 255), 0);
    assert_eq!(scalegen(380_000, UNIT, 10), 4);
    assert_eq!(scalegen(340_000, UNIT, 10), 3);
    assert_eq!(scalegen(350_000, UNIT, 10), 4);
    assert_eq!(scalegen(349_999, UNIT, 10), 3);
    assert_eq!(scalegen(9 * UNIT / 10, UNIT, 255), 230);
    assert_eq!(scalegen(180 * UNIT, 360 * UNIT, 65535), 32768);
    assert_eq!(scalegen(1, 3, 10), 3);
    assert_eq!(scalegen(2, 3, 10), 7);
    assert_eq!(scalegen(1, 2, 1), 1);
    assert_eq!(scalegen(1, 3, 1), 0);
    assert_eq!(scalegen(2, 3, 1), 1);
}

#[test]
fn scalegen_to_a_negative_range_rounds_away_from_zero_at_the_half() {
    assert_eq!(scalegen(1, 3, -10), -3);
    assert_eq!(scalegen(2, 3, -10), -7);
    assert_eq!(scalegen(1, 2, -1), -1);
    assert_eq!(scalegen(380_000, UNIT, -10), -4);
    assert_eq!(scalegen(0, UNIT, -10), 0);
    assert_eq!(scalegen(UNIT, UNIT, -10), -10);
}

#[test]
fn scalegen_keeps_the_order() {
    let mut last = scalegen(0, 1000, 255);
    assert_eq!(last, 0);
    for v in 1..=1000 {
        let next = scalegen(v, 1000, 255);
        assert!(last <= next);
        assert!(next - last <= 1);
        last = next;
    }
    assert_eq!(last, 255);
}

#[test]
fn scalegen_is_no_more_than_a_half_away() {
    for (old_max, new_max) in [(7i64, 100isize), (100, 7), (360, 65535), (1000, 3), (2, 5)] {
        for v in 0..=old_max {
            let r = scalegen(v, old_max, new_max) as i64;
            let twice = 2 * v * new_max as i64;
            assert!(old_max * (2 * r - 1) <= twice);
            assert!(twice < old_max * (2 * r + 1));
        }
    }
}

#[test]
fn scalegen_on_the_widest_values() {
    assert_eq!(scalegen(i64::MAX, i64::MAX, isize::MAX), isize::MAX);
    assert_eq!(scalegen(i64::MAX, i64::MAX, isize::MIN), isize::MIN);
    assert_eq!(scalegen(0, i64::MAX, isize::MIN), 0);
    assert_eq!(scalegen(i64::MAX - 1, i64::MAX, isize::MAX), isize::MAX - 1);
    assert_eq!(scalegen(i64::MAX / 2, i64::MAX, 2), 1);
    assert_eq!(scalegen(i64::MAX / 4, i64::MAX, 2), 0);
}
