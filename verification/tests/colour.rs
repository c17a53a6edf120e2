use lamp_control::colour::{Hsv, FULL_TURN, HALF_TURN, UNIT};

#[test]
fn mix_ends_on_the_two_colours() {
    let from = Hsv::new(20 * UNIT, 100_000, 900_000);
    let to = Hsv::new(80 * UNIT, 700_000, 300_000);
    assert_eq!(from.mix(&to, 0, 7), from);
    assert_eq!(from.mix(&to, 7, 7), to);
    assert_eq!(from.mix(&to, 1, 1), to);
}

#[test]
fn mix_goes_the_way_in_even_parts() {
    let from = Hsv::new(20 * UNIT, 100_000, 900_000);
    let to = Hsv::new(80 * UNIT, 700_000, 300_000);
    assert_eq!(from.mix(&to, 1, 2), Hsv::new(50 * UNIT, 400_000, 600_000));
    assert_eq!(from.mix(&to, 1, 3), Hsv::new(40 * UNIT, 300_000, 700_000));
    assert_eq!(from.mix(&to, 2, 3), Hsv::new(60 * UNIT, 500_000, 500_000));
}

#[test]
fn mix_rounds_down() {
    let from = Hsv::new(0, 0, 10);
    let to = Hsv::new(10, 10, 0);
    assert_eq!(from.mix(&to, 1, 3), Hsv::new(3, 3, 6));
    assert_eq!(from.mix(&to, 2, 3), Hsv::new(6, 6, 3));
}

#[test]
fn mix_takes_the_shorter_arc_through_zero() {
    let from = Hsv::new(350 * UNIT, 0, 0);
    let to = Hsv::new(10 * UNIT, 0, 0);
    assert_eq!(from.mix(&to, 1, 4).hue, 355 * UNIT);
    assert_eq!(from.mix(&to, 2, 4).hue, 0);
    assert_eq!(from.mix(&to, 3, 4).hue, 5 * UNIT);
    assert_eq!(from.mix(&to, 4, 4).hue, 10 * UNIT);
    assert_eq!(to.mix(&from, 1, 4).hue, 5 * UNIT);
    assert_eq!(to.mix(&from, 2, 4).hue, 0);
    assert_eq!(to.mix(&from, 3, 4).hue, 355 * UNIT);
}

#[test]
fn mix_of_opposite_hues_goes_forward() {
    let from = Hsv::new(0, 0, 0);
    let to = Hsv::new(HALF_TURN, 0, 0);
    assert_eq!(from.mix(&to, 1, 2).hue, 90 * UNIT);
    assert_eq!(to.mix(&from, 1, 2).hue, 270 * UNIT);
    let to = Hsv::new(HALF_TURN + 1, 0, 0);
    assert_eq!(from.mix(&to, 1, 2).hue, FULL_TURN - 90 * UNIT);
}

#[test]
fn mix_brings_the_hue_into_the_first_turn() {
    let from = Hsv::new(-30 * UNIT, 0, 0);
    let to = Hsv::new(750 * UNIT, 0, 0);
    assert_eq!(from.mix(&to, 0, 2).hue, 330 * UNIT);
    assert_eq!(from.mix(&to, 1, 2).hue, 0);
    assert_eq!(from.mix(&to, 2, 2).hue, 30 * UNIT);
}

#[test]
fn mix_of_many_steps() {
    let from = Hsv::new(0, 0, UNIT);
    let to = Hsv::new(0, UNIT, 0);
    let last = u64::MAX;
    assert_eq!(from.mix(&to, last, last), to);
    assert_eq!(from.mix(&to, 0, last), from);
    assert_eq!(from.mix(&to, last / 2, last), Hsv::new(0, 499_999, 500_000));
}

#[test]
fn a_colour_in_its_range() {
    assert!(Hsv::new(0, 0, 0).is_in_range());
    assert!(Hsv::new(-7, UNIT, UNIT).is_in_range());
    assert!(!Hsv::new(0, UNIT + 1, 0).is_in_range());
    assert!(!Hsv::new(0, 0, -1).is_in_range());
    assert_eq!(Hsv::new(1, 2, 3), Hsv { hue: 1, saturation: 2, value: 3 });
}
