use muza::constants::DEGREES;
use muza::tuning::{degree, octave};

#[test]
fn degree_of_base_note_is_unison() {
    assert_eq!(degree(0), 0);
    assert_eq!(octave(0), 0);
}

#[test]
fn degree_wraps_negative_notes() {
    assert_eq!(degree(-1), 11);
    assert_eq!(degree(-12), 0);
    assert_eq!(degree(-13), 11);
    assert_eq!(degree(-36), 0);
    assert_eq!(degree(14), 2);
}

#[test]
fn degree_repeats_every_octave() {
    for note in -48i64..=72 {
        assert_eq!(degree(note), degree(note + 12));
        assert!(degree(note) < DEGREES);
    }
}

#[test]
fn octave_below_base_for_negative_notes() {
    assert_eq!(octave(-1), -1);
    assert_eq!(octave(-12), -1);
    assert_eq!(octave(-13), -2);
    assert_eq!(octave(-24), -2);
    assert_eq!(octave(-25), -3);
    assert_eq!(octave(11), 0);
    assert_eq!(octave(12), 1);
}

#[test]
fn octave_rises_by_one_every_twelve_notes() {
    for note in -36i64..=60 {
        assert_eq!(octave(note + 12), octave(note) + 1);
        assert_eq!(note, 12 * octave(note) + degree(note) as i64);
    }
}

#[test]
fn octave_and_degree_at_extremes() {
    assert_eq!(octave(i64::MIN), i64::MIN.div_euclid(12));
    assert_eq!(degree(i64::MIN), i64::MIN.rem_euclid(12) as usize);
    assert_eq!(octave(i64::MAX), i64::MAX / 12);
    assert_eq!(degree(i64::MAX), (i64::MAX % 12) as usize);
}
