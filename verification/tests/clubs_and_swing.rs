//! Clubs, the selection rotation, aim adjustment, and the swing minigame.

use on_tour::club::{Club, ClubSet};
use on_tour::turn::{handle_swing, Aim, Input, Swing};

#[test]
fn club_rotation_roundtrip_each_index() {
    let set = ClubSet::default();
    for i in 0..2usize {
        assert_eq!(set.next_club(set.previous_club(i)), i);
        assert_eq!(set.previous_club(set.next_club(i)), i);
    }
}

#[test]
fn club_rotation_wraps_circularly() {
    let set = ClubSet::default();
    assert_eq!(set.next_club(0), 1);
    assert_eq!(set.next_club(1), 0);
    assert_eq!(set.previous_club(0), 1);
    assert_eq!(set.previous_club(1), 0);
}

#[test]
fn club_catalog_attributes() {
    let set = ClubSet::default();
    let driver = set.at(&0);
    assert_eq!(driver.name, "Driver");
    assert_eq!(driver.loft_deg, 12);
    assert_eq!(driver.max_initial_velocity, 73_760_000);
    let putter = set.at(&1);
    assert_eq!(putter.name, "Putter");
    assert_eq!(putter.loft_deg, 0);
    assert_eq!(putter.max_initial_velocity, 1_000_000);
    assert_eq!(Club::default(), driver);
}

#[test]
fn aim_adjusts_three_degrees_per_press() {
    let aim = Aim::new();
    assert_eq!(aim.degrees, 0);
    let left = aim.adjust(Some(Input::Left));
    assert_eq!(left.degrees, 3);
    let right = aim.adjust(Some(Input::Right));
    assert_eq!(right.degrees, -3);
    let idle = aim.adjust(None);
    assert_eq!(idle.degrees, 0);
    let other = aim.adjust(Some(Input::Confirm));
    assert_eq!(other.degrees, 0);
    assert_eq!(Aim::of(42).degrees, 42);
}

#[test]
fn power_rises_by_one_per_tick() {
    let mut swing = Swing::Power(0);
    for expected in 1..=99u8 {
        swing = handle_swing(swing).unwrap();
        assert_eq!(swing, Swing::Power(expected));
    }
    swing = handle_swing(swing).unwrap();
    assert_eq!(swing, Swing::Accuracy(100, 0));
}

#[test]
fn power_saturates_exactly_at_one_hundred() {
    assert_eq!(handle_swing(Swing::Power(98)), Some(Swing::Power(99)));
    assert_eq!(handle_swing(Swing::Power(99)), Some(Swing::Accuracy(100, 0)));
    assert_eq!(handle_swing(Swing::Power(100)), Some(Swing::Accuracy(100, 0)));
}

#[test]
fn only_power_advances_by_time() {
    assert_eq!(handle_swing(Swing::Start), None);
    assert_eq!(handle_swing(Swing::Accuracy(57, 1)), None);
}
