//! One full shot cycle through the turn state machine, the stroke
//! counting, and holing out.

use on_tour::ball::Ball;
use on_tour::camera::Camera;
use on_tour::frame_time::FrameTime;
use on_tour::geometry::Point;
use on_tour::hole::{frame_step, hole_handler, HoleState};
use on_tour::turn::{turn_handler, Input, Swing, TurnStage};

fn world() -> (Ball, Camera) {
    let ball = Ball::new(&Point::new(10, 10));
    let camera = Camera::new(Point::new(10, 10), 100, 100, 20, 10);
    (ball, camera)
}

#[test]
fn club_selection_rotates_and_confirms() {
    let (mut ball, mut camera) = world();
    let dt = FrameTime::of(16);
    let stage = TurnStage::start();
    let down = turn_handler(&stage, Some(Input::NextClub), &dt, &mut ball, &mut camera);
    match down {
        TurnStage::ClubSelection(_, i) => assert_eq!(i, 1),
        _ => panic!("still selecting"),
    }
    let up = turn_handler(&down, Some(Input::PreviousClub), &dt, &mut ball, &mut camera);
    match up {
        TurnStage::ClubSelection(_, i) => assert_eq!(i, 0),
        _ => panic!("still selecting"),
    }
    let confirmed = turn_handler(&up, Some(Input::Confirm), &dt, &mut ball, &mut camera);
    match confirmed {
        TurnStage::Aiming(aim, club) => {
            assert_eq!(aim.degrees, 0);
            assert_eq!(club.name, "Driver");
        },
        _ => panic!("confirm should move to aiming"),
    }
}

#[test]
fn traveling_ignores_discrete_input() {
    let (mut ball, mut camera) = world();
    let dt = FrameTime::of(50);
    let aim = on_tour::turn::Aim::new();
    let stage = TurnStage::Traveling(on_tour::travel::Travel::new(
        &100,
        aim.degrees,
        &on_tour::club::Club::driver(),
    ));
    let next = turn_handler(&stage, Some(Input::Confirm), &dt, &mut ball, &mut camera);
    assert!(matches!(next, TurnStage::Traveling(_)));
}

#[test]
fn a_full_stroke_cycle_counts_one_stroke() {
    let (mut ball, mut camera) = world();
    let dt = FrameTime::of(50);
    let flag = Point::new(90, 90);
    let mut stage = TurnStage::start();
    let mut hole = HoleState::TeeOff;

    // Opening frame: the fresh hole opens its stroke count.
    let (s, h) = frame_step(&stage, &hole, None, &dt, &mut ball, &mut camera, &flag);
    stage = s;
    hole = h;
    assert_eq!(hole, HoleState::Stroke(0));
    assert!(matches!(stage, TurnStage::ClubSelection(_, 0)));

    // Confirm through club selection, aiming, and the swing start.
    for _ in 0..3 {
        let (s, h) = frame_step(&stage, &hole, Some(Input::Confirm), &dt, &mut ball, &mut camera, &flag);
        stage = s;
        hole = h;
        assert_eq!(hole, HoleState::Stroke(0));
    }
    match stage {
        TurnStage::Swinging(Swing::Power(p), _, _) => assert_eq!(p, 0),
        _ => panic!("three confirms reach the power meter"),
    }

    // The power meter rises on its own, one per frame.
    for expected in 1..=30u8 {
        let (s, h) = frame_step(&stage, &hole, None, &dt, &mut ball, &mut camera, &flag);
        stage = s;
        hole = h;
        match stage {
            TurnStage::Swinging(Swing::Power(p), _, _) => assert_eq!(p, expected),
            _ => panic!("power keeps charging"),
        }
    }
    assert_eq!(hole, HoleState::Stroke(0));

    // Confirm commits the accuracy deposit, then the shot.
    let (s, _) = frame_step(&stage, &hole, Some(Input::Confirm), &dt, &mut ball, &mut camera, &flag);
    stage = s;
    match stage {
        TurnStage::Swinging(Swing::Accuracy(p, a), _, _) => {
            assert_eq!(p, 31);
            assert_eq!(a, 1);
        },
        _ => panic!("confirm deposits accuracy"),
    }
    let (s, _) = frame_step(&stage, &hole, Some(Input::Confirm), &dt, &mut ball, &mut camera, &flag);
    stage = s;
    assert!(matches!(stage, TurnStage::Traveling(_)));

    // Physics frames never touch the stroke count.
    let mut frames = 0u32;
    while matches!(stage, TurnStage::Traveling(_)) && frames < 1000 {
        let (s, h) = frame_step(&stage, &hole, None, &dt, &mut ball, &mut camera, &flag);
        stage = s;
        hole = h;
        assert_eq!(hole, HoleState::Stroke(0));
        frames += 1;
    }
    assert!(matches!(stage, TurnStage::Finished));
    assert!(frames > 2);
    // The ball flew up the map from the tee.
    assert!(ball.tile_position().y < 10);

    // Wrapping out of Finished starts the next shot and counts the stroke,
    // exactly once.
    let (s, h) = frame_step(&stage, &hole, None, &dt, &mut ball, &mut camera, &flag);
    stage = s;
    hole = h;
    assert!(matches!(stage, TurnStage::ClubSelection(_, 0)));
    assert_eq!(hole, HoleState::Stroke(1));
    let (_, h) = frame_step(&stage, &hole, None, &dt, &mut ball, &mut camera, &flag);
    assert_eq!(h, HoleState::Stroke(1));
}

#[test]
fn holing_out_wins_whatever_the_count() {
    let flag = Point::new(10, 10);
    let at_flag = vec![Point::new(10, 10)];
    let away = vec![Point::new(9, 10)];
    assert_eq!(hole_handler(&HoleState::Stroke(0), &at_flag, &flag), HoleState::Holed);
    assert_eq!(hole_handler(&HoleState::Stroke(17), &at_flag, &flag), HoleState::Holed);
    assert_eq!(
        hole_handler(&HoleState::Stroke(u32::MAX), &at_flag, &flag),
        HoleState::Holed
    );
    assert_eq!(hole_handler(&HoleState::Stroke(17), &away, &flag), HoleState::Stroke(17));
    assert_eq!(hole_handler(&HoleState::TeeOff, &away, &flag), HoleState::Stroke(0));
    assert_eq!(hole_handler(&HoleState::Holed, &away, &flag), HoleState::Holed);
}

#[test]
fn ball_on_flag_holes_during_a_frame() {
    let (mut ball, mut camera) = world();
    let dt = FrameTime::of(16);
    let flag = Point::new(10, 10);
    let stage = TurnStage::start();
    let (_, h) = frame_step(
        &stage,
        &HoleState::Stroke(7),
        None,
        &dt,
        &mut ball,
        &mut camera,
        &flag,
    );
    assert_eq!(h, HoleState::Holed);
}

#[test]
fn stroke_counter_increments_only_in_stroke() {
    let mut s = HoleState::Stroke(4);
    s.increment();
    assert_eq!(s, HoleState::Stroke(5));
    let mut t = HoleState::TeeOff;
    t.increment();
    assert_eq!(t, HoleState::TeeOff);
    let mut d = HoleState::Holed;
    d.increment();
    assert_eq!(d, HoleState::Holed);
    assert_eq!(HoleState::new(), HoleState::TeeOff);
    assert_eq!(HoleState::startHole(), HoleState::Stroke(0));
    assert_eq!(HoleState::finish(), HoleState::Holed);
}

#[test]
fn confirm_on_a_just_saturated_meter_does_not_launch() {
    // Power 99 promotes to Accuracy(100, 0) this very tick; a confirm on
    // the same frame must not commit the shot.
    let (mut ball, mut camera) = world();
    let dt = FrameTime::of(16);
    let aim = on_tour::turn::Aim::new();
    let club = on_tour::club::Club::driver();
    let stage = TurnStage::Swinging(Swing::Power(99), aim, club);
    let next = turn_handler(&stage, Some(Input::Confirm), &dt, &mut ball, &mut camera);
    assert!(!matches!(next, TurnStage::Traveling(_)));
    // A confirm on a meter already resting in Accuracy does launch.
    let armed = TurnStage::Swinging(Swing::Accuracy(100, 0), aim, club);
    let launched = turn_handler(&armed, Some(Input::Confirm), &dt, &mut ball, &mut camera);
    assert!(matches!(launched, TurnStage::Traveling(_)));
}
