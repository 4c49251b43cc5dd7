//! The fixed-point flight model: launch values, integration steps, and
//! the landing condition.

use on_tour::club::Club;
use on_tour::travel::Travel;

#[test]
fn driver_launch_components() {
    // Full power with the driver: 73.76 m/s split along twelve degrees of
    // loft gives about 72.148 m/s out and 15.336 m/s up.
    let t = Travel::new(&100, 0, &Club::driver());
    assert_eq!(t.initial_velocity, 73_760_000);
    assert_eq!(t.fx, 978_148);
    assert_eq!(t.fy, 207_912);
    assert_eq!(t.velocity_x, 72_148_196);
    assert_eq!(t.velocity_y, 15_335_589);
    assert_eq!(t.ax, -19_554);
    assert_eq!(t.ay, -10_693);
    assert_eq!(t.sy, 0);
    assert_eq!(t.t_elapsed, 0);
    assert_eq!(t.direction, 0);
}

#[test]
fn launch_is_not_finished_at_time_zero() {
    // Height zero at launch is not yet "returned": only negative height
    // terminates.
    let t = Travel::new(&100, 0, &Club::driver());
    assert!(!t.finished());
    let half = Travel::new(&50, 17, &Club::driver());
    assert!(!half.finished());
    let putt = Travel::new(&100, 0, &Club::putter());
    assert!(!putt.finished());
}

#[test]
fn first_step_climbs_and_drag_slows_both_components() {
    let mut t = Travel::new(&100, 0, &Club::driver());
    t.tick(100);
    assert!(t.sy > 0);
    assert!(t.velocity_x < 72_148_196);
    assert!(t.velocity_y < 15_335_589);
    assert_eq!(t.sy, 1_480_093_900);
    assert_eq!(t.velocity_x, 70_192_796);
    assert_eq!(t.velocity_y, 14_266_289);
    assert_eq!(t.ax, -17_786);
    assert_eq!(t.ay, -7_017);
    assert_eq!(t.t_elapsed, 100);
}

#[test]
fn flat_putt_returns_to_ground_immediately() {
    // The putter has no loft: with no upward speed, the first step drops
    // the height below zero and the flight is over.
    let mut t = Travel::new(&100, 0, &Club::putter());
    assert_eq!(t.velocity_y, 0);
    assert!(!t.finished());
    t.tick(100);
    assert_eq!(t.sy, -49_050_000);
    assert!(t.finished());
}

#[test]
fn full_driver_flight_lands() {
    let mut t = Travel::new(&100, 0, &Club::driver());
    let mut steps = 0u32;
    while !t.finished() && steps < 1000 {
        t.tick(100);
        steps += 1;
    }
    assert!(t.finished());
    // The climb lasts a few seconds of simulated time.
    assert!(steps > 10);
    assert_eq!(t.t_elapsed, steps as u64 * 100);
}

#[test]
fn tile_distance_of_first_step() {
    let t = Travel::new(&100, 0, &Club::driver());
    // 7_117_049_600 nm of carry in the first tenth of a second is about
    // 0.854 tiles.
    assert_eq!(t.tile_distance(100), 854_046);
    assert_eq!(t.tile_distance(0), 0);
}

#[test]
fn zero_power_goes_nowhere() {
    let t = Travel::new(&0, 0, &Club::driver());
    assert_eq!(t.initial_velocity, 0);
    assert_eq!(t.velocity_x, 0);
    assert_eq!(t.velocity_y, 0);
    assert_eq!(t.tile_distance(100), 0);
}
