//! Ball flight: a drag-and-lift trajectory integrated in fixed point.
//!
//! Units: velocities are micrometers per second, accelerations millimeters
//! per second squared, heights nanometers, times milliseconds, and the
//! launch direction components are micro units of a unit vector. One tick
//! advances height, then velocities, then recomputes accelerations from
//! drag, gravity and spin lift, in that order.
//!
//! The continuous model behind the integers: gravity -9.81 m/s^2; drag
//! deceleration (0.5 * 1.225 * 0.2 * 0.00138 / 0.045) * v^2 = (1127/300000)
//! * v^2, applied per axis and always against the axis (the drag term keeps
//! its sign for falling flight as well); spin lift of magnitude 0.285 * (1
//! - exp(-0.00026 * 3275)) N on a 0.045 kg ball, about 3.630 m/s^2, split
//! along the flight angle. Velocities, accelerations and heights saturate
//! at fixed limits, an explicit policy for flights the representation
//! cannot follow; real trajectories stay far inside them.

use vstd::prelude::*;
use crate::club::{Club, CLUB_SPEED_LIMIT};
use crate::num::{
    div_trunc, div_trunc_spec, clamp_i64, clamp_spec, isqrt, sqrt_floor, lemma_div_le,
};
use crate::trig::{sin_quarter, sin_micro_q, lemma_sin_q_bounds};

verus! {

/// Gravity, in millimeters per second squared.
pub const GRAVITY_MM: i64 = -9810;

/// Spin lift over ball mass, in millimeters per second squared.
pub const LIFT_ACCEL_MM: i64 = 3630;

/// Largest speed component, in micrometers per second (500 m/s).
pub const SPEED_LIMIT: i64 = 500_000_000;

/// Largest acceleration component, in millimeters per second squared.
pub const ACCEL_LIMIT: i64 = 1_000_000;

/// Largest height magnitude, in nanometers (a million kilometers).
pub const HEIGHT_LIMIT: i64 = 1_000_000_000_000_000_000;

/// Longest single integration step, in milliseconds.
pub const TICK_LIMIT_MS: u32 = 60_000;

/// Drag deceleration in millimeters per second squared of a speed given in
/// micrometers per second: `(1127/300000) * v^2` in base units becomes
/// `1127 * (v/1000)^2 / 300000000` here. The square keeps drag pointing
/// against the axis direction of launch whatever the current sign, as the
/// continuous model has it.
pub open spec fn drag_accel_spec(v: int) -> int {
    let vm = div_trunc_spec(v, 1000);
    -((1127 * (vm * vm)) / 300_000_000)
}

/// One tile is 8.33333 meters, so nanometers scale to micro-tiles by
/// 100 / 833333.
pub open spec fn nm_to_micro_tiles(nm: int) -> int {
    div_trunc_spec(nm * 100, 833_333)
}

#[derive(Clone, Copy, Debug, PartialEq, Eq, Structural)]
pub struct Travel {
    /// The committed aim heading, in whole degrees.
    pub direction: i32,
    /// Launch speed, in micrometers per second.
    pub initial_velocity: i64,
    /// Cosine of the loft, in micro units.
    pub fx: i64,
    /// Sine of the loft, in micro units.
    pub fy: i64,
    pub velocity_x: i64,
    pub velocity_y: i64,
    pub ax: i64,
    pub ay: i64,
    /// Height above the ground, in nanometers.
    pub sy: i64,
    /// Lift acceleration magnitude, in millimeters per second squared.
    pub lift_mag: i64,
    /// Flight time so far, in milliseconds.
    pub t_elapsed: u64,
}

impl Travel {
    pub open spec fn wf(self) -> bool {
        &&& -SPEED_LIMIT <= self.velocity_x <= SPEED_LIMIT
        &&& -SPEED_LIMIT <= self.velocity_y <= SPEED_LIMIT
        &&& -ACCEL_LIMIT <= self.ax <= ACCEL_LIMIT
        &&& -ACCEL_LIMIT <= self.ay <= ACCEL_LIMIT
        &&& -HEIGHT_LIMIT <= self.sy <= HEIGHT_LIMIT
        &&& 0 <= self.initial_velocity <= SPEED_LIMIT
        &&& 0 <= self.lift_mag <= 4000
    }

    /// The state a shot launches in: speed scaled by power, split along the
    /// loft angle, with drag and gravity already acting and no height yet.
    pub open spec fn new_spec(power: int, aim_deg: int, club: Club) -> Travel {
        let vi = (power * club.max_initial_velocity) / 100;
        let fx = sin_micro_q(90 - club.loft_deg);
        let fy = sin_micro_q(club.loft_deg as int);
        let vx = (vi * fx) / 1_000_000;
        let vy = (vi * fy) / 1_000_000;
        Travel {
            direction: aim_deg as i32,
            initial_velocity: vi as i64,
            fx: fx as i64,
            fy: fy as i64,
            velocity_x: vx as i64,
            velocity_y: vy as i64,
            ax: drag_accel_spec(vx) as i64,
            ay: (drag_accel_spec(vy) + GRAVITY_MM) as i64,
            sy: 0,
            lift_mag: LIFT_ACCEL_MM,
            t_elapsed: 0,
        }
    }

    /// Flight ends strictly below ground height: a launch at height zero is
    /// not yet finished.
    pub open spec fn finished_spec(self) -> bool {
        self.sy < 0
    }

    /// Horizontal ground displacement of one step, in micro-tiles.
    pub open spec fn tile_distance_spec(self, dt: int) -> int {
        nm_to_micro_tiles(self.velocity_x * dt + div_trunc_spec(self.ax * dt * dt, 2))
    }

    pub open spec fn tick_vx_spec(self, dt: int) -> int {
        clamp_spec(self.velocity_x + self.ax * dt, -SPEED_LIMIT as int, SPEED_LIMIT as int)
    }

    pub open spec fn tick_vy_spec(self, dt: int) -> int {
        clamp_spec(self.velocity_y + self.ay * dt, -SPEED_LIMIT as int, SPEED_LIMIT as int)
    }

    pub open spec fn tick_height_spec(self, dt: int) -> int {
        clamp_spec(
            self.sy + self.velocity_y * dt + div_trunc_spec(self.ay * dt * dt, 2),
            -HEIGHT_LIMIT as int,
            HEIGHT_LIMIT as int,
        )
    }

    pub open spec fn tick_ax_spec(self, dt: int) -> int {
        let vx = self.tick_vx_spec(dt);
        let vy = self.tick_vy_spec(dt);
        clamp_spec(
            drag_accel_spec(vx) + lift_x_spec(self.lift_mag as int, vx, vy),
            -ACCEL_LIMIT as int,
            ACCEL_LIMIT as int,
        )
    }

    pub open spec fn tick_ay_spec(self, dt: int) -> int {
        let vx = self.tick_vx_spec(dt);
        let vy = self.tick_vy_spec(dt);
        clamp_spec(
            drag_accel_spec(vy) + GRAVITY_MM + lift_y_spec(self.lift_mag as int, vx, vy),
            -ACCEL_LIMIT as int,
            ACCEL_LIMIT as int,
        )
    }

    /// The whole state one integration step leaves behind.
    pub open spec fn tick_spec(self, dt: int) -> Travel {
        Travel {
            sy: self.tick_height_spec(dt) as i64,
            velocity_x: self.tick_vx_spec(dt) as i64,
            velocity_y: self.tick_vy_spec(dt) as i64,
            ax: self.tick_ax_spec(dt) as i64,
            ay: self.tick_ay_spec(dt) as i64,
            t_elapsed: if self.t_elapsed + dt <= u64::MAX {
                (self.t_elapsed + dt) as u64
            } else {
                self.t_elapsed
            },
            ..self
        }
    }

    pub fn new(power: &u8, aim_deg: i32, club: &Club) -> (r: Travel)
        requires
            *power <= 100,
            club.wf(),
        ensures
            r == Travel::new_spec(*power as int, aim_deg as int, *club),
            r.wf(),
            r.sy == 0,
            !r.finished_spec(),
    {
        proof {
            assert((*power as int) * club.max_initial_velocity
                <= 100 * (CLUB_SPEED_LIMIT as int)) by (nonlinear_arith)
                requires
                    0 <= *power <= 100,
                    0 <= club.max_initial_velocity <= CLUB_SPEED_LIMIT,
            ;
        }
        let vi = div_trunc((*power as i64) * club.max_initial_velocity, 100);
        proof {
            lemma_div_le(
                (*power as int) * club.max_initial_velocity,
                SPEED_LIMIT as int,
                100,
            );
            lemma_sin_q_bounds(90 - club.loft_deg);
            lemma_sin_q_bounds(club.loft_deg as int);
        }
        let fx = sin_quarter(90 - club.loft_deg);
        let fy = sin_quarter(club.loft_deg);
        proof {
            assert(vi * fx <= (SPEED_LIMIT as int) * 1_000_000 && vi * fx >= 0
                && vi * fy <= (SPEED_LIMIT as int) * 1_000_000 && vi * fy >= 0)
                by (nonlinear_arith)
                requires
                    0 <= vi <= SPEED_LIMIT,
                    0 <= fx <= 1_000_000,
                    0 <= fy <= 1_000_000,
            ;
        }
        let vx = div_trunc(vi * fx, 1_000_000);
        let vy = div_trunc(vi * fy, 1_000_000);
        proof {
            lemma_div_le(vi * fx, SPEED_LIMIT as int, 1_000_000);
            lemma_div_le(vi * fy, SPEED_LIMIT as int, 1_000_000);
        }
        let ax = drag_accel(vx);
        let ay = drag_accel(vy) + GRAVITY_MM;
        Travel {
            direction: aim_deg,
            initial_velocity: vi,
            fx,
            fy,
            velocity_x: vx,
            velocity_y: vy,
            ax,
            ay,
            sy: 0,
            lift_mag: LIFT_ACCEL_MM,
            t_elapsed: 0,
        }
    }

    pub fn finished(&self) -> (r: bool)
        ensures
            r == self.finished_spec(),
    {
        self.sy < 0
    }

    /// How far along the committed heading the ball carries in this step,
    /// in micro-tiles.
    pub fn tile_distance(&self, dt: u32) -> (r: i64)
        requires
            self.wf(),
            dt <= TICK_LIMIT_MS,
        ensures
            r == self.tile_distance_spec(dt as int),
            -crate::ball::MOVE_LIMIT <= r <= crate::ball::MOVE_LIMIT,
    {
        let nm = displacement_nm(self.velocity_x, self.ax, dt);
        let r = div_trunc(nm * 100, 833_333);
        proof {
            if nm >= 0 {
                lemma_div_le(nm * 100, crate::ball::MOVE_LIMIT as int, 833_333);
            } else {
                lemma_div_le(-(nm * 100), crate::ball::MOVE_LIMIT as int, 833_333);
            }
        }
        r
    }

    /// One integration step: height first, then velocities, then the
    /// flight angle's lift split and fresh accelerations.
    pub fn tick(&mut self, dt: u32)
        requires
            old(self).wf(),
            dt <= TICK_LIMIT_MS,
        ensures
            final(self).sy == old(self).tick_height_spec(dt as int),
            final(self).velocity_x == old(self).tick_vx_spec(dt as int),
            final(self).velocity_y == old(self).tick_vy_spec(dt as int),
            final(self).ax == old(self).tick_ax_spec(dt as int),
            final(self).ay == old(self).tick_ay_spec(dt as int),
            final(self).t_elapsed == if old(self).t_elapsed + dt <= u64::MAX {
                old(self).t_elapsed + dt
            } else {
                old(self).t_elapsed as int
            },
            final(self).direction == old(self).direction,
            final(self).initial_velocity == old(self).initial_velocity,
            final(self).fx == old(self).fx,
            final(self).fy == old(self).fy,
            final(self).lift_mag == old(self).lift_mag,
            *final(self) == old(self).tick_spec(dt as int),
            final(self).wf(),
    {
        let disp = displacement_nm(self.velocity_y, self.ay, dt);
        let sy = clamp_i64(self.sy + disp, -HEIGHT_LIMIT, HEIGHT_LIMIT);
        proof {
            lemma_accel_step_bound(self.ax as int, dt as int);
            lemma_accel_step_bound(self.ay as int, dt as int);
        }
        let vx = clamp_i64(self.velocity_x + self.ax * (dt as i64), -SPEED_LIMIT, SPEED_LIMIT);
        let vy = clamp_i64(self.velocity_y + self.ay * (dt as i64), -SPEED_LIMIT, SPEED_LIMIT);
        let (lx, ly) = lift_components(self.lift_mag, vx, vy);
        let ax = clamp_i64(drag_accel(vx) + lx, -ACCEL_LIMIT, ACCEL_LIMIT);
        let ay = clamp_i64(drag_accel(vy) + GRAVITY_MM + ly, -ACCEL_LIMIT, ACCEL_LIMIT);
        self.sy = sy;
        self.velocity_x = vx;
        self.velocity_y = vy;
        self.ax = ax;
        self.ay = ay;
        if self.t_elapsed <= u64::MAX - (dt as u64) {
            self.t_elapsed = self.t_elapsed + (dt as u64);
        }
    }
}

/// The flight speed: the floor square root of the squared velocity
/// components.
pub open spec fn flight_speed_spec(vx: int, vy: int) -> int {
    sqrt_floor(vx * vx + vy * vy)
}

/// Lift along the ground axis: the lift magnitude times the sine of the
/// flight angle. At standstill there is no flight angle and no lift, an
/// explicit policy where the continuous model's `atan(vy/vx)` is undefined.
pub open spec fn lift_x_spec(lift: int, vx: int, vy: int) -> int {
    let h = flight_speed_spec(vx, vy);
    if h == 0 {
        0
    } else {
        div_trunc_spec(lift * (if vx >= 0 { vy } else { -vy }), h)
    }
}

/// Lift along the vertical axis: the lift magnitude times the cosine of
/// the flight angle, never negative.
pub open spec fn lift_y_spec(lift: int, vx: int, vy: int) -> int {
    let h = flight_speed_spec(vx, vy);
    if h == 0 {
        0
    } else {
        div_trunc_spec(lift * (if vx >= 0 { vx } else { -vx }), h)
    }
}

/// Drag deceleration of one velocity component.
fn drag_accel(v: i64) -> (r: i64)
    requires
        -SPEED_LIMIT <= v <= SPEED_LIMIT,
    ensures
        r == drag_accel_spec(v as int),
        -940_000 <= r <= 0,
{
    let vm = div_trunc(v, 1000);
    proof {
        if v >= 0 {
            lemma_div_le(v as int, 500_000, 1000);
        } else {
            lemma_div_le(-v as int, 500_000, 1000);
        }
        assert(0 <= vm * vm <= 250_000_000_000int) by (nonlinear_arith)
            requires
                -500_000 <= vm <= 500_000,
        ;
        lemma_div_le(1127 * (vm as int * vm as int), 940_000, 300_000_000);
    }
    let q = div_trunc(1127 * (vm * vm), 300_000_000);
    -q
}

/// `v * dt + (a * dt * dt) / 2`, the displacement of one step, exactly and
/// within bounds.
fn displacement_nm(v: i64, a: i64, dt: u32) -> (r: i64)
    requires
        -SPEED_LIMIT <= v <= SPEED_LIMIT,
        -ACCEL_LIMIT <= a <= ACCEL_LIMIT,
        dt <= TICK_LIMIT_MS,
    ensures
        r == v * dt + div_trunc_spec(a * dt * dt, 2),
        -2_000_000_000_000_000 <= r <= 2_000_000_000_000_000,
{
    proof {
        assert(-30_000_000_000_000int <= v as int * dt as int <= 30_000_000_000_000int
            && -60_000_000_000int <= a as int * dt as int <= 60_000_000_000int
            && -3_600_000_000_000_000int <= a as int * dt as int * dt as int
            <= 3_600_000_000_000_000int) by (nonlinear_arith)
            requires
                -SPEED_LIMIT <= v <= SPEED_LIMIT,
                -ACCEL_LIMIT <= a <= ACCEL_LIMIT,
                0 <= dt <= TICK_LIMIT_MS,
        ;
    }
    let quad = div_trunc(a * (dt as i64) * (dt as i64), 2);
    proof {
        if a * (dt as i64) * (dt as i64) >= 0 {
            lemma_div_le(a as int * dt as int * dt as int, 1_800_000_000_000_000, 2);
        } else {
            lemma_div_le(-(a as int * dt as int * dt as int), 1_800_000_000_000_000, 2);
        }
    }
    v * (dt as i64) + quad
}

/// The lift acceleration split along the flight angle: sine and cosine of
/// `atan(vy/vx)` become `vy` and `|vx|` over the flight speed.
fn lift_components(lift: i64, vx: i64, vy: i64) -> (r: (i64, i64))
    requires
        0 <= lift <= 4000,
        -SPEED_LIMIT <= vx <= SPEED_LIMIT,
        -SPEED_LIMIT <= vy <= SPEED_LIMIT,
    ensures
        r.0 == lift_x_spec(lift as int, vx as int, vy as int),
        r.1 == lift_y_spec(lift as int, vx as int, vy as int),
        -4000 <= r.0 <= 4000,
        0 <= r.1 <= 4000,
{
    proof {
        assert(0 <= vx as int * vx as int <= 250_000_000_000_000_000int
            && 0 <= vy as int * vy as int <= 250_000_000_000_000_000int)
            by (nonlinear_arith)
            requires
                -SPEED_LIMIT <= vx <= SPEED_LIMIT,
                -SPEED_LIMIT <= vy <= SPEED_LIMIT,
        ;
    }
    let n = (vx * vx + vy * vy) as u64;
    let h = isqrt(n);
    if h == 0 {
        (0, 0)
    } else {
        proof {
            lemma_component_le_speed(vx as int, vy as int, h as int);
            lemma_component_le_speed(vy as int, vx as int, h as int);
            assert(h <= 800_000_000) by (nonlinear_arith)
                requires
                    h as int * h as int <= 500_000_000_000_000_000int,
                    h >= 0,
            ;
            lemma_lift_product(lift as int, vx as int, h as int);
            lemma_lift_product(lift as int, vy as int, h as int);
            lemma_lift_product(lift as int, -(vx as int), h as int);
            lemma_lift_product(lift as int, -(vy as int), h as int);
            assert(4000 * (h as int) <= 3_200_000_000_000int);
        }
        let vys = if vx >= 0 {
            vy
        } else {
            -vy
        };
        let vxa = if vx >= 0 {
            vx
        } else {
            -vx
        };
        let lx = div_trunc(lift * vys, h as i64);
        let ly = div_trunc(lift * vxa, h as i64);
        (lx, ly)
    }
}

/// Each velocity component is bounded by the flight speed.
proof fn lemma_component_le_speed(v: int, w: int, h: int)
    requires
        h >= 0,
        h * h <= v * v + w * w,
        v * v + w * w < (h + 1) * (h + 1),
    ensures
        -h <= v <= h,
{
    if v > h || v < -h {
        assert(0 <= w * w) by (nonlinear_arith);
        assert(v * v >= (h + 1) * (h + 1)) by (nonlinear_arith)
            requires
                h >= 0,
                v > h || v < -h,
        ;
        assert(v * v + w * w >= (h + 1) * (h + 1)) by (nonlinear_arith)
            requires
                v * v >= (h + 1) * (h + 1),
                0 <= w * w,
        ;
    }
}

/// The lift quotient stays within the lift magnitude.
proof fn lemma_lift_product(lift: int, v: int, h: int)
    requires
        0 <= lift <= 4000,
        0 < h,
        -h <= v <= h,
    ensures
        -(4000 * h) <= lift * v <= 4000 * h,
        -4000 <= div_trunc_spec(lift * v, h) <= 4000,
{
    assert(-(4000 * h) <= lift * v <= 4000 * h) by (nonlinear_arith)
        requires
            0 <= lift <= 4000,
            0 < h,
            -h <= v <= h,
    ;
    if lift * v >= 0 {
        lemma_div_le(lift * v, 4000, h);
    } else {
        lemma_div_le(-(lift * v), 4000, h);
    }
}

/// One step changes a velocity component by at most the acceleration limit
/// times the step length.
proof fn lemma_accel_step_bound(a: int, dt: int)
    requires
        -ACCEL_LIMIT <= a <= ACCEL_LIMIT,
        0 <= dt <= TICK_LIMIT_MS,
    ensures
        -60_000_000_000 <= a * dt <= 60_000_000_000,
{
    assert(-60_000_000_000 <= a * dt <= 60_000_000_000) by (nonlinear_arith)
        requires
            -ACCEL_LIMIT <= a <= ACCEL_LIMIT,
            0 <= dt <= TICK_LIMIT_MS,
    ;
}

/// A flight is not finished at launch: the launch height is exactly zero,
/// whatever power, aim and club the shot commits.
pub proof fn lemma_launch_not_finished(power: int, aim_deg: int, club: Club)
    ensures
        Travel::new_spec(power, aim_deg, club).sy == 0,
        !Travel::new_spec(power, aim_deg, club).finished_spec(),
{
}

} // verus!
