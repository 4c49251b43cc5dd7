//! Per-hole progress: the stroke counter, holing out, and the composition
//! of one simulated frame.
//!
//! The hole state lives independently of the turn stage: strokes are
//! counted when a shot cycle completes (the turn stage wraps out of
//! `Finished` into the next shot), and the hole is done the moment any
//! ball's tile is the flag tile, whatever the count says.

use vstd::prelude::*;
use crate::ball::Ball;
use crate::camera::Camera;
use crate::frame_time::FrameTime;
use crate::geometry::Point;
use crate::turn::{Input, TurnStage, turn_handler, turn_stage_step_spec, FRAME_LIMIT_MS};

verus! {

#[derive(Clone, Copy, Debug, PartialEq, Eq, Structural)]
pub enum HoleState {
    TeeOff,
    Stroke(u32),
    Holed,
}

/// What `increment` does: only a stroke count rises; tee-off and a holed
/// hole are left alone.
pub open spec fn increment_spec(state: HoleState) -> HoleState {
    match state {
        HoleState::Stroke(n) => HoleState::Stroke((n + 1) as u32),
        other => other,
    }
}

impl HoleState {
    pub fn new() -> (r: HoleState)
        ensures
            r == HoleState::TeeOff,
    {
        HoleState::TeeOff
    }

    #[allow(non_snake_case)]
    pub fn startHole() -> (r: HoleState)
        ensures
            r == HoleState::Stroke(0),
    {
        HoleState::Stroke(0)
    }

    pub fn finish() -> (r: HoleState)
        ensures
            r == HoleState::Holed,
    {
        HoleState::Holed
    }

    pub fn increment(&mut self)
        requires
            *old(self) matches HoleState::Stroke(n) ==> n < u32::MAX,
        ensures
            *final(self) == increment_spec(*old(self)),
    {
        match self {
            HoleState::Stroke(strokes) => {
                *strokes = *strokes + 1;
            },
            _other => (),
        }
    }
}

/// Whether any ball stands on the flag tile.
pub open spec fn any_ball_at(balls: Seq<Point>, flag: Point) -> bool {
    exists|i: int| 0 <= i < balls.len() && balls[i] == flag
}

/// The hole state one frame leaves: a fresh hole opens its stroke count, a
/// counted hole is holed the moment a ball stands on the flag, and a holed
/// hole stays holed.
pub open spec fn hole_handler_spec(state: HoleState, balls: Seq<Point>, flag: Point) -> HoleState {
    match state {
        HoleState::TeeOff => HoleState::Stroke(0),
        HoleState::Stroke(n) => if any_ball_at(balls, flag) {
            HoleState::Holed
        } else {
            HoleState::Stroke(n)
        },
        HoleState::Holed => HoleState::Holed,
    }
}

/// Re-checks hole completion against the balls' tile positions.
pub fn hole_handler(state: &HoleState, balls: &Vec<Point>, flag: &Point) -> (r: HoleState)
    ensures
        r == hole_handler_spec(*state, balls@, *flag),
{
    let current = *state;
    match current {
        HoleState::TeeOff => HoleState::startHole(),
        HoleState::Stroke(strokes) => {
            let mut i: usize = 0;
            while i < balls.len()
                invariant
                    *state matches HoleState::Stroke(_),
                    i <= balls@.len(),
                    forall|j: int| 0 <= j < i ==> balls@[j] != flag,
                decreases balls@.len() - i,
            {
                if balls[i] == *flag {
                    proof {
                        assert(balls@[i as int] == flag);
                        assert(any_ball_at(balls@, *flag));
                    }
                    return HoleState::Holed;
                }
                i = i + 1;
            }
            HoleState::Stroke(strokes)
        },
        HoleState::Holed => HoleState::Holed,
    }
}

/// The stroke count after the turn-advance phase of a frame: a frame that
/// begins with the stage `Finished` completes a shot cycle, and only such
/// a frame counts a stroke.
pub open spec fn stroke_after_step_spec(stage: TurnStage, state: HoleState) -> HoleState {
    if stage is Finished {
        increment_spec(state)
    } else {
        state
    }
}

/// One simulated frame: the turn stage advances against the input (moving
/// the ball and camera during flight), a completed shot cycle counts one
/// stroke, and hole completion is re-checked at the ball's new tile.
pub fn frame_step(
    stage: &TurnStage,
    hole_state: &HoleState,
    key: Option<Input>,
    dt: &FrameTime,
    ball: &mut Ball,
    camera: &mut Camera,
    flag: &Point,
) -> (r: (TurnStage, HoleState))
    requires
        stage.wf(),
        old(ball).wf(),
        old(camera).wf(),
        dt.t_ms <= FRAME_LIMIT_MS,
        *hole_state matches HoleState::Stroke(n) ==> n < u32::MAX,
    ensures
        r.0 == turn_stage_step_spec(*stage, key, dt.t_ms as int),
        r.0.wf(),
        final(ball).wf(),
        final(camera).wf(),
        r.1 == hole_handler_spec(
            stroke_after_step_spec(*stage, *hole_state),
            seq![
                Point {
                    x: final(ball).tile_x_spec() as i32,
                    y: final(ball).tile_y_spec() as i32,
                },
            ],
            *flag,
        ),
        match *stage {
            TurnStage::Traveling(travel) => {
                let moved = old(ball).mv_spec(
                    travel.direction as int,
                    travel.tile_distance_spec(dt.t_ms as int),
                );
                &&& *final(ball) == moved
                &&& final(camera).aimed_at(
                    Point { x: moved.tile_x_spec() as i32, y: moved.tile_y_spec() as i32 },
                    old(camera).map_x_spec(),
                    old(camera).map_y_spec(),
                    old(camera).display_width_spec(),
                    old(camera).display_height_spec(),
                )
            },
            _ => *final(ball) == *old(ball) && *final(camera) == *old(camera),
        },
{
    let new_stage = turn_handler(stage, key, dt, ball, camera);
    let mut hs = *hole_state;
    if matches!(stage, TurnStage::Finished) {
        hs.increment();
    }
    let mut positions: Vec<Point> = Vec::new();
    positions.push(ball.tile_position());
    let new_hole_state = hole_handler(&hs, &positions, flag);
    proof {
        assert(positions@ =~= seq![
            Point { x: final(ball).tile_x_spec() as i32, y: final(ball).tile_y_spec() as i32 },
        ]);
    }
    (new_stage, new_hole_state)
}

/// A stroke is counted exactly once per completed shot cycle: while the
/// ball is not on the flag, a frame that begins in `Finished` takes
/// `Stroke(n)` to `Stroke(n + 1)`, and a frame in any other stage — every
/// physics tick included — leaves the count untouched.
pub proof fn lemma_stroke_once_per_cycle(stage: TurnStage, n: u32, balls: Seq<Point>, flag: Point)
    requires
        n < u32::MAX,
        !any_ball_at(balls, flag),
    ensures
        stage is Finished ==> hole_handler_spec(
            stroke_after_step_spec(stage, HoleState::Stroke(n)),
            balls,
            flag,
        ) == HoleState::Stroke((n + 1) as u32),
        !(stage is Finished) ==> hole_handler_spec(
            stroke_after_step_spec(stage, HoleState::Stroke(n)),
            balls,
            flag,
        ) == HoleState::Stroke(n),
{
}

/// Holing out wins over counting: with any ball on the flag tile, a hole
/// standing at `Stroke(n)` is `Holed` after the frame, whatever `n` is.
pub proof fn lemma_holing_out(n: u32, balls: Seq<Point>, flag: Point)
    requires
        any_ball_at(balls, flag),
    ensures
        hole_handler_spec(HoleState::Stroke(n), balls, flag) == HoleState::Holed,
{
}

} // verus!
