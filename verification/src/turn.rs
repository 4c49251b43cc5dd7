//! The per-turn state machine: club selection, aiming, the swing minigame,
//! ball flight, and the wrap into the next shot.
//!
//! Each stage carries exactly the data later stages need, so a shot's club
//! and heading cannot change once committed. The per-frame entry point is
//! `turn_handler`: it first advances the active stage's continuous part
//! (aim nudging, the rising power meter, flight integration), then applies
//! the confirm key's stage transition.

use vstd::prelude::*;
use crate::ball::Ball;
use crate::camera::Camera;
use crate::club::{Club, ClubSet, CLUB_COUNT, next_club_spec, previous_club_spec};
use crate::frame_time::FrameTime;
use crate::geometry::Point;
use crate::travel::Travel;

verus! {

/// The discrete input events the core reacts to; the driver maps whatever
/// keys it reads onto these.
#[derive(Clone, Copy, Debug, PartialEq, Eq, Structural)]
pub enum Input {
    Left,
    Right,
    NextClub,
    PreviousClub,
    Confirm,
}

/// Degrees an aim moves per adjustment.
pub const AIM_RATE: i32 = 3;

/// A shot heading in whole degrees, replaced as a value on each adjustment.
#[derive(Clone, Copy, Debug, PartialEq, Eq, Structural)]
pub struct Aim {
    pub degrees: i32,
}

impl Aim {
    /// The heading after one input: left and right nudge it by the aim
    /// rate, saturating at the representable range; anything else keeps it.
    pub open spec fn adjust_spec(self, key: Option<Input>) -> int {
        if key == Some(Input::Left) {
            if self.degrees + AIM_RATE <= i32::MAX {
                self.degrees + AIM_RATE
            } else {
                self.degrees as int
            }
        } else if key == Some(Input::Right) {
            if self.degrees - AIM_RATE >= i32::MIN {
                self.degrees - AIM_RATE
            } else {
                self.degrees as int
            }
        } else {
            self.degrees as int
        }
    }

    pub fn new() -> (r: Aim)
        ensures
            r.degrees == 0,
    {
        Aim { degrees: 0 }
    }

    pub fn of(degrees: i32) -> (r: Aim)
        ensures
            r.degrees == degrees,
    {
        Aim { degrees }
    }

    pub fn adjust(&self, key: Option<Input>) -> (r: Aim)
        ensures
            r.degrees == self.adjust_spec(key),
    {
        let deg = match key {
            Some(Input::Left) => {
                if self.degrees <= i32::MAX - AIM_RATE {
                    self.degrees + AIM_RATE
                } else {
                    self.degrees
                }
            },
            Some(Input::Right) => {
                if self.degrees >= i32::MIN + AIM_RATE {
                    self.degrees - AIM_RATE
                } else {
                    self.degrees
                }
            },
            _ => self.degrees,
        };
        Aim::of(deg)
    }
}

/// The swing minigame: waiting to start, charging power, or holding the
/// committed power with an accuracy deposit. Power lives in `[0, 100]`;
/// the accuracy slot only ever receives its initial deposit (0 on
/// auto-promotion, 1 on an early confirm) and is not advanced further.
#[derive(Clone, Copy, Debug, PartialEq, Eq, Structural)]
pub enum Swing {
    Start,
    Power(u8),
    Accuracy(u8, u8),
}

impl Swing {
    pub open spec fn wf(self) -> bool {
        match self {
            Swing::Start => true,
            Swing::Power(p) => p <= 100,
            Swing::Accuracy(p, a) => p <= 100 && a <= 1,
        }
    }
}

/// What one tick does to a swing: a charging power rises by one and
/// saturates at 100, where it promotes to `Accuracy(100, 0)`; the other
/// sub-stages do not advance by time.
pub open spec fn swing_tick_spec(swing: Swing) -> Option<Swing> {
    match swing {
        Swing::Power(p) => {
            let np: int = if p < 100 {
                p + 1
            } else {
                p as int
            };
            if np >= 100 {
                Some(Swing::Accuracy(np as u8, 0))
            } else {
                Some(Swing::Power(np as u8))
            }
        },
        _ => None,
    }
}

/// Advances the time-driven part of a swing, or `None` where time changes
/// nothing.
pub fn handle_swing(swing: Swing) -> (r: Option<Swing>)
    requires
        swing.wf(),
    ensures
        r == swing_tick_spec(swing),
        r matches Some(s) ==> s.wf(),
{
    match swing {
        Swing::Power(power) => {
            let new_power = if power < 100 {
                power + 1
            } else {
                power
            };
            if new_power >= 100 {
                Some(Swing::Accuracy(new_power, 0))
            } else {
                Some(Swing::Power(new_power))
            }
        },
        _ => None,
    }
}

/// While charging, power never falls, and it saturates exactly at 100: one
/// more tick from 99 or 100 yields `Accuracy(100, _)`, and from below it
/// rises by exactly one.
pub proof fn lemma_power_rises_and_saturates(p: u8)
    requires
        p <= 100,
    ensures
        p <= 98 ==> swing_tick_spec(Swing::Power(p)) == Some(Swing::Power((p + 1) as u8)),
        p >= 99 ==> swing_tick_spec(Swing::Power(p)) == Some(Swing::Accuracy(100, 0)),
        swing_tick_spec(Swing::Power(p)) matches Some(s) ==> match s {
            Swing::Power(q) => q >= p,
            Swing::Accuracy(q, _) => q >= p,
            Swing::Start => false,
        },
{
}

/// The active stage of one turn, each variant carrying what the stage
/// needs.
#[derive(Clone, Copy, Debug, PartialEq)]
pub enum TurnStage {
    ClubSelection(ClubSet, usize),
    Aiming(Aim, Club),
    Swinging(Swing, Aim, Club),
    Traveling(Travel),
    Finished,
}

impl TurnStage {
    pub open spec fn wf(self) -> bool {
        match self {
            TurnStage::ClubSelection(set, i) => set.wf() && i < CLUB_COUNT,
            TurnStage::Aiming(_, club) => club.wf(),
            TurnStage::Swinging(swing, _, club) => swing.wf() && club.wf(),
            TurnStage::Traveling(travel) => travel.wf(),
            TurnStage::Finished => true,
        }
    }

    /// A fresh turn: the default rotation with the first club selected.
    pub open spec fn start_spec() -> TurnStage {
        TurnStage::ClubSelection(ClubSet::default_spec(), 0)
    }

    pub fn start() -> (r: TurnStage)
        ensures
            r == TurnStage::start_spec(),
            r.wf(),
    {
        let set = ClubSet::default();
        TurnStage::ClubSelection(set, 0)
    }

    /// The stage a confirmed stage hands over to. Confirming a swing whose
    /// sub-stage is not yet `Accuracy` changes nothing here; committing an
    /// `Accuracy` swing launches the flight.
    pub open spec fn next_spec(self) -> TurnStage {
        match self {
            TurnStage::ClubSelection(clubs, club) => TurnStage::Aiming(
                Aim { degrees: 0 },
                clubs.at_spec(club as int),
            ),
            TurnStage::Aiming(aim, club) => TurnStage::Swinging(Swing::Start, aim, club),
            TurnStage::Swinging(swing, aim, club) => match swing {
                Swing::Accuracy(pow, _) => TurnStage::Traveling(
                    Travel::new_spec(pow as int, aim.degrees as int, club),
                ),
                _ => TurnStage::Swinging(swing, aim, club),
            },
            TurnStage::Traveling(_) => TurnStage::Finished,
            TurnStage::Finished => TurnStage::start_spec(),
        }
    }

    pub fn next(&self) -> (r: TurnStage)
        requires
            self.wf(),
        ensures
            r == self.next_spec(),
            r.wf(),
    {
        match self {
            TurnStage::ClubSelection(clubs, club) => TurnStage::Aiming(Aim::new(), clubs.at(club)),
            TurnStage::Aiming(aim, club) => TurnStage::start_swing(aim.clone(), club.clone()),
            TurnStage::Swinging(swing, aim, club) => match swing {
                Swing::Accuracy(pow, _acc) => TurnStage::Traveling(
                    Travel::new(pow, aim.degrees, club),
                ),
                _accuracy => TurnStage::Swinging(swing.clone(), aim.clone(), club.clone()),
            },
            TurnStage::Traveling(_) => TurnStage::Finished,
            TurnStage::Finished => TurnStage::start(),
        }
    }

    fn start_swing(aim: Aim, club: Club) -> (r: TurnStage)
        ensures
            r == TurnStage::Swinging(Swing::Start, aim, club),
    {
        TurnStage::Swinging(Swing::Start, aim, club)
    }
}

/// Phase one of a frame: the active stage's time-driven update. Club
/// selection reacts to rotation keys, aiming to nudge keys; a swing's
/// power meter rises; a flight integrates by the frame's elapsed time.
pub open spec fn updated_stage_spec(stage: TurnStage, key: Option<Input>, dt: int) -> TurnStage {
    match stage {
        TurnStage::ClubSelection(clubs, current) => {
            if key == Some(Input::NextClub) {
                TurnStage::ClubSelection(clubs, next_club_spec(current as int) as usize)
            } else if key == Some(Input::PreviousClub) {
                TurnStage::ClubSelection(clubs, previous_club_spec(current as int) as usize)
            } else {
                stage
            }
        },
        TurnStage::Aiming(aim, club) => TurnStage::Aiming(
            Aim { degrees: aim.adjust_spec(key) as i32 },
            club,
        ),
        TurnStage::Swinging(swing, aim, club) => match swing_tick_spec(swing) {
            Some(new_swing) => TurnStage::Swinging(new_swing, aim, club),
            None => TurnStage::Swinging(swing, aim, club),
        },
        TurnStage::Traveling(travel) => TurnStage::Traveling(travel.tick_spec(dt)),
        TurnStage::Finished => TurnStage::Finished,
    }
}

/// Phase two of a frame: the confirm key's transition, applied to the
/// updated stage. A flight that has landed finishes the turn and ignores
/// input; a finished turn wraps into the next shot on any tick; a confirm
/// on a power meter that auto-promoted this very tick falls back to the
/// pre-update stage's transition, so the shot cannot double-transition
/// into flight.
pub open spec fn confirmed_stage_spec(
    orig: TurnStage,
    updated: TurnStage,
    key: Option<Input>,
) -> TurnStage {
    match updated {
        TurnStage::Swinging(swing, aim, club) => {
            if key == Some(Input::Confirm) {
                match swing {
                    Swing::Start => TurnStage::Swinging(Swing::Power(0), aim, club),
                    Swing::Power(pow) => TurnStage::Swinging(Swing::Accuracy(pow, 1), aim, club),
                    Swing::Accuracy(_, _) => orig.next_spec(),
                }
            } else {
                updated
            }
        },
        TurnStage::Traveling(travel) => {
            if travel.finished_spec() {
                orig.next_spec()
            } else {
                updated
            }
        },
        TurnStage::Finished => updated.next_spec(),
        _ => {
            if key == Some(Input::Confirm) {
                updated.next_spec()
            } else {
                updated
            }
        },
    }
}

/// The whole stage transition of one frame.
pub open spec fn turn_stage_step_spec(stage: TurnStage, key: Option<Input>, dt: int) -> TurnStage {
    confirmed_stage_spec(stage, updated_stage_spec(stage, key, dt), key)
}

/// Longest frame time the turn handler accepts, in milliseconds: one
/// integration step at most.
pub const FRAME_LIMIT_MS: u32 = 60_000;

/// One frame of the turn state machine. During flight the ball is carried
/// `tile_distance` along the committed heading and the camera recenters on
/// it; every other stage leaves ball and camera untouched.
pub fn turn_handler(
    stage: &TurnStage,
    key: Option<Input>,
    dt: &FrameTime,
    ball: &mut Ball,
    camera: &mut Camera,
) -> (r: TurnStage)
    requires
        stage.wf(),
        old(ball).wf(),
        old(camera).wf(),
        dt.t_ms <= FRAME_LIMIT_MS,
    ensures
        r == turn_stage_step_spec(*stage, key, dt.t_ms as int),
        r.wf(),
        final(ball).wf(),
        final(camera).wf(),
        match *stage {
            TurnStage::Traveling(travel) => {
                let moved = old(ball).mv_spec(
                    travel.direction as int,
                    travel.tile_distance_spec(dt.t_ms as int),
                );
                &&& *final(ball) == moved
                &&& final(camera).aimed_at(
                    Point { x: moved.tile_x_spec() as i32, y: moved.tile_y_spec() as i32 },
                    old(camera).map_x_spec(),
                    old(camera).map_y_spec(),
                    old(camera).display_width_spec(),
                    old(camera).display_height_spec(),
                )
            },
            _ => *final(ball) == *old(ball) && *final(camera) == *old(camera),
        },
{
    let updated_stage: TurnStage = match stage {
        TurnStage::ClubSelection(clubs, current) => match key {
            Some(Input::NextClub) => TurnStage::ClubSelection(*clubs, clubs.next_club(*current)),
            Some(Input::PreviousClub) => TurnStage::ClubSelection(
                *clubs,
                clubs.previous_club(*current),
            ),
            _ => TurnStage::ClubSelection(*clubs, *current),
        },
        TurnStage::Aiming(aim, club) => {
            let new_aim = aim.adjust(key);
            TurnStage::Aiming(new_aim, *club)
        },
        TurnStage::Swinging(swing, aim, club) => {
            let new_swing = match handle_swing(*swing) {
                Some(s) => s,
                None => *swing,
            };
            TurnStage::Swinging(new_swing, *aim, *club)
        },
        TurnStage::Traveling(travel) => {
            let mut travel = *travel;
            let s = dt.t_ms;
            let dx = travel.tile_distance(s);
            ball.mv(travel.direction, dx);
            camera.update(ball.tile_position());
            travel.tick(s);
            TurnStage::Traveling(travel)
        },
        TurnStage::Finished => TurnStage::Finished,
    };
    match (updated_stage, key) {
        (TurnStage::Swinging(swing, aim, club), Some(Input::Confirm)) => match swing {
            Swing::Start => TurnStage::Swinging(Swing::Power(0), aim, club),
            Swing::Power(pow) => TurnStage::Swinging(Swing::Accuracy(pow, 1), aim, club),
            Swing::Accuracy(_pow, _acc) => stage.next(),
        },
        (TurnStage::Traveling(travel), _) => {
            if travel.finished() {
                stage.next()
            } else {
                TurnStage::Traveling(travel)
            }
        },
        (TurnStage::Finished, _) => TurnStage::Finished.next(),
        (updated, Some(Input::Confirm)) => updated.next(),
        (updated, _) => updated,
    }
}

} // verus!
