//! The course: an ordered, forward-only queue of holes, each with its own
//! tile map, and the transition into the next hole when one is holed.
//!
//! Loading a hole's map file is the caller's concern; the course is built
//! by handing in parsed maps one by one. Running out of holes is an
//! explicit terminal outcome, never a crash.

use vstd::prelude::*;
use vstd::pervasive::VecAdditionalExecFns;
use crate::ball::Ball;
use crate::camera::Camera;
use crate::hole::HoleState;
use crate::interface::Window;
use crate::map::TileMap;

verus! {

/// A path a hole's map is read from.
pub struct HoleFile {
    pub path: String,
}

impl HoleFile {
    /// Relies on `str::to_owned`, which vstd specifies: the stored path
    /// holds the same characters.
    pub fn new(path: &str) -> (r: HoleFile)
        ensures
            r.path@ == path@,
    {
        HoleFile { path: path.to_owned() }
    }
}

/// One hole of the course: its number and its map.
pub struct Hole {
    pub number: u32,
    pub map: TileMap,
}

/// The ordered queue of holes, consumed front to back and never
/// replenished.
pub struct Course {
    /// How many holes have been taken so far.
    pub current: usize,
    /// Where the standard maps are read from.
    pub hole_paths: Vec<HoleFile>,
    /// The holes still to be played, front first.
    pub holes: Vec<Hole>,
}

impl Course {
    /// Every queued hole has a full map with its tee and flag on it.
    pub open spec fn wf(self) -> bool {
        forall|i: int| 0 <= i < self.holes@.len() ==> (#[trigger] self.holes@[i]).map.wf()
    }

    /// The standard course: the two stock map files, with no hole loaded
    /// yet; the caller reads each path and queues the parsed map with
    /// `add_hole`.
    pub fn default() -> (r: Course)
        ensures
            r.current == 0,
            r.holes@.len() == 0,
            r.hole_paths@.len() == 2,
            r.hole_paths@[0].path@ == "src/map1.txt"@,
            r.hole_paths@[1].path@ == "src/map2.txt"@,
            r.wf(),
    {
        let mut hole_paths: Vec<HoleFile> = Vec::new();
        hole_paths.push(HoleFile::new("src/map1.txt"));
        hole_paths.push(HoleFile::new("src/map2.txt"));
        Course { current: 0, hole_paths, holes: Vec::new() }
    }

    /// Queues a parsed map as the next hole, numbered one past the queue's
    /// end.
    pub fn add_hole(&mut self, map: TileMap)
        requires
            old(self).wf(),
            map.wf(),
            old(self).holes@.len() < u32::MAX,
        ensures
            final(self).holes@.len() == old(self).holes@.len() + 1,
            final(self).holes@.last().number == old(self).holes@.len() + 1,
            final(self).holes@.last().map == map,
            forall|i: int|
                0 <= i < old(self).holes@.len() ==> final(self).holes@[i] == old(self).holes@[i],
            final(self).current == old(self).current,
            final(self).hole_paths@ == old(self).hole_paths@,
            final(self).wf(),
    {
        let number = (self.holes.len() + 1) as u32;
        self.holes.push(Hole { number, map });
    }

    /// Takes the next hole off the front of the queue, or reports the
    /// course finished.
    pub fn next(&mut self) -> (r: Option<Hole>)
        requires
            old(self).wf(),
        ensures
            old(self).holes@.len() == 0 ==> r is None && *final(self) == *old(self),
            old(self).holes@.len() > 0 ==> {
                &&& r == Some(old(self).holes@[0])
                &&& final(self).holes@ == old(self).holes@.subrange(
                    1,
                    old(self).holes@.len() as int,
                )
                &&& final(self).current == if old(self).current < usize::MAX {
                    old(self).current + 1
                } else {
                    old(self).current as int
                }
                &&& final(self).hole_paths@ == old(self).hole_paths@
            },
            final(self).wf(),
            r matches Some(h) ==> h.map.wf(),
    {
        if self.holes.len() == 0 {
            None
        } else {
            let h = self.holes.remove(0);
            if self.current < usize::MAX {
                self.current = self.current + 1;
            }
            Some(h)
        }
    }
}

/// What becomes of a holed hole: play stays on the hole, moves to the next
/// one, or the course is complete.
pub enum HoleTransition {
    /// The hole is still being played; the state is carried unchanged.
    Stay(HoleState),
    /// The next hole, the camera built for its map, and the fresh hole
    /// state play resumes in.
    Advanced(Hole, Camera, HoleState),
    /// No holes are left: the explicit end of the course.
    CourseComplete,
}

/// The viewport dimensions carved out of the window for the map view.
pub open spec fn viewport_w_spec(window: Window) -> int {
    window.width - 15
}

pub open spec fn viewport_h_spec(window: Window) -> int {
    window.height - 10
}

/// Reacts to a holed hole: every ball is relocated to the next hole's tee,
/// a camera is rebuilt for that hole's map, and play restarts at tee-off;
/// with no hole left the course is complete. Any other hole state passes
/// through unchanged.
pub fn hole_transition(
    hole_state: &HoleState,
    course: &mut Course,
    balls: &mut Vec<Ball>,
    window: &Window,
) -> (r: HoleTransition)
    requires
        old(course).wf(),
        window.width > 15,
        window.height > 10,
    ensures
        !(*hole_state is Holed) ==> {
            &&& r matches HoleTransition::Stay(s) && s == *hole_state
            &&& *final(course) == *old(course)
            &&& final(balls)@ == old(balls)@
        },
        *hole_state is Holed && old(course).holes@.len() == 0 ==> {
            &&& r is CourseComplete
            &&& *final(course) == *old(course)
            &&& final(balls)@ == old(balls)@
        },
        *hole_state is Holed && old(course).holes@.len() > 0 ==> {
            let hole = old(course).holes@[0];
            &&& r matches HoleTransition::Advanced(h, cam, s) && {
                &&& h == hole
                &&& s == HoleState::TeeOff
                &&& cam.wf()
                &&& cam.aimed_at(
                    hole.map.tee,
                    hole.map.width as int,
                    hole.map.height as int,
                    viewport_w_spec(*window),
                    viewport_h_spec(*window),
                )
            }
            &&& final(balls)@.len() == old(balls)@.len()
            &&& forall|i: int|
                0 <= i < old(balls)@.len() ==> (#[trigger] final(balls)@[i]).x == hole.map.tee.x
                    * crate::ball::MICROS_PER_TILE && final(balls)@[i].y == hole.map.tee.y
                    * crate::ball::MICROS_PER_TILE
            &&& forall|i: int|
                0 <= i < old(balls)@.len() ==> (#[trigger] final(balls)@[i]).tile_x_spec()
                    == hole.map.tee.x && final(balls)@[i].tile_y_spec() == hole.map.tee.y
            &&& final(course).holes@ == old(course).holes@.subrange(
                1,
                old(course).holes@.len() as int,
            )
        },
        final(course).wf(),
{
    match hole_state {
        HoleState::Holed => {
            match course.next() {
                Some(next_hole) => {
                    let tee = next_hole.map.tee;
                    let mut i: usize = 0;
                    while i < balls.len()
                        invariant
                            -crate::ball::TILE_LIMIT <= tee.x <= crate::ball::TILE_LIMIT,
                            -crate::ball::TILE_LIMIT <= tee.y <= crate::ball::TILE_LIMIT,
                            i <= balls@.len(),
                            balls@.len() == old(balls)@.len(),
                            forall|j: int|
                                0 <= j < i ==> (#[trigger] balls@[j]).x == tee.x
                                    * crate::ball::MICROS_PER_TILE && balls@[j].y == tee.y
                                    * crate::ball::MICROS_PER_TILE,
                            forall|j: int| i <= j < balls@.len() ==> balls@[j] == old(balls)@[j],
                        decreases balls@.len() - i,
                    {
                        let mut b = balls[i];
                        b.move_to(&tee);
                        balls.set(i, b);
                        i = i + 1;
                    }
                    proof {
                        crate::ball::lemma_corner_tile(tee.x as int);
                        crate::ball::lemma_corner_tile(tee.y as int);
                    }
                    let cam = Camera::new(
                        tee,
                        next_hole.map.width as i32,
                        next_hole.map.height as i32,
                        window.width as i32 - 15,
                        window.height as i32 - 10,
                    );
                    HoleTransition::Advanced(next_hole, cam, HoleState::TeeOff)
                },
                None => HoleTransition::CourseComplete,
            }
        },
        state => HoleTransition::Stay(*state),
    }
}

} // verus!
