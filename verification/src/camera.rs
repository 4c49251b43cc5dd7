//! A scrolling viewport kept centered on the ball.
//!
//! Per axis the window is centered on the tracked position, except near the
//! map edges: within half a viewport of the far edge the window is pushed
//! back against that edge, and within half a viewport of the near edge it is
//! held at half a viewport. When the map is smaller than the viewport the
//! far-edge rule wins and the window may cover tiles outside the map.

use vstd::prelude::*;
use crate::geometry::{Point, Rectangle};

verus! {

/// Largest map dimension a camera accepts.
pub const MAP_LIMIT: i32 = 1_000_000;

/// Largest viewport dimension a camera accepts.
pub const DISPLAY_LIMIT: i32 = 20_000;

/// Largest tracked position magnitude a camera accepts.
pub const TRACK_LIMIT: i32 = 200_000_000;

/// Where the window is centered on one axis: pushed back from the far edge,
/// held off the near edge, or exactly on the tracked position.
pub open spec fn camera_axis(pos: int, map: int, disp: int) -> int {
    if map - pos < disp / 2 {
        pos - (disp / 2 - (map - pos))
    } else if pos < disp / 2 {
        disp / 2
    } else {
        pos
    }
}

pub struct Camera {
    pub rect: Rectangle,
    pub map_x: i32,
    pub map_y: i32,
    pub display_width: i32,
    pub display_height: i32,
    /// Every map point the viewport covers, for the rendering layer.
    pub map_coords: Vec<Point>,
}

impl Camera {
    pub open spec fn wf(self) -> bool {
        &&& 0 < self.display_width <= DISPLAY_LIMIT
        &&& 0 < self.display_height <= DISPLAY_LIMIT
        &&& 0 <= self.map_x <= MAP_LIMIT
        &&& 0 <= self.map_y <= MAP_LIMIT
        &&& self.rect.wf()
    }

    pub open spec fn rect_spec(self) -> Rectangle {
        self.rect
    }

    pub open spec fn map_x_spec(self) -> int {
        self.map_x as int
    }

    pub open spec fn map_y_spec(self) -> int {
        self.map_y as int
    }

    pub open spec fn display_width_spec(self) -> int {
        self.display_width as int
    }

    pub open spec fn display_height_spec(self) -> int {
        self.display_height as int
    }

    /// The window a camera with these bounds shows around `position`.
    pub open spec fn window_spec(position: Point, map_x: int, map_y: int, disp_w: int, disp_h: int) -> Rectangle {
        Rectangle::new_spec(
            Point {
                x: camera_axis(position.x as int, map_x, disp_w) as i32,
                y: camera_axis(position.y as int, map_y, disp_h) as i32,
            },
            disp_w,
            disp_h,
        )
    }

    /// What holds of a camera freshly pointed at `position`.
    pub open spec fn aimed_at(self, position: Point, map_x: int, map_y: int, disp_w: int, disp_h: int) -> bool {
        &&& self.map_x == map_x
        &&& self.map_y == map_y
        &&& self.display_width == disp_w
        &&& self.display_height == disp_h
        &&& self.rect == Camera::window_spec(position, map_x, map_y, disp_w, disp_h)
        &&& self.rect.coords_ok(self.map_coords@)
    }

    pub fn new(position: Point, map_x: i32, map_y: i32, display_width: i32, display_height: i32) -> (r: Camera)
        requires
            0 < display_width <= DISPLAY_LIMIT,
            0 < display_height <= DISPLAY_LIMIT,
            0 <= map_x <= MAP_LIMIT,
            0 <= map_y <= MAP_LIMIT,
            -TRACK_LIMIT <= position.x <= TRACK_LIMIT,
            -TRACK_LIMIT <= position.y <= TRACK_LIMIT,
        ensures
            r.aimed_at(position, map_x as int, map_y as int, display_width as int, display_height as int),
            r.wf(),
    {
        let x = axis_position(position.x, map_x, display_width);
        let y = axis_position(position.y, map_y, display_height);
        let rect = Rectangle::new(Point::new(x, y), display_width, display_height);
        let map_coords: Vec<Point> = rect.coordinates();
        Camera { display_width, display_height, rect, map_x, map_y, map_coords }
    }

    pub fn width(&self) -> (r: i32)
        requires
            self.wf(),
        ensures
            r == self.rect_spec().x1 - self.rect_spec().x0,
            r >= 0,
    {
        self.rect.width()
    }

    pub fn height(&self) -> (r: i32)
        requires
            self.wf(),
        ensures
            r == self.rect_spec().y1 - self.rect_spec().y0,
            r >= 0,
    {
        self.rect.height()
    }

    /// Recenters the window on a new tracked position; the map and viewport
    /// bounds are kept.
    pub fn update(&mut self, position: Point)
        requires
            old(self).wf(),
            -TRACK_LIMIT <= position.x <= TRACK_LIMIT,
            -TRACK_LIMIT <= position.y <= TRACK_LIMIT,
        ensures
            final(self).aimed_at(
                position,
                old(self).map_x_spec(),
                old(self).map_y_spec(),
                old(self).display_width_spec(),
                old(self).display_height_spec(),
            ),
            final(self).wf(),
    {
        let x = axis_position(position.x, self.map_x, self.display_width);
        let y = axis_position(position.y, self.map_y, self.display_height);
        let rect = Rectangle::new(Point::new(x, y), self.display_width, self.display_height);
        let map_coords: Vec<Point> = rect.coordinates();
        self.rect = rect;
        self.map_coords = map_coords;
    }

    /// Translates a map point to viewport-relative coordinates.
    pub fn render_coordinate(&self, position: &Point) -> (r: Point)
        requires
            self.wf(),
            -1_000_000_000 <= position.x <= 1_000_000_000,
            -1_000_000_000 <= position.y <= 1_000_000_000,
        ensures
            r.x == position.x - self.rect_spec().x0 + 1,
            r.y == position.y - self.rect_spec().y0 + 1,
    {
        self.rect.relative_point(position)
    }
}

/// One axis of the centering rule.
fn axis_position(pos: i32, map: i32, disp: i32) -> (r: i32)
    requires
        0 < disp <= DISPLAY_LIMIT,
        0 <= map <= MAP_LIMIT,
        -TRACK_LIMIT <= pos <= TRACK_LIMIT,
    ensures
        r == camera_axis(pos as int, map as int, disp as int),
        -400_000_000 <= r <= 400_000_000,
{
    let half = ((disp as u32) / 2) as i32;
    if map - pos < half {
        let d = half - (map - pos);
        pos - d
    } else if pos < half {
        half
    } else {
        pos
    }
}

/// The centering rule, on an axis where the viewport fits in the map.
///
/// With the tracked position at the exact center of the map the window is
/// exactly `[center - disp / 2, center + disp / 2]`, and with the tracked
/// position at the origin it is held to `[0, 2 * (disp / 2)]`, never
/// negative.
pub proof fn lemma_camera_centering(pos: int, map: int, disp: int)
    requires
        0 < disp <= map,
    ensures
        pos == map / 2 ==> camera_axis(pos, map, disp) == pos,
        pos == 0 ==> camera_axis(pos, map, disp) == disp / 2,
{
    if pos == map / 2 {
        assert(map - pos >= disp / 2);
        assert(pos >= disp / 2);
    }
}

/// A ball at the exact center of a map no smaller than the viewport gets a
/// window of exactly half a viewport on each side of it, on both axes.
pub proof fn lemma_window_centered_ball(position: Point, map_x: int, map_y: int, disp_w: int, disp_h: int)
    requires
        0 < disp_w <= map_x <= MAP_LIMIT,
        0 < disp_h <= map_y <= MAP_LIMIT,
        position.x == map_x / 2,
        position.y == map_y / 2,
    ensures
        Camera::window_spec(position, map_x, map_y, disp_w, disp_h) == (Rectangle {
            x0: (position.x - disp_w / 2) as i32,
            x1: (position.x + disp_w / 2) as i32,
            y0: (position.y - disp_h / 2) as i32,
            y1: (position.y + disp_h / 2) as i32,
        }),
{
    lemma_camera_centering(position.x as int, map_x, disp_w);
    lemma_camera_centering(position.y as int, map_y, disp_h);
}

/// A ball on the origin tile of a map no smaller than the viewport gets a
/// window clamped to the near edges: `[0, 2 * (disp / 2)]` per axis, never
/// negative.
pub proof fn lemma_window_origin_ball(position: Point, map_x: int, map_y: int, disp_w: int, disp_h: int)
    requires
        0 < disp_w <= map_x <= MAP_LIMIT,
        0 < disp_h <= map_y <= MAP_LIMIT,
        position.x == 0,
        position.y == 0,
    ensures
        Camera::window_spec(position, map_x, map_y, disp_w, disp_h) == (Rectangle {
            x0: 0,
            x1: (2 * (disp_w / 2)) as i32,
            y0: 0,
            y1: (2 * (disp_h / 2)) as i32,
        }),
{
    lemma_camera_centering(position.x as int, map_x, disp_w);
    lemma_camera_centering(position.y as int, map_y, disp_h);
}

} // verus!
