//! Plain integer geometry: map points and centered rectangles.

use vstd::prelude::*;
use vstd::arithmetic::div_mod::lemma_fundamental_div_mod_converse;

verus! {

/// A discrete map position in tile units.
#[derive(Clone, Copy, Debug, PartialEq, Eq, Structural)]
pub struct Point {
    pub x: i32,
    pub y: i32,
}

impl Point {
    pub fn new(x: i32, y: i32) -> (r: Point)
        ensures
            r.x == x,
            r.y == y,
    {
        Point { x, y }
    }

    pub fn zero() -> (r: Point)
        ensures
            r.x == 0,
            r.y == 0,
    {
        Point { x: 0, y: 0 }
    }
}

/// Largest center coordinate a rectangle can be built around.
pub const ORIGIN_LIMIT: i32 = 400_000_000;

/// Largest rectangle side length.
pub const SIDE_LIMIT: i32 = 20_000;

/// A rectangle described by its corner coordinates, built around a center
/// point.
#[derive(Clone, Copy, Debug, PartialEq, Eq, Structural)]
pub struct Rectangle {
    pub x0: i32,
    pub x1: i32,
    pub y0: i32,
    pub y1: i32,
}

impl Rectangle {
    pub open spec fn wf(self) -> bool {
        -450_000_000 <= self.x0 <= self.x1 <= 450_000_000 && -450_000_000 <= self.y0 <= self.y1
            <= 450_000_000
    }

    /// The value `new` gives each corner: half a side on each side of the
    /// center, with the halving rounded down.
    pub open spec fn new_spec(origin: Point, width: int, height: int) -> Rectangle {
        Rectangle {
            x0: (origin.x - width / 2) as i32,
            x1: (origin.x + width / 2) as i32,
            y0: (origin.y - height / 2) as i32,
            y1: (origin.y + height / 2) as i32,
        }
    }

    pub fn new(origin: Point, width: i32, height: i32) -> (r: Rectangle)
        requires
            0 <= width <= SIDE_LIMIT,
            0 <= height <= SIDE_LIMIT,
            -ORIGIN_LIMIT <= origin.x <= ORIGIN_LIMIT,
            -ORIGIN_LIMIT <= origin.y <= ORIGIN_LIMIT,
        ensures
            r == Rectangle::new_spec(origin, width as int, height as int),
            r.wf(),
    {
        let half_w = ((width as u32) / 2) as i32;
        let half_h = ((height as u32) / 2) as i32;
        let x0 = origin.x - half_w;
        let x1 = origin.x + half_w;
        let y0 = origin.y - half_h;
        let y1 = origin.y + half_h;
        Rectangle { x0, x1, y0, y1 }
    }

    pub fn width(&self) -> (r: i32)
        requires
            self.wf(),
        ensures
            r == self.x1 - self.x0,
            r >= 0,
    {
        self.x1 - self.x0
    }

    pub fn height(&self) -> (r: i32)
        requires
            self.wf(),
        ensures
            r == self.y1 - self.y0,
            r >= 0,
    {
        self.y1 - self.y0
    }

    /// Number of columns `coordinates` walks: the rectangle's width short of
    /// two, never negative.
    pub open spec fn cols_spec(self) -> int {
        if self.x1 - 2 - self.x0 > 0 {
            self.x1 - 2 - self.x0
        } else {
            0
        }
    }

    pub open spec fn rows_spec(self) -> int {
        if self.y1 - 2 - self.y0 > 0 {
            self.y1 - 2 - self.y0
        } else {
            0
        }
    }

    /// The points `coordinates` lists, in row-major order.
    pub open spec fn coords_ok(self, pts: Seq<Point>) -> bool {
        &&& pts.len() == self.rows_spec() * self.cols_spec()
        &&& forall|k: int|
            0 <= k < pts.len() ==> (#[trigger] pts[k]).x == self.x0 + k % self.cols_spec()
                && pts[k].y == self.y0 + k / self.cols_spec()
    }

    /// Every map point the rectangle covers, walking rows top to bottom and
    /// each row left to right, stopping two short of each far edge.
    pub fn coordinates(&self) -> (r: Vec<Point>)
        requires
            self.wf(),
        ensures
            self.coords_ok(r@),
    {
        let mut v: Vec<Point> = Vec::new();
        if self.x1 - 2 - self.x0 <= 0 || self.y1 - 2 - self.y0 <= 0 {
            proof {
                assert(self.rows_spec() * self.cols_spec() == 0);
            }
            return v;
        }
        let cols = self.x1 - 2 - self.x0;
        let mut y = self.y0;
        while y < self.y1 - 2
            invariant
                self.wf(),
                cols == self.cols_spec(),
                0 < cols,
                self.y0 <= y <= self.y1 - 2,
                v@.len() == (y - self.y0) * cols,
                forall|k: int|
                    0 <= k < v@.len() ==> (#[trigger] v@[k]).x == self.x0 + k % self.cols_spec()
                        && v@[k].y == self.y0 + k / self.cols_spec(),
            decreases self.y1 - 2 - y,
        {
            let mut x = self.x0;
            while x < self.x1 - 2
                invariant
                    self.wf(),
                    cols == self.cols_spec(),
                    0 < cols,
                    self.y0 <= y < self.y1 - 2,
                    self.x0 <= x <= self.x1 - 2,
                    v@.len() == (y - self.y0) * cols + (x - self.x0),
                    forall|k: int|
                        0 <= k < v@.len() ==> (#[trigger] v@[k]).x == self.x0 + k
                            % self.cols_spec() && v@[k].y == self.y0 + k / self.cols_spec(),
                decreases self.x1 - 2 - x,
            {
                proof {
                    lemma_fundamental_div_mod_converse(
                        v@.len() as int,
                        cols as int,
                        (y - self.y0) as int,
                        (x - self.x0) as int,
                    );
                }
                v.push(Point { x, y });
                x = x + 1;
            }
            y = y + 1;
            proof {
                assert(v@.len() == (y - self.y0) * cols) by (nonlinear_arith)
                    requires
                        v@.len() == (y - 1 - self.y0) * cols + cols,
                ;
            }
        }
        proof {
            assert(v@.len() == self.rows_spec() * self.cols_spec());
        }
        v
    }

    /// Translates a map point into coordinates relative to the rectangle's
    /// near corner, offset one inward.
    pub fn relative_point(&self, position: &Point) -> (r: Point)
        requires
            self.wf(),
            -1_000_000_000 <= position.x <= 1_000_000_000,
            -1_000_000_000 <= position.y <= 1_000_000_000,
        ensures
            r.x == position.x - self.x0 + 1,
            r.y == position.y - self.y0 + 1,
    {
        Point { x: position.x - self.x0 + 1, y: position.y - self.y0 + 1 }
    }
}

} // verus!
