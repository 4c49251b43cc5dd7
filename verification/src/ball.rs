//! The ball: a sub-tile position on the map.
//!
//! Positions are carried in micro-tiles (millionths of a tile) so that
//! flight steps shorter than one tile accumulate instead of vanishing; the
//! tile position is the truncation toward zero. Positions are clamped to
//! `POSITION_LIMIT` micro-tiles per axis, so a runaway flight saturates at
//! the edge of the representable map instead of wrapping.

use vstd::prelude::*;
use crate::geometry::Point;
use crate::num::{div_trunc, div_trunc_spec, clamp_i64, clamp_spec, mod_euclid_360, lemma_div_le};
use crate::trig::{sin_full, cos_full, sin_micro_full, cos_micro_full, lemma_sin_cos_bounds};

verus! {

/// Micro-tiles per tile.
pub const MICROS_PER_TILE: i64 = 1_000_000;

/// Largest position magnitude, in micro-tiles (one hundred million tiles).
pub const POSITION_LIMIT: i64 = 100_000_000_000_000;

/// Largest tile coordinate a ball can report.
pub const TILE_LIMIT: i32 = 100_000_000;

/// Largest single movement accepted by `mv`, in micro-tiles.
pub const MOVE_LIMIT: i64 = 1_000_000_000_000;

#[derive(Clone, Copy, Debug, PartialEq, Eq, Structural)]
pub struct Ball {
    /// East-west position in micro-tiles.
    pub x: i64,
    /// North-south position in micro-tiles.
    pub y: i64,
}

/// The heading convention of `mv`: a heading of `deg` degrees is measured
/// from straight up the map, so the direction angle is `deg + 90` degrees,
/// normalized to a full turn.
pub open spec fn heading_angle(deg: int) -> int {
    (deg + 90) % 360
}

/// Horizontal displacement of a move, in micro-tiles, rounded toward zero.
pub open spec fn mv_dx(deg: int, dist: int) -> int {
    div_trunc_spec(cos_micro_full(heading_angle(deg)) * dist, 1_000_000)
}

/// Vertical displacement of a move: the map's y axis grows downward, so a
/// positive heading component moves toward smaller y.
pub open spec fn mv_dy(deg: int, dist: int) -> int {
    -div_trunc_spec(sin_micro_full(heading_angle(deg)) * dist, 1_000_000)
}

impl Ball {
    pub open spec fn wf(self) -> bool {
        -POSITION_LIMIT <= self.x <= POSITION_LIMIT && -POSITION_LIMIT <= self.y
            <= POSITION_LIMIT
    }

    /// The tile the ball is on: truncation toward zero, per axis.
    pub open spec fn tile_x_spec(self) -> int {
        div_trunc_spec(self.x as int, MICROS_PER_TILE as int)
    }

    pub open spec fn tile_y_spec(self) -> int {
        div_trunc_spec(self.y as int, MICROS_PER_TILE as int)
    }

    pub fn new(position: &Point) -> (r: Ball)
        requires
            -TILE_LIMIT <= position.x <= TILE_LIMIT,
            -TILE_LIMIT <= position.y <= TILE_LIMIT,
        ensures
            r.x == position.x * MICROS_PER_TILE,
            r.y == position.y * MICROS_PER_TILE,
            r.wf(),
    {
        Ball { x: (position.x as i64) * MICROS_PER_TILE, y: (position.y as i64) * MICROS_PER_TILE }
    }

    /// Places the ball on the given tile, exactly on its corner.
    pub fn move_to(&mut self, position: &Point)
        requires
            -TILE_LIMIT <= position.x <= TILE_LIMIT,
            -TILE_LIMIT <= position.y <= TILE_LIMIT,
        ensures
            final(self).x == position.x * MICROS_PER_TILE,
            final(self).y == position.y * MICROS_PER_TILE,
            final(self).wf(),
    {
        self.x = (position.x as i64) * MICROS_PER_TILE;
        self.y = (position.y as i64) * MICROS_PER_TILE;
    }

    pub fn tile_position(&self) -> (r: Point)
        requires
            self.wf(),
        ensures
            r.x == self.tile_x_spec(),
            r.y == self.tile_y_spec(),
            -TILE_LIMIT <= r.x <= TILE_LIMIT,
            -TILE_LIMIT <= r.y <= TILE_LIMIT,
    {
        let tx = div_trunc(self.x, MICROS_PER_TILE);
        let ty = div_trunc(self.y, MICROS_PER_TILE);
        proof {
            lemma_tile_in_range(self.x as int);
            lemma_tile_in_range(self.y as int);
        }
        Point { x: tx as i32, y: ty as i32 }
    }

    /// The position after a move: displacement along the heading, clamped
    /// to the representable range per axis.
    pub open spec fn mv_spec(self, deg: int, dist: int) -> Ball {
        Ball {
            x: clamp_spec(
                self.x + mv_dx(deg, dist),
                -POSITION_LIMIT as int,
                POSITION_LIMIT as int,
            ) as i64,
            y: clamp_spec(
                self.y + mv_dy(deg, dist),
                -POSITION_LIMIT as int,
                POSITION_LIMIT as int,
            ) as i64,
        }
    }

    /// Moves the ball `dist` micro-tiles along the heading `deg`, clamping
    /// the result to the representable position range.
    pub fn mv(&mut self, deg: i32, dist: i64)
        requires
            old(self).wf(),
            -MOVE_LIMIT <= dist <= MOVE_LIMIT,
        ensures
            *final(self) == old(self).mv_spec(deg as int, dist as int),
            final(self).x == clamp_spec(
                old(self).x + mv_dx(deg as int, dist as int),
                -POSITION_LIMIT as int,
                POSITION_LIMIT as int,
            ),
            final(self).y == clamp_spec(
                old(self).y + mv_dy(deg as int, dist as int),
                -POSITION_LIMIT as int,
                POSITION_LIMIT as int,
            ),
            final(self).wf(),
    {
        let a = mod_euclid_360(deg as i64 + 90);
        proof {
            lemma_sin_cos_bounds(a as int);
        }
        let c = cos_full(a as u32);
        let s = sin_full(a as u32);
        proof {
            assert(-1_000_000_000_000_000_000 <= c as int * dist as int
                <= 1_000_000_000_000_000_000) by (nonlinear_arith)
                requires -1_000_000 <= c <= 1_000_000, -MOVE_LIMIT <= dist <= MOVE_LIMIT;
            assert(-1_000_000_000_000_000_000 <= s as int * dist as int
                <= 1_000_000_000_000_000_000) by (nonlinear_arith)
                requires -1_000_000 <= s <= 1_000_000, -MOVE_LIMIT <= dist <= MOVE_LIMIT;
        }
        let dx = div_trunc(c * dist, 1_000_000);
        let dy = div_trunc(s * dist, 1_000_000);
        proof {
            lemma_div_magnitude(c as int * dist as int);
            lemma_div_magnitude(s as int * dist as int);
        }
        self.x = clamp_i64(self.x + dx, -POSITION_LIMIT, POSITION_LIMIT);
        self.y = clamp_i64(self.y - dy, -POSITION_LIMIT, POSITION_LIMIT);
    }
}

/// A ball placed on a tile's corner reports exactly that tile: placing and
/// reading back round-trip.
pub proof fn lemma_corner_tile(t: int)
    requires
        -TILE_LIMIT <= t <= TILE_LIMIT,
    ensures
        div_trunc_spec(t * (MICROS_PER_TILE as int), MICROS_PER_TILE as int) == t,
{
    if t >= 0 {
        vstd::arithmetic::div_mod::lemma_div_by_multiple(t, MICROS_PER_TILE as int);
    } else {
        vstd::arithmetic::div_mod::lemma_div_by_multiple(-t, MICROS_PER_TILE as int);
    }
}

/// A clamped position truncates to a tile within `TILE_LIMIT`.
proof fn lemma_tile_in_range(x: int)
    requires
        -POSITION_LIMIT <= x <= POSITION_LIMIT,
    ensures
        -TILE_LIMIT <= div_trunc_spec(x, MICROS_PER_TILE as int) <= TILE_LIMIT,
{
    if x >= 0 {
        lemma_div_le(x, TILE_LIMIT as int, MICROS_PER_TILE as int);
    } else {
        lemma_div_le(-x, TILE_LIMIT as int, MICROS_PER_TILE as int);
    }
}

/// Truncating division by one million keeps a product of bounded factors
/// within the move limit.
proof fn lemma_div_magnitude(p: int)
    requires
        -1_000_000_000_000_000_000 <= p <= 1_000_000_000_000_000_000,
    ensures
        -MOVE_LIMIT <= div_trunc_spec(p, 1_000_000) <= MOVE_LIMIT,
{
    if p >= 0 {
        lemma_div_le(p, MOVE_LIMIT as int, 1_000_000);
    } else {
        lemma_div_le(-p, MOVE_LIMIT as int, 1_000_000);
    }
}

} // verus!
