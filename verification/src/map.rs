//! The tile map of one hole: a rectangular grid of tiles with one tee and
//! one flag.
//!
//! Building a map from rows of characters is pure grid logic and lives
//! here; reading the rows from a file is the caller's concern. A grid is
//! accepted exactly when it is non-empty, at most 255 tiles on each side,
//! and holds exactly one tee and exactly one flag; rows shorter than the
//! first row are padded with rough, longer rows are clipped.

use vstd::prelude::*;
use vstd::arithmetic::div_mod::{lemma_fundamental_div_mod, lemma_fundamental_div_mod_converse};
use crate::geometry::Point;
use crate::tile::{MapTile, tile_of_char};
use crate::num::{div_trunc_any, div_trunc_any_spec, clamp_i64, clamp_spec};

verus! {

/// The tile in column `x` of one row: rough past the row's end.
pub open spec fn row_tile(row: Seq<char>, x: int) -> MapTile {
    if 0 <= x < row.len() {
        tile_of_char(row[x])
    } else {
        MapTile::Rough
    }
}

/// The tile at flat index `k` of the grid described by `rows`, read
/// row-major at the given width.
pub open spec fn grid_tile(rows: Seq<Vec<char>>, width: int, k: int) -> MapTile {
    row_tile(rows[k / width]@, k % width)
}

/// The grid flattened to one row-major sequence of tiles.
pub open spec fn grid_seq(rows: Seq<Vec<char>>) -> Seq<MapTile> {
    Seq::new(
        (rows.len() * rows[0]@.len()) as nat,
        |k: int| grid_tile(rows, rows[0]@.len() as int, k),
    )
}

/// Whether a sequence holds tile kind `t` exactly once.
pub open spec fn seq_has_unique(s: Seq<MapTile>, t: MapTile) -> bool {
    exists|k: int|
        0 <= k < s.len() && s[k] == t && (forall|j: int|
            0 <= j < s.len() && j != k ==> s[j] != t)
}

/// Whether the grid holds tile kind `t` exactly once.
pub open spec fn grid_has_unique(rows: Seq<Vec<char>>, t: MapTile) -> bool {
    seq_has_unique(grid_seq(rows), t)
}

/// The grids `TileMap::from_rows` accepts.
pub open spec fn parseable(rows: Seq<Vec<char>>) -> bool {
    &&& 0 < rows.len() <= 255
    &&& 0 < rows[0]@.len() <= 255
    &&& grid_has_unique(rows, MapTile::Tee)
    &&& grid_has_unique(rows, MapTile::Flag)
}

#[derive(Debug, Clone)]
pub struct TileMap {
    pub width: u8,
    pub height: u8,
    pub points: Vec<MapTile>,
    pub tee: Point,
    pub flag: Point,
}

impl TileMap {
    /// A map whose tile grid is fully present, with tee and flag on it.
    pub open spec fn wf(self) -> bool {
        &&& self.points@.len() == self.width as int * self.height as int
        &&& self.in_bounds_spec(self.tee)
        &&& self.in_bounds_spec(self.flag)
    }

    pub open spec fn in_bounds_spec(self, point: Point) -> bool {
        0 <= point.x < self.width && 0 <= point.y < self.height
    }

    pub open spec fn tile_at_spec(self, x: int, y: int) -> MapTile {
        self.points@[y * self.width + x]
    }

    /// An empty map shell with no tiles; a playable map comes from
    /// `from_rows`.
    pub fn new(width: u8, height: u8) -> (r: TileMap)
        ensures
            r.width == width,
            r.height == height,
            r.points@.len() == 0,
            r.tee == (Point { x: 0, y: 0 }),
            r.flag == (Point { x: 0, y: 0 }),
    {
        TileMap {
            width,
            height,
            points: Vec::<MapTile>::new(),
            tee: Point::zero(),
            flag: Point::zero(),
        }
    }

    /// Builds the map a grid of characters describes, or `None` exactly
    /// when the grid is empty, oversized, or does not hold exactly one tee
    /// and one flag.
    pub fn from_rows(rows: &Vec<Vec<char>>) -> (r: Option<TileMap>)
        ensures
            r is Some <==> parseable(rows@),
            r matches Some(m) ==> {
                &&& m.wf()
                &&& m.width as int == rows@[0]@.len()
                &&& m.height as int == rows@.len()
                &&& m.points@ == grid_seq(rows@)
                &&& m.tile_at_spec(m.tee.x as int, m.tee.y as int) == MapTile::Tee
                &&& m.tile_at_spec(m.flag.x as int, m.flag.y as int) == MapTile::Flag
            },
    {
        let height = rows.len();
        if height == 0 || height > 255 {
            return None;
        }
        let width = rows[0].len();
        if width == 0 || width > 255 {
            return None;
        }
        let tiles = build_tiles(rows, width, height);
        let tee_k = find_unique(&tiles, MapTile::Tee);
        let flag_k = find_unique(&tiles, MapTile::Flag);
        let (ti, fi) = match (tee_k, flag_k) {
            (Some(ti), Some(fi)) => (ti, fi),
            _ => {
                return None;
            },
        };
        proof {
            assert(ti < rows@.len() * (width as int));
            assert(fi < rows@.len() * (width as int));
            lemma_fundamental_div_mod(ti as int, width as int);
            lemma_fundamental_div_mod(fi as int, width as int);
            assert((ti as int) / (width as int) < rows@.len() as int) by (nonlinear_arith)
                requires
                    0 < width,
                    ti < rows@.len() * (width as int),
            ;
            assert((fi as int) / (width as int) < rows@.len() as int) by (nonlinear_arith)
                requires
                    0 < width,
                    fi < rows@.len() * (width as int),
            ;
        }
        let tee = Point { x: (ti % width) as i32, y: (ti / width) as i32 };
        let flag = Point { x: (fi % width) as i32, y: (fi / width) as i32 };
        let m = TileMap { width: width as u8, height: height as u8, points: tiles, tee, flag };
        proof {
            let wi = width as int;
            let tq = ti as int / wi;
            assert(ti as int == wi * tq + ti as int % wi);
            assert(tq * wi == wi * tq) by (nonlinear_arith);
            assert(m.tee.y * m.width as int + m.tee.x == ti);
            let fq = fi as int / wi;
            assert(fi as int == wi * fq + fi as int % wi);
            assert(fq * wi == wi * fq) by (nonlinear_arith);
            assert(m.flag.y * m.width as int + m.flag.x == fi);
            assert(rows@.len() * wi == wi * rows@.len()) by (nonlinear_arith);
        }
        Some(m)
    }

    pub fn in_bounds(&self, point: &Point) -> (r: bool)
        ensures
            r == self.in_bounds_spec(*point),
    {
        point.x >= 0 && point.x < self.width as i32 && point.y >= 0 && point.y < self.height as i32
    }

    pub fn tile_at(&self, point: &Point) -> (r: MapTile)
        requires
            self.wf(),
            self.in_bounds_spec(*point),
        ensures
            r == self.tile_at_spec(point.x as int, point.y as int),
    {
        proof {
            lemma_flat_index_in_grid(
                point.x as int,
                point.y as int,
                self.width as int,
                self.height as int,
            );
        }
        let n = (point.y as usize) * (self.width as usize) + (point.x as usize);
        self.points[n]
    }

    pub fn tile_at_xy(&self, x: u8, y: u8) -> (r: MapTile)
        requires
            self.wf(),
            x < self.width,
            y < self.height,
        ensures
            r == self.tile_at_spec(x as int, y as int),
    {
        proof {
            lemma_flat_index_in_grid(x as int, y as int, self.width as int, self.height as int);
        }
        let n = (y as usize) * (self.width as usize) + (x as usize);
        self.points[n]
    }

    pub fn bg(&self, position: &Point) -> (r: (u8, u8, u8))
        requires
            self.wf(),
            self.in_bounds_spec(*position),
        ensures
            r == self.tile_at_spec(position.x as int, position.y as int).bg_spec(),
    {
        self.tile_at(position).bg()
    }

    /// Where the segment from `p1` out to an off-map point `p2` crosses the
    /// map edge, by similar triangles in truncating integer arithmetic, the
    /// free coordinate saturating at the `i32` range. A degenerate slope (a
    /// zero run or rise, where a quotient would be undefined) falls back to
    /// `p1`'s coordinate on the free axis.
    pub open spec fn intersection_spec(self, p1: Point, p2: Point) -> Point {
        let ye: Option<int> = if p2.y > self.height {
            Some(self.height as int)
        } else if p2.y < 0 {
            Some(0)
        } else {
            None
        };
        let xe: Option<int> = if p2.x > self.width {
            Some(self.width as int)
        } else if p2.x < 0 {
            Some(0)
        } else {
            None
        };
        match (xe, ye) {
            (Some(x), Some(y)) => Point { x: x as i32, y: y as i32 },
            (Some(x), None) => {
                if p2.x == p1.x {
                    Point { x: x as i32, y: p1.y }
                } else {
                    Point {
                        x: x as i32,
                        y: clamp_spec(
                            p1.y + div_trunc_any_spec((x - p1.x) * (p2.y - p1.y), p2.x - p1.x),
                            i32::MIN as int,
                            i32::MAX as int,
                        ) as i32,
                    }
                }
            },
            (None, Some(y)) => {
                if p2.x == p1.x || p2.y == p1.y {
                    Point { x: p1.x, y: y as i32 }
                } else {
                    Point {
                        x: clamp_spec(
                            p1.x + div_trunc_any_spec((y - p1.y) * (p2.x - p1.x), p2.y - p1.y),
                            i32::MIN as int,
                            i32::MAX as int,
                        ) as i32,
                        y: y as i32,
                    }
                }
            },
            (None, None) => Point { x: 0, y: 0 },
        }
    }

    pub fn intersection(&self, p1: Point, p2: Point) -> (r: Point)
        requires
            -200_000_000 <= p1.x <= 200_000_000,
            -200_000_000 <= p1.y <= 200_000_000,
            -200_000_000 <= p2.x <= 200_000_000,
            -200_000_000 <= p2.y <= 200_000_000,
        ensures
            r == self.intersection_spec(p1, p2),
    {
        let ye: Option<i32> = if p2.y > self.height as i32 {
            Some(self.height as i32)
        } else if p2.y < 0 {
            Some(0)
        } else {
            None
        };
        let xe: Option<i32> = if p2.x > self.width as i32 {
            Some(self.width as i32)
        } else if p2.x < 0 {
            Some(0)
        } else {
            None
        };
        match (xe, ye) {
            (Some(x), Some(y)) => Point { x, y },
            (Some(x), None) => {
                if p2.x == p1.x {
                    Point { x, y: p1.y }
                } else {
                    proof {
                        lemma_run_rise_product(x as int - p1.x as int, p2.y as int - p1.y as int);
                    }
                    let num = (x as i64 - p1.x as i64) * (p2.y as i64 - p1.y as i64);
                    let q = div_trunc_any(num, p2.x as i64 - p1.x as i64);
                    proof {
                        lemma_slope_quotient_bound(num as int, p2.x as int - p1.x as int);
                    }
                    let yc = clamp_i64(p1.y as i64 + q, i32::MIN as i64, i32::MAX as i64);
                    Point { x, y: yc as i32 }
                }
            },
            (None, Some(y)) => {
                if p2.x == p1.x || p2.y == p1.y {
                    Point { x: p1.x, y }
                } else {
                    proof {
                        lemma_run_rise_product(y as int - p1.y as int, p2.x as int - p1.x as int);
                    }
                    let num = (y as i64 - p1.y as i64) * (p2.x as i64 - p1.x as i64);
                    let q = div_trunc_any(num, p2.y as i64 - p1.y as i64);
                    proof {
                        lemma_slope_quotient_bound(num as int, p2.y as int - p1.y as int);
                    }
                    let xc = clamp_i64(p1.x as i64 + q, i32::MIN as i64, i32::MAX as i64);
                    Point { x: xc as i32, y }
                }
            },
            (None, None) => Point { x: 0, y: 0 },
        }
    }
}

/// Flattens the character grid into a row-major tile vector, padding and
/// clipping rows to the width of the first.
fn build_tiles(rows: &Vec<Vec<char>>, width: usize, height: usize) -> (tiles: Vec<MapTile>)
    requires
        0 < height <= 255,
        0 < width <= 255,
        height == rows@.len(),
        width == rows@[0]@.len(),
    ensures
        tiles@ == grid_seq(rows@),
{
    let mut tiles: Vec<MapTile> = Vec::new();
    let mut y: usize = 0;
    while y < height
        invariant
            0 < width <= 255,
            0 < height <= 255,
            height == rows@.len(),
            width == rows@[0]@.len(),
            y <= height,
            tiles@.len() == y * width,
            forall|k: int|
                0 <= k < tiles@.len() ==> tiles@[k] == grid_tile(rows@, width as int, k),
        decreases height - y,
    {
        let row = &rows[y];
        let row_len = row.len();
        let mut x: usize = 0;
        while x < width
            invariant
                0 < width <= 255,
                0 < height <= 255,
                height == rows@.len(),
                width == rows@[0]@.len(),
                y < height,
                x <= width,
                row_len == rows@[y as int]@.len(),
                row@ == rows@[y as int]@,
                tiles@.len() == y * width + x,
                forall|k: int|
                    0 <= k < tiles@.len() ==> tiles@[k] == grid_tile(rows@, width as int, k),
            decreases width - x,
        {
            let t = if x < row_len {
                MapTile::from_char(&row[x])
            } else {
                MapTile::Rough
            };
            proof {
                lemma_fundamental_div_mod_converse(
                    tiles@.len() as int,
                    width as int,
                    y as int,
                    x as int,
                );
            }
            tiles.push(t);
            x = x + 1;
        }
        y = y + 1;
        proof {
            assert(tiles@.len() == y * width) by (nonlinear_arith)
                requires
                    tiles@.len() == (y - 1) * width + width,
            ;
        }
    }
    proof {
        assert(tiles@ =~= grid_seq(rows@));
    }
    tiles
}

/// The position of tile kind `t` if it occurs exactly once, else `None`.
fn find_unique(tiles: &Vec<MapTile>, t: MapTile) -> (r: Option<usize>)
    ensures
        r is Some <==> seq_has_unique(tiles@, t),
        r matches Some(i) ==> 0 <= i < tiles@.len() && tiles@[i as int] == t && (forall|j: int|
            0 <= j < tiles@.len() && j != i ==> tiles@[j] != t),
{
    let n = tiles.len();
    let mut found: Option<usize> = None;
    let mut k: usize = 0;
    while k < n
        invariant
            n == tiles@.len(),
            k <= n,
            found is None ==> forall|j: int| 0 <= j < k ==> tiles@[j] != t,
            found matches Some(i) ==> i < k && tiles@[i as int] == t && (forall|j: int|
                0 <= j < k && j != i ==> tiles@[j] != t),
        decreases n - k,
    {
        if tiles[k] == t {
            if let Some(i) = found {
                proof {
                    lemma_two_spots_not_unique(tiles@, i as int, k as int, t);
                }
                return None;
            }
            found = Some(k);
        }
        k = k + 1;
    }
    proof {
        if found is None {
            if seq_has_unique(tiles@, t) {
                let c = choose|c: int|
                    0 <= c < tiles@.len() && tiles@[c] == t && (forall|j: int|
                        0 <= j < tiles@.len() && j != c ==> tiles@[j] != t);
                assert(tiles@[c] != t);
            }
        }
    }
    found
}

/// Two distinct spots holding the same tile kind rule out uniqueness.
proof fn lemma_two_spots_not_unique(tiles: Seq<MapTile>, i: int, k: int, t: MapTile)
    requires
        0 <= i < tiles.len(),
        0 <= k < tiles.len(),
        i != k,
        tiles[i] == t,
        tiles[k] == t,
    ensures
        !seq_has_unique(tiles, t),
{
    if seq_has_unique(tiles, t) {
        let c = choose|c: int|
            0 <= c < tiles.len() && tiles[c] == t && (forall|j: int|
                0 <= j < tiles.len() && j != c ==> tiles[j] != t);
        if c != i {
            assert(tiles[i] != t);
        } else {
            assert(tiles[k] != t);
        }
    }
}

/// A coordinate pair inside the grid indexes inside the flat tile vector.
proof fn lemma_flat_index_in_grid(x: int, y: int, w: int, h: int)
    requires
        0 <= x < w <= 255,
        0 <= y < h <= 255,
    ensures
        0 <= y * w + x < w * h,
        w * h <= 65025,
{
    assert(y * w + x < w * h && w * h <= 65025) by (nonlinear_arith)
        requires
            0 <= x < w <= 255,
            0 <= y < h <= 255,
    ;
}

/// The product of a bounded run and a bounded rise stays far inside the
/// 64-bit range.
proof fn lemma_run_rise_product(a: int, b: int)
    requires
        -500_000_000 <= a <= 500_000_000,
        -500_000_000 <= b <= 500_000_000,
    ensures
        -1_000_000_000_000_000_000 <= a * b <= 1_000_000_000_000_000_000,
{
    assert(-1_000_000_000_000_000_000 <= a * b <= 1_000_000_000_000_000_000)
        by (nonlinear_arith)
        requires
            -500_000_000 <= a <= 500_000_000,
            -500_000_000 <= b <= 500_000_000,
    ;
}

/// The edge-crossing quotient stays within the coordinate range, so adding
/// it to a coordinate cannot overflow.
proof fn lemma_slope_quotient_bound(num: int, d: int)
    requires
        d != 0,
        -1_000_000_000_000_000_000 <= num <= 1_000_000_000_000_000_000,
    ensures
        -1_000_000_000_000_000_000 <= div_trunc_any_spec(num, d)
            <= 1_000_000_000_000_000_000,
{
    let m = if num >= 0 {
        num
    } else {
        -num
    };
    let dd = if d >= 0 {
        d
    } else {
        -d
    };
    crate::num::lemma_div_le(m, 1_000_000_000_000_000_000, dd);
}

} // verus!
