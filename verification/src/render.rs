//! What the rendering layer draws, computed as plain values: one draw
//! command per visible tile, the ball's own command, and the aiming
//! crosshair's map position. Submitting these to a terminal is the
//! caller's concern.

use vstd::prelude::*;
use crate::ball::Ball;
use crate::camera::Camera;
use crate::geometry::Point;
use crate::map::TileMap;
use crate::num::{div_round, div_round_spec};
use crate::tile::{MapTile, cp437_code, WHITE};
use crate::trig::{sin_full, cos_full, sin_micro_full, cos_micro_full, lemma_sin_cos_bounds};

verus! {

/// One glyph to draw: a viewport position, a codepage-437 glyph, and the
/// colors to draw it in.
#[derive(Clone, Copy, Debug, PartialEq, Eq)]
pub struct DrawCmd {
    pub pos: Point,
    pub glyph: u16,
    pub fg: (u8, u8, u8),
    pub bg: (u8, u8, u8),
}

/// The command that draws the tile on map point `p`.
pub open spec fn tile_cmd_spec(map: TileMap, camera: Camera, p: Point) -> DrawCmd {
    let tile = map.tile_at_spec(p.x as int, p.y as int);
    DrawCmd {
        pos: Point {
            x: (p.x - camera.rect_spec().x0 + 1) as i32,
            y: (p.y - camera.rect_spec().y0 + 1) as i32,
        },
        glyph: cp437_code(tile.glyph_char()),
        fg: tile.color_spec(),
        bg: tile.bg_spec(),
    }
}

/// The commands for the in-bounds points among `coords`, in order.
pub open spec fn map_render_spec(map: TileMap, camera: Camera, coords: Seq<Point>) -> Seq<DrawCmd>
    decreases coords.len(),
{
    if coords.len() == 0 {
        seq![]
    } else {
        let rest = map_render_spec(map, camera, coords.drop_last());
        let p = coords.last();
        if map.in_bounds_spec(p) {
            rest.push(tile_cmd_spec(map, camera, p))
        } else {
            rest
        }
    }
}

/// One draw command per map tile the camera's viewport covers, in the
/// viewport's row-major order; points outside the map are skipped.
pub fn map_render(map: &TileMap, camera: &Camera) -> (r: Vec<DrawCmd>)
    requires
        map.wf(),
        camera.wf(),
    ensures
        r@ == map_render_spec(*map, *camera, camera.map_coords@),
{
    let mut cmds: Vec<DrawCmd> = Vec::new();
    let n = camera.map_coords.len();
    let mut i: usize = 0;
    while i < n
        invariant
            map.wf(),
            camera.wf(),
            n == camera.map_coords@.len(),
            i <= n,
            cmds@ == map_render_spec(*map, *camera, camera.map_coords@.take(i as int)),
        decreases n - i,
    {
        let point = camera.map_coords[i];
        if map.in_bounds(&point) {
            let t = map.tile_at(&point);
            let pix = camera.render_coordinate(&point);
            cmds.push(DrawCmd { pos: pix, glyph: t.glyph(), fg: t.color(), bg: t.bg() });
        }
        proof {
            assert(camera.map_coords@.take(i + 1).drop_last() =~= camera.map_coords@.take(
                i as int,
            ));
            assert(camera.map_coords@.take(i + 1).last() == camera.map_coords@[i as int]);
        }
        i = i + 1;
    }
    proof {
        assert(camera.map_coords@.take(n as int) =~= camera.map_coords@);
    }
    cmds
}

/// The command that draws a ball: a white bullet glyph over the ground it
/// stands on.
pub fn ball_render(ball: &Ball, map: &TileMap, camera: &Camera) -> (r: DrawCmd)
    requires
        ball.wf(),
        map.wf(),
        camera.wf(),
        map.in_bounds_spec(
            Point { x: ball.tile_x_spec() as i32, y: ball.tile_y_spec() as i32 },
        ),
    ensures
        r.pos.x == ball.tile_x_spec() - camera.rect_spec().x0 + 1,
        r.pos.y == ball.tile_y_spec() - camera.rect_spec().y0 + 1,
        r.glyph == 7,
        r.fg == WHITE,
        r.bg == map.tile_at_spec(ball.tile_x_spec(), ball.tile_y_spec()).bg_spec(),
{
    let pos = ball.tile_position();
    let bg = map.bg(&pos);
    let pix = camera.render_coordinate(&pos);
    DrawCmd { pos: pix, glyph: 7, fg: WHITE, bg }
}

/// How far the crosshair sits from the ball, in tiles.
pub const CROSSHAIR_RADIUS: i64 = 20;

/// The crosshair's offset along one axis: the heading component scaled to
/// the radius and rounded to the nearest tile.
pub open spec fn crosshair_dx_spec(degrees: int) -> int {
    div_round_spec(cos_micro_full((degrees + 90) % 360) * CROSSHAIR_RADIUS, 1_000_000)
}

pub open spec fn crosshair_dy_spec(degrees: int) -> int {
    -div_round_spec(sin_micro_full((degrees + 90) % 360) * CROSSHAIR_RADIUS, 1_000_000)
}

/// Where the aiming crosshair sits: the radius out from `origin` along the
/// aim heading.
pub fn crosshair_coord(origin: Point, degrees: &i32) -> (r: Point)
    requires
        -200_000_000 <= origin.x <= 200_000_000,
        -200_000_000 <= origin.y <= 200_000_000,
    ensures
        r.x == origin.x + crosshair_dx_spec(*degrees as int),
        r.y == origin.y + crosshair_dy_spec(*degrees as int),
{
    let a = crate::num::mod_euclid_360(*degrees as i64 + 90);
    proof {
        lemma_sin_cos_bounds(a as int);
    }
    let c = cos_full(a as u32);
    let s = sin_full(a as u32);
    let dx = div_round(c * CROSSHAIR_RADIUS, 1_000_000);
    let dy = div_round(s * CROSSHAIR_RADIUS, 1_000_000);
    proof {
        crate::num::lemma_div_le(
            if c >= 0 { c as int * CROSSHAIR_RADIUS + 500_000 } else {
                -(c as int) * CROSSHAIR_RADIUS + 500_000
            },
            21,
            1_000_000,
        );
        crate::num::lemma_div_le(
            if s >= 0 { s as int * CROSSHAIR_RADIUS + 500_000 } else {
                -(s as int) * CROSSHAIR_RADIUS + 500_000
            },
            21,
            1_000_000,
        );
    }
    Point { x: origin.x + (dx as i32), y: origin.y - (dy as i32) }
}

} // verus!
