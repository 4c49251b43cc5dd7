//! The draw-command lists the rendering layer consumes.

use on_tour::ball::Ball;
use on_tour::camera::Camera;
use on_tour::geometry::Point;
use on_tour::map::TileMap;
use on_tour::render::{ball_render, map_render};
use on_tour::tile::WHITE;

fn rows(lines: &[&str]) -> Vec<Vec<char>> {
    lines.iter().map(|l| l.chars().collect()).collect()
}

#[test]
fn map_render_lists_only_in_bounds_tiles() {
    let map = TileMap::from_rows(&rows(&["T==F", "====", "====", "===="])).unwrap();
    // A camera over the top-left corner: its window starts at the origin
    // and covers the whole map plus out-of-bounds padding.
    let cam = Camera::new(Point::new(0, 0), 4, 4, 8, 8);
    assert_eq!((cam.rect.x0, cam.rect.y0), (0, 0));
    let cmds = map_render(&map, &cam);
    // The walk covers x, y in [0, 6); only the sixteen map tiles draw.
    assert_eq!(cmds.len(), 16);
    // The first command is the tee at the origin, drawn one inward.
    assert_eq!(cmds[0].pos, Point::new(1, 1));
    assert_eq!(cmds[0].glyph, 84);
    assert_eq!(cmds[0].fg, WHITE);
    // The flag tile sits three to the right of the tee.
    assert_eq!(cmds[3].pos, Point::new(4, 1));
    assert_eq!(cmds[3].glyph, 70);
}

#[test]
fn ball_render_draws_a_white_bullet_over_the_ground() {
    let map = TileMap::from_rows(&rows(&["T==F", "====", "====", "===="])).unwrap();
    let cam = Camera::new(Point::new(0, 0), 4, 4, 8, 8);
    let ball = Ball::new(&Point::new(2, 1));
    let cmd = ball_render(&ball, &map, &cam);
    assert_eq!(cmd.pos, Point::new(3, 2));
    assert_eq!(cmd.glyph, 7);
    assert_eq!(cmd.fg, WHITE);
    // The fairway under the ball shows through as the background.
    assert_eq!(cmd.bg, (34, 139, 34));
}
