//! The viewport rectangle, the camera's clamped centering, the ball's
//! sub-tile movement, and the crosshair and edge-intersection geometry.

use on_tour::ball::Ball;
use on_tour::camera::Camera;
use on_tour::geometry::{Point, Rectangle};
use on_tour::map::TileMap;
use on_tour::render::crosshair_coord;

#[test]
fn rectangle_spans_half_a_side_each_way() {
    let r = Rectangle::new(Point::new(10, 20), 6, 4);
    assert_eq!((r.x0, r.x1, r.y0, r.y1), (7, 13, 18, 22));
    assert_eq!(r.width(), 6);
    assert_eq!(r.height(), 4);
}

#[test]
fn rectangle_coordinates_walk_rows_inside_the_far_margin() {
    let r = Rectangle::new(Point::new(5, 5), 6, 6);
    // Corners (2, 8) x (2, 8); the walk stops two short of each far edge.
    let pts = r.coordinates();
    assert_eq!(pts.len(), 16);
    assert_eq!(pts[0], Point::new(2, 2));
    assert_eq!(pts[1], Point::new(3, 2));
    assert_eq!(pts[4], Point::new(2, 3));
    assert_eq!(pts[15], Point::new(5, 5));
}

#[test]
fn rectangle_relative_point_offsets_one_inward() {
    let r = Rectangle::new(Point::new(5, 5), 6, 6);
    assert_eq!(r.relative_point(&Point::new(2, 2)), Point::new(1, 1));
    assert_eq!(r.relative_point(&Point::new(4, 7)), Point::new(3, 6));
}

#[test]
fn camera_centers_on_ball_at_exact_map_center() {
    // Viewport smaller than the map, ball dead center: the window is half
    // a viewport each side of the ball on both axes.
    let cam = Camera::new(Point::new(50, 50), 100, 100, 20, 10);
    assert_eq!((cam.rect.x0, cam.rect.x1), (40, 60));
    assert_eq!((cam.rect.y0, cam.rect.y1), (45, 55));
    assert_eq!(cam.width(), 20);
    assert_eq!(cam.height(), 10);
}

#[test]
fn camera_clamps_at_map_origin() {
    // Ball on tile (0,0): the window holds to [0, viewport] per axis and
    // never goes negative.
    let cam = Camera::new(Point::new(0, 0), 100, 100, 20, 10);
    assert_eq!((cam.rect.x0, cam.rect.x1), (0, 20));
    assert_eq!((cam.rect.y0, cam.rect.y1), (0, 10));
}

#[test]
fn camera_clamps_at_far_edge() {
    let cam = Camera::new(Point::new(99, 99), 100, 100, 20, 10);
    assert_eq!((cam.rect.x0, cam.rect.x1), (80, 100));
    assert_eq!((cam.rect.y0, cam.rect.y1), (90, 100));
}

#[test]
fn camera_update_recenters() {
    let mut cam = Camera::new(Point::new(0, 0), 100, 100, 20, 10);
    cam.update(Point::new(50, 50));
    assert_eq!((cam.rect.x0, cam.rect.x1), (40, 60));
    assert_eq!((cam.rect.y0, cam.rect.y1), (45, 55));
    assert_eq!(cam.render_coordinate(&Point::new(40, 45)), Point::new(1, 1));
    assert_eq!(cam.map_coords.len(), 18 * 8);
    assert_eq!(cam.map_coords[0], Point::new(40, 45));
}

#[test]
fn ball_truncates_to_tile() {
    let mut ball = Ball::new(&Point::new(10, 10));
    assert_eq!(ball.tile_position(), Point::new(10, 10));
    // Heading zero points up the map: y shrinks, x holds.
    ball.mv(0, 2_000_000);
    assert_eq!(ball.tile_position(), Point::new(10, 8));
    // A quarter turn left heads along negative x.
    ball.mv(90, 1_000_000);
    assert_eq!(ball.tile_position(), Point::new(9, 8));
    // Sub-tile motion accumulates before the tile changes.
    ball.mv(0, 500_000);
    assert_eq!(ball.tile_position(), Point::new(9, 7));
    ball.mv(0, 500_000);
    assert_eq!(ball.tile_position(), Point::new(9, 7));
    assert_eq!(ball.y, 7_000_000);
}

#[test]
fn ball_move_to_lands_on_the_tile_corner() {
    let mut ball = Ball::new(&Point::new(3, 4));
    ball.mv(45, 1_000_000);
    ball.move_to(&Point::new(7, 8));
    assert_eq!(ball.x, 7_000_000);
    assert_eq!(ball.y, 8_000_000);
    assert_eq!(ball.tile_position(), Point::new(7, 8));
}

#[test]
fn crosshair_sits_twenty_tiles_out() {
    assert_eq!(crosshair_coord(Point::new(50, 50), &0), Point::new(50, 30));
    assert_eq!(crosshair_coord(Point::new(50, 50), &45), Point::new(36, 36));
    assert_eq!(crosshair_coord(Point::new(50, 50), &-3), Point::new(51, 30));
}

#[test]
fn intersection_clips_against_each_edge() {
    let map = TileMap::new(10, 10);
    // Both coordinates out: the corner.
    assert_eq!(map.intersection(Point::new(5, 5), Point::new(12, -2)), Point::new(10, 0));
    // Only x out: y follows the slope, truncating.
    assert_eq!(map.intersection(Point::new(5, 5), Point::new(12, 9)), Point::new(10, 7));
    // Only y out, vertical segment.
    assert_eq!(map.intersection(Point::new(5, 5), Point::new(5, 13)), Point::new(5, 10));
    // Only y out with a slope.
    assert_eq!(map.intersection(Point::new(5, 5), Point::new(9, 13)), Point::new(7, 10));
    // Neither out.
    assert_eq!(map.intersection(Point::new(5, 5), Point::new(6, 6)), Point::new(0, 0));
}
