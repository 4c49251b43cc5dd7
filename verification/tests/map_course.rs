//! Map parsing, tile lookups, tile glyphs and colors, and the course
//! queue with its hole transition.

use bracket_lib::prelude::ColorPair;
use on_tour::ball::Ball;
use on_tour::course::{Course, HoleFile, HoleTransition};
use on_tour::geometry::Point;
use on_tour::hole::HoleState;
use on_tour::interface::Window;
use on_tour::map::TileMap;
use on_tour::tile::{MapTile, BLACK, DARK_GREEN, FOREST_GREEN, LIGHT_GREEN, WHITE};

fn rows(lines: &[&str]) -> Vec<Vec<char>> {
    lines.iter().map(|l| l.chars().collect()).collect()
}

#[test]
fn parses_a_map_with_one_tee_and_one_flag() {
    let m = TileMap::from_rows(&rows(&["=T==", "=@F=", "...."])).unwrap();
    assert_eq!(m.width, 4);
    assert_eq!(m.height, 3);
    assert_eq!(m.tee, Point::new(1, 0));
    assert_eq!(m.flag, Point::new(2, 1));
    assert!(matches!(m.tile_at(&Point::new(0, 0)), MapTile::Fairway));
    assert!(matches!(m.tile_at(&Point::new(1, 0)), MapTile::Tee));
    assert!(matches!(m.tile_at_xy(1, 1), MapTile::Green));
    assert!(matches!(m.tile_at_xy(2, 1), MapTile::Flag));
    assert!(matches!(m.tile_at_xy(0, 2), MapTile::Rough));
    assert!(m.in_bounds(&Point::new(3, 2)));
    assert!(!m.in_bounds(&Point::new(4, 0)));
    assert!(!m.in_bounds(&Point::new(-1, 0)));
}

#[test]
fn short_rows_pad_with_rough_and_long_rows_clip() {
    let m = TileMap::from_rows(&rows(&["T==", "@", "==F=="])).unwrap();
    assert_eq!(m.width, 3);
    assert_eq!(m.height, 3);
    // The second row is padded with rough past its end.
    assert!(matches!(m.tile_at_xy(1, 1), MapTile::Rough));
    assert!(matches!(m.tile_at_xy(2, 1), MapTile::Rough));
    // The third row is clipped to the first row's width.
    assert!(matches!(m.tile_at_xy(2, 2), MapTile::Flag));
}

#[test]
fn rejects_maps_without_exactly_one_tee_and_flag() {
    assert!(TileMap::from_rows(&rows(&[])).is_none());
    assert!(TileMap::from_rows(&rows(&["", ""])).is_none());
    assert!(TileMap::from_rows(&rows(&["===", "==="])).is_none());
    assert!(TileMap::from_rows(&rows(&["T==", "==="])).is_none());
    assert!(TileMap::from_rows(&rows(&["F==", "==="])).is_none());
    assert!(TileMap::from_rows(&rows(&["TT=", "==F"])).is_none());
    assert!(TileMap::from_rows(&rows(&["T=F", "==F"])).is_none());
}

#[test]
fn rejects_oversized_grids() {
    let tall: Vec<Vec<char>> = (0..256)
        .map(|y| if y == 0 { vec!['T', 'F'] } else { vec!['=', '='] })
        .collect();
    assert!(TileMap::from_rows(&tall).is_none());
    let mut wide_row = vec!['='; 256];
    wide_row[0] = 'T';
    wide_row[1] = 'F';
    assert!(TileMap::from_rows(&vec![wide_row]).is_none());
    // The largest accepted size goes through.
    let mut big_row = vec!['='; 255];
    big_row[0] = 'T';
    big_row[1] = 'F';
    let mut big: Vec<Vec<char>> = vec![vec!['='; 255]; 254];
    big.insert(0, big_row);
    let m = TileMap::from_rows(&big).unwrap();
    assert_eq!(m.width, 255);
    assert_eq!(m.height, 255);
}

#[test]
fn tile_characters_round_trip() {
    assert!(matches!(MapTile::from_char(&'T'), MapTile::Tee));
    assert!(matches!(MapTile::from_char(&'D'), MapTile::TeeBox));
    assert!(matches!(MapTile::from_char(&'='), MapTile::Fairway));
    assert!(matches!(MapTile::from_char(&'@'), MapTile::Green));
    assert!(matches!(MapTile::from_char(&'F'), MapTile::Flag));
    assert!(matches!(MapTile::from_char(&'x'), MapTile::Rough));
    assert!(matches!(MapTile::from_char(&' '), MapTile::Rough));
}

#[test]
fn glyphs_use_codepage_437() {
    // Letters keep their codes; the blocks map to the codepage's shades.
    assert_eq!(MapTile::Tee.glyph(), 84);
    assert_eq!(MapTile::Flag.glyph(), 70);
    assert_eq!(MapTile::TeeBox.glyph(), 219);
    assert_eq!(MapTile::Fairway.glyph(), 219);
    assert_eq!(MapTile::Green.glyph(), 219);
    assert_eq!(MapTile::Rough.glyph(), 176);
}

#[test]
fn tile_colors_match_the_palette() {
    assert_eq!(MapTile::Tee.color(), WHITE);
    assert_eq!(MapTile::Tee.bg(), DARK_GREEN);
    assert_eq!(MapTile::Fairway.color(), FOREST_GREEN);
    assert_eq!(MapTile::Fairway.bg(), FOREST_GREEN);
    assert_eq!(MapTile::Flag.bg(), LIGHT_GREEN);
    assert_eq!(MapTile::Rough.bg(), BLACK);
    let m = TileMap::from_rows(&rows(&["TF"])).unwrap();
    assert_eq!(m.bg(&Point::new(0, 0)), DARK_GREEN);
    assert_eq!(m.bg(&Point::new(1, 0)), LIGHT_GREEN);
}

#[test]
fn color_pair_packs_both_colors() {
    let pair = MapTile::Tee.color_pair();
    assert_eq!(pair, ColorPair::new(WHITE, DARK_GREEN));
    assert_ne!(pair, ColorPair::new(WHITE, BLACK));
}

#[test]
fn course_default_lists_the_stock_paths() {
    let mut course = Course::default();
    assert_eq!(course.hole_paths.len(), 2);
    assert_eq!(course.hole_paths[0].path, "src/map1.txt");
    assert_eq!(course.hole_paths[1].path, "src/map2.txt");
    assert_eq!(course.holes.len(), 0);
    assert!(course.next().is_none());
    assert_eq!(HoleFile::new("a/b.txt").path, "a/b.txt");
}

#[test]
fn course_hands_holes_out_front_to_back() {
    let mut course = Course::default();
    let m1 = TileMap::from_rows(&rows(&["T==F"])).unwrap();
    let m2 = TileMap::from_rows(&rows(&["=TF="])).unwrap();
    course.add_hole(m1);
    course.add_hole(m2);
    let h1 = course.next().unwrap();
    assert_eq!(h1.number, 1);
    assert_eq!(h1.map.tee, Point::new(0, 0));
    let h2 = course.next().unwrap();
    assert_eq!(h2.number, 2);
    assert_eq!(h2.map.tee, Point::new(1, 0));
    assert!(course.next().is_none());
    assert_eq!(course.current, 2);
}

#[test]
fn holing_out_advances_to_the_next_tee() {
    let mut course = Course::default();
    course.add_hole(TileMap::from_rows(&rows(&["===T=F=="])).unwrap());
    let window = Window::new();
    let mut balls = vec![Ball::new(&Point::new(70, 3))];
    let r = on_tour::course::hole_transition(&HoleState::Holed, &mut course, &mut balls, &window);
    match r {
        HoleTransition::Advanced(hole, cam, state) => {
            assert_eq!(hole.number, 1);
            assert!(matches!(state, HoleState::TeeOff));
            assert_eq!(balls[0].tile_position(), Point::new(3, 0));
            // The camera is aimed at the tee of the one-row map: both axes
            // clamp against the far edge.
            assert_eq!(cam.rect.x1, 8);
            assert_eq!(cam.rect.y1, 1);
        },
        _ => panic!("expected an advance to the next hole"),
    }
    assert_eq!(course.holes.len(), 0);
}

#[test]
fn course_exhaustion_is_an_explicit_end() {
    let mut course = Course::default();
    let window = Window::new();
    let mut balls = vec![Ball::new(&Point::new(0, 0))];
    let r = on_tour::course::hole_transition(&HoleState::Holed, &mut course, &mut balls, &window);
    assert!(matches!(r, HoleTransition::CourseComplete));
}

#[test]
fn other_hole_states_pass_through_unchanged() {
    let mut course = Course::default();
    let window = Window::new();
    let mut balls = vec![Ball::new(&Point::new(5, 5))];
    let r = on_tour::course::hole_transition(
        &HoleState::Stroke(4),
        &mut course,
        &mut balls,
        &window,
    );
    assert!(matches!(r, HoleTransition::Stay(HoleState::Stroke(4))));
    assert_eq!(balls[0].tile_position(), Point::new(5, 5));
}
