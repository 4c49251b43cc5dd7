//! Map tiles: the kinds of ground a hole is drawn from, their glyphs and
//! colors.

use vstd::prelude::*;
use bracket_lib::prelude::{to_cp437, ColorPair};

verus! {

pub const WHITE: (u8, u8, u8) = (255, 255, 255);

pub const BLACK: (u8, u8, u8) = (0, 0, 0);

pub const RED: (u8, u8, u8) = (255, 0, 0);

pub const GREEN: (u8, u8, u8) = (0, 255, 0);

pub const DARK_GREEN: (u8, u8, u8) = (0, 100, 0);

pub const FOREST_GREEN: (u8, u8, u8) = (34, 139, 34);

pub const LIGHT_GREEN: (u8, u8, u8) = (144, 238, 144);

#[derive(Clone, Copy, Debug, PartialEq, Eq, Structural)]
pub enum MapTile {
    Tee,
    TeeBox,
    Fairway,
    Green,
    Flag,
    Rough,
}

/// The tile each map character stands for; anything unknown is rough.
pub open spec fn tile_of_char(c: char) -> MapTile {
    if c == 'T' {
        MapTile::Tee
    } else if c == 'D' {
        MapTile::TeeBox
    } else if c == '=' {
        MapTile::Fairway
    } else if c == '@' {
        MapTile::Green
    } else if c == 'F' {
        MapTile::Flag
    } else {
        MapTile::Rough
    }
}

/// The terminal code of the glyph for character `c` in codepage 437.
pub uninterp spec fn cp437_code(c: char) -> u16;

/// Relies on bracket_lib's `to_cp437`: the code returned for a character
/// depends on the character alone; its table maps 'T' to 84, 'F' to 70, the
/// full block to 219 and the light shade block to 176.
pub assume_specification [ to_cp437 ](c: char) -> (r: u16)
    ensures
        r == cp437_code(c),
        c == 'T' ==> r == 84,
        c == 'F' ==> r == 70,
        c == '\u{2588}' ==> r == 219,
        c == '\u{2591}' ==> r == 176,
;

#[verifier::external_type_specification]
#[verifier::external_body]
pub struct ExColorPair(ColorPair);

/// Relies on bracket_lib's `ColorPair::new`: packs a foreground and a
/// background color into one value for the rendering layer.
#[verifier::external_body]
pub(crate) fn pack_color_pair(fg: (u8, u8, u8), bg: (u8, u8, u8)) -> ColorPair {
    ColorPair::new(fg, bg)
}

impl MapTile {
    /// The character this tile is drawn with: tees and flags keep their
    /// letter, playable ground is a full block, rough a light shade.
    pub open spec fn glyph_char(self) -> char {
        match self {
            MapTile::Tee => 'T',
            MapTile::TeeBox => '\u{2588}',
            MapTile::Fairway => '\u{2588}',
            MapTile::Green => '\u{2588}',
            MapTile::Flag => 'F',
            MapTile::Rough => '\u{2591}',
        }
    }

    pub fn from_char(c: &char) -> (r: MapTile)
        ensures
            r == tile_of_char(*c),
    {
        match c {
            'T' => MapTile::Tee,
            'D' => MapTile::TeeBox,
            '=' => MapTile::Fairway,
            '@' => MapTile::Green,
            'F' => MapTile::Flag,
            _ => MapTile::Rough,
        }
    }

    pub fn glyph(self) -> (r: u16)
        ensures
            r == cp437_code(self.glyph_char()),
    {
        let c = match self {
            MapTile::Tee => 'T',
            MapTile::TeeBox => '\u{2588}',
            MapTile::Fairway => '\u{2588}',
            MapTile::Green => '\u{2588}',
            MapTile::Flag => 'F',
            MapTile::Rough => '\u{2591}',
        };
        to_cp437(c)
    }

    pub open spec fn color_spec(self) -> (u8, u8, u8) {
        match self {
            MapTile::Tee => WHITE,
            MapTile::TeeBox => DARK_GREEN,
            MapTile::Fairway => FOREST_GREEN,
            MapTile::Green => GREEN,
            MapTile::Flag => RED,
            MapTile::Rough => DARK_GREEN,
        }
    }

    pub open spec fn bg_spec(self) -> (u8, u8, u8) {
        match self {
            MapTile::Tee => DARK_GREEN,
            MapTile::Flag => LIGHT_GREEN,
            MapTile::Rough => BLACK,
            _ => self.color_spec(),
        }
    }

    pub fn color(self) -> (r: (u8, u8, u8))
        ensures
            r == self.color_spec(),
    {
        match self {
            MapTile::Tee => WHITE,
            MapTile::TeeBox => DARK_GREEN,
            MapTile::Fairway => FOREST_GREEN,
            MapTile::Green => GREEN,
            MapTile::Flag => RED,
            MapTile::Rough => DARK_GREEN,
        }
    }

    pub fn bg(self) -> (r: (u8, u8, u8))
        ensures
            r == self.bg_spec(),
    {
        match self {
            MapTile::Tee => DARK_GREEN,
            MapTile::Flag => LIGHT_GREEN,
            MapTile::Rough => BLACK,
            _ => self.color(),
        }
    }

    /// The tile's foreground and background packed for the terminal.
    pub fn color_pair(self) -> ColorPair {
        pack_color_pair(self.color(), self.bg())
    }
}

} // verus!
