//! The fixed terminal window the game is drawn into.

use vstd::prelude::*;

verus! {

pub const SCREEN_WIDTH: u8 = 80;

pub const SCREEN_HEIGHT: u8 = 60;

pub struct Window {
    pub height: u8,
    pub width: u8,
}

impl Window {
    pub fn new() -> (r: Window)
        ensures
            r.height == SCREEN_HEIGHT,
            r.width == SCREEN_WIDTH,
    {
        Window { height: SCREEN_HEIGHT, width: SCREEN_WIDTH }
    }
}

} // verus!
