//! Turn and flight core of a turn-based golf simulation.
//!
//! The library decides which stage of a golf shot is active, advances
//! aim/power/accuracy inputs into a committed shot, integrates the ball's
//! flight through a drag-and-lift model in fixed-point arithmetic, tracks
//! strokes and hole completion, and keeps a scrolling viewport centered on
//! the ball. Rendering, keyboard capture and map-file reading live outside
//! the library; it consumes plain values and returns plain values.

pub mod geometry;
pub mod num;
pub mod trig;
pub mod ball;
pub mod camera;
pub mod tile;
pub mod map;
pub mod club;
pub mod travel;
pub mod frame_time;
pub mod interface;
pub mod turn;
pub mod hole;
pub mod course;
pub mod render;
