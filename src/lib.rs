//! A small arcade driving game: a car on a scrolling two-lane track hits
//! obstacles for points until a countdown runs out.
//!
//! All quantities are integers in fixed units:
//! - lengths and positions in micro-pixels (see [`units::UNIT`]),
//! - speeds in milli-pixels per second,
//! - durations in milliseconds.
//!
//! With these units a speed multiplied by a duration is a length, exactly.
pub mod units;
pub mod geometry;
pub mod timer;
pub mod car;
pub mod track;
pub mod obstacle;
pub mod game;
pub mod render;

pub use units::{SCREEN_SIZE, UNIT};
pub use geometry::Rect;
pub use timer::Timer;
pub use car::{Buttons, Car};
pub use track::Background;
pub use obstacle::{Obstacle, ObstacleTick};
pub use game::{FrameInput, FrameReport, Game};
pub use render::{DrawRect, Palette};

use vstd::prelude::*;

verus! {

/// Called once by the host when the cartridge starts; the game needs no setup.
pub fn start() {
}

} // verus!
