use vstd::prelude::*;
use crate::car::CAR_MAX_SPEED;
use crate::geometry::Rect;
use crate::units::{clamp_position, in_band, shift, travel, UNIT, SCREEN_SIZE};

verus! {

/// Width of one track tile, in pixels.
pub const BACKGROUND_TILE_WIDTH: i64 = 8;

/// Height of one track tile, in pixels.
pub const BACKGROUND_TILE_HEIGHT: i64 = 8;

/// Distance from each screen edge to the centre of a track wall, in pixels.
pub const BACKGROUND_PADDING: i64 = BACKGROUND_TILE_WIDTH * 2;

/// Scroll period: two tile rows, in micro-pixels.
pub const SCROLL_PERIOD: i64 = BACKGROUND_TILE_HEIGHT * 2 * UNIT;

/// The left track wall: a tile-wide strip over the full screen height.
pub open spec fn left_wall() -> Rect {
    Rect {
        x: ((BACKGROUND_PADDING - BACKGROUND_TILE_WIDTH / 2) * UNIT) as i64,
        y: 0,
        w: (BACKGROUND_TILE_WIDTH * UNIT) as i64,
        h: (SCREEN_SIZE * UNIT) as i64,
    }
}

/// The right track wall, mirroring the left one.
pub open spec fn right_wall() -> Rect {
    Rect {
        x: ((SCREEN_SIZE - BACKGROUND_PADDING - BACKGROUND_TILE_WIDTH / 2) * UNIT) as i64,
        y: 0,
        w: (BACKGROUND_TILE_WIDTH * UNIT) as i64,
        h: (SCREEN_SIZE * UNIT) as i64,
    }
}

/// The scrolling track. `y` is the scroll offset in micro-pixels.
#[derive(Clone, Copy, Debug, PartialEq, Eq)]
pub struct Background {
    pub y: i64,
}

/// The scroll offset after advancing `y` by `d` micro-pixels: one period is
/// taken off when the sum passes it, once, not as a full remainder.
pub open spec fn scrolled(y: int, d: int) -> int {
    let s = clamp_position(y + d);
    if s > SCROLL_PERIOD {
        s - SCROLL_PERIOD
    } else {
        s
    }
}

impl Background {
    /// A non-negative offset within the representable band.
    pub open spec fn wf(&self) -> bool {
        0 <= self.y && in_band(self.y as int)
    }

    /// The track after scrolling at `speed` for `dt` milliseconds.
    pub open spec fn scrolled_by(self, dt: u32, speed: int) -> Background {
        Background { y: scrolled(self.y as int, speed * dt) as i64 }
    }

    /// Whether `r` overlaps either track wall.
    pub open spec fn hits_wall(r: Rect) -> bool {
        r.overlaps(left_wall()) || r.overlaps(right_wall())
    }

    /// A track that has not scrolled.
    pub fn new() -> (r: Background)
        ensures
            r.wf(),
            r.y == 0,
    {
        Background { y: 0 }
    }

    /// Scrolls the track by the distance that `speed` covers in `dt`
    /// milliseconds.
    pub fn process(&mut self, dt: u32, speed: i64)
        requires
            old(self).wf(),
            0 <= speed <= CAR_MAX_SPEED,
        ensures
            final(self).wf(),
            *final(self) == old(self).scrolled_by(dt, speed as int),
            final(self).y == scrolled(old(self).y as int, speed * dt),
    {
        let s = shift(self.y, travel(speed, dt));
        self.y = if s > SCROLL_PERIOD {
            s - SCROLL_PERIOD
        } else {
            s
        };
    }

    /// Whether `rect` overlaps either track wall. The walls do not scroll.
    pub fn is_colliding_with(&self, rect: Rect) -> (r: bool)
        requires
            rect.wf(),
        ensures
            r == Self::hits_wall(rect),
    {
        let left_rect = Rect {
            x: (BACKGROUND_PADDING - BACKGROUND_TILE_WIDTH / 2) * UNIT,
            y: 0,
            w: BACKGROUND_TILE_WIDTH * UNIT,
            h: SCREEN_SIZE * UNIT,
        };
        let right_rect = Rect {
            x: (SCREEN_SIZE - BACKGROUND_PADDING - BACKGROUND_TILE_WIDTH / 2) * UNIT,
            y: 0,
            w: BACKGROUND_TILE_WIDTH * UNIT,
            h: SCREEN_SIZE * UNIT,
        };
        rect.is_colliding_with(left_rect) || rect.is_colliding_with(right_rect)
    }
}

} // verus!
