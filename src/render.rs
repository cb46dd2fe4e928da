use vstd::prelude::*;
use crate::car::{Car, CAR_HEIGHT, CAR_WIDTH};
use crate::geometry::{Rect, RECT_LIMIT};
use crate::track::{Background, BACKGROUND_PADDING, BACKGROUND_TILE_HEIGHT, BACKGROUND_TILE_WIDTH};
use crate::units::{in_band, UNIT, SCREEN_SIZE};

verus! {

/// One of the four palette entries of the screen.
#[derive(Clone, Copy, Debug, PartialEq, Eq, Structural)]
pub enum Palette {
    P1,
    P2,
    P3,
    P4,
}

/// A rectangle to fill, in whole screen pixels, with a palette colour.
#[derive(Clone, Copy, Debug, PartialEq, Eq, Structural)]
pub struct DrawRect {
    pub x: i32,
    pub y: i32,
    pub w: u32,
    pub h: u32,
    pub color: Palette,
}

/// Width of a wheel mark, in pixels.
pub const CAR_WHEEL_WIDTH: i64 = 2;

/// Height of a wheel mark, in pixels.
pub const CAR_WHEEL_HEIGHT: i64 = 2;

/// Number of tile rows drawn for each wall: two more above and below the
/// screen so that scrolling never shows a gap.
pub const TILE_ROWS: i64 = 24;

/// The screen pixel holding micro-pixel coordinate `v`: rounded toward zero
/// and saturated to the `i32` range.
pub open spec fn screen_coord(v: int) -> int {
    let t = if v >= 0 {
        v / UNIT as int
    } else {
        -((-v) / UNIT as int)
    };
    if t > i32::MAX {
        i32::MAX as int
    } else if t < i32::MIN {
        i32::MIN as int
    } else {
        t
    }
}

/// The screen pixel holding micro-pixel coordinate `v`.
pub fn to_screen(v: i64) -> (r: i32)
    requires
        -RECT_LIMIT <= v <= RECT_LIMIT,
    ensures
        r == screen_coord(v as int),
{
    let t: i64 = if v >= 0 {
        v / UNIT
    } else {
        -((-v) / UNIT)
    };
    if t > i32::MAX as i64 {
        i32::MAX
    } else if t < i32::MIN as i64 {
        i32::MIN
    } else {
        t as i32
    }
}

/// A non-negative micro-pixel extent in whole pixels, rounded down and
/// saturated to the `u32` range.
pub open spec fn screen_extent(v: int) -> int {
    if v / UNIT as int > u32::MAX {
        u32::MAX as int
    } else {
        v / UNIT as int
    }
}

/// `v + 1`, saturated to the `i32` range.
pub open spec fn next_pixel(v: int) -> int {
    if v < i32::MAX {
        v + 1
    } else {
        v
    }
}

impl Rect {
    /// The pixels this rectangle covers, as drawn.
    pub open spec fn screen_spec(self, color: Palette) -> DrawRect {
        DrawRect {
            x: screen_coord(self.x as int) as i32,
            y: screen_coord(self.y as int) as i32,
            w: screen_extent(self.w as int) as u32,
            h: screen_extent(self.h as int) as u32,
            color,
        }
    }

    /// The pixels this rectangle covers, to be filled with `color`.
    pub fn to_screen_rect(&self, color: Palette) -> (r: DrawRect)
        requires
            self.wf(),
        ensures
            r == self.screen_spec(color),
    {
        let w = self.w / UNIT;
        let h = self.h / UNIT;
        DrawRect {
            x: to_screen(self.x),
            y: to_screen(self.y),
            w: if w > u32::MAX as i64 {
                u32::MAX
            } else {
                w as u32
            },
            h: if h > u32::MAX as i64 {
                u32::MAX
            } else {
                h as u32
            },
            color,
        }
    }
}

/// A `w` by `h` pixel rectangle at the pixels holding `(x, y)`.
pub open spec fn mark(x: int, y: int, w: int, h: int, color: Palette) -> DrawRect {
    DrawRect {
        x: screen_coord(x) as i32,
        y: screen_coord(y) as i32,
        w: w as u32,
        h: h as u32,
        color,
    }
}

impl Car {
    /// The car as drawn: four wheel marks, the body over them, and a stripe
    /// on the body's top.
    pub open spec fn sprite_spec(self) -> Seq<DrawRect> {
        let wheel_left = self.x - (CAR_WIDTH + CAR_WHEEL_WIDTH) * UNIT / 2;
        let wheel_right = self.x + (CAR_WIDTH - CAR_WHEEL_WIDTH) * UNIT / 2;
        let wheel_top = self.y - (CAR_HEIGHT - CAR_WHEEL_HEIGHT) * UNIT / 2;
        let wheel_bottom = self.y + CAR_HEIGHT * UNIT / 8;
        let body_x = self.x - CAR_WIDTH * UNIT / 2;
        let body_y = self.y - CAR_HEIGHT * UNIT / 2;
        seq![
            mark(wheel_left, wheel_top, CAR_WHEEL_WIDTH as int, CAR_WHEEL_HEIGHT as int, Palette::P2),
            mark(wheel_right, wheel_top, CAR_WHEEL_WIDTH as int, CAR_WHEEL_HEIGHT as int, Palette::P2),
            mark(wheel_left, wheel_bottom, CAR_WHEEL_WIDTH as int, CAR_WHEEL_HEIGHT as int, Palette::P2),
            mark(wheel_right, wheel_bottom, CAR_WHEEL_WIDTH as int, CAR_WHEEL_HEIGHT as int, Palette::P2),
            mark(body_x, body_y, CAR_WIDTH as int, CAR_HEIGHT as int, Palette::P3),
            DrawRect {
                x: next_pixel(screen_coord(body_x)) as i32,
                y: next_pixel(screen_coord(body_y)) as i32,
                w: (CAR_WIDTH - 2) as u32,
                h: (CAR_HEIGHT / 4) as u32,
                color: Palette::P2,
            },
        ]
    }

    /// The rectangles that draw the car, in drawing order.
    pub fn sprite(&self) -> (r: Vec<DrawRect>)
        requires
            self.wf(),
        ensures
            r@ == self.sprite_spec(),
    {
        let wheel_left = self.x - (CAR_WIDTH + CAR_WHEEL_WIDTH) * UNIT / 2;
        let wheel_right = self.x + (CAR_WIDTH - CAR_WHEEL_WIDTH) * UNIT / 2;
        let wheel_top = self.y - (CAR_HEIGHT - CAR_WHEEL_HEIGHT) * UNIT / 2;
        let wheel_bottom = self.y + CAR_HEIGHT * UNIT / 8;
        let body_x = to_screen(self.x - CAR_WIDTH * UNIT / 2);
        let body_y = to_screen(self.y - CAR_HEIGHT * UNIT / 2);
        let ww = CAR_WHEEL_WIDTH as u32;
        let wh = CAR_WHEEL_HEIGHT as u32;
        let r = vec![
            DrawRect { x: to_screen(wheel_left), y: to_screen(wheel_top), w: ww, h: wh, color: Palette::P2 },
            DrawRect { x: to_screen(wheel_right), y: to_screen(wheel_top), w: ww, h: wh, color: Palette::P2 },
            DrawRect { x: to_screen(wheel_left), y: to_screen(wheel_bottom), w: ww, h: wh, color: Palette::P2 },
            DrawRect { x: to_screen(wheel_right), y: to_screen(wheel_bottom), w: ww, h: wh, color: Palette::P2 },
            DrawRect { x: body_x, y: body_y, w: CAR_WIDTH as u32, h: CAR_HEIGHT as u32, color: Palette::P3 },
            DrawRect {
                x: if body_x < i32::MAX { body_x + 1 } else { body_x },
                y: if body_y < i32::MAX { body_y + 1 } else { body_y },
                w: (CAR_WIDTH - 2) as u32,
                h: (CAR_HEIGHT / 4) as u32,
                color: Palette::P2,
            },
        ];
        assert(r@ =~= self.sprite_spec());
        r
    }
}

/// Tile `k` of the track as drawn at scroll offset `offset`: the first
/// `TILE_ROWS` tiles make the left wall, the next ones the right wall, each
/// from two rows above the screen downwards, even rows light and odd rows
/// dark.
pub open spec fn tile_spec(offset: int, k: int) -> DrawRect {
    let wall: int = if k < TILE_ROWS {
        BACKGROUND_PADDING as int
    } else {
        SCREEN_SIZE - BACKGROUND_PADDING
    };
    let row = k % TILE_ROWS as int - 2;
    DrawRect {
        x: (wall - BACKGROUND_TILE_WIDTH / 2) as i32,
        y: screen_coord(row * BACKGROUND_TILE_HEIGHT * UNIT + offset) as i32,
        w: BACKGROUND_TILE_WIDTH as u32,
        h: BACKGROUND_TILE_HEIGHT as u32,
        color: if row % 2 == 0 {
            Palette::P2
        } else {
            Palette::P3
        },
    }
}

impl Background {
    /// The wall tiles to draw, scrolled by the current offset.
    pub fn tiles(&self) -> (r: Vec<DrawRect>)
        requires
            self.wf(),
        ensures
            r@.len() == 2 * TILE_ROWS,
            forall|k: int| 0 <= k < 2 * TILE_ROWS ==> #[trigger] r@[k] == tile_spec(self.y as int, k),
    {
        let mut r: Vec<DrawRect> = Vec::new();
        let mut k: i64 = 0;
        while k < 2 * TILE_ROWS
            invariant
                0 <= k <= 2 * TILE_ROWS,
                self.wf(),
                r@.len() == k,
                forall|j: int| 0 <= j < k ==> #[trigger] r@[j] == tile_spec(self.y as int, j),
            decreases 2 * TILE_ROWS - k,
        {
            let wall = if k < TILE_ROWS {
                BACKGROUND_PADDING
            } else {
                SCREEN_SIZE - BACKGROUND_PADDING
            };
            let row = k % TILE_ROWS - 2;
            r.push(DrawRect {
                x: (wall - BACKGROUND_TILE_WIDTH / 2) as i32,
                y: to_screen(row * BACKGROUND_TILE_HEIGHT * UNIT + self.y),
                w: BACKGROUND_TILE_WIDTH as u32,
                h: BACKGROUND_TILE_HEIGHT as u32,
                color: if row % 2 == 0 {
                    Palette::P2
                } else {
                    Palette::P3
                },
            });
            k = k + 1;
        }
        r
    }
}

} // verus!
