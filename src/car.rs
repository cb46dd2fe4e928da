use vstd::prelude::*;
use crate::geometry::Rect;
use crate::units::{clamp_position, in_band, shift, travel, UNIT, SCREEN_SIZE};

verus! {

/// Change of speed while accelerating or braking, in milli-pixels per second
/// for each millisecond held (50 pixels per second squared).
pub const ACCELERATION: i64 = 50;

/// Sideways speed while steering, in milli-pixels per second.
pub const MOVEMENT_SPEED: i64 = 150_000;

/// Car body width, in pixels.
pub const CAR_WIDTH: i64 = 6;

/// Car body height, in pixels.
pub const CAR_HEIGHT: i64 = 8;

/// Car body width, in micro-pixels.
pub const CAR_BOX_WIDTH: i64 = CAR_WIDTH * UNIT;

/// Car body height, in micro-pixels.
pub const CAR_BOX_HEIGHT: i64 = CAR_HEIGHT * UNIT;

/// Slowest speed of the car, in milli-pixels per second.
pub const CAR_MIN_SPEED: i64 = 5_000;

/// Fastest speed of the car, in milli-pixels per second.
pub const CAR_MAX_SPEED: i64 = 300_000;

/// The state of the four direction buttons during one frame.
#[derive(Clone, Copy, Debug, PartialEq, Eq)]
pub struct Buttons {
    pub left: bool,
    pub right: bool,
    pub up: bool,
    pub down: bool,
}

/// The player's car: its centre in micro-pixels and its forward speed in
/// milli-pixels per second.
#[derive(Clone, Copy, Debug, PartialEq, Eq)]
pub struct Car {
    pub x: i64,
    pub y: i64,
    pub speed: i64,
}

/// Sideways displacement, in micro-pixels, for the buttons held during `dt`
/// milliseconds: left wins over right.
pub open spec fn steering(input: Buttons, dt: u32) -> int {
    if input.left {
        -(MOVEMENT_SPEED * dt)
    } else if input.right {
        MOVEMENT_SPEED * dt
    } else {
        0
    }
}

/// Change of speed for the buttons held during `dt` milliseconds: up wins
/// over down.
pub open spec fn throttle(input: Buttons, dt: u32) -> int {
    if input.up {
        ACCELERATION * dt
    } else if input.down {
        -(ACCELERATION * dt)
    } else {
        0
    }
}

/// A speed clamped into `[CAR_MIN_SPEED, CAR_MAX_SPEED]`.
pub open spec fn clamp_speed(s: int) -> int {
    if s < CAR_MIN_SPEED {
        CAR_MIN_SPEED as int
    } else if s > CAR_MAX_SPEED {
        CAR_MAX_SPEED as int
    } else {
        s
    }
}

impl Car {
    /// Speed within its limits and a position within the representable band.
    pub open spec fn wf(&self) -> bool {
        &&& CAR_MIN_SPEED <= self.speed <= CAR_MAX_SPEED
        &&& in_band(self.x as int)
        &&& in_band(self.y as int)
    }

    /// The car after one frame of `dt` milliseconds with `input` held.
    pub open spec fn updated(self, input: Buttons, dt: u32) -> Car {
        Car {
            x: clamp_position(self.x + steering(input, dt)) as i64,
            speed: clamp_speed(self.speed + throttle(input, dt)) as i64,
            ..self
        }
    }

    /// The car's box: `CAR_WIDTH` by `CAR_HEIGHT` pixels centred on the car.
    pub open spec fn rect_spec(&self) -> Rect {
        Rect {
            x: (self.x - CAR_BOX_WIDTH / 2) as i64,
            y: (self.y - CAR_BOX_HEIGHT / 2) as i64,
            w: CAR_BOX_WIDTH,
            h: CAR_BOX_HEIGHT,
        }
    }

    /// The car at the start of a game.
    pub open spec fn new_spec() -> Car {
        Car {
            x: (SCREEN_SIZE / 2 * UNIT) as i64,
            y: ((SCREEN_SIZE - 10) * UNIT) as i64,
            speed: CAR_MIN_SPEED,
        }
    }

    /// A car at the bottom centre of the screen, at its slowest speed.
    pub fn new() -> (r: Car)
        ensures
            r.wf(),
            r == Car::new_spec(),
            r.x == SCREEN_SIZE / 2 * UNIT,
            r.y == (SCREEN_SIZE - 10) * UNIT,
            r.speed == CAR_MIN_SPEED,
    {
        Car { x: SCREEN_SIZE / 2 * UNIT, y: (SCREEN_SIZE - 10) * UNIT, speed: CAR_MIN_SPEED }
    }

    /// Steers and accelerates the car for one frame of `dt` milliseconds.
    /// The speed is clamped into its limits; the sideways position is not
    /// bounded by the track walls.
    pub fn update(&mut self, input: Buttons, dt: u32)
        requires
            old(self).wf(),
        ensures
            final(self).wf(),
            CAR_MIN_SPEED <= final(self).speed <= CAR_MAX_SPEED,
            *final(self) == old(self).updated(input, dt),
            final(self).x == clamp_position(old(self).x + steering(input, dt)),
            final(self).y == old(self).y,
            final(self).speed == clamp_speed(old(self).speed + throttle(input, dt)),
    {
        let mut movement: i64 = 0;
        let mut accel: i64 = 0;
        if input.left {
            movement = travel(-MOVEMENT_SPEED, dt);
        } else if input.right {
            movement = travel(MOVEMENT_SPEED, dt);
        }
        if input.up {
            accel = ACCELERATION * dt as i64;
        } else if input.down {
            accel = -(ACCELERATION * dt as i64);
        }
        self.x = shift(self.x, movement);
        let s = self.speed + accel;
        self.speed = if s < CAR_MIN_SPEED {
            CAR_MIN_SPEED
        } else if s > CAR_MAX_SPEED {
            CAR_MAX_SPEED
        } else {
            s
        };
    }

    /// The car's box, for collisions.
    pub fn get_rect(&self) -> (r: Rect)
        requires
            self.wf(),
        ensures
            r == self.rect_spec(),
            r.wf(),
    {
        Rect {
            x: self.x - CAR_BOX_WIDTH / 2,
            y: self.y - CAR_BOX_HEIGHT / 2,
            w: CAR_BOX_WIDTH,
            h: CAR_BOX_HEIGHT,
        }
    }
}

} // verus!
