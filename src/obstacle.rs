use vstd::prelude::*;
use crate::car::CAR_MAX_SPEED;
use crate::geometry::Rect;
use crate::track::Background;
use crate::units::{clamp_position, in_band, shift, travel, UNIT, SCREEN_SIZE};

verus! {

/// Side of an obstacle's square box, in micro-pixels.
pub const OBSTACLE_SIZE: i64 = 5 * UNIT;

/// Largest magnitude of a rebound speed drawn after a hit, in pixels per second.
pub const REBOUND_RANGE: i32 = 200;

/// Largest magnitude of an obstacle's sideways velocity, in milli-pixels per second.
pub const REBOUND_LIMIT: i64 = 200_000;

/// An obstacle on the track: its centre in micro-pixels, its sideways
/// velocity in milli-pixels per second, and whether the car has hit it.
#[derive(Clone, Copy, Debug, PartialEq, Eq)]
pub struct Obstacle {
    pub x: i64,
    pub y: i64,
    pub velocity_x: i64,
    pub destroyed: bool,
}

/// What one frame did to an obstacle.
#[derive(Clone, Copy, Debug, PartialEq, Eq)]
pub struct ObstacleTick {
    /// The obstacle after the frame, or `None` when it left the track.
    pub slot: Option<Obstacle>,
    /// The car hit it during this frame.
    pub scored: bool,
    /// It bounced off a track wall during this frame.
    pub bounced: bool,
}

impl Obstacle {
    /// A position in the representable band and a bounded sideways velocity.
    pub open spec fn wf(&self) -> bool {
        &&& in_band(self.x as int)
        &&& in_band(self.y as int)
        &&& -REBOUND_LIMIT <= self.velocity_x <= REBOUND_LIMIT
    }

    /// The obstacle's square box, centred on it.
    pub open spec fn rect_spec(&self) -> Rect {
        Rect {
            x: (self.x - OBSTACLE_SIZE / 2) as i64,
            y: (self.y - OBSTACLE_SIZE / 2) as i64,
            w: OBSTACLE_SIZE,
            h: OBSTACLE_SIZE,
        }
    }

    /// Below the screen, more than a quarter screen above it, or left or
    /// right of it.
    pub open spec fn out_of_bounds_spec(&self) -> bool {
        ||| self.y > SCREEN_SIZE * UNIT
        ||| self.y < -(SCREEN_SIZE * UNIT / 4)
        ||| self.x < 0
        ||| self.x > SCREEN_SIZE * UNIT
    }

    /// The obstacle after its vertical motion: an intact one comes down the
    /// track at the car's speed, a destroyed one goes back up.
    pub open spec fn fallen(self, car_speed: int, dt: u32) -> Obstacle {
        let d = if self.destroyed {
            -(car_speed * dt)
        } else {
            car_speed * dt
        };
        Obstacle { y: clamp_position(self.y + d) as i64, ..self }
    }

    /// A destroyed obstacle touching a track wall reverses its velocity.
    pub open spec fn bounces(self) -> bool {
        self.destroyed && Background::hits_wall(self.rect_spec())
    }

    /// The obstacle after its sideways motion.
    pub open spec fn drifted(self, dt: u32) -> Obstacle {
        Obstacle { x: clamp_position(self.x + self.velocity_x * dt) as i64, ..self }
    }

    /// One frame of an obstacle's life: fall, bounce off a wall, drift, then
    /// either be hit by the car (only if still intact) or, failing that, be
    /// removed if it has left the track.
    pub open spec fn tick_spec(
        self,
        car_speed: int,
        car_box: Rect,
        dt: u32,
        rebound: i32,
    ) -> ObstacleTick {
        let a = self.fallen(car_speed, dt);
        let bounced = a.bounces();
        let b = if bounced {
            Obstacle { velocity_x: (-a.velocity_x) as i64, ..a }
        } else {
            a
        };
        let c = b.drifted(dt);
        if !c.destroyed && c.rect_spec().overlaps(car_box) {
            ObstacleTick {
                slot: Some(
                    Obstacle { velocity_x: (rebound * 1000) as i64, destroyed: true, ..c },
                ),
                scored: true,
                bounced,
            }
        } else if c.out_of_bounds_spec() {
            ObstacleTick { slot: None, scored: false, bounced }
        } else {
            ObstacleTick { slot: Some(c), scored: false, bounced }
        }
    }

    /// An intact, motionless obstacle at `(x, y)`.
    pub fn new(x: i64, y: i64) -> (r: Obstacle)
        requires
            in_band(x as int),
            in_band(y as int),
        ensures
            r.wf(),
            r == (Obstacle { x, y, velocity_x: 0, destroyed: false }),
    {
        Obstacle { x, y, velocity_x: 0, destroyed: false }
    }

    /// Whether the obstacle has left the track and can be removed.
    pub fn is_out_of_bounds(&self) -> (r: bool)
        ensures
            r == self.out_of_bounds_spec(),
    {
        self.y > SCREEN_SIZE * UNIT || self.y < -(SCREEN_SIZE * UNIT / 4) || self.x < 0
            || self.x > SCREEN_SIZE * UNIT
    }

    /// The obstacle's box, for collisions and drawing.
    pub fn get_rect(&self) -> (r: Rect)
        requires
            self.wf(),
        ensures
            r == self.rect_spec(),
            r.wf(),
    {
        Rect {
            x: self.x - OBSTACLE_SIZE / 2,
            y: self.y - OBSTACLE_SIZE / 2,
            w: OBSTACLE_SIZE,
            h: OBSTACLE_SIZE,
        }
    }

    /// Runs one frame of `dt` milliseconds for this obstacle on `track`, with the car
    /// moving at `car_speed` and occupying `car_box`. `rebound` is the
    /// sideways speed, in pixels per second, given to the obstacle if the car
    /// hits it now.
    pub fn tick(
        &self,
        track: &Background,
        car_speed: i64,
        car_box: Rect,
        dt: u32,
        rebound: i32,
    ) -> (r: ObstacleTick)
        requires
            self.wf(),
            car_box.wf(),
            0 <= car_speed <= CAR_MAX_SPEED,
            -REBOUND_RANGE <= rebound < REBOUND_RANGE,
        ensures
            r == self.tick_spec(car_speed as int, car_box, dt, rebound),
            r.slot is Some ==> r.slot->0.wf(),
            r.scored ==> !self.destroyed,
            self.destroyed ==> (r.slot is Some ==> r.slot->0.destroyed),
    {
        let mut o = *self;
        let fall = travel(car_speed, dt);
        o.y = if o.destroyed {
            shift(o.y, -fall)
        } else {
            shift(o.y, fall)
        };
        let bounced = o.destroyed && track.is_colliding_with(o.get_rect());
        if bounced {
            o.velocity_x = -o.velocity_x;
        }
        o.x = shift(o.x, travel(o.velocity_x, dt));
        if !o.destroyed && o.get_rect().is_colliding_with(car_box) {
            o.velocity_x = rebound as i64 * 1000;
            o.destroyed = true;
            ObstacleTick { slot: Some(o), scored: true, bounced }
        } else if o.is_out_of_bounds() {
            ObstacleTick { slot: None, scored: false, bounced }
        } else {
            ObstacleTick { slot: Some(o), scored: false, bounced }
        }
    }
}

} // verus!
