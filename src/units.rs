use vstd::prelude::*;

verus! {

/// Micro-pixels in one pixel.
pub const UNIT: i64 = 1_000_000;

/// Width and height of the square screen, in pixels.
pub const SCREEN_SIZE: i64 = 160;

/// Positions are kept within `[-POSITION_LIMIT, POSITION_LIMIT]` micro-pixels.
pub const POSITION_LIMIT: i64 = 1_000_000_000_000_000_000;

/// Largest distance, in micro-pixels, that one step of motion may add.
pub const STEP_LIMIT: i64 = 2_000_000_000_000_000;

/// Largest magnitude of any velocity, in milli-pixels per second.
pub const VELOCITY_LIMIT: i64 = 300_000;

/// Distance in micro-pixels covered at `velocity` milli-pixels per second
/// during `dt` milliseconds.
pub fn travel(velocity: i64, dt: u32) -> (r: i64)
    requires
        -VELOCITY_LIMIT <= velocity <= VELOCITY_LIMIT,
    ensures
        r == velocity * dt,
        -STEP_LIMIT <= r <= STEP_LIMIT,
{
    proof {
        assert(-VELOCITY_LIMIT * u32::MAX <= velocity * dt <= VELOCITY_LIMIT * u32::MAX)
            by (nonlinear_arith)
            requires
                -VELOCITY_LIMIT <= velocity <= VELOCITY_LIMIT,
                0 <= dt <= u32::MAX,
        ;
    }
    velocity * dt as i64
}

/// A position clamped into the representable band.
pub open spec fn clamp_position(p: int) -> int {
    if p > POSITION_LIMIT {
        POSITION_LIMIT as int
    } else if p < -POSITION_LIMIT {
        -POSITION_LIMIT
    } else {
        p
    }
}

/// Whether `p` lies in the representable band.
pub open spec fn in_band(p: int) -> bool {
    -POSITION_LIMIT <= p <= POSITION_LIMIT
}

/// Moves position `p` by `d`, saturating at the edges of the band.
pub fn shift(p: i64, d: i64) -> (r: i64)
    requires
        in_band(p as int),
        -STEP_LIMIT <= d <= STEP_LIMIT,
    ensures
        r as int == clamp_position(p + d),
        in_band(r as int),
{
    let s = p + d;
    if s > POSITION_LIMIT {
        POSITION_LIMIT
    } else if s < -POSITION_LIMIT {
        -POSITION_LIMIT
    } else {
        s
    }
}

} // verus!
