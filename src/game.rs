use vstd::prelude::*;
use vstd::array::spec_array_update;
use crate::car::{Buttons, Car, CAR_MAX_SPEED, CAR_MIN_SPEED};
use crate::obstacle::{Obstacle, ObstacleTick, REBOUND_RANGE};
use crate::timer::Timer;
use crate::track::Background;
use crate::units::UNIT;

verus! {

/// Number of obstacle slots.
pub const POOL_CAPACITY: usize = 16;

/// Points for hitting an obstacle.
pub const SCORE_PER_HIT: u32 = 100;

/// Length of a game, in milliseconds.
pub const GAME_DURATION: u32 = 30_000;

/// Frames per second of the host.
pub const FPS: u64 = 60;

/// Frames during which the instructions are shown.
pub const INSTRUCTION_FRAMES: u64 = FPS * 5;

/// Everything the host supplies for one frame.
#[derive(Clone, Copy, Debug, PartialEq, Eq)]
pub struct FrameInput {
    /// Milliseconds since the previous frame.
    pub dt: u32,
    /// Frames run before this one.
    pub frame_count: u64,
    /// The buttons held.
    pub buttons: Buttons,
    /// Pixel column for an obstacle spawned in this frame, drawn uniformly
    /// from the band between the track walls.
    pub spawn_x: u8,
    /// Rebound speeds, in pixels per second, one per slot, each drawn
    /// uniformly from `[-REBOUND_RANGE, REBOUND_RANGE)`; the one of a slot is
    /// used if the car hits that slot's obstacle in this frame.
    pub rebounds: [i32; POOL_CAPACITY],
}

/// What the host should present after a frame.
#[derive(Clone, Copy, Debug, PartialEq, Eq)]
pub struct FrameReport {
    /// The countdown had run out: only the final score is shown.
    pub game_over: bool,
    /// Hit sounds to play: one per obstacle hit and one per wall bounce.
    pub hit_sounds: u32,
    /// The instructions are shown over this frame.
    pub show_instructions: bool,
}

/// The whole game: the car, the track, the obstacle slots, the score and the
/// countdown.
#[derive(Clone, Copy, Debug, PartialEq, Eq)]
pub struct Game {
    pub car: Car,
    pub background: Background,
    pub obstacles: [Option<Obstacle>; POOL_CAPACITY],
    pub score: u32,
    pub game_timer: Timer,
}

/// Every slot holds an obstacle.
pub open spec fn pool_full(slots: Seq<Option<Obstacle>>) -> bool {
    forall|j: int| 0 <= j < slots.len() ==> slots[j] is Some
}

/// `i` is the lowest empty slot.
pub open spec fn is_first_free(slots: Seq<Option<Obstacle>>, i: int) -> bool {
    &&& 0 <= i < slots.len()
    &&& slots[i] is None
    &&& forall|j: int| 0 <= j < i ==> slots[j] is Some
}

/// The number of occupied slots among the first `n`.
pub open spec fn live_count(slots: Seq<Option<Obstacle>>, n: int) -> nat
    decreases n,
{
    if n <= 0 {
        0
    } else {
        live_count(slots, n - 1) + if slots[n - 1] is Some {
            1nat
        } else {
            0nat
        }
    }
}

/// Frames between spawn attempts at car speed `speed`: 5 at top speed, more
/// when slower, the fraction of 100 rounded down.
pub fn spawn_interval(speed: i64) -> (r: u64)
    requires
        CAR_MIN_SPEED <= speed <= CAR_MAX_SPEED,
    ensures
        r == spawn_interval_spec(speed as int),
        5 <= r <= 105,
{
    proof {
        assert(0 <= 100 * (CAR_MAX_SPEED - speed) / CAR_MAX_SPEED as int <= 100) by (nonlinear_arith)
            requires
                CAR_MIN_SPEED <= speed <= CAR_MAX_SPEED,
        ;
    }
    (100 * (CAR_MAX_SPEED - speed) / CAR_MAX_SPEED + 5) as u64
}

/// Frames between spawn attempts at `speed`: 5 at top speed, more when slower.
pub open spec fn spawn_interval_spec(speed: int) -> int {
    100 * (CAR_MAX_SPEED - speed) / CAR_MAX_SPEED as int + 5
}

/// `min(s, u32::MAX)`.
pub open spec fn saturate(s: int) -> int {
    if s > u32::MAX {
        u32::MAX as int
    } else {
        s
    }
}

/// The obstacle placed by a spawn at pixel column `x_px`.
pub open spec fn spawned_obstacle(x_px: u8) -> Obstacle {
    Obstacle { x: (x_px * UNIT) as i64, y: 0, velocity_x: 0, destroyed: false }
}

impl Game {
    /// Every part well formed, each occupied slot included.
    pub open spec fn wf(&self) -> bool {
        &&& self.car.wf()
        &&& self.background.wf()
        &&& self.game_timer.wf()
        &&& forall|i: int|
            0 <= i < POOL_CAPACITY ==> (#[trigger] self.obstacles@[i] is Some
                ==> self.obstacles@[i]->0.wf())
    }

    /// The game after a spawn at pixel column `x_px`: the lowest empty slot
    /// receives a new obstacle; a full pool is left as it is.
    pub open spec fn spawned(self, x_px: u8) -> Game {
        if pool_full(self.obstacles@) {
            self
        } else {
            let i = choose|i: int| is_first_free(self.obstacles@, i);
            Game {
                obstacles: spec_array_update(self.obstacles, i, Some(spawned_obstacle(x_px))),
                ..self
            }
        }
    }

    /// What this frame does to slot `i`, or `None` for an empty slot.
    pub open spec fn slot_tick(self, i: int, dt: u32, rebounds: Seq<i32>) -> Option<
        ObstacleTick,
    > {
        match self.obstacles@[i] {
            None => None,
            Some(o) => Some(
                o.tick_spec(self.car.speed as int, self.car.rect_spec(), dt, rebounds[i]),
            ),
        }
    }

    /// Slot `i` after this frame.
    pub open spec fn slot_after(self, i: int, dt: u32, rebounds: Seq<i32>) -> Option<Obstacle> {
        match self.slot_tick(i, dt, rebounds) {
            None => None,
            Some(t) => t.slot,
        }
    }

    /// Obstacles hit by the car this frame among the first `n` slots.
    pub open spec fn hits(self, n: int, dt: u32, rebounds: Seq<i32>) -> nat
        decreases n,
    {
        if n <= 0 {
            0
        } else {
            self.hits(n - 1, dt, rebounds) + match self.slot_tick(n - 1, dt, rebounds) {
                Some(t) => if t.scored {
                    1nat
                } else {
                    0nat
                },
                None => 0nat,
            }
        }
    }

    /// Hit sounds caused this frame by the first `n` slots.
    pub open spec fn sounds(self, n: int, dt: u32, rebounds: Seq<i32>) -> nat
        decreases n,
    {
        if n <= 0 {
            0
        } else {
            self.sounds(n - 1, dt, rebounds) + match self.slot_tick(n - 1, dt, rebounds) {
                Some(t) => (if t.scored {
                    1nat
                } else {
                    0nat
                }) + (if t.bounced {
                    1nat
                } else {
                    0nat
                }),
                None => 0nat,
            }
        }
    }

    /// `after` is this game once all obstacles have run a frame: each slot
    /// as its obstacle's frame leaves it, and the score raised for each hit.
    pub open spec fn ticked_into(self, after: Game, dt: u32, rebounds: Seq<i32>) -> bool {
        &&& forall|i: int|
            0 <= i < POOL_CAPACITY ==> #[trigger] after.obstacles@[i] == self.slot_after(
                i,
                dt,
                rebounds,
            )
        &&& after.score == saturate(self.score + SCORE_PER_HIT * self.hits(
            POOL_CAPACITY as int,
            dt,
            rebounds,
        ))
        &&& after.car == self.car
        &&& after.background == self.background
        &&& after.game_timer == self.game_timer
    }

    /// A spawn is attempted in frame `frame_count` when it is a multiple of
    /// the spawn interval at the car's current speed.
    pub open spec fn spawn_due(self, frame_count: u64) -> bool {
        frame_count as int % spawn_interval_spec(self.car.speed as int) == 0
    }

    /// The game of a running frame once the spawn, the track and the car have
    /// had their turn, before the obstacles move.
    pub open spec fn prepared(self, input: FrameInput) -> Game {
        let g = if self.spawn_due(input.frame_count) {
            self.spawned(input.spawn_x)
        } else {
            self
        };
        Game {
            background: g.background.scrolled_by(input.dt, g.car.speed as int),
            car: g.car.updated(input.buttons, input.dt),
            ..g
        }
    }

    /// A fresh game: the car at rest at the bottom, no obstacles, no score,
    /// and the full countdown ahead.
    pub fn new() -> (r: Game)
        ensures
            r.wf(),
            r.car == Car::new_spec(),
            r.background.y == 0,
            forall|i: int| 0 <= i < POOL_CAPACITY ==> r.obstacles@[i] is None,
            r.score == 0,
            r.game_timer == (Timer { wait_time: GAME_DURATION, elapsed_time: 0, triggered: false }),
    {
        Game {
            car: Car::new(),
            obstacles: [None; POOL_CAPACITY],
            background: Background::new(),
            score: 0,
            game_timer: Timer::new(GAME_DURATION),
        }
    }

    /// Puts a new obstacle at pixel column `x_px` and the top of the screen
    /// into the lowest empty slot. With every slot taken nothing changes.
    pub fn spawn_obstacle(&mut self, x_px: u8)
        requires
            old(self).wf(),
        ensures
            final(self).wf(),
            *final(self) == old(self).spawned(x_px),
            pool_full(old(self).obstacles@) ==> *final(self) == *old(self),
    {
        let mut i: usize = 0;
        while i < POOL_CAPACITY
            invariant
                0 <= i <= POOL_CAPACITY,
                forall|j: int| 0 <= j < i ==> self.obstacles@[j] is Some,
                self == old(self),
                old(self).wf(),
            decreases POOL_CAPACITY - i,
        {
            if self.obstacles[i].is_none() {
                proof {
                    assert(is_first_free(self.obstacles@, i as int));
                    let c = choose|c: int| is_first_free(self.obstacles@, c);
                    assert(c == i) by {
                        if c < i {
                            assert(self.obstacles@[c] is Some);
                        } else if c > i {
                            assert(self.obstacles@[i as int] is Some);
                        }
                    }
                }
                let o = Obstacle::new(x_px as i64 * UNIT, 0);
                self.obstacles[i] = Some(o);
                assert(self.obstacles@ =~= old(self).spawned(x_px).obstacles@);
                assert forall|j: int| 0 <= j < POOL_CAPACITY && (#[trigger] self.obstacles@[j] is Some) implies self.obstacles@[j]->0.wf() by {
                    if j != i {
                        assert(self.obstacles@[j] == old(self).obstacles@[j]);
                    }
                }
                return;
            }
            i = i + 1;
        }
    }

    /// Runs one frame of `dt` milliseconds for every obstacle, in slot
    /// order: each moves, bounces, is hit or is removed, and the score rises
    /// by `SCORE_PER_HIT` for each hit, saturating. `rebounds[i]` is the
    /// rebound speed for slot `i`. Returns the number of hit sounds due.
    pub fn process_obstacles(&mut self, dt: u32, rebounds: &[i32; POOL_CAPACITY]) -> (r: u32)
        requires
            old(self).wf(),
            forall|i: int|
                0 <= i < POOL_CAPACITY ==> -REBOUND_RANGE <= #[trigger] rebounds@[i]
                    < REBOUND_RANGE,
        ensures
            final(self).wf(),
            old(self).ticked_into(*final(self), dt, rebounds@),
            r == old(self).sounds(POOL_CAPACITY as int, dt, rebounds@),
    {
        let ghost start = *self;
        let car_box = self.car.get_rect();
        let mut sounds: u32 = 0;
        let mut i: usize = 0;
        while i < POOL_CAPACITY
            invariant
                0 <= i <= POOL_CAPACITY,
                start.wf(),
                self.wf(),
                car_box == start.car.rect_spec(),
                self.car == start.car,
                self.background == start.background,
                self.game_timer == start.game_timer,
                forall|j: int|
                    0 <= j < POOL_CAPACITY ==> -REBOUND_RANGE <= #[trigger] rebounds@[j]
                        < REBOUND_RANGE,
                forall|j: int| 0 <= j < i ==> #[trigger] self.obstacles@[j] == start.slot_after(j, dt, rebounds@),
                forall|j: int| i <= j < POOL_CAPACITY ==> #[trigger] self.obstacles@[j] == start.obstacles@[j],
                self.score == saturate(start.score + SCORE_PER_HIT * start.hits(i as int, dt, rebounds@)),
                sounds == start.sounds(i as int, dt, rebounds@),
                sounds <= 2 * i,
            decreases POOL_CAPACITY - i,
        {
            if let Some(o) = self.obstacles[i] {
                assert(self.obstacles@[i as int] is Some);
                let t = o.tick(&self.background, self.car.speed, car_box, dt, rebounds[i]);
                self.obstacles[i] = t.slot;
                if t.scored {
                    self.score = self.score.saturating_add(SCORE_PER_HIT);
                    sounds = sounds + 1;
                }
                if t.bounced {
                    sounds = sounds + 1;
                }
            }
            i = i + 1;
        }
        sounds
    }

    /// Runs one frame. While the countdown runs: maybe spawn an obstacle,
    /// scroll the track at the car's speed, steer the car, run the
    /// obstacles with the car's new speed and box, then advance the
    /// countdown. Once it has run out nothing moves any more. The report says
    /// what to present.
    pub fn run_game_frame(&mut self, input: &FrameInput) -> (r: FrameReport)
        requires
            old(self).wf(),
            forall|i: int|
                0 <= i < POOL_CAPACITY ==> -REBOUND_RANGE <= #[trigger] input.rebounds@[i]
                    < REBOUND_RANGE,
        ensures
            final(self).wf(),
            r.show_instructions == (input.frame_count < INSTRUCTION_FRAMES),
            r.game_over == old(self).game_timer.triggered,
            old(self).game_timer.triggered ==> *final(self) == *old(self) && r.hit_sounds == 0,
            !old(self).game_timer.triggered ==> {
                let p = old(self).prepared(*input);
                &&& p.ticked_into(
                    (Game { game_timer: p.game_timer, ..*final(self) }),
                    input.dt,
                    input.rebounds@,
                )
                &&& final(self).game_timer == old(self).game_timer.updated(input.dt)
                &&& r.hit_sounds == p.sounds(POOL_CAPACITY as int, input.dt, input.rebounds@)
            },
    {
        let show_instructions = input.frame_count < INSTRUCTION_FRAMES;
        if self.game_timer.triggered {
            return FrameReport { game_over: true, hit_sounds: 0, show_instructions };
        }
        let interval = spawn_interval(self.car.speed);
        if input.frame_count % interval == 0 {
            self.spawn_obstacle(input.spawn_x);
        }
        self.background.process(input.dt, self.car.speed);
        self.car.update(input.buttons, input.dt);
        let hit_sounds = self.process_obstacles(input.dt, &input.rebounds);
        self.game_timer.update(input.dt);
        FrameReport { game_over: false, hit_sounds, show_instructions }
    }
}

/// Among the first `n` slots at most `n` are occupied.
proof fn lemma_live_count_bounded(slots: Seq<Option<Obstacle>>, n: int)
    requires
        0 <= n <= slots.len(),
    ensures
        live_count(slots, n) <= n,
    decreases n,
{
    if n > 0 {
        lemma_live_count_bounded(slots, n - 1);
    }
}

/// A game never holds more than `POOL_CAPACITY` live obstacles, whatever
/// spawns and frames led to it.
pub proof fn live_obstacles_bounded(g: Game)
    ensures
        live_count(g.obstacles@, POOL_CAPACITY as int) <= POOL_CAPACITY,
{
    lemma_live_count_bounded(g.obstacles@, POOL_CAPACITY as int);
}

/// An obstacle that has already been hit scores nothing in a frame, and if
/// it stays on the track it stays destroyed.
pub proof fn destroyed_obstacle_never_scores(g: Game, i: int, dt: u32, rebounds: Seq<i32>)
    requires
        0 <= i < POOL_CAPACITY,
        g.obstacles@[i] is Some,
        g.obstacles@[i]->0.destroyed,
    ensures
        !g.slot_tick(i, dt, rebounds)->0.scored,
        g.slot_after(i, dt, rebounds) is Some ==> g.slot_after(i, dt, rebounds)->0.destroyed,
{
}

/// An obstacle goes from intact to destroyed only by a hit, which scores.
pub proof fn destruction_only_by_hit(g: Game, i: int, dt: u32, rebounds: Seq<i32>)
    requires
        0 <= i < POOL_CAPACITY,
        g.obstacles@[i] is Some,
        !g.obstacles@[i]->0.destroyed,
        g.slot_after(i, dt, rebounds) is Some,
        g.slot_after(i, dt, rebounds)->0.destroyed,
    ensures
        g.slot_tick(i, dt, rebounds)->0.scored,
{
}

} // verus!
