use car_game::car::{Buttons, Car, CAR_MAX_SPEED, CAR_MIN_SPEED};
use car_game::game::{spawn_interval, FrameInput, Game, POOL_CAPACITY, SCORE_PER_HIT};
use car_game::geometry::Rect;
use car_game::obstacle::Obstacle;
use car_game::render::{DrawRect, Palette};
use car_game::timer::Timer;
use car_game::track::Background;
use car_game::UNIT;

const NO_BUTTONS: Buttons = Buttons { left: false, right: false, up: false, down: false };

fn frame(dt: u32, frame_count: u64, buttons: Buttons) -> FrameInput {
    FrameInput { dt, frame_count, buttons, spawn_x: 80, rebounds: [150; POOL_CAPACITY] }
}

fn live(g: &Game) -> usize {
    g.obstacles.iter().filter(|o| o.is_some()).count()
}

#[test]
fn spawn_into_empty_pool() {
    let mut g = Game::new();
    g.spawn_obstacle(50);
    assert_eq!(live(&g), 1);
    let o = g.obstacles[0].unwrap();
    assert_eq!(o.y, 0);
    assert!(!o.destroyed);
    assert_eq!(o.velocity_x, 0);
    assert_eq!(o.x, 50 * UNIT);
    assert!(o.x >= 16 * UNIT && o.x < 144 * UNIT);
}

#[test]
fn spawn_takes_lowest_free_slot() {
    let mut g = Game::new();
    g.spawn_obstacle(20);
    g.spawn_obstacle(30);
    g.spawn_obstacle(40);
    g.obstacles[1] = None;
    g.spawn_obstacle(99);
    assert_eq!(g.obstacles[1].unwrap().x, 99 * UNIT);
    assert_eq!(g.obstacles[2].unwrap().x, 40 * UNIT);
    assert_eq!(live(&g), 3);
}

#[test]
fn spawn_into_full_pool_changes_nothing() {
    let mut g = Game::new();
    for i in 0..POOL_CAPACITY {
        g.spawn_obstacle(20 + i as u8);
    }
    assert_eq!(live(&g), POOL_CAPACITY);
    let before = g;
    g.spawn_obstacle(100);
    assert_eq!(g, before);
}

#[test]
fn touching_edges_overlap() {
    let a = Rect { x: 0, y: 0, w: 5 * UNIT, h: 5 * UNIT };
    let b = Rect { x: 5 * UNIT, y: 5 * UNIT, w: 5 * UNIT, h: 5 * UNIT };
    assert!(a.is_colliding_with(b));
    assert!(b.is_colliding_with(a));
    let c = Rect { x: 5 * UNIT + 1, y: 0, w: UNIT, h: UNIT };
    assert!(!a.is_colliding_with(c));
    assert_eq!(a.right(), 5 * UNIT);
    assert_eq!(b.bottom(), 10 * UNIT);
}

#[test]
fn touching_obstacle_is_hit_once() {
    let mut g = Game::new();
    // The car's box spans rows 146 to 154; this obstacle's box ends at row 146.
    g.obstacles[3] = Some(Obstacle::new(80 * UNIT, 143 * UNIT + UNIT / 2));
    assert!(g.obstacles[3].unwrap().get_rect().is_colliding_with(g.car.get_rect()));
    let mut rebounds = [0; POOL_CAPACITY];
    rebounds[3] = -120;
    let sounds = g.process_obstacles(0, &rebounds);
    let o = g.obstacles[3].unwrap();
    assert!(o.destroyed);
    assert_eq!(o.velocity_x, -120_000);
    assert_eq!(g.score, SCORE_PER_HIT);
    assert_eq!(sounds, 1);
    // Still touching the car, but already destroyed: no second score.
    let sounds = g.process_obstacles(0, &[0; POOL_CAPACITY]);
    assert_eq!(g.score, SCORE_PER_HIT);
    assert_eq!(sounds, 0);
    assert!(g.obstacles[3].unwrap().destroyed);
}

#[test]
fn destroyed_obstacle_below_screen_is_removed() {
    for x in [0i64, 80, 150] {
        let mut g = Game::new();
        let mut o = Obstacle::new(x * UNIT, 170 * UNIT);
        o.destroyed = true;
        g.obstacles[0] = Some(o);
        g.process_obstacles(0, &[0; POOL_CAPACITY]);
        assert_eq!(g.obstacles[0], None);
        assert_eq!(g.score, 0);
    }
}

#[test]
fn out_of_bounds_edges() {
    assert!(!Obstacle::new(80 * UNIT, 160 * UNIT).is_out_of_bounds());
    assert!(Obstacle::new(80 * UNIT, 160 * UNIT + 1).is_out_of_bounds());
    assert!(!Obstacle::new(80 * UNIT, -40 * UNIT).is_out_of_bounds());
    assert!(Obstacle::new(80 * UNIT, -40 * UNIT - 1).is_out_of_bounds());
    assert!(Obstacle::new(-1, 0).is_out_of_bounds());
    assert!(Obstacle::new(160 * UNIT + 1, 0).is_out_of_bounds());
    assert!(!Obstacle::new(0, 0).is_out_of_bounds());
}

#[test]
fn spawn_interval_bounds() {
    assert_eq!(spawn_interval(CAR_MAX_SPEED), 5);
    assert_eq!(spawn_interval(CAR_MIN_SPEED), 103);
    assert_eq!(spawn_interval(150_000), 55);
}

#[test]
fn car_speed_is_clamped() {
    let mut car = Car::new();
    assert_eq!(car.speed, CAR_MIN_SPEED);
    car.update(Buttons { down: true, ..NO_BUTTONS }, 1000);
    assert_eq!(car.speed, CAR_MIN_SPEED);
    car.update(Buttons { up: true, ..NO_BUTTONS }, 1000);
    assert_eq!(car.speed, CAR_MIN_SPEED + 50_000);
    car.update(Buttons { up: true, ..NO_BUTTONS }, u32::MAX);
    assert_eq!(car.speed, CAR_MAX_SPEED);
    for dt in [0u32, 1, 16, 33, 1000] {
        for b in [NO_BUTTONS, Buttons { up: true, ..NO_BUTTONS }, Buttons { down: true, ..NO_BUTTONS }] {
            car.update(b, dt);
            assert!(car.speed >= CAR_MIN_SPEED && car.speed <= CAR_MAX_SPEED);
        }
    }
}

#[test]
fn car_steering_priorities() {
    let mut car = Car::new();
    let x = car.x;
    car.update(Buttons { left: true, right: true, up: true, down: true }, 100);
    assert_eq!(car.x, x - 15 * UNIT);
    assert_eq!(car.speed, CAR_MIN_SPEED + 5_000);
    car.update(Buttons { right: true, down: true, ..NO_BUTTONS }, 100);
    assert_eq!(car.x, x);
    assert_eq!(car.speed, CAR_MIN_SPEED);
    assert_eq!(car.y, 150 * UNIT);
}

#[test]
fn timer_stays_triggered() {
    let mut t = Timer::new(1000);
    t.update(400);
    assert!(!t.triggered);
    assert_eq!(t.remaining_time(), 600);
    t.update(600);
    assert!(t.triggered);
    assert_eq!(t.remaining_time(), 0);
    for dt in [0u32, 5, 10_000] {
        t.update(dt);
        assert!(t.triggered);
        assert_eq!(t.elapsed_time, 1000);
    }
    let mut late = Timer::new(1000);
    late.update(1500);
    assert!(late.triggered);
    assert_eq!(late.remaining_time(), -500);
}

#[test]
fn track_scroll_subtracts_once() {
    let mut bg = Background::new();
    bg.process(100, 100_000);
    assert_eq!(bg.y, 10 * UNIT);
    bg.process(100, 100_000);
    assert_eq!(bg.y, 4 * UNIT);
    let mut fast = Background::new();
    fast.process(1000, CAR_MAX_SPEED);
    assert_eq!(fast.y, 300 * UNIT - 16 * UNIT);
}

#[test]
fn track_walls() {
    let bg = Background::new();
    let at = |x: i64| Rect { x: x * UNIT, y: 50 * UNIT, w: UNIT, h: UNIT };
    assert!(bg.is_colliding_with(at(11)));
    assert!(bg.is_colliding_with(at(20)));
    assert!(!bg.is_colliding_with(at(21)));
    assert!(!bg.is_colliding_with(at(80)));
    assert!(bg.is_colliding_with(at(139)));
    assert!(bg.is_colliding_with(at(148)));
    assert!(!bg.is_colliding_with(at(149)));
}

#[test]
fn destroyed_obstacle_bounces_off_wall() {
    let mut g = Game::new();
    let mut o = Obstacle::new(18 * UNIT, 50 * UNIT);
    o.destroyed = true;
    o.velocity_x = -100_000;
    g.obstacles[0] = Some(o);
    let sounds = g.process_obstacles(10, &[0; POOL_CAPACITY]);
    let o = g.obstacles[0].unwrap();
    assert_eq!(o.velocity_x, 100_000);
    assert_eq!(o.x, 19 * UNIT);
    assert_eq!(o.y, 50 * UNIT - 50_000);
    assert_eq!(sounds, 1);
    assert_eq!(g.score, 0);
}

#[test]
fn intact_obstacle_falls_with_car_speed() {
    let mut g = Game::new();
    g.obstacles[0] = Some(Obstacle::new(40 * UNIT, 0));
    g.process_obstacles(1000, &[0; POOL_CAPACITY]);
    assert_eq!(g.obstacles[0].unwrap().y, 5 * UNIT);
    assert_eq!(g.obstacles[0].unwrap().x, 40 * UNIT);
}

#[test]
fn pool_never_exceeds_capacity() {
    let mut g = Game::new();
    for n in 0..2000u64 {
        let b = Buttons { up: n % 3 == 0, ..NO_BUTTONS };
        let mut input = frame(16, n, b);
        input.spawn_x = 16 + (n % 128) as u8;
        g.run_game_frame(&input);
        assert!(live(&g) <= POOL_CAPACITY);
    }
}

#[test]
fn frame_spawns_on_interval() {
    let mut g = Game::new();
    let r = g.run_game_frame(&frame(16, 0, NO_BUTTONS));
    assert!(!r.game_over);
    assert!(r.show_instructions);
    assert_eq!(live(&g), 1);
    g.run_game_frame(&frame(16, 1, NO_BUTTONS));
    assert_eq!(live(&g), 1);
    g.run_game_frame(&frame(16, 103, NO_BUTTONS));
    assert_eq!(live(&g), 2);
    assert_eq!(g.game_timer.elapsed_time, 48);
}

#[test]
fn game_over_freezes_everything() {
    let mut g = Game::new();
    let r = g.run_game_frame(&frame(30_000, 1, NO_BUTTONS));
    assert!(!r.game_over);
    assert!(g.game_timer.triggered);
    let before = g;
    let r = g.run_game_frame(&frame(16, 400, Buttons { left: true, up: true, ..NO_BUTTONS }));
    assert!(r.game_over);
    assert!(!r.show_instructions);
    assert_eq!(r.hit_sounds, 0);
    assert_eq!(g, before);
}

#[test]
fn score_saturates() {
    let mut g = Game::new();
    g.score = u32::MAX - 50;
    g.obstacles[0] = Some(Obstacle::new(80 * UNIT, 150 * UNIT));
    g.process_obstacles(0, &[0; POOL_CAPACITY]);
    assert_eq!(g.score, u32::MAX);
}

#[test]
fn car_sprite_layout() {
    let car = Car::new();
    let s = car.sprite();
    assert_eq!(s.len(), 6);
    assert_eq!(s[0], DrawRect { x: 76, y: 147, w: 2, h: 2, color: Palette::P2 });
    assert_eq!(s[1], DrawRect { x: 82, y: 147, w: 2, h: 2, color: Palette::P2 });
    assert_eq!(s[2], DrawRect { x: 76, y: 151, w: 2, h: 2, color: Palette::P2 });
    assert_eq!(s[3], DrawRect { x: 82, y: 151, w: 2, h: 2, color: Palette::P2 });
    assert_eq!(s[4], DrawRect { x: 77, y: 146, w: 6, h: 8, color: Palette::P3 });
    assert_eq!(s[5], DrawRect { x: 78, y: 147, w: 4, h: 2, color: Palette::P2 });
}

#[test]
fn track_tiles_layout() {
    let mut bg = Background::new();
    bg.y = 3 * UNIT + UNIT / 2;
    let t = bg.tiles();
    assert_eq!(t.len(), 48);
    assert_eq!(t[0], DrawRect { x: 12, y: -12, w: 8, h: 8, color: Palette::P2 });
    assert_eq!(t[1], DrawRect { x: 12, y: -4, w: 8, h: 8, color: Palette::P3 });
    assert_eq!(t[2], DrawRect { x: 12, y: 3, w: 8, h: 8, color: Palette::P2 });
    assert_eq!(t[24], DrawRect { x: 140, y: -12, w: 8, h: 8, color: Palette::P2 });
    assert_eq!(t[47], DrawRect { x: 140, y: 171, w: 8, h: 8, color: Palette::P3 });
}

#[test]
fn obstacle_box_on_screen() {
    let o = Obstacle::new(40 * UNIT, 10 * UNIT);
    let r = o.get_rect();
    assert_eq!(r, Rect { x: 37 * UNIT + UNIT / 2, y: 7 * UNIT + UNIT / 2, w: 5 * UNIT, h: 5 * UNIT });
    assert_eq!(r.to_screen_rect(Palette::P2), DrawRect { x: 37, y: 7, w: 5, h: 5, color: Palette::P2 });
    let up = Obstacle::new(40 * UNIT, 0).get_rect().to_screen_rect(Palette::P2);
    assert_eq!(up.y, -2);
}
