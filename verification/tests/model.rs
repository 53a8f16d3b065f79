use sprite_grid::angle::{rotate_angle, Spin, TURN};
use sprite_grid::camera::{scale_dist, Camera, CAMERA_Z, TRIG_ONE};
use sprite_grid::timer::RepeatTimer;
use sprite_grid::world;
use sprite_grid::world::{World, TIMER_PERIOD};
use sprite_grid::zoom::{zoom_step, SCALE_MAX, SCALE_MIN};

#[test]
fn rotate_clockwise_exact() {
    // angle + rate * dt, no wrap
    assert_eq!(rotate_angle(10, Spin::Clockwise, 7, 3), 31);
}

#[test]
fn rotate_counter_clockwise_wraps() {
    // 10 - 21 modulo a full turn
    assert_eq!(rotate_angle(10, Spin::CounterClockwise, 7, 3), 999_989);
}

#[test]
fn rotate_wraps_forward() {
    assert_eq!(rotate_angle(999_990, Spin::Clockwise, 5, 4), 10);
}

#[test]
fn rotate_zero_dt_keeps_angle() {
    assert_eq!(rotate_angle(123_456, Spin::Clockwise, 99, 0), 123_456);
    assert_eq!(rotate_angle(123_456, Spin::CounterClockwise, 99, 0), 123_456);
}

#[test]
fn rotate_many_full_turns() {
    // one full turn per tick leaves the angle unchanged
    assert_eq!(rotate_angle(42, Spin::Clockwise, TURN, 1_000), 42);
    assert_eq!(rotate_angle(42, Spin::CounterClockwise, TURN, 1_000), 42);
}

#[test]
fn zoom_step_exact() {
    assert_eq!(zoom_step(40_000, 1_000), 39_000);
}

#[test]
fn zoom_step_clamps_at_min() {
    assert_eq!(zoom_step(4_500, 1_000), SCALE_MIN);
    assert_eq!(zoom_step(4_000, i64::MAX), SCALE_MIN);
}

#[test]
fn zoom_step_clamps_at_max() {
    assert_eq!(zoom_step(40_000, -5_000), SCALE_MAX);
    assert_eq!(zoom_step(39_999, i64::MIN), SCALE_MAX);
}

#[test]
fn zoom_sequence_stays_in_range() {
    let mut scale = SCALE_MAX;
    let events: Vec<i64> = vec![1_000, -3_000, 500_000, -500_000, 7, -7, i64::MAX, i64::MIN, 250];
    for e in events {
        scale = zoom_step(scale, e);
        assert!(SCALE_MIN <= scale && scale <= SCALE_MAX);
    }
}

#[test]
fn timer_accumulates_below_period() {
    let mut t = RepeatTimer::new(1_000);
    assert!(!t.tick(500));
    assert_eq!(t.elapsed, 500);
}

#[test]
fn timer_carries_overshoot() {
    let mut t = RepeatTimer::new(1_000);
    assert!(!t.tick(500));
    assert!(t.tick(600));
    assert_eq!(t.elapsed, 100);
}

#[test]
fn timer_fires_on_long_frame() {
    let mut t = RepeatTimer::new(1_000);
    assert!(t.tick(2_500));
    assert_eq!(t.elapsed, 500);
}

#[test]
fn scale_dist_positive_and_negative() {
    assert_eq!(scale_dist(10_000, TRIG_ONE), 10_000);
    assert_eq!(scale_dist(10_000, -TRIG_ONE), -10_000);
    assert_eq!(scale_dist(10_000, TRIG_ONE / 2), 5_000);
    assert_eq!(scale_dist(10_000, 0), 0);
}

#[test]
fn setup_spawns_the_grid() {
    let w = world::setup(320, 64);
    // (2 * (320 / 32))^2 tiles
    assert_eq!(w.sprites.len(), 400);
    // corners of the grid, in thousandths of a pixel
    assert_eq!(w.sprites[0].x, -640_000);
    assert_eq!(w.sprites[0].y, -640_000);
    assert_eq!(w.sprites[399].x, 576_000);
    assert_eq!(w.sprites[399].y, 576_000);
    // second sprite of the first row
    assert_eq!(w.sprites[1].x, -576_000);
    assert_eq!(w.sprites[1].y, -640_000);
    for s in &w.sprites {
        assert!(s.z < 1_000);
        assert!(s.angle < 159_155);
        assert!(s.scale < 2_000);
        assert!(s.rate < 796);
    }
    // the camera as spawned
    assert_eq!(w.camera.x, 0);
    assert_eq!(w.camera.y, 0);
    assert_eq!(w.camera.z, CAMERA_Z);
    assert_eq!(w.camera.heading, 0);
    assert_eq!(w.camera.render_angle, 0);
    assert_eq!(w.camera.scale, SCALE_MAX);
    // the log timer as spawned
    assert_eq!(w.timer.period, TIMER_PERIOD);
    assert_eq!(w.timer.elapsed, 0);
}

#[test]
fn setup_small_map_spawns_nothing() {
    let w = world::setup(16, 64);
    assert_eq!(w.sprites.len(), 0);
}

fn test_world() -> World {
    world::setup(320, 64)
}

#[test]
fn rotate_entity_spins_each_sprite() {
    let mut w = test_world();
    let before = w.sprites.clone();
    world::rotate_entity(&mut w, 10);
    assert_eq!(w.sprites.len(), before.len());
    for (s, b) in w.sprites.iter().zip(before.iter()) {
        let expect = rotate_angle(b.angle, b.dir, b.rate, 10);
        assert_eq!(s.angle, expect);
        assert_eq!(s.x, b.x);
        assert_eq!(s.y, b.y);
        assert_eq!(s.z, b.z);
        assert_eq!(s.scale, b.scale);
        assert_eq!(s.dir, b.dir);
        assert_eq!(s.rate, b.rate);
    }
}

#[test]
fn move_camera_straight_ahead() {
    let mut w = test_world();
    // one second, heading's unit vector pointing along +x
    world::move_camera(&mut w, 1_000, TRIG_ONE, 0);
    // ten pixels forward, in thousandths of a pixel
    assert_eq!(w.camera.x, 10_000);
    assert_eq!(w.camera.y, 0);
    // both angles turned by the camera turn rate times dt
    assert_eq!(w.camera.heading, 80_000);
    assert_eq!(w.camera.render_angle, 80_000);
    assert_eq!(w.camera.z, CAMERA_Z);
    assert_eq!(w.camera.scale, SCALE_MAX);
}

#[test]
fn move_camera_mixed_components() {
    let mut w = test_world();
    world::move_camera(&mut w, 1_000, -TRIG_ONE, TRIG_ONE / 2);
    assert_eq!(w.camera.x, -10_000);
    assert_eq!(w.camera.y, 5_000);
}

#[test]
fn zoom_camera_applies_events_in_order() {
    let mut w = test_world();
    let events: Vec<i64> = vec![1_000, 50_000, -100_000];
    let resizes = world::zoom_camera(&mut w, &events);
    // 40000 -> 39000 -> clamp to 4000 -> clamp back to 40000
    assert_eq!(w.camera.scale, SCALE_MAX);
    assert_eq!(resizes, 3);

    let events2: Vec<i64> = vec![1_000, 50_000];
    let resizes2 = world::zoom_camera(&mut w, &events2);
    assert_eq!(w.camera.scale, SCALE_MIN);
    assert_eq!(resizes2, 2);
}

#[test]
fn zoom_camera_no_events_changes_nothing() {
    let mut w = test_world();
    let events: Vec<i64> = vec![];
    let resizes = world::zoom_camera(&mut w, &events);
    assert_eq!(w.camera.scale, SCALE_MAX);
    assert_eq!(resizes, 0);
}

#[test]
fn tick_logs_sprite_count_when_the_second_elapses() {
    let mut w = test_world();
    assert_eq!(world::tick(&mut w, 400), None);
    assert_eq!(world::tick(&mut w, 599), None);
    assert_eq!(world::tick(&mut w, 1), Some(400));
    assert_eq!(w.timer.elapsed, 0);
}

#[test]
fn tick_carries_overshoot_and_logs_again() {
    let mut w = test_world();
    assert_eq!(world::tick(&mut w, 1_500), Some(400));
    assert_eq!(w.timer.elapsed, 500);
    assert_eq!(world::tick(&mut w, 400), None);
    assert_eq!(world::tick(&mut w, 100), Some(400));
}

#[test]
fn logged_count_stays_the_spawned_count_over_a_run() {
    let mut w = test_world();
    let spawned = w.sprites.len();
    let mut logged: Vec<usize> = Vec::new();
    for frame in 0..200u64 {
        world::rotate_entity(&mut w, 16);
        world::move_camera(&mut w, 16, TRIG_ONE, 0);
        if frame % 7 == 0 {
            let events: Vec<i64> = vec![1_000];
            world::zoom_camera(&mut w, &events);
        }
        if let Some(n) = world::tick(&mut w, 16) {
            logged.push(n);
        }
    }
    assert!(!logged.is_empty());
    for n in logged {
        assert_eq!(n, spawned);
    }
}

#[test]
fn sprite_construction_round_trip() {
    let s = sprite_grid::sprite::Sprite {
        x: -1,
        y: 2,
        z: 3,
        angle: 4,
        scale: 5,
        dir: Spin::CounterClockwise,
        rate: 6,
    };
    let mut w = World {
        sprites: vec![s],
        camera: Camera {
            x: 0,
            y: 0,
            z: CAMERA_Z,
            heading: 0,
            render_angle: 0,
            scale: SCALE_MAX,
        },
        timer: RepeatTimer::new(1_000),
    };
    world::rotate_entity(&mut w, 2);
    // 4 - 12 modulo a full turn
    assert_eq!(w.sprites[0].angle, 999_992);
}
