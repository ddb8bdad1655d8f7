use spinning_square::game::{App, Ball, Entities};

fn running_app(position: u32, fall_speed: u64, lives: u8) -> App {
    App { run: true, position, fall_speed, lives }
}

// A draw whose remainder modulo 10_000 is above both spawn thresholds, so no
// ball spawns on the tick.
const NO_SPAWN: u64 = 9_999;
// A draw whose remainder modulo 10_000 is 0, under both thresholds, so a
// ball spawns on the tick.
const SPAWN: u64 = 0;

#[test]
fn new_app_initial_state() {
    let app = App::new();
    assert_eq!(app.run, true);
    assert_eq!(app.position, 400);
    assert_eq!(app.fall_speed, 200_000);
    assert_eq!(app.lives, 3);
}

#[test]
fn new_entities_both_pools_empty() {
    let e = Entities::new();
    assert!(e.red_balls.is_empty());
    assert!(e.green_balls.is_empty());
}

#[test]
fn paddle_moves_ten_pixels() {
    let mut app = App::new();
    app.move_left();
    assert_eq!(app.position, 390);
    app.move_right();
    assert_eq!(app.position, 400);
}

#[test]
fn paddle_clamps_at_left_bound() {
    let mut app = App::new();
    for _ in 0..100 {
        app.move_left();
        assert!(35 <= app.position && app.position <= 765);
    }
    assert_eq!(app.position, 35);
    // A step from within ten pixels of the bound lands on the bound.
    let mut near = running_app(44, 200_000, 3);
    near.move_left();
    assert_eq!(near.position, 35);
}

#[test]
fn paddle_clamps_at_right_bound() {
    let mut app = App::new();
    for _ in 0..100 {
        app.move_right();
        assert!(35 <= app.position && app.position <= 765);
    }
    assert_eq!(app.position, 765);
    let mut near = running_app(760, 200_000, 3);
    near.move_right();
    assert_eq!(near.position, 765);
}

#[test]
fn red_catch_costs_a_life() {
    // Paddle at 400, one red ball at (400, 566); at fall speed 1.0 the ball
    // falls ten pixels into the catch zone and the band around the paddle.
    let mut app = running_app(400, 1_000_000, 3);
    let mut e = Entities::new();
    e.red_balls.push(Ball { x: 400, y: 566 });
    app.update_with_draws(&mut e, 10_000, NO_SPAWN, 0, NO_SPAWN, 0);
    assert_eq!(app.lives, 2);
    assert_eq!(app.run, true);
    assert!(e.red_balls.is_empty());
    assert_eq!(app.fall_speed, 1_000_100);
}

#[test]
fn green_catch_restores_a_life() {
    let mut app = running_app(400, 1_000_000, 2);
    let mut e = Entities::new();
    e.green_balls.push(Ball { x: 400, y: 566 });
    app.update_with_draws(&mut e, 0, NO_SPAWN, 0, NO_SPAWN, 0);
    assert_eq!(app.lives, 3);
    assert_eq!(app.run, true);
    assert!(e.green_balls.is_empty());
}

#[test]
fn green_catch_at_full_lives_is_capped() {
    let mut app = running_app(400, 1_000_000, 3);
    let mut e = Entities::new();
    e.green_balls.push(Ball { x: 400, y: 566 });
    app.update_with_draws(&mut e, 0, NO_SPAWN, 0, NO_SPAWN, 0);
    assert_eq!(app.lives, 3);
    assert!(e.green_balls.is_empty());
}

#[test]
fn last_life_red_catch_stops_game_in_same_tick() {
    let mut app = running_app(400, 1_000_000, 1);
    let mut e = Entities::new();
    e.red_balls.push(Ball { x: 400, y: 566 });
    app.update_with_draws(&mut e, 0, NO_SPAWN, 0, NO_SPAWN, 0);
    assert_eq!(app.lives, 0);
    assert_eq!(app.run, false);
    assert!(e.red_balls.is_empty());
}

#[test]
fn two_red_catches_on_last_life_never_wrap() {
    let mut app = running_app(400, 1_000_000, 1);
    let mut e = Entities::new();
    e.red_balls.push(Ball { x: 380, y: 566 });
    e.red_balls.push(Ball { x: 420, y: 566 });
    app.update_with_draws(&mut e, 0, NO_SPAWN, 0, NO_SPAWN, 0);
    assert_eq!(app.lives, 0);
    assert_eq!(app.run, false);
    assert!(e.red_balls.is_empty());
}

#[test]
fn stopped_game_changes_nothing() {
    let mut app = App { run: false, position: 123, fall_speed: 777, lives: 0 };
    let mut e = Entities::new();
    e.red_balls.push(Ball { x: 400, y: 566 });
    e.green_balls.push(Ball { x: 10, y: 10 });
    app.update(&mut e, 50_000);
    assert_eq!(app.run, false);
    assert_eq!(app.position, 123);
    assert_eq!(app.fall_speed, 777);
    assert_eq!(app.lives, 0);
    assert_eq!(e.red_balls, vec![Ball { x: 400, y: 566 }]);
    assert_eq!(e.green_balls, vec![Ball { x: 10, y: 10 }]);
}

#[test]
fn fall_speed_ramps_and_never_drops() {
    let mut app = App::new();
    let mut e = Entities::new();
    let mut last = app.fall_speed;
    for dt in [0u64, 99, 100, 8_333, 1_000_000] {
        app.update_with_draws(&mut e, dt, NO_SPAWN, 0, NO_SPAWN, 0);
        assert!(app.fall_speed >= last);
        last = app.fall_speed;
    }
    // 200_000 + 0 + 0 + 1 + 83 + 10_000, each tick adding dt/100 rounded down.
    assert_eq!(app.fall_speed, 210_084);
}

#[test]
fn uncaught_ball_falls_past_bottom_without_cost() {
    // Outside the paddle's band, the ball crosses the bottom and is dropped;
    // no life changes.
    let mut app = running_app(400, 2_000_000, 3);
    let mut e = Entities::new();
    e.red_balls.push(Ball { x: 100, y: 590 });
    app.update_with_draws(&mut e, 0, NO_SPAWN, 0, NO_SPAWN, 0);
    assert!(e.red_balls.is_empty());
    assert_eq!(app.lives, 3);
    assert_eq!(app.run, true);
}

#[test]
fn ball_above_catch_zone_keeps_falling() {
    let mut app = running_app(400, 200_000, 3);
    let mut e = Entities::new();
    e.red_balls.push(Ball { x: 400, y: 100 });
    app.update_with_draws(&mut e, 0, NO_SPAWN, 0, NO_SPAWN, 0);
    assert_eq!(e.red_balls, vec![Ball { x: 400, y: 102 }]);
    assert_eq!(app.lives, 3);
}

#[test]
fn catch_band_is_inclusive_at_its_edges() {
    let mut app = running_app(400, 1_000_000, 3);
    let mut e = Entities::new();
    e.red_balls.push(Ball { x: 365, y: 566 });
    e.red_balls.push(Ball { x: 435, y: 566 });
    e.red_balls.push(Ball { x: 364, y: 566 });
    app.update_with_draws(&mut e, 0, NO_SPAWN, 0, NO_SPAWN, 0);
    // The edge balls are caught; the one just outside keeps falling at 576.
    assert_eq!(app.lives, 1);
    assert_eq!(e.red_balls, vec![Ball { x: 364, y: 576 }]);
}

#[test]
fn spawned_ball_enters_at_the_top_and_falls_with_the_tick() {
    let mut app = App::new();
    let mut e = Entities::new();
    // Red spawn at x = 423 % 800; the new ball falls the tick's two pixels.
    app.update_with_draws(&mut e, 0, SPAWN, 423, NO_SPAWN, 0);
    assert_eq!(e.red_balls, vec![Ball { x: 423, y: 2 }]);
    assert!(e.green_balls.is_empty());
}

#[test]
fn spawn_position_wraps_at_window_width() {
    let mut app = App::new();
    let mut e = Entities::new();
    app.update_with_draws(&mut e, 0, NO_SPAWN, 0, SPAWN, 1_601);
    assert_eq!(e.green_balls, vec![Ball { x: 1, y: 2 }]);
    assert!(e.red_balls.is_empty());
}

#[test]
fn random_ticks_keep_the_invariants() {
    let mut app = App::new();
    let mut e = Entities::new();
    let mut last_speed = app.fall_speed;
    for _ in 0..200 {
        if !app.run {
            break;
        }
        app.update(&mut e, 8_333);
        assert!(app.lives <= 3);
        assert_eq!(app.position, 400);
        assert!(app.fall_speed >= last_speed);
        last_speed = app.fall_speed;
    }
}

#[test]
fn life_marker_positions() {
    assert_eq!(spinning_square::game::life_marker_x(0), 15);
    assert_eq!(spinning_square::game::life_marker_x(1), 30);
    assert_eq!(spinning_square::game::life_marker_x(2), 45);
}
