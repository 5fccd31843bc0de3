use mtb_master::game::{FrameInput, Game, GameState};
use mtb_master::geometry::Vec2i;
use mtb_master::obstacles::{Obstacle, ObstaclePool, ObstaclePoolSettings};
use mtb_master::units::{
    DAY_NIGHT_CYCLE_TIME, DEFAULT_PLAYER_SPEED, PLAYER_SPEED_TO_OBSTACLE_SPEED, RESOLUTION_X,
    RESOLUTION_Y, SPEED_INCREMENT, SUBPIXELS_PER_PIXEL, TIMESTEP, TIME_UNITS_PER_SECOND,
};

const PX: i64 = SUBPIXELS_PER_PIXEL;

fn quiet_pool() -> ObstaclePool {
    let settings = ObstaclePoolSettings {
        spawn_interval: 20 * TIME_UNITS_PER_SECOND,
        ..ObstaclePoolSettings::default()
    };
    ObstaclePool::new(10, Some(settings))
}

fn frame(delta_time: u64) -> FrameInput {
    FrameInput { delta_time, now: 0, pointer_down: false, pointer_released: false, pause_released: false }
}

#[test]
fn new_game_is_paused_at_the_defaults() {
    let g = Game::new();
    assert_eq!(g.state, GameState::Paused);
    assert_eq!((g.distance, g.round_time, g.world_time, g.time), (0, 0, 0, 0));
    assert_eq!(g.resolution, Vec2i::new(RESOLUTION_X, RESOLUTION_Y));
    assert_eq!(g.day_night_cycle_time, DAY_NIGHT_CYCLE_TIME);
    assert_eq!(g.player.speed, DEFAULT_PLAYER_SPEED);
    assert_eq!(g.half_size(), Vec2i::new(960 * PX, 540 * PX));
    assert!(g.is_paused() && !g.is_running() && !g.is_game_over());
}

#[test]
fn paused_game_does_not_step() {
    let mut g = Game::new();
    let outcome = g.step();
    assert!(!outcome.landed && !outcome.crashed);
    assert_eq!(g.distance, 0);
    assert_eq!(g.player.speed, DEFAULT_PLAYER_SPEED);
}

#[test]
fn menu_without_click_speeds_up_the_sky() {
    let mut g = Game::new();
    g.menu_click(false);
    assert_eq!(g.state, GameState::Paused);
    assert_eq!(g.day_night_cycle_time, DAY_NIGHT_CYCLE_TIME / 5);
    g.menu_click(true);
    assert_eq!(g.state, GameState::Running);
    assert_eq!(g.day_night_cycle_time, DAY_NIGHT_CYCLE_TIME);
}

#[test]
fn ten_seconds_of_running_accrue_the_speeds() {
    let mut g = Game::new();
    g.obstacles = quiet_pool();
    g.menu_click(true);
    assert_eq!(g.state, GameState::Running);
    assert_eq!(g.distance, 0);
    assert_eq!(g.round_time, 0);
    let mut expected: u64 = 0;
    for _ in 0..600 {
        g.tick(TIMESTEP, 0, false, false);
        let outcome = g.step();
        assert!(!outcome.crashed);
        expected += g.player.speed as u64;
    }
    assert!(g.obstacles.obstacles.is_empty());
    assert_eq!(g.distance, expected);
    assert_eq!(g.distance, 600 * 12_600 + 9 * 600 * 601 / 2);
    assert_eq!(g.player.speed, DEFAULT_PLAYER_SPEED + 600 * SPEED_INCREMENT);
    assert_eq!(g.round_time, 10 * TIME_UNITS_PER_SECOND);
    assert_eq!(g.state, GameState::Running);
}

#[test]
fn overlap_ends_the_round_and_freezes_it() {
    let mut g = Game::new();
    g.obstacles = quiet_pool();
    g.menu_click(true);
    let shift = (DEFAULT_PLAYER_SPEED + SPEED_INCREMENT) * PLAYER_SPEED_TO_OBSTACLE_SPEED;
    let at = Vec2i::new(g.player.center.x + shift, g.player.center.y);
    g.obstacles.obstacles.push(Obstacle { size: g.player.size, position: at });
    let outcome = g.step();
    assert!(outcome.crashed);
    assert_eq!(g.state, GameState::GameOver);
    assert_eq!(g.obstacles.obstacles[0].position, g.player.center);
    assert!(!g.player.is_moving);
    assert_eq!(g.day_night_cycle_time, DAY_NIGHT_CYCLE_TIME / 5);
    let distance = g.distance;
    let position = g.obstacles.obstacles[0].position;
    let round_time = g.round_time;
    for _ in 0..10 {
        let later = g.step();
        assert!(!later.crashed);
        g.tick(TIMESTEP, 99, false, false);
    }
    assert_eq!(g.distance, distance);
    assert_eq!(g.obstacles.obstacles[0].position, position);
    assert_eq!(g.round_time, round_time);
    assert_eq!(g.time, 0);
}

#[test]
fn restart_click_restores_the_defaults() {
    let mut g = Game::new();
    g.menu_click(true);
    for _ in 0..200 {
        g.tick(TIMESTEP, 0, false, false);
        g.step();
    }
    let center = g.player.center;
    g.obstacles.obstacles.push(Obstacle { size: g.player.size, position: Vec2i::new(center.x + PX, center.y) });
    g.step();
    assert_eq!(g.state, GameState::GameOver);
    g.menu_click(false);
    assert_eq!(g.state, GameState::GameOver);
    g.menu_click(true);
    assert_eq!(g.state, GameState::Running);
    assert_eq!(g.distance, 0);
    assert_eq!(g.round_time, 0);
    assert_eq!(g.day_night_cycle_time, DAY_NIGHT_CYCLE_TIME);
    let p = &g.obstacles;
    assert!(p.obstacles.is_empty());
    assert_eq!((p.base_chance, p.spawn_chance, p.spawn_interval, p.last_spawn), (1_000, 1_000, 120_000, 0));
    assert_eq!(p.obstacle_size, Vec2i::new(64 * PX, 44 * PX));
    assert_eq!(g.player.speed, DEFAULT_PLAYER_SPEED);
    assert_eq!((g.player.position, g.player.velocity, g.player.acceleration), (0, 0, 0));
    assert!(!g.player.is_jumping && !g.player.can_jump && g.player.is_moving);
}

#[test]
fn tick_runs_the_round_clock_only_while_running() {
    let mut g = Game::new();
    g.tick(500, 7, false, false);
    assert_eq!((g.round_time, g.world_time, g.time, g.delta_time), (0, 500, 7, 500));
    g.menu_click(true);
    g.tick(500, 8, false, false);
    assert_eq!((g.round_time, g.world_time, g.time), (500, 1_000, 8));
}

#[test]
fn tick_jumps_on_a_press() {
    let mut g = Game::new();
    g.obstacles = quiet_pool();
    g.menu_click(true);
    g.tick(10_000, 0, false, false);
    g.step();
    assert!(g.player.can_jump);
    assert!(g.tick(TIMESTEP, 0, true, false));
    assert!(g.player.is_jumping);
}

#[test]
fn frame_runs_whole_steps_and_keeps_the_rest() {
    let mut g = Game::new();
    g.obstacles = quiet_pool();
    g.menu_click(true);
    let out = g.run_frame(0, frame(2_500));
    assert!(!out.skipped);
    assert_eq!(out.steps, 2);
    assert_eq!(out.accumulator, 500);
    assert_eq!(g.distance, (12_609 + 12_618) as u64);
    let out = g.run_frame(out.accumulator, frame(700));
    assert_eq!(out.steps, 1);
    assert_eq!(out.accumulator, 200);
    assert_eq!(g.round_time, 3_200);
}

#[test]
fn long_frame_pauses_without_simulating() {
    let mut g = Game::new();
    g.menu_click(true);
    let out = g.run_frame(300, frame(TIME_UNITS_PER_SECOND + 1));
    assert!(out.skipped);
    assert_eq!(out.steps, 0);
    assert_eq!(out.accumulator, 300);
    assert_eq!(g.state, GameState::Paused);
    assert_eq!(g.round_time, 0);
    assert_eq!(g.distance, 0);
}

#[test]
fn pause_key_toggles_running_and_paused() {
    let mut g = Game::new();
    g.toggle_pause();
    assert_eq!(g.state, GameState::Running);
    let input = FrameInput { pause_released: true, ..frame(0) };
    let out = g.run_frame(0, input);
    assert_eq!(out.steps, 0);
    assert_eq!(g.state, GameState::Paused);
    g.state = GameState::GameOver;
    g.toggle_pause();
    assert_eq!(g.state, GameState::GameOver);
}

#[test]
fn counters_saturate_at_their_limits() {
    let mut g = Game::new();
    g.obstacles = quiet_pool();
    g.menu_click(true);
    g.distance = u64::MAX - 5;
    g.step();
    assert_eq!(g.distance, u64::MAX);
    g.round_time = u64::MAX - 1;
    g.world_time = u64::MAX - 1;
    g.tick(TIMESTEP, 0, false, false);
    assert_eq!(g.round_time, u64::MAX);
    assert_eq!(g.world_time, u64::MAX);
}
