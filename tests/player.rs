use mtb_master::geometry::Vec2i;
use mtb_master::player::{Player, LANDING_STEP, WHEEL_PHASES};
use mtb_master::units::{
    DEFAULT_PLAYER_SPEED, GRAVITY, JUMP_FORCE, JUMP_LIFT, MAX_PLAYER_SPEED, RESOLUTION_X, RESOLUTION_Y,
    SPEED_INCREMENT, SUBPIXELS_PER_PIXEL,
};

const PX: i64 = SUBPIXELS_PER_PIXEL;
const LATE: u64 = 60_000;

fn player() -> Player {
    Player::new(Vec2i::new(128 * PX, 128 * PX), Vec2i::new(RESOLUTION_X, RESOLUTION_Y))
}

#[test]
fn new_player_stands_centred_on_the_ground() {
    let p = player();
    assert_eq!(p.center, Vec2i::new(896 * PX, 952 * PX));
    assert_eq!(p.speed, DEFAULT_PLAYER_SPEED);
    assert_eq!((p.position, p.velocity, p.acceleration), (0, 0, 0));
    assert!(!p.is_jumping && !p.can_jump && p.is_moving);
    let aabb = p.get_aabb();
    assert_eq!(aabb.origin, p.center);
    assert_eq!(aabb.size, Vec2i::new(128 * PX, 128 * PX));
}

#[test]
fn grounded_step_keeps_the_player_at_rest() {
    let mut p = player();
    let landed = p.step(LATE);
    assert!(!landed);
    assert_eq!((p.position, p.velocity, p.acceleration), (0, 0, 0));
    assert!(p.can_jump);
    assert_eq!(p.speed, DEFAULT_PLAYER_SPEED + SPEED_INCREMENT);
}

#[test]
fn no_jump_during_the_grace_period() {
    let mut p = player();
    p.step(6_000);
    assert!(!p.can_jump);
    assert!(!p.tick(true, false));
    assert!(!p.is_jumping);
    p.step(6_001);
    assert!(p.can_jump);
}

#[test]
fn jump_lifts_and_adds_the_impulse() {
    let mut p = player();
    p.step(LATE);
    assert!(p.tick(true, false));
    assert!(p.is_jumping);
    assert_eq!(p.position, JUMP_LIFT);
    assert_eq!(p.velocity, JUMP_FORCE);
    assert!(!p.tick(true, false));
}

#[test]
fn first_airborne_step_integrates_semi_implicitly() {
    let mut p = player();
    p.step(LATE);
    p.tick(true, false);
    p.step(LATE);
    assert_eq!(p.acceleration, -GRAVITY);
    assert_eq!(p.velocity, JUMP_FORCE - GRAVITY);
    assert_eq!(p.position, JUMP_LIFT + JUMP_FORCE - GRAVITY);
    assert!(p.get_aabb().origin.y < p.center.y);
}

#[test]
fn jump_lands_with_zero_velocity_and_can_jump_again() {
    let mut p = player();
    p.step(LATE);
    p.tick(true, false);
    let mut steps = 0u64;
    loop {
        assert!(!(p.is_jumping && p.position == p.ground_height && p.velocity == 0 && p.acceleration == 0));
        let landed = p.step(LATE);
        steps += 1;
        if landed {
            break;
        }
        assert!(steps <= LANDING_STEP + 1);
    }
    assert_eq!(steps, LANDING_STEP + 1);
    assert!(!p.is_jumping);
    assert_eq!(p.velocity, 0);
    assert_eq!(p.position, 0);
    assert_eq!(p.acceleration, 0);
    assert!(p.can_jump);
}

#[test]
fn releasing_in_the_air_forbids_a_second_jump() {
    let mut p = player();
    p.step(LATE);
    p.tick(true, false);
    p.step(LATE);
    p.tick(false, true);
    assert!(!p.can_jump);
    p.step(LATE);
    assert!(!p.can_jump);
}

#[test]
fn phases_wrap_after_one_revolution() {
    let mut p = player();
    for _ in 0..WHEEL_PHASES {
        p.step(LATE);
    }
    assert_eq!(p.wheel_phase, 0);
    assert_eq!(p.pedal_phase, 0);
    p.step(LATE);
    assert_eq!(p.wheel_phase, 1);
    p.tick(true, false);
    p.step(LATE);
    assert_eq!(p.wheel_phase, 3);
    assert_eq!(p.pedal_phase, 1);
}

#[test]
fn stopped_player_does_not_turn_its_wheels() {
    let mut p = player();
    p.is_moving = false;
    p.step(LATE);
    assert_eq!((p.wheel_phase, p.pedal_phase), (0, 0));
}

#[test]
fn reset_restores_the_defaults() {
    let mut p = player();
    for _ in 0..10 {
        p.step(LATE);
    }
    p.tick(true, false);
    p.step(LATE);
    p.is_moving = false;
    p.reset();
    assert_eq!(p.speed, DEFAULT_PLAYER_SPEED);
    assert_eq!((p.position, p.velocity, p.acceleration, p.ground_height), (0, 0, 0, 0));
    assert!(!p.is_jumping && !p.can_jump && p.is_moving);
}

#[test]
fn speed_stops_at_the_largest_representable_speed() {
    let mut p = player();
    p.speed = MAX_PLAYER_SPEED - 4;
    p.step(LATE);
    assert_eq!(p.speed, MAX_PLAYER_SPEED);
    p.step(LATE);
    assert_eq!(p.speed, MAX_PLAYER_SPEED);
}

#[test]
fn gravity_is_constant_in_the_air() {
    let mut p = player();
    p.step(LATE);
    p.tick(true, false);
    p.step(LATE);
    for _ in 0..5 {
        let (v, h) = (p.velocity, p.position);
        p.step(LATE);
        assert_eq!(p.acceleration, -GRAVITY);
        assert_eq!(p.velocity, v - GRAVITY);
        assert_eq!(p.position, h + p.velocity);
    }
}

#[test]
fn player_wider_than_the_screen_is_centred_toward_zero() {
    let p = Player::new(Vec2i::new(201, 10), Vec2i::new(100, 500));
    assert_eq!(p.center, Vec2i::new(-50, 490));
    let q = Player::new(Vec2i::new(10, 10), Vec2i::new(101, 500));
    assert_eq!(q.center.x, 45);
}
