//! The cyclist: forward speed, jumping, and ground contact.
use vstd::prelude::*;
use crate::geometry::{Rectangle, Vec2i, min_int};
use crate::units::{
    DEFAULT_PLAYER_SPEED, GRAVITY, JUMP_FORCE, JUMP_GRACE_TIME, JUMP_LIFT, MAX_EXTENT,
    MAX_PLAYER_SPEED, SPEED_INCREMENT,
};

verus! {

/// Wheel and pedal angles are counted in thirtieths of a revolution.
pub const WHEEL_PHASES: u64 = 30;

/// A jump is on the ground again after at most this many steps in the air.
pub const LANDING_STEP: u64 = 840;

/// Vertical velocity after `k` steps of a jump, in sub-pixels per step: the
/// jump's impulse less one gravity per step.
pub open spec fn flight_velocity(k: nat) -> int {
    JUMP_FORCE - GRAVITY * k
}

/// Height above the ground after `k` steps of a jump.
pub open spec fn flight_height(k: nat) -> int
    decreases k,
{
    if k == 0 {
        JUMP_LIFT as int
    } else {
        flight_height((k - 1) as nat) + flight_velocity(k)
    }
}

proof fn lemma_flight_closed_form(k: nat)
    ensures
        2 * flight_height(k) == 2 * JUMP_LIFT + 2 * JUMP_FORCE * k - GRAVITY * (k * (k + 1)),
    decreases k,
{
    if k > 0 {
        let j = (k - 1) as nat;
        lemma_flight_closed_form(j);
        let hj = flight_height(j);
        let hk = flight_height(k);
        assert(hk == hj + 525_000 - 1250 * k);
        assert(2 * hk == 18_000 + 1_050_000 * k - 1250 * (k * (k + 1))) by (nonlinear_arith)
            requires
                2 * hj == 18_000 + 1_050_000 * j - 1250 * (j * (j + 1)),
                hk == hj + 525_000 - 1250 * k,
                j + 1 == k,
        ;
    } else {
        assert(k * (k + 1) == 0) by (nonlinear_arith)
            requires
                k == 0,
        ;
    }
}

/// Bounds on a flight, and the fact that it is over by `LANDING_STEP`.
proof fn lemma_flight_bounds(k: nat)
    requires
        k <= LANDING_STEP,
    ensures
        -1_000_000 <= flight_velocity(k) <= JUMP_FORCE,
        -1_000_000 <= flight_height(k) <= 500_000_000,
        flight_height(LANDING_STEP as nat) <= 0,
{
    lemma_flight_closed_form(k);
    lemma_flight_closed_form(840);
    assert(840 * (840 + 1) == 706_440) by (nonlinear_arith);
    assert(0 <= k * (k + 1) <= 706_440) by (nonlinear_arith)
        requires
            k <= 840,
    ;
    assert(-1_000_000 <= flight_height(k) <= 500_000_000) by (nonlinear_arith)
        requires
            2 * flight_height(k) == 18_000 + 1_050_000 * k - 1250 * (k * (k + 1)),
            0 <= k * (k + 1) <= 706_440,
            k <= 840,
    ;
}

/// Half of `d`, rounded toward zero.
pub open spec fn half_toward_zero(d: int) -> int {
    if d >= 0 {
        d / 2
    } else {
        -((-d) / 2)
    }
}

/// The player. Heights (`ground_height`, `position`) and the vertical
/// `velocity` and `acceleration` point up; `center` is the top-left corner of
/// the player's box, in screen coordinates, when it stands on the ground.
#[derive(Clone, Copy, Debug, PartialEq, Eq, Structural)]
pub struct Player {
    pub center: Vec2i,
    pub size: Vec2i,
    pub speed: i64,
    pub ground_height: i64,
    pub velocity: i64,
    pub position: i64,
    pub acceleration: i64,
    pub is_jumping: bool,
    pub can_jump: bool,
    pub is_moving: bool,
    pub pedal_phase: u64,
    pub wheel_phase: u64,
}

impl Player {
    /// Steps spent in the air so far, read off the velocity lost to gravity.
    pub open spec fn airtime(self) -> int {
        (JUMP_FORCE - self.velocity) / (GRAVITY as int)
    }

    /// The state `k` steps after a jump: no pull yet at the take-off, one
    /// gravity down on every step after it.
    pub open spec fn in_flight(self, k: int) -> bool {
        &&& 0 <= k <= LANDING_STEP
        &&& self.acceleration == (if k == 0 { 0 } else { -GRAVITY })
        &&& self.velocity == flight_velocity(k as nat)
        &&& self.position == self.ground_height + flight_height(k as nat)
    }

    pub open spec fn is_airborne(self) -> bool {
        self.is_jumping
    }

    /// At rest on the ground.
    pub open spec fn is_grounded(self) -> bool {
        &&& !self.is_jumping
        &&& self.position == self.ground_height
        &&& self.velocity == 0
        &&& self.acceleration == 0
    }

    pub open spec fn wf(self) -> bool {
        &&& -MAX_EXTENT <= self.center.x <= MAX_EXTENT
        &&& -MAX_EXTENT <= self.center.y <= MAX_EXTENT
        &&& self.size.within_extent()
        &&& -MAX_EXTENT <= self.ground_height <= MAX_EXTENT
        &&& 0 <= self.speed <= MAX_PLAYER_SPEED
        &&& self.pedal_phase < WHEEL_PHASES
        &&& self.wheel_phase < WHEEL_PHASES
        &&& !self.is_jumping ==> self.is_grounded()
        &&& self.is_jumping ==> self.in_flight(self.airtime())
    }

    /// The player after one step at round time `time`. The acceleration is
    /// gravity down, plus gravity up while on the ground; a landing stops the
    /// fall dead.
    pub open spec fn stepped(self, time: u64) -> Player {
        let grounded = self.position <= self.ground_height;
        let landing = grounded && self.is_jumping;
        let jumping = self.is_jumping && !grounded;
        let acceleration: int = (if grounded { GRAVITY as int } else { 0 }) - GRAVITY;
        let velocity = (if landing { 0 } else { self.velocity as int }) + acceleration;
        let position = (if grounded { self.ground_height as int } else { self.position as int }) + velocity;
        let wheel_turn: int = if jumping { 2 } else { 1 };
        Player {
            acceleration: acceleration as i64,
            velocity: velocity as i64,
            position: position as i64,
            is_jumping: jumping,
            can_jump: time > JUMP_GRACE_TIME && (grounded || self.can_jump),
            speed: min_int(self.speed + SPEED_INCREMENT, MAX_PLAYER_SPEED as int) as i64,
            wheel_phase: if self.is_moving {
                ((self.wheel_phase + wheel_turn) % (WHEEL_PHASES as int)) as u64
            } else {
                self.wheel_phase
            },
            pedal_phase: if self.is_moving && !jumping {
                ((self.pedal_phase + 1) % (WHEEL_PHASES as int)) as u64
            } else {
                self.pedal_phase
            },
            ..self
        }
    }

    /// The player just after a jump starts.
    pub open spec fn jumped(self) -> Player {
        Player {
            position: (self.ground_height + JUMP_LIFT) as i64,
            is_jumping: true,
            velocity: (self.velocity + JUMP_FORCE) as i64,
            ..self
        }
    }

    /// The player after one frame's input: a press jumps when a jump is
    /// allowed, and a release in the air forbids jumping until the landing.
    pub open spec fn ticked(self, pointer_down: bool, pointer_released: bool) -> Player {
        let p = if pointer_down && self.can_jump && !self.is_jumping { self.jumped() } else { self };
        if pointer_released && p.is_jumping && p.can_jump {
            Player { can_jump: false, ..p }
        } else {
            p
        }
    }

    /// The player after a reset: default speed, at rest on the ground.
    pub open spec fn after_reset(self) -> Player {
        Player {
            speed: DEFAULT_PLAYER_SPEED,
            ground_height: 0,
            velocity: 0,
            acceleration: 0,
            position: 0,
            is_jumping: false,
            is_moving: true,
            can_jump: false,
            ..self
        }
    }

    /// A fresh player of `size`, centred horizontally and standing on the
    /// bottom edge of a screen of `resolution`.
    pub open spec fn spec_new(size: Vec2i, resolution: Vec2i) -> Player {
        Player {
            center: Vec2i {
                x: half_toward_zero(resolution.x - size.x) as i64,
                y: (resolution.y - size.y) as i64,
            },
            size,
            speed: DEFAULT_PLAYER_SPEED,
            ground_height: 0,
            velocity: 0,
            acceleration: 0,
            position: 0,
            is_moving: true,
            is_jumping: false,
            can_jump: false,
            pedal_phase: 0,
            wheel_phase: 0,
        }
    }

    /// Top-left corner of the player's box, in screen coordinates.
    pub open spec fn spec_origin(self) -> Vec2i {
        Vec2i { x: self.center.x, y: (self.center.y - self.ground_height - self.position) as i64 }
    }

    pub open spec fn aabb(self) -> Rectangle {
        Rectangle { origin: self.spec_origin(), size: self.size }
    }

    /// A player of `size`, centred horizontally and standing on the bottom
    /// edge of a screen of `resolution`.
    pub fn new(size: Vec2i, resolution: Vec2i) -> (r: Player)
        requires
            size.within_extent(),
            resolution.within_extent(),
        ensures
            r == Player::spec_new(size, resolution),
            r.wf(),
    {
        let free = resolution.x - size.x;
        let half = if free >= 0 { free / 2 } else { -((-free) / 2) };
        Player {
            center: Vec2i { x: half, y: resolution.y - size.y },
            size,
            speed: DEFAULT_PLAYER_SPEED,
            ground_height: 0,
            velocity: 0,
            acceleration: 0,
            position: 0,
            is_moving: true,
            is_jumping: false,
            can_jump: false,
            pedal_phase: 0,
            wheel_phase: 0,
        }
    }

    pub fn reset(&mut self)
        requires
            old(self).wf(),
        ensures
            *final(self) == old(self).after_reset(),
            final(self).wf(),
    {
        self.speed = DEFAULT_PLAYER_SPEED;
        self.ground_height = 0;
        self.velocity = 0;
        self.acceleration = 0;
        self.position = 0;
        self.is_jumping = false;
        self.is_moving = true;
        self.can_jump = false;
    }

    /// One simulation step at round time `time`: ground contact, gravity,
    /// semi-implicit Euler integration, speed-up and wheel animation.
    /// Returns whether the player landed in this step.
    pub fn step(&mut self, time: u64) -> (landed: bool)
        requires
            old(self).wf(),
        ensures
            *final(self) == old(self).stepped(time),
            landed == (old(self).is_jumping && old(self).position <= old(self).ground_height),
            final(self).wf(),
    {
        let ghost k = self.airtime();
        let mut landed = false;
        let grounded = self.position <= self.ground_height;
        proof {
            if self.is_jumping {
                lemma_flight_bounds(k as nat);
                if !grounded {
                    assert(k != LANDING_STEP);
                    lemma_flight_bounds((k + 1) as nat);
                }
            }
        }
        self.acceleration = 0;
        if grounded {
            self.position = self.ground_height;
            self.acceleration = GRAVITY;
            if self.is_jumping {
                self.velocity = 0;
                self.is_jumping = false;
                landed = true;
            }
            self.can_jump = true;
        }
        if time <= JUMP_GRACE_TIME {
            self.can_jump = false;
        }
        self.acceleration = self.acceleration - GRAVITY;
        self.velocity = self.velocity + self.acceleration;
        self.position = self.position + self.velocity;

        self.speed = if self.speed <= MAX_PLAYER_SPEED - SPEED_INCREMENT {
            self.speed + SPEED_INCREMENT
        } else {
            MAX_PLAYER_SPEED
        };

        let wheel_turn: u64 = if self.is_jumping { 2 } else { 1 };
        if self.is_moving {
            self.wheel_phase = (self.wheel_phase + wheel_turn) % WHEEL_PHASES;
        }
        if self.is_moving && !self.is_jumping {
            self.pedal_phase = (self.pedal_phase + 1) % WHEEL_PHASES;
        }
        proof {
            if self.is_jumping {
                assert(self.airtime() == k + 1);
            }
        }
        landed
    }

    /// One frame of input. Returns whether a jump started.
    pub fn tick(&mut self, pointer_down: bool, pointer_released: bool) -> (jumped: bool)
        requires
            old(self).wf(),
        ensures
            *final(self) == old(self).ticked(pointer_down, pointer_released),
            jumped == (pointer_down && old(self).can_jump && !old(self).is_jumping),
            final(self).wf(),
    {
        let mut jumped = false;
        if pointer_down && self.can_jump {
            if !self.is_jumping {
                self.jump();
                jumped = true;
            }
        }
        if pointer_released && self.is_jumping && self.can_jump {
            self.can_jump = false;
        }
        jumped
    }

    fn jump(&mut self)
        requires
            old(self).wf(),
            !old(self).is_jumping,
        ensures
            *final(self) == old(self).jumped(),
            final(self).wf(),
    {
        self.position = self.ground_height + JUMP_LIFT;
        self.is_jumping = true;
        self.velocity = self.velocity + JUMP_FORCE;
        assert(self.airtime() == 0);
    }

    pub fn get_aabb(&self) -> (r: Rectangle)
        requires
            self.wf(),
        ensures
            r == self.aabb(),
            r.wf(),
    {
        Rectangle::new(self.origin(), self.size)
    }

    fn origin(&self) -> (r: Vec2i)
        requires
            self.wf(),
        ensures
            r == self.spec_origin(),
            -4 * MAX_EXTENT <= r.y <= 4 * MAX_EXTENT,
    {
        proof {
            if self.is_jumping {
                lemma_flight_bounds(self.airtime() as nat);
            }
        }
        Vec2i { x: self.center.x, y: self.center.y - self.ground_height - self.position }
    }
}

/// A player in a reachable state is either in the air or at rest on the
/// ground, never both.
pub proof fn lemma_airborne_xor_grounded(p: Player)
    requires
        p.wf(),
    ensures
        p.is_airborne() != p.is_grounded(),
{
}

/// A landing leaves the player at rest on the ground, free to jump once the
/// round is past its opening grace period.
pub proof fn lemma_landing_comes_to_rest(p: Player, time: u64)
    requires
        p.wf(),
        p.is_jumping,
        p.position <= p.ground_height,
        time > JUMP_GRACE_TIME,
    ensures
        p.stepped(time).velocity == 0,
        p.stepped(time).is_grounded(),
        p.stepped(time).can_jump,
{
}

} // verus!
