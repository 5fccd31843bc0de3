//! Obstacles and the pool that spawns, moves and prunes them.
use vstd::prelude::*;
use crate::geometry::{Rectangle, Vec2i, max_int, min_int};
use crate::player::Player;
use crate::random::gen_range_u32;
use crate::units::{
    CHANCE_SCALE, MAX_EXTENT, MAX_PLAYER_SPEED, PLAYER_SPEED_TO_OBSTACLE_SPEED,
    SUBPIXELS_PER_PIXEL, TIMESTEP, TIME_UNITS_PER_SECOND,
};

verus! {

/// Added to the base spawn chance on every spawn: 0.01.
pub const BASE_CHANCE_INCREMENT: u64 = 100;

/// The base spawn chance never grows past this: 0.9.
pub const MAX_BASE_CHANCE: u64 = 9_000;

/// Added to the spawn chance after every failed roll: 0.05.
pub const SPAWN_CHANCE_INCREMENT: u64 = 500;

/// Taken off the spawn interval every step.
pub const SPAWN_INTERVAL_DECREMENT: u64 = TIMESTEP / 100;

/// The spawn interval never shrinks below this: half a second.
pub const MIN_SPAWN_INTERVAL: u64 = TIME_UNITS_PER_SECOND / 2;

/// The size roll is a percentage.
pub const SIZE_ROLL_RANGE: u32 = 100;

/// Default starting spawn chance: 0.1.
pub const DEFAULT_BASE_SPAWN_CHANCE: u64 = 1_000;

/// Default starting spawn interval: two seconds.
pub const DEFAULT_SPAWN_INTERVAL: u64 = 2 * TIME_UNITS_PER_SECOND;

/// Default size of the first obstacles: 64 by 44 pixels.
pub const DEFAULT_BASE_WIDTH: i64 = 64 * SUBPIXELS_PER_PIXEL;

pub const DEFAULT_BASE_HEIGHT: i64 = 44 * SUBPIXELS_PER_PIXEL;

/// Default largest obstacle: 128 by 64 pixels.
pub const DEFAULT_MAX_WIDTH: i64 = 128 * SUBPIXELS_PER_PIXEL;

pub const DEFAULT_MAX_HEIGHT: i64 = 64 * SUBPIXELS_PER_PIXEL;

/// A rectangular obstacle; `position` is its top-left corner.
#[derive(Clone, Copy, Debug, PartialEq, Eq, Structural)]
pub struct Obstacle {
    pub size: Vec2i,
    pub position: Vec2i,
}

impl Obstacle {
    /// An obstacle of `size` just past the right edge, standing on the bottom edge.
    pub open spec fn spawned_at(size: Vec2i, resolution: Vec2i) -> Obstacle {
        Obstacle {
            size,
            position: Vec2i {
                x: (resolution.x + size.x) as i64,
                y: (resolution.y - size.y) as i64,
            },
        }
    }

    /// The obstacle lies wholly left of the visible area.
    pub open spec fn passed(self) -> bool {
        self.position.x < -self.size.x
    }

    /// The obstacle after one step at `player_speed`.
    pub open spec fn moved(self, player_speed: int) -> Obstacle {
        Obstacle {
            size: self.size,
            position: Vec2i {
                x: (self.position.x - player_speed * PLAYER_SPEED_TO_OBSTACLE_SPEED) as i64,
                y: self.position.y,
            },
        }
    }

    /// A live obstacle: bounded, and not yet passed.
    pub open spec fn wf(self) -> bool {
        &&& self.size.within_extent()
        &&& -self.size.x <= self.position.x <= 2 * MAX_EXTENT
        &&& -MAX_EXTENT <= self.position.y <= MAX_EXTENT
    }

    pub open spec fn aabb(self) -> Rectangle {
        Rectangle { origin: self.position, size: self.size }
    }

    pub fn new(size: Vec2i, resolution: Vec2i) -> (r: Obstacle)
        requires
            size.within_extent(),
            resolution.within_extent(),
        ensures
            r == Obstacle::spawned_at(size, resolution),
            r.wf(),
    {
        Obstacle {
            size,
            position: Vec2i { x: resolution.x + size.x, y: resolution.y - size.y },
        }
    }

    /// Per-frame hook; an obstacle has nothing to do between steps.
    pub fn tick(&mut self)
        ensures
            *final(self) == *old(self),
    {
    }

    /// Moves the obstacle left by `player_speed` times the obstacle speed factor.
    pub fn step(&mut self, player_speed: i64)
        requires
            old(self).wf(),
            0 <= player_speed <= MAX_PLAYER_SPEED,
        ensures
            *final(self) == old(self).moved(player_speed as int),
    {
        self.position.x = self.position.x - player_speed * PLAYER_SPEED_TO_OBSTACLE_SPEED;
    }

    pub fn get_aabb(&self) -> (r: Rectangle)
        requires
            self.wf(),
        ensures
            r == self.aabb(),
            r.wf(),
    {
        Rectangle::new(self.position, self.size)
    }
}

/// The configured starting point of an obstacle pool.
#[derive(Clone, Copy, Debug, PartialEq, Eq, Structural)]
pub struct ObstaclePoolSettings {
    pub base_spawn_chance: u64,
    pub spawn_interval: u64,
    pub base_size: Vec2i,
    pub max_size: Vec2i,
}

impl ObstaclePoolSettings {
    pub open spec fn wf(self) -> bool {
        &&& self.base_spawn_chance <= CHANCE_SCALE
        &&& self.base_size.within_extent()
        &&& self.max_size.within_extent()
    }

    /// Chance 0.1, interval two seconds, obstacles from 64x44 up to 128x64 pixels.
    pub open spec fn spec_default() -> ObstaclePoolSettings {
        ObstaclePoolSettings {
            base_spawn_chance: DEFAULT_BASE_SPAWN_CHANCE,
            spawn_interval: DEFAULT_SPAWN_INTERVAL,
            base_size: Vec2i { x: DEFAULT_BASE_WIDTH, y: DEFAULT_BASE_HEIGHT },
            max_size: Vec2i { x: DEFAULT_MAX_WIDTH, y: DEFAULT_MAX_HEIGHT },
        }
    }

    /// The given settings, or the defaults.
    pub open spec fn chosen(settings: Option<ObstaclePoolSettings>) -> ObstaclePoolSettings {
        match settings {
            Some(s) => s,
            None => ObstaclePoolSettings::spec_default(),
        }
    }
}

impl Default for ObstaclePoolSettings {
    fn default() -> (r: ObstaclePoolSettings)
        ensures
            r == ObstaclePoolSettings::spec_default(),
            r.wf(),
    {
        ObstaclePoolSettings {
            base_spawn_chance: DEFAULT_BASE_SPAWN_CHANCE,
            spawn_interval: DEFAULT_SPAWN_INTERVAL,
            base_size: Vec2i { x: DEFAULT_BASE_WIDTH, y: DEFAULT_BASE_HEIGHT },
            max_size: Vec2i { x: DEFAULT_MAX_WIDTH, y: DEFAULT_MAX_HEIGHT },
        }
    }
}

/// The state of an obstacle pool, with its obstacles as a sequence.
pub struct PoolView {
    pub obstacles: Seq<Obstacle>,
    pub base_chance: u64,
    pub spawn_chance: u64,
    pub spawn_interval: u64,
    pub last_spawn: u64,
    pub obstacle_size: Vec2i,
    pub max_obstacle_size: Vec2i,
    pub settings: ObstaclePoolSettings,
}

/// The size after a spawn: one pixel taller for a roll below 33, one pixel
/// wider for a roll in `[33, 66)`, both otherwise; clamped to `max`.
pub open spec fn grown_size(size: Vec2i, max: Vec2i, percent: int) -> Vec2i {
    let dx: int = if percent < 33 { 0 } else { SUBPIXELS_PER_PIXEL as int };
    let dy: int = if 33 <= percent < 66 { 0 } else { SUBPIXELS_PER_PIXEL as int };
    Vec2i {
        x: min_int(size.x + dx, max.x as int) as i64,
        y: min_int(size.y + dy, max.y as int) as i64,
    }
}

/// The spawn interval after one step: shorter by the decrement, but never
/// below the floor.
pub open spec fn shrunk_interval(interval: u64) -> u64 {
    if interval >= MIN_SPAWN_INTERVAL + SPAWN_INTERVAL_DECREMENT {
        (interval - SPAWN_INTERVAL_DECREMENT) as u64
    } else {
        MIN_SPAWN_INTERVAL
    }
}

impl PoolView {
    pub open spec fn wf(self) -> bool {
        &&& self.settings.wf()
        &&& self.max_obstacle_size == self.settings.max_size
        &&& self.base_chance <= CHANCE_SCALE
        &&& self.spawn_chance <= CHANCE_SCALE + SPAWN_CHANCE_INCREMENT
        &&& self.obstacle_size.within_extent()
        &&& forall|i: int| 0 <= i < self.obstacles.len() ==> #[trigger] self.obstacles[i].wf()
    }

    /// A fresh pool on the given settings.
    pub open spec fn initial(settings: ObstaclePoolSettings) -> PoolView {
        PoolView {
            obstacles: Seq::empty(),
            base_chance: settings.base_spawn_chance,
            spawn_chance: settings.base_spawn_chance,
            spawn_interval: settings.spawn_interval,
            last_spawn: 0,
            obstacle_size: settings.base_size,
            max_obstacle_size: settings.max_size,
            settings,
        }
    }

    /// The cooldown since the last spawn is over at `round_time`.
    pub open spec fn spawn_due(self, round_time: u64) -> bool {
        round_time - self.last_spawn >= self.spawn_interval
    }

    /// The pool after a successful roll: the base chance grows (clamped), the
    /// spawn chance restarts from it, the size grows, and an obstacle is added.
    pub open spec fn after_spawn(self, resolution: Vec2i, round_time: u64, percent: int) -> PoolView {
        let base = min_int(self.base_chance + BASE_CHANCE_INCREMENT, MAX_BASE_CHANCE as int) as u64;
        let size = grown_size(self.obstacle_size, self.max_obstacle_size, percent);
        PoolView {
            obstacles: self.obstacles.push(Obstacle::spawned_at(size, resolution)),
            base_chance: base,
            spawn_chance: base,
            last_spawn: round_time,
            obstacle_size: size,
            ..self
        }
    }

    /// The pool after a failed roll: only the spawn chance grows.
    pub open spec fn after_failed_roll(self) -> PoolView {
        PoolView { spawn_chance: (self.spawn_chance + SPAWN_CHANCE_INCREMENT) as u64, ..self }
    }

    /// The pool after one spawn attempt with the given roll (out of
    /// `CHANCE_SCALE`) and size roll (a percentage).
    pub open spec fn after_attempt(self, resolution: Vec2i, round_time: u64, roll: int, percent: int) -> PoolView {
        if !self.spawn_due(round_time) {
            self
        } else if roll <= self.spawn_chance {
            self.after_spawn(resolution, round_time, percent)
        } else {
            self.after_failed_roll()
        }
    }

    /// The pool after one step: every obstacle moves, those that have passed
    /// are dropped (the others keep their order), and the interval shrinks.
    pub open spec fn after_step(self, player_speed: int) -> PoolView {
        PoolView {
            obstacles: self.obstacles.map_values(|o: Obstacle| o.moved(player_speed)).filter(
                |o: Obstacle| !o.passed(),
            ),
            spawn_interval: shrunk_interval(self.spawn_interval),
            ..self
        }
    }

    /// The pool after a reset: its settings again, and no obstacles.
    pub open spec fn after_reset(self) -> PoolView {
        PoolView::initial(self.settings)
    }

    /// Some obstacle of the pool overlaps `r`.
    pub open spec fn collides(self, r: Rectangle) -> bool {
        exists|i: int| 0 <= i < self.obstacles.len() && r.overlaps(#[trigger] self.obstacles[i].aabb())
    }
}

/// Obstacles in spawn order, and the adaptive parameters that decide when
/// the next one comes and how large it is.
#[derive(Clone, Debug)]
pub struct ObstaclePool {
    pub obstacles: Vec<Obstacle>,
    pub base_chance: u64,
    pub spawn_chance: u64,
    pub spawn_interval: u64,
    pub last_spawn: u64,
    pub obstacle_size: Vec2i,
    pub max_obstacle_size: Vec2i,
    pub settings: ObstaclePoolSettings,
}

impl View for ObstaclePool {
    type V = PoolView;

    open spec fn view(&self) -> PoolView {
        PoolView {
            obstacles: self.obstacles@,
            base_chance: self.base_chance,
            spawn_chance: self.spawn_chance,
            spawn_interval: self.spawn_interval,
            last_spawn: self.last_spawn,
            obstacle_size: self.obstacle_size,
            max_obstacle_size: self.max_obstacle_size,
            settings: self.settings,
        }
    }
}

impl ObstaclePool {
    pub open spec fn wf(&self) -> bool {
        self@.wf()
    }

    /// A pool on `settings`, or on the defaults; `capacity` only reserves room.
    pub fn new(capacity: usize, settings: Option<ObstaclePoolSettings>) -> (r: ObstaclePool)
        requires
            ObstaclePoolSettings::chosen(settings).wf(),
        ensures
            r@ == PoolView::initial(ObstaclePoolSettings::chosen(settings)),
            r.wf(),
    {
        let settings = match settings {
            Some(x) => x,
            None => ObstaclePoolSettings::default(),
        };
        ObstaclePool {
            obstacles: Vec::with_capacity(capacity),
            base_chance: settings.base_spawn_chance,
            spawn_chance: settings.base_spawn_chance,
            spawn_interval: settings.spawn_interval,
            last_spawn: 0,
            obstacle_size: settings.base_size,
            max_obstacle_size: settings.max_size,
            settings,
        }
    }

    /// One spawn attempt with the rolls given: `roll` out of `CHANCE_SCALE`
    /// against the spawn chance, and `percent` for the way the size grows.
    pub fn spawn_attempt_with(&mut self, resolution: Vec2i, round_time: u64, roll: u32, percent: u32)
        requires
            old(self).wf(),
            resolution.within_extent(),
            roll < CHANCE_SCALE,
            percent < SIZE_ROLL_RANGE,
        ensures
            final(self)@ == old(self)@.after_attempt(resolution, round_time, roll as int, percent as int),
            final(self).wf(),
    {
        if round_time < self.last_spawn || round_time - self.last_spawn < self.spawn_interval {
            return;
        }
        if roll as u64 <= self.spawn_chance {
            self.last_spawn = round_time;
            self.base_chance = self.base_chance + BASE_CHANCE_INCREMENT;
            if self.base_chance > MAX_BASE_CHANCE {
                self.base_chance = MAX_BASE_CHANCE;
            }
            self.spawn_chance = self.base_chance;
            let step: i64 = SUBPIXELS_PER_PIXEL;
            let (dx, dy): (i64, i64) = if percent < 33 {
                (0, step)
            } else if percent < 66 {
                (step, 0)
            } else {
                (step, step)
            };
            let mut size = Vec2i { x: self.obstacle_size.x + dx, y: self.obstacle_size.y + dy };
            if size.x > self.max_obstacle_size.x {
                size.x = self.max_obstacle_size.x;
            }
            if size.y > self.max_obstacle_size.y {
                size.y = self.max_obstacle_size.y;
            }
            self.obstacle_size = size;
            self.obstacles.push(Obstacle::new(size, resolution));
        } else {
            self.spawn_chance = self.spawn_chance + SPAWN_CHANCE_INCREMENT;
        }
    }

    /// One spawn attempt at `round_time`. Once the cooldown is over it rolls
    /// against the spawn chance, and on a success rolls how the size grows.
    pub fn spawn_attempt(&mut self, resolution: Vec2i, round_time: u64)
        requires
            old(self).wf(),
            resolution.within_extent(),
        ensures
            exists|roll: int, percent: int|
                0 <= roll < CHANCE_SCALE && 0 <= percent < SIZE_ROLL_RANGE
                && final(self)@ == #[trigger] old(self)@.after_attempt(resolution, round_time, roll, percent),
            final(self).wf(),
    {
        if round_time < self.last_spawn || round_time - self.last_spawn < self.spawn_interval {
            assert(self@ == self@.after_attempt(resolution, round_time, 0, 0));
            return;
        }
        let roll = gen_range_u32(0, CHANCE_SCALE as u32);
        let percent = if roll as u64 <= self.spawn_chance {
            gen_range_u32(0, SIZE_ROLL_RANGE)
        } else {
            0
        };
        self.spawn_attempt_with(resolution, round_time, roll, percent);
    }

    /// Back to the settings' starting point, with no obstacles.
    pub fn reset(&mut self)
        requires
            old(self).wf(),
        ensures
            final(self)@ == old(self)@.after_reset(),
            final(self).wf(),
    {
        self.spawn_chance = self.settings.base_spawn_chance;
        self.base_chance = self.spawn_chance;
        self.spawn_interval = self.settings.spawn_interval;
        self.obstacle_size = self.settings.base_size;
        self.last_spawn = 0;
        self.obstacles.clear();
    }

    /// Per-frame hook, handed on to every obstacle.
    pub fn tick(&mut self)
        ensures
            final(self)@ == old(self)@,
    {
        let n = self.obstacles.len();
        let mut i: usize = 0;
        while i < n
            invariant
                n == self.obstacles.len(),
                self@ == old(self)@,
            decreases n - i,
        {
            let mut o = self.obstacles[i];
            o.tick();
            self.obstacles.set(i, o);
            assert(self.obstacles@ =~= old(self).obstacles@);
            i = i + 1;
        }
    }

    /// Moves every obstacle, drops those that have passed the left edge, and
    /// shrinks the spawn interval.
    pub fn step(&mut self, player_speed: i64)
        requires
            old(self).wf(),
            0 <= player_speed <= MAX_PLAYER_SPEED,
        ensures
            final(self)@ == old(self)@.after_step(player_speed as int),
            final(self).wf(),
            forall|i: int| 0 <= i < final(self).obstacles.len() ==> !(#[trigger] final(self).obstacles@[i]).passed(),
    {
        let ghost moved = self.obstacles@.map_values(|o: Obstacle| o.moved(player_speed as int));
        let ghost keep = |o: Obstacle| !o.passed();
        let mut kept: Vec<Obstacle> = Vec::with_capacity(self.obstacles.len());
        let n = self.obstacles.len();
        let mut i: usize = 0;
        while i < n
            invariant
                n == self.obstacles.len(),
                i <= n,
                self@ == old(self)@,
                self.wf(),
                0 <= player_speed <= MAX_PLAYER_SPEED,
                moved == self.obstacles@.map_values(|o: Obstacle| o.moved(player_speed as int)),
                keep == (|o: Obstacle| !o.passed()),
                kept@ == moved.subrange(0, i as int).filter(keep),
                forall|j: int| 0 <= j < kept.len() ==> (#[trigger] kept@[j]).wf(),
            decreases n - i,
        {
            let mut o = self.obstacles[i];
            assert(self@.obstacles[i as int] == o);
            assert(o.wf());
            o.step(player_speed);
            proof {
                assert(moved.subrange(0, i + 1).drop_last() =~= moved.subrange(0, i as int));
                assert(moved.subrange(0, i + 1).last() == o);
                reveal(Seq::filter);
            }
            if !(o.position.x < -o.size.x) {
                kept.push(o);
                assert(kept@[kept.len() - 1].wf());
            }
            i = i + 1;
        }
        proof {
            assert(moved.subrange(0, n as int) =~= moved);
        }
        self.obstacles = kept;
        self.spawn_interval = if self.spawn_interval >= MIN_SPAWN_INTERVAL + SPAWN_INTERVAL_DECREMENT {
            self.spawn_interval - SPAWN_INTERVAL_DECREMENT
        } else {
            MIN_SPAWN_INTERVAL
        };
        proof {
            assert forall|j: int| 0 <= j < self.obstacles.len() implies !(#[trigger] self.obstacles@[j]).passed() by {
                moved.lemma_filter_pred(keep, j);
            }
        }
    }

    /// Whether the player's box overlaps the box of any obstacle.
    pub fn has_collision(&self, player: &Player) -> (r: bool)
        requires
            self.wf(),
            player.wf(),
        ensures
            r == self@.collides(player.aabb()),
    {
        let player_aabb = player.get_aabb();
        let n = self.obstacles.len();
        let mut i: usize = 0;
        while i < n
            invariant
                n == self.obstacles.len(),
                i <= n,
                self.wf(),
                player_aabb == player.aabb(),
                player_aabb.wf(),
                forall|j: int| 0 <= j < i ==> !player_aabb.overlaps(#[trigger] self@.obstacles[j].aabb()),
            decreases n - i,
        {
            assert(self@.obstacles[i as int].wf());
            let obstacle_aabb = self.obstacles[i].get_aabb();
            if player_aabb.collides_with(&obstacle_aabb) {
                return true;
            }
            i = i + 1;
        }
        false
    }
}

/// Spawn attempts whose rolls all fail once the cooldown is over raise the
/// spawn chance by `SPAWN_CHANCE_INCREMENT` each, and leave the base chance,
/// the obstacle size and the obstacles as they were.
pub proof fn lemma_failed_attempts_raise_chance(
    pools: Seq<PoolView>,
    resolution: Vec2i,
    times: Seq<u64>,
    rolls: Seq<int>,
    percents: Seq<int>,
)
    requires
        pools.len() == times.len() + 1,
        rolls.len() == times.len(),
        percents.len() == times.len(),
        forall|i: int| 0 <= i < times.len() ==> {
            &&& #[trigger] pools[i].spawn_due(times[i])
            &&& pools[i].spawn_chance < rolls[i] < CHANCE_SCALE
            &&& pools[i + 1] == pools[i].after_attempt(resolution, times[i], rolls[i], percents[i])
        },
    ensures
        forall|i: int| 0 <= i < pools.len() ==> {
            &&& #[trigger] pools[i].spawn_chance == pools[0].spawn_chance + i * SPAWN_CHANCE_INCREMENT
            &&& pools[i].base_chance == pools[0].base_chance
            &&& pools[i].obstacle_size == pools[0].obstacle_size
            &&& pools[i].obstacles == pools[0].obstacles
        },
{
    assert forall|i: int| 0 <= i < pools.len() implies {
        &&& #[trigger] pools[i].spawn_chance == pools[0].spawn_chance + i * SPAWN_CHANCE_INCREMENT
        &&& pools[i].base_chance == pools[0].base_chance
        &&& pools[i].obstacle_size == pools[0].obstacle_size
        &&& pools[i].obstacles == pools[0].obstacles
    } by {
        lemma_failed_prefix(pools, resolution, times, rolls, percents, i);
    }
}

proof fn lemma_failed_prefix(
    pools: Seq<PoolView>,
    resolution: Vec2i,
    times: Seq<u64>,
    rolls: Seq<int>,
    percents: Seq<int>,
    k: int,
)
    requires
        pools.len() == times.len() + 1,
        rolls.len() == times.len(),
        percents.len() == times.len(),
        forall|i: int| 0 <= i < times.len() ==> {
            &&& #[trigger] pools[i].spawn_due(times[i])
            &&& pools[i].spawn_chance < rolls[i] < CHANCE_SCALE
            &&& pools[i + 1] == pools[i].after_attempt(resolution, times[i], rolls[i], percents[i])
        },
        0 <= k < pools.len(),
    ensures
        pools[k].spawn_chance == pools[0].spawn_chance + k * SPAWN_CHANCE_INCREMENT,
        pools[k].base_chance == pools[0].base_chance,
        pools[k].obstacle_size == pools[0].obstacle_size,
        pools[k].obstacles == pools[0].obstacles,
    decreases k,
{
    if k > 0 {
        lemma_failed_prefix(pools, resolution, times, rolls, percents, k - 1);
        assert(pools[k - 1].spawn_due(times[k - 1]));
    }
}

/// A successful spawn restarts the spawn chance from the new base chance,
/// and leaves the base chance at most `MAX_BASE_CHANCE`, however high it was.
pub proof fn lemma_spawn_resets_chance(
    pool: PoolView,
    resolution: Vec2i,
    round_time: u64,
    roll: int,
    percent: int,
)
    requires
        pool.spawn_due(round_time),
        roll <= pool.spawn_chance,
    ensures
        pool.after_attempt(resolution, round_time, roll, percent).spawn_chance
            == pool.after_attempt(resolution, round_time, roll, percent).base_chance,
        pool.after_attempt(resolution, round_time, roll, percent).base_chance
            == min_int(pool.base_chance + BASE_CHANCE_INCREMENT, MAX_BASE_CHANCE as int),
        pool.after_attempt(resolution, round_time, roll, percent).base_chance <= MAX_BASE_CHANCE,
{
}

/// Whatever spawn attempts follow, with whatever rolls, a base chance that
/// starts at most `MAX_BASE_CHANCE` never exceeds it, and after every
/// successful spawn the spawn chance equals the base chance. Each link of
/// `pools` is what one call of `ObstaclePool::spawn_attempt_with` ensures.
pub proof fn lemma_base_chance_stays_capped(
    pools: Seq<PoolView>,
    resolution: Vec2i,
    times: Seq<u64>,
    rolls: Seq<int>,
    percents: Seq<int>,
)
    requires
        pools.len() == times.len() + 1,
        rolls.len() == times.len(),
        percents.len() == times.len(),
        pools[0].base_chance <= MAX_BASE_CHANCE,
        forall|i: int| 0 <= i < times.len() ==> #[trigger] pools[i + 1] == pools[i].after_attempt(
            resolution,
            times[i],
            rolls[i],
            percents[i],
        ),
    ensures
        forall|i: int| 0 <= i < pools.len() ==> #[trigger] pools[i].base_chance <= MAX_BASE_CHANCE,
        forall|i: int| 0 <= i < times.len() && pools[i].spawn_due(times[i]) && rolls[i] <= pools[i].spawn_chance
            ==> #[trigger] pools[i + 1].spawn_chance == pools[i + 1].base_chance,
{
    assert forall|i: int| 0 <= i < pools.len() implies #[trigger] pools[i].base_chance <= MAX_BASE_CHANCE by {
        lemma_capped_prefix(pools, resolution, times, rolls, percents, i);
    }
}

proof fn lemma_capped_prefix(
    pools: Seq<PoolView>,
    resolution: Vec2i,
    times: Seq<u64>,
    rolls: Seq<int>,
    percents: Seq<int>,
    k: int,
)
    requires
        pools.len() == times.len() + 1,
        rolls.len() == times.len(),
        percents.len() == times.len(),
        pools[0].base_chance <= MAX_BASE_CHANCE,
        forall|i: int| 0 <= i < times.len() ==> #[trigger] pools[i + 1] == pools[i].after_attempt(
            resolution,
            times[i],
            rolls[i],
            percents[i],
        ),
        0 <= k < pools.len(),
    ensures
        pools[k].base_chance <= MAX_BASE_CHANCE,
    decreases k,
{
    if k > 0 {
        let j = k - 1;
        lemma_capped_prefix(pools, resolution, times, rolls, percents, j);
        assert(pools[j + 1] == pools[j].after_attempt(resolution, times[j], rolls[j], percents[j]));
    }
}

/// Over simulation steps (each a pool step followed by a spawn attempt,
/// whatever its rolls) the spawn interval shrinks by
/// `SPAWN_INTERVAL_DECREMENT` per step until it reaches `MIN_SPAWN_INTERVAL`,
/// and never goes below it. Each link of `pools` is what one call of
/// `ObstaclePool::step` and one of `ObstaclePool::spawn_attempt_with` ensure.
pub proof fn lemma_interval_shrinks(
    pools: Seq<PoolView>,
    speeds: Seq<int>,
    resolution: Vec2i,
    times: Seq<u64>,
    rolls: Seq<int>,
    percents: Seq<int>,
)
    requires
        pools.len() == speeds.len() + 1,
        times.len() == speeds.len(),
        rolls.len() == speeds.len(),
        percents.len() == speeds.len(),
        pools[0].spawn_interval >= MIN_SPAWN_INTERVAL,
        forall|i: int| 0 <= i < speeds.len() ==> #[trigger] pools[i + 1] == pools[i].after_step(speeds[i]).after_attempt(
            resolution,
            times[i],
            rolls[i],
            percents[i],
        ),
    ensures
        forall|i: int| 0 <= i < pools.len() ==> #[trigger] pools[i].spawn_interval == max_int(
            pools[0].spawn_interval - i * SPAWN_INTERVAL_DECREMENT,
            MIN_SPAWN_INTERVAL as int,
        ),
        forall|i: int| 0 <= i < speeds.len() && pools[i].spawn_interval > MIN_SPAWN_INTERVAL
            ==> #[trigger] pools[i + 1].spawn_interval < pools[i].spawn_interval,
{
    assert forall|i: int| 0 <= i < pools.len() implies #[trigger] pools[i].spawn_interval == max_int(
        pools[0].spawn_interval - i * SPAWN_INTERVAL_DECREMENT,
        MIN_SPAWN_INTERVAL as int,
    ) by {
        lemma_interval_prefix(pools, speeds, resolution, times, rolls, percents, i);
    }
    assert forall|i: int| 0 <= i < speeds.len() && pools[i].spawn_interval > MIN_SPAWN_INTERVAL
        implies #[trigger] pools[i + 1].spawn_interval < pools[i].spawn_interval by {
        assert(pools[i + 1] == pools[i].after_step(speeds[i]).after_attempt(resolution, times[i], rolls[i], percents[i]));
    }
}

proof fn lemma_interval_prefix(
    pools: Seq<PoolView>,
    speeds: Seq<int>,
    resolution: Vec2i,
    times: Seq<u64>,
    rolls: Seq<int>,
    percents: Seq<int>,
    k: int,
)
    requires
        pools.len() == speeds.len() + 1,
        times.len() == speeds.len(),
        rolls.len() == speeds.len(),
        percents.len() == speeds.len(),
        pools[0].spawn_interval >= MIN_SPAWN_INTERVAL,
        forall|i: int| 0 <= i < speeds.len() ==> #[trigger] pools[i + 1] == pools[i].after_step(speeds[i]).after_attempt(
            resolution,
            times[i],
            rolls[i],
            percents[i],
        ),
        0 <= k < pools.len(),
    ensures
        pools[k].spawn_interval == max_int(
            pools[0].spawn_interval - k * SPAWN_INTERVAL_DECREMENT,
            MIN_SPAWN_INTERVAL as int,
        ),
    decreases k,
{
    if k > 0 {
        let j = k - 1;
        lemma_interval_prefix(pools, speeds, resolution, times, rolls, percents, j);
        assert(pools[j + 1] == pools[j].after_step(speeds[j]).after_attempt(
            resolution,
            times[j],
            rolls[j],
            percents[j],
        ));
    }
}

} // verus!
