//! The game: a Paused / Running / GameOver state machine over a player and an
//! obstacle pool, driven by per-frame ticks and fixed simulation steps.
use vstd::prelude::*;
use crate::geometry::Vec2i;
use crate::obstacles::{ObstaclePool, ObstaclePoolSettings, PoolView, SIZE_ROLL_RANGE};
use crate::player::Player;
use crate::units::{
    CHANCE_SCALE, DAY_NIGHT_CYCLE_TIME, DEFAULT_PLAYER_SPEED, MAX_FRAME_TIME, RESOLUTION_X, RESOLUTION_Y,
    SUBPIXELS_PER_PIXEL, TIMESTEP,
};

verus! {

/// Side of the player's square box: 128 pixels.
pub const PLAYER_SIZE: i64 = 128 * SUBPIXELS_PER_PIXEL;

/// Room reserved for obstacles in a new game.
pub const OBSTACLE_CAPACITY: usize = 10;

/// The day/night cycle runs this many times faster on the menus.
pub const MENU_CYCLE_SPEEDUP: u64 = 5;

#[derive(Clone, Copy, Debug, PartialEq, Eq, Structural)]
pub enum GameState {
    Running,
    Paused,
    GameOver,
}

/// What one simulation step did, for the sounds that go with it.
#[derive(Clone, Copy, Debug, PartialEq, Eq, Structural)]
pub struct StepOutcome {
    pub landed: bool,
    pub crashed: bool,
}

/// The input of one rendered frame. Times are in time units.
#[derive(Clone, Copy, Debug, PartialEq, Eq, Structural)]
pub struct FrameInput {
    pub delta_time: u64,
    pub now: u64,
    pub pointer_down: bool,
    pub pointer_released: bool,
    pub pause_released: bool,
}

/// What one frame did: the time left over for the next frame, whether the
/// simulation was skipped, and the events of its tick and steps.
#[derive(Clone, Copy, Debug, PartialEq, Eq, Structural)]
pub struct FrameOutcome {
    pub accumulator: u64,
    pub skipped: bool,
    pub steps: u64,
    pub jumped: bool,
    pub landed: bool,
    pub crashed: bool,
}

/// The state of a game, with the obstacle pool as its view.
pub struct GameView {
    pub distance: u64,
    pub time: u64,
    pub delta_time: u64,
    pub player: Player,
    pub obstacles: PoolView,
    pub state: GameState,
    pub round_time: u64,
    pub resolution: Vec2i,
    pub day_night_cycle_time: u64,
    pub world_time: u64,
}

impl GameView {
    pub open spec fn wf(self) -> bool {
        &&& self.player.wf()
        &&& self.obstacles.wf()
        &&& self.resolution.within_extent()
    }

    /// A new game: paused, at the default settings.
    pub open spec fn initial() -> GameView {
        let resolution = Vec2i { x: RESOLUTION_X, y: RESOLUTION_Y };
        GameView {
            distance: 0,
            time: 0,
            delta_time: 0,
            player: Player::spec_new(Vec2i { x: PLAYER_SIZE, y: PLAYER_SIZE }, resolution),
            obstacles: PoolView::initial(ObstaclePoolSettings::spec_default()),
            state: GameState::Paused,
            round_time: 0,
            resolution,
            day_night_cycle_time: DAY_NIGHT_CYCLE_TIME,
            world_time: 0,
        }
    }

    /// The game after one frame's tick. The wall clock is not sampled after
    /// the game is over; the round clock and the player's input only run
    /// while the game runs.
    pub open spec fn ticked(self, delta_time: u64, now: u64, pointer_down: bool, pointer_released: bool) -> GameView {
        let running = self.state == GameState::Running;
        GameView {
            delta_time,
            world_time: self.world_time.saturating_add(delta_time),
            time: if self.state == GameState::GameOver { self.time } else { now },
            player: if running { self.player.ticked(pointer_down, pointer_released) } else { self.player },
            round_time: if running { self.round_time.saturating_add(delta_time) } else { self.round_time },
            ..self
        }
    }

    /// The game after one step with the given spawn rolls. Only a running
    /// game moves; a collision ends the round.
    pub open spec fn stepped(self, roll: int, percent: int) -> GameView {
        if self.state != GameState::Running {
            self
        } else {
            let player = self.player.stepped(self.round_time);
            let obstacles = self.obstacles.after_step(player.speed as int).after_attempt(
                self.resolution,
                self.round_time,
                roll,
                percent,
            );
            let crashed = obstacles.collides(player.aabb());
            GameView {
                player: if crashed { Player { is_moving: false, ..player } } else { player },
                obstacles,
                distance: self.distance.saturating_add(player.speed as u64),
                state: if crashed { GameState::GameOver } else { GameState::Running },
                day_night_cycle_time: if crashed {
                    (DAY_NIGHT_CYCLE_TIME / MENU_CYCLE_SPEEDUP) as u64
                } else {
                    self.day_night_cycle_time
                },
                ..self
            }
        }
    }

    /// The game after a reset: a fresh round, in whatever state it was.
    pub open spec fn after_reset(self) -> GameView {
        GameView {
            round_time: 0,
            player: self.player.after_reset(),
            obstacles: self.obstacles.after_reset(),
            distance: 0,
            day_night_cycle_time: DAY_NIGHT_CYCLE_TIME,
            ..self
        }
    }

    /// The game after the menus saw (or did not see) a click: a click on the
    /// start menu starts the round, one on the game-over screen restarts it.
    pub open spec fn clicked(self, clicked: bool) -> GameView {
        if self.state == GameState::Paused {
            if clicked {
                GameView { day_night_cycle_time: DAY_NIGHT_CYCLE_TIME, state: GameState::Running, ..self }
            } else {
                GameView {
                    day_night_cycle_time: (DAY_NIGHT_CYCLE_TIME / MENU_CYCLE_SPEEDUP) as u64,
                    ..self
                }
            }
        } else if self.state == GameState::GameOver && clicked {
            GameView { state: GameState::Running, ..self.after_reset() }
        } else {
            self
        }
    }

    /// The game after the pause key: running and paused swap, game over stays.
    pub open spec fn pause_toggled(self) -> GameView {
        GameView {
            state: match self.state {
                GameState::Paused => GameState::Running,
                GameState::Running => GameState::Paused,
                GameState::GameOver => GameState::GameOver,
            },
            ..self
        }
    }
}

/// `b` follows from `a` by `n` simulation steps, whatever the spawn rolls.
pub open spec fn steps_reach(a: GameView, b: GameView, n: nat) -> bool
    decreases n,
{
    if n == 0 {
        a == b
    } else {
        exists|mid: GameView, roll: int, percent: int|
            0 <= roll < CHANCE_SCALE && 0 <= percent < SIZE_ROLL_RANGE
            && steps_reach(a, mid, (n - 1) as nat) && b == #[trigger] mid.stepped(roll, percent)
    }
}

/// The whole game's state: clocks, score, player, obstacles and the state
/// machine. Times are in time units, lengths in sub-pixels.
#[derive(Clone, Debug)]
pub struct Game {
    pub distance: u64,
    pub time: u64,
    pub delta_time: u64,
    pub player: Player,
    pub obstacles: ObstaclePool,
    pub state: GameState,
    pub round_time: u64,
    pub resolution: Vec2i,
    pub day_night_cycle_time: u64,
    pub world_time: u64,
}

impl View for Game {
    type V = GameView;

    open spec fn view(&self) -> GameView {
        GameView {
            distance: self.distance,
            time: self.time,
            delta_time: self.delta_time,
            player: self.player,
            obstacles: self.obstacles@,
            state: self.state,
            round_time: self.round_time,
            resolution: self.resolution,
            day_night_cycle_time: self.day_night_cycle_time,
            world_time: self.world_time,
        }
    }
}

impl Game {
    pub open spec fn wf(&self) -> bool {
        self@.wf()
    }

    pub fn new() -> (r: Game)
        ensures
            r@ == GameView::initial(),
            r.wf(),
    {
        let size = Vec2i { x: RESOLUTION_X, y: RESOLUTION_Y };
        Game {
            time: 0,
            world_time: 0,
            delta_time: 0,
            round_time: 0,
            player: Player::new(Vec2i { x: PLAYER_SIZE, y: PLAYER_SIZE }, size),
            obstacles: ObstaclePool::new(OBSTACLE_CAPACITY, None),
            distance: 0,
            state: GameState::Paused,
            resolution: size,
            day_night_cycle_time: DAY_NIGHT_CYCLE_TIME,
        }
    }

    /// One frame's sampling of the clocks and the pointer. Returns whether
    /// the player started a jump.
    pub fn tick(&mut self, delta_time: u64, now: u64, pointer_down: bool, pointer_released: bool) -> (jumped: bool)
        requires
            old(self).wf(),
        ensures
            final(self)@ == old(self)@.ticked(delta_time, now, pointer_down, pointer_released),
            jumped == (old(self).state == GameState::Running && pointer_down && old(self).player.can_jump
                && !old(self).player.is_jumping),
            final(self).wf(),
    {
        self.delta_time = delta_time;
        self.world_time = self.world_time.saturating_add(delta_time);
        if !self.is_game_over() {
            self.time = now;
        }
        let mut jumped = false;
        if self.is_running() {
            jumped = self.player.tick(pointer_down, pointer_released);
            self.obstacles.tick();
            self.round_time = self.round_time.saturating_add(delta_time);
        }
        jumped
    }

    /// Half the world's resolution.
    pub fn half_size(&self) -> (r: Vec2i)
        requires
            self.wf(),
        ensures
            r.x == self.resolution.x / 2,
            r.y == self.resolution.y / 2,
    {
        Vec2i { x: self.resolution.x / 2, y: self.resolution.y / 2 }
    }

    pub fn is_running(&self) -> (r: bool)
        ensures
            r == (self.state == GameState::Running),
    {
        self.state == GameState::Running
    }

    pub fn is_paused(&self) -> (r: bool)
        ensures
            r == (self.state == GameState::Paused),
    {
        self.state == GameState::Paused
    }

    pub fn is_game_over(&self) -> (r: bool)
        ensures
            r == (self.state == GameState::GameOver),
    {
        self.state == GameState::GameOver
    }

    /// One fixed simulation step: the player moves, obstacles move and may
    /// spawn, the distance grows by the player's speed, and a collision ends
    /// the round. Does nothing unless the game runs.
    pub fn step(&mut self) -> (r: StepOutcome)
        requires
            old(self).wf(),
        ensures
            exists|roll: int, percent: int|
                0 <= roll < CHANCE_SCALE && 0 <= percent < SIZE_ROLL_RANGE
                && final(self)@ == #[trigger] old(self)@.stepped(roll, percent),
            r.landed == (old(self).state == GameState::Running && old(self).player.is_jumping
                && old(self).player.position <= old(self).player.ground_height),
            r.crashed == (old(self).state == GameState::Running && final(self).state == GameState::GameOver),
            final(self).wf(),
    {
        if self.is_paused() || self.is_game_over() {
            assert(self@ == self@.stepped(0, 0));
            return StepOutcome { landed: false, crashed: false };
        }
        let ghost start = self@;
        let landed = self.player.step(self.round_time);
        self.obstacles.step(self.player.speed);
        let ghost moved = self.obstacles@;
        self.spawn_attempt();
        let ghost (roll, percent) = choose|roll: int, percent: int|
            0 <= roll < CHANCE_SCALE && 0 <= percent < SIZE_ROLL_RANGE
            && self.obstacles@ == #[trigger] moved.after_attempt(self.resolution, self.round_time, roll, percent);
        self.distance = self.distance.saturating_add(self.player.speed as u64);
        let mut crashed = false;
        if self.obstacles.has_collision(&self.player) {
            self.player.is_moving = false;
            self.day_night_cycle_time = DAY_NIGHT_CYCLE_TIME / MENU_CYCLE_SPEEDUP;
            self.state = GameState::GameOver;
            crashed = true;
        }
        assert(self@ == start.stepped(roll, percent));
        StepOutcome { landed, crashed }
    }

    /// Starts the round on a click at the start menu (and speeds the sky up
    /// while it waits), and restarts it on a click at the game-over screen.
    pub fn menu_click(&mut self, clicked: bool)
        requires
            old(self).wf(),
        ensures
            final(self)@ == old(self)@.clicked(clicked),
            final(self).wf(),
    {
        if self.is_paused() {
            if !clicked {
                self.day_night_cycle_time = DAY_NIGHT_CYCLE_TIME / MENU_CYCLE_SPEEDUP;
                self.state = GameState::Paused;
            } else {
                self.day_night_cycle_time = DAY_NIGHT_CYCLE_TIME;
                self.state = GameState::Running;
            }
        } else if self.is_game_over() {
            if clicked {
                self.reset();
                self.state = GameState::Running;
            }
        }
    }

    /// The pause key: running and paused swap; a finished game stays over.
    pub fn toggle_pause(&mut self)
        ensures
            final(self)@ == old(self)@.pause_toggled(),
    {
        self.state = match self.state {
            GameState::Paused => GameState::Running,
            GameState::Running => GameState::Paused,
            GameState::GameOver => GameState::GameOver,
        };
    }

    /// One rendered frame up to drawing: the pause key, then either a pause
    /// (for a frame longer than `MAX_FRAME_TIME`, so that no backlog of steps
    /// builds up) or a tick followed by as many fixed steps as the time
    /// accumulated allows. The time left over is handed back for the next frame.
    pub fn run_frame(&mut self, accumulator: u64, input: FrameInput) -> (r: FrameOutcome)
        requires
            old(self).wf(),
            accumulator < TIMESTEP,
        ensures
            final(self).wf(),
            ({
                let toggled = if input.pause_released { old(self)@.pause_toggled() } else { old(self)@ };
                if input.delta_time > MAX_FRAME_TIME {
                    &&& r.skipped
                    &&& r.accumulator == accumulator
                    &&& r.steps == 0
                    &&& !r.jumped && !r.landed && !r.crashed
                    &&& final(self)@ == GameView { state: GameState::Paused, ..toggled }
                } else {
                    let ticked = toggled.ticked(
                        input.delta_time,
                        input.now,
                        input.pointer_down,
                        input.pointer_released,
                    );
                    &&& !r.skipped
                    &&& r.steps == (accumulator + input.delta_time) / (TIMESTEP as int)
                    &&& r.accumulator == (accumulator + input.delta_time) % (TIMESTEP as int)
                    &&& steps_reach(ticked, final(self)@, r.steps as nat)
                    &&& r.jumped == (toggled.state == GameState::Running && input.pointer_down
                        && toggled.player.can_jump && !toggled.player.is_jumping)
                }
            }),
            r.accumulator < TIMESTEP,
            r.crashed ==> final(self).state == GameState::GameOver,
    {
        if input.pause_released {
            self.toggle_pause();
        }
        if input.delta_time > MAX_FRAME_TIME {
            self.state = GameState::Paused;
            return FrameOutcome {
                accumulator,
                skipped: true,
                steps: 0,
                jumped: false,
                landed: false,
                crashed: false,
            };
        }
        let jumped = self.tick(input.delta_time, input.now, input.pointer_down, input.pointer_released);
        let ghost ticked = self@;
        let mut acc: u64 = accumulator + input.delta_time;
        let mut steps: u64 = 0;
        let mut landed = false;
        let mut crashed = false;
        while acc >= TIMESTEP
            invariant
                self.wf(),
                acc + steps * TIMESTEP == accumulator + input.delta_time,
                accumulator + input.delta_time <= TIMESTEP + MAX_FRAME_TIME,
                steps_reach(ticked, self@, steps as nat),
                crashed ==> self.state == GameState::GameOver,
            decreases acc,
        {
            let ghost before = self@;
            let outcome = self.step();
            landed = landed || outcome.landed;
            crashed = crashed || outcome.crashed;
            proof {
                let (roll, percent) = choose|roll: int, percent: int|
                    0 <= roll < CHANCE_SCALE && 0 <= percent < SIZE_ROLL_RANGE
                    && self@ == #[trigger] before.stepped(roll, percent);
                assert(steps_reach(ticked, self@, (steps + 1) as nat));
            }
            acc = acc - TIMESTEP;
            steps = steps + 1;
        }
        FrameOutcome { accumulator: acc, skipped: false, steps, jumped, landed, crashed }
    }

    fn spawn_attempt(&mut self)
        requires
            old(self).wf(),
        ensures
            exists|roll: int, percent: int|
                0 <= roll < CHANCE_SCALE && 0 <= percent < SIZE_ROLL_RANGE
                && final(self).obstacles@ == #[trigger] old(self).obstacles@.after_attempt(
                    old(self).resolution,
                    old(self).round_time,
                    roll,
                    percent,
                ),
            final(self)@ == (GameView { obstacles: final(self).obstacles@, ..old(self)@ }),
            final(self).wf(),
    {
        self.obstacles.spawn_attempt(self.resolution, self.round_time);
    }

    fn reset(&mut self)
        requires
            old(self).wf(),
        ensures
            final(self)@ == old(self)@.after_reset(),
            final(self).wf(),
    {
        self.round_time = 0;
        self.player.reset();
        self.obstacles.reset();
        self.distance = 0;
        self.day_night_cycle_time = DAY_NIGHT_CYCLE_TIME;
    }
}

/// Each step of a running game that does not end it adds the player's new
/// speed to the distance (short of the counter's limit), and leaves the round
/// clock alone: only ticks advance it.
pub proof fn lemma_step_accrues_speed(g: GameView, roll: int, percent: int)
    requires
        g.wf(),
        g.state == GameState::Running,
        g.distance + g.player.stepped(g.round_time).speed <= u64::MAX,
    ensures
        g.stepped(roll, percent).distance == g.distance + g.player.stepped(g.round_time).speed,
        g.stepped(roll, percent).player.speed == g.player.stepped(g.round_time).speed,
        g.stepped(roll, percent).round_time == g.round_time,
{
}

/// The sum of the player's speeds after each of the first `n` steps of a run.
pub open spec fn speed_total(games: Seq<GameView>, n: nat) -> int
    decreases n,
{
    if n == 0 {
        0
    } else {
        speed_total(games, (n - 1) as nat) + games[n as int].player.speed
    }
}

proof fn lemma_speed_total_monotone(games: Seq<GameView>, k: nat, n: nat)
    requires
        k <= n < games.len(),
        forall|i: int| 0 <= i < games.len() ==> #[trigger] games[i].wf(),
    ensures
        speed_total(games, k) <= speed_total(games, n),
    decreases n,
{
    if k < n {
        lemma_speed_total_monotone(games, k, (n - 1) as nat);
        assert(games[n as int].wf());
    }
}

/// Over a run of steps in which the round goes on, the distance grows by the
/// sum of the player's speeds after each step (short of the counter's limit),
/// and the round clock stands still: only ticks advance it.
pub proof fn lemma_run_accrues_speeds(games: Seq<GameView>, rolls: Seq<int>, percents: Seq<int>)
    requires
        games.len() == rolls.len() + 1,
        percents.len() == rolls.len(),
        games[0].state == GameState::Running,
        forall|i: int| 0 <= i < games.len() ==> #[trigger] games[i].wf(),
        forall|i: int| 0 <= i < rolls.len() ==> #[trigger] games[i + 1] == games[i].stepped(rolls[i], percents[i]),
        forall|i: int| 0 <= i < games.len() ==> #[trigger] games[i].state == GameState::Running,
        games[0].distance + speed_total(games, rolls.len()) <= u64::MAX,
    ensures
        forall|k: int| 0 <= k < games.len() ==> #[trigger] games[k].distance == games[0].distance + speed_total(games, k as nat),
        forall|k: int| 0 <= k < games.len() ==> #[trigger] games[k].round_time == games[0].round_time,
{
    assert forall|k: int| 0 <= k < games.len() implies #[trigger] games[k].distance == games[0].distance + speed_total(
        games,
        k as nat,
    ) by {
        lemma_run_prefix(games, rolls, percents, k as nat);
    }
    assert forall|k: int| 0 <= k < games.len() implies #[trigger] games[k].round_time == games[0].round_time by {
        lemma_run_prefix(games, rolls, percents, k as nat);
    }
}

proof fn lemma_run_prefix(games: Seq<GameView>, rolls: Seq<int>, percents: Seq<int>, k: nat)
    requires
        games.len() == rolls.len() + 1,
        percents.len() == rolls.len(),
        forall|i: int| 0 <= i < games.len() ==> #[trigger] games[i].wf(),
        forall|i: int| 0 <= i < rolls.len() ==> #[trigger] games[i + 1] == games[i].stepped(rolls[i], percents[i]),
        forall|i: int| 0 <= i < games.len() ==> #[trigger] games[i].state == GameState::Running,
        games[0].distance + speed_total(games, rolls.len()) <= u64::MAX,
        k < games.len(),
    ensures
        games[k as int].distance == games[0].distance + speed_total(games, k),
        games[k as int].round_time == games[0].round_time,
    decreases k,
{
    if k > 0 {
        let j = (k - 1) as int;
        lemma_run_prefix(games, rolls, percents, j as nat);
        lemma_speed_total_monotone(games, k, rolls.len());
        assert(games[j + 1] == games[j].stepped(rolls[j], percents[j]));
        assert(games[j].state == GameState::Running);
        assert(games[j + 1].wf());
        assert(games[j + 1].player.speed == games[j].player.stepped(games[j].round_time).speed);
    }
}

/// A step of a running game in which the player's box meets an obstacle's
/// ends the round; from then on, steps change nothing.
pub proof fn lemma_collision_ends_round(g: GameView, roll: int, percent: int, later_roll: int, later_percent: int)
    requires
        g.state == GameState::Running,
        g.obstacles.after_step(g.player.stepped(g.round_time).speed as int).after_attempt(
            g.resolution,
            g.round_time,
            roll,
            percent,
        ).collides(g.player.stepped(g.round_time).aabb()),
    ensures
        g.stepped(roll, percent).state == GameState::GameOver,
        g.stepped(roll, percent).stepped(later_roll, later_percent) == g.stepped(roll, percent),
{
}

/// A finished game does not move: no distance, no obstacle movement, no
/// spawns, until a restart.
pub proof fn lemma_game_over_is_frozen(g: GameView, roll: int, percent: int)
    requires
        g.state == GameState::GameOver,
    ensures
        g.stepped(roll, percent) == g,
{
}

/// A click on the game-over screen starts a fresh round: no distance, a new
/// round clock, the obstacle pool back at its settings, the player at rest
/// on the ground at the default speed, and the normal day length.
pub proof fn lemma_restart_restores_defaults(g: GameView)
    requires
        g.wf(),
        g.state == GameState::GameOver,
    ensures
        g.clicked(true).state == GameState::Running,
        g.clicked(true).distance == 0,
        g.clicked(true).round_time == 0,
        g.clicked(true).obstacles == PoolView::initial(g.obstacles.settings),
        g.clicked(true).player.speed == DEFAULT_PLAYER_SPEED,
        g.clicked(true).player.is_grounded(),
        g.clicked(true).player.ground_height == 0,
        !g.clicked(true).player.can_jump,
        g.clicked(true).player.is_moving,
        g.clicked(true).day_night_cycle_time == DAY_NIGHT_CYCLE_TIME,
        g.clicked(true).wf(),
{
}

} // verus!
