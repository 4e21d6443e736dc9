//! The session orchestrator: the Ready / Playing / GameOver state machine that
//! drives the protagonist, spawns and scrolls obstacles, and keeps the score.
use vstd::prelude::*;
use crate::cactus::{Cactus, MAX_ASPECT_MILLI};
use crate::cloud::Cloud;
use crate::collision::{collision_effects, kept, prune, resolve_collisions, struck};
use crate::dino::{DeathCause, Dino};
use crate::fly::{Fly, FLY_ALTITUDE};
use crate::geometry::{Viewport, ONE};
use crate::obstacle::{Obstacle, SPEED_CAP};
use crate::random::random_below;
use crate::rock::Rock;

verus! {

/// World speed at the start of a session, in millionths of the width per second.
pub const GAME_SPEED: i64 = 200_000;
/// World speed gained per millisecond of play (0.015 widths per second each second).
pub const GAME_SPEED_PER_MS: i64 = 15;
/// Milliseconds before the first obstacle, and the base spawn interval.
pub const OBSTACLE_SPAWN_MS: i64 = 1500;
/// The shortest spawn interval, however fast the world runs.
pub const MIN_SPAWN_MS: i64 = 500;
/// Width of the range that a spawn interval is drawn from.
pub const SPAWN_SPREAD_MS: i64 = 1000;
/// Where new obstacles appear: just past the right edge.
pub const SPAWN_X: i64 = 1_050_000;
/// Clouds in the sky.
pub const CLOUD_COUNT: usize = 5;

/// The phase of a session.
#[derive(Clone, Copy, Debug, PartialEq, Eq, Structural)]
pub enum GameState {
    Ready,
    Playing,
    GameOver,
}

/// The commands sampled for one frame.
#[derive(Clone, Copy, Debug, PartialEq, Eq, Structural)]
pub struct Input {
    /// Jump, or start from `Ready`: pressed this frame.
    pub jump_pressed: bool,
    /// Restart from `GameOver`: pressed this frame.
    pub restart_pressed: bool,
    /// Up held: steers flight upward.
    pub up_held: bool,
    /// Down held: ducks, and steers flight downward.
    pub down_held: bool,
    /// Flight held.
    pub fly_held: bool,
    /// Eat pressed this frame.
    pub eat_pressed: bool,
}

/// The obstacle that a roll in `0..10` spawns: rolls 0 to 3 give a rock, 4 to 6
/// a cactus, the rest a fly.
pub open spec fn obstacle_for_roll_spec(roll: u32, aspect_milli: u32) -> Obstacle {
    if roll <= 3 {
        Obstacle::Rock(Rock { x_percent: SPAWN_X, size_percent: crate::rock::ROCK_SIZE })
    } else if roll <= 6 {
        Obstacle::Cactus(
            Cactus {
                x_percent: SPAWN_X,
                size_percent: crate::cactus::CACTUS_SIZE,
                aspect_milli,
                is_hit: false,
                hit_frame: 0,
                hit_timer: 0,
            },
        )
    } else {
        Obstacle::Fly(
            Fly {
                x_percent: SPAWN_X,
                y_percent: FLY_ALTITUDE,
                size_percent: crate::fly::FLY_SIZE,
                is_hit: false,
                hit_frame: 0,
                hit_timer: 0,
            },
        )
    }
}

/// The lower end of the spawn-interval range at world speed `speed`: the base
/// interval shortened by the speed (as milliseconds per millionth-per-second
/// over a thousand), never below `MIN_SPAWN_MS`.
pub open spec fn spawn_floor_spec(speed: int) -> int {
    if OBSTACLE_SPAWN_MS - speed / 1000 < MIN_SPAWN_MS {
        MIN_SPAWN_MS as int
    } else {
        OBSTACLE_SPAWN_MS - speed / 1000
    }
}

/// The obstacle that `roll` spawns, just past the right edge.
pub fn obstacle_for_roll(roll: u32, aspect_milli: u32) -> (o: Obstacle)
    requires
        aspect_milli <= MAX_ASPECT_MILLI,
    ensures
        o == obstacle_for_roll_spec(roll, aspect_milli),
        o.wf(),
{
    if roll <= 3 {
        Obstacle::Rock(Rock::new(SPAWN_X))
    } else if roll <= 6 {
        Obstacle::Cactus(Cactus::new(SPAWN_X, aspect_milli))
    } else {
        Obstacle::Fly(Fly::new(SPAWN_X, FLY_ALTITUDE))
    }
}

/// The lower end of the spawn-interval range at world speed `speed`.
pub fn spawn_interval_floor(speed: i64) -> (r: i64)
    requires
        0 <= speed <= SPEED_CAP,
    ensures
        r == spawn_floor_spec(speed as int),
        MIN_SPAWN_MS <= r <= OBSTACLE_SPAWN_MS,
{
    let shortened = OBSTACLE_SPAWN_MS - speed / 1000;
    if shortened < MIN_SPAWN_MS {
        MIN_SPAWN_MS
    } else {
        shortened
    }
}

/// The flight direction that the arrows ask for: up -1, down +1, both 0.
pub open spec fn fly_direction_of(input: Input) -> i8 {
    ((if input.up_held {
        -1int
    } else {
        0int
    }) + (if input.down_held {
        1int
    } else {
        0int
    })) as i8
}

/// The protagonist after the frame's commands: jump, duck, eat, then flight.
pub open spec fn commanded(d: Dino, input: Input) -> Dino {
    let d1 = if input.jump_pressed {
        d.after_jump()
    } else {
        d
    };
    let d2 = Dino { is_ducking: input.down_held, ..d1 };
    let d3 = if input.eat_pressed {
        d2.after_eat()
    } else {
        d2
    };
    d3.after_fly(input.fly_held, fly_direction_of(input))
}

/// Whether the world moves behind a protagonist in state `d`: always while
/// alive; after a death by attrition until the death animation finishes; never
/// after a death by impact.
pub open spec fn world_runs(d: Dino) -> bool {
    !d.is_dead_spec() || (d.death_cause == Some(DeathCause::Attrition)
        && !d.death_animation_finished_spec())
}

/// Each obstacle of `obs` scrolled at `speed` for `dt` milliseconds.
pub open spec fn scrolled_all(obs: Seq<Obstacle>, speed: int, dt: int) -> Seq<Obstacle> {
    Seq::new(obs.len(), |i: int| obs[i].after_update(speed, dt))
}

/// What the spawner may do: count `timer` down by `dt`; when that runs out,
/// append an obstacle of a roll below ten and draw the next interval from
/// `[floor, floor + SPAWN_SPREAD_MS)` for the world speed `speed`.
pub open spec fn spawn_outcome(
    timer: int,
    dt: int,
    speed: int,
    aspect_milli: u32,
    before: Seq<Obstacle>,
    new_timer: int,
    after: Seq<Obstacle>,
) -> bool {
    if timer - dt > 0 {
        new_timer == timer - dt && after == before
    } else {
        &&& exists|roll: u32|
            roll < 10 && after == before.push(obstacle_for_roll_spec(roll, aspect_milli))
        &&& spawn_floor_spec(speed) <= new_timer < spawn_floor_spec(speed) + SPAWN_SPREAD_MS
    }
}

/// One pass of the world from `old`, whose protagonist has already moved this
/// frame: obstacles scroll and are pruned, the ground scrolls; while the
/// protagonist lives, the spawner runs, collisions resolve against the
/// obstacles, and score and speed grow.
pub open spec fn world_advanced(old: Game, dt: u32, view: Viewport, new: Game) -> bool {
    let speed = old.game_speed_percent;
    let moved = kept(scrolled_all(old.obstacles@, speed as int, dt as int), view);
    &&& new.ground_displacement == (old.ground_displacement + speed * dt / 1000) % (ONE as int)
    &&& if old.dino.is_dead_spec() {
        &&& new.dino == old.dino
        &&& new.obstacles@ == moved
        &&& new.spawn_timer == old.spawn_timer
        &&& new.score == old.score
        &&& new.game_speed_percent == old.game_speed_percent
    } else {
        &&& exists|spawned: Seq<Obstacle>|
            #[trigger] spawn_outcome(
                old.spawn_timer as int,
                dt as int,
                speed as int,
                old.cactus_aspect_milli,
                moved,
                new.spawn_timer as int,
                spawned,
            ) && new.obstacles@ == struck(old.dino.hitbox_spec(view), spawned, view) && new.dino
                == old.dino.after_effects(collision_effects(old.dino, spawned, view))
        &&& new.score == if old.score < u32::MAX {
            old.score + 1
        } else {
            old.score as int
        }
        &&& new.game_speed_percent == if speed + GAME_SPEED_PER_MS * dt > SPEED_CAP {
            SPEED_CAP as int
        } else {
            speed + GAME_SPEED_PER_MS * dt
        }
    }
}

/// One session and the high score that outlives it.
pub struct Game {
    pub dino: Dino,
    /// Active obstacles, oldest first.
    pub obstacles: Vec<Obstacle>,
    pub clouds: Vec<Cloud>,
    pub score: u32,
    pub high_score: u32,
    /// World speed: millionths of the viewport width per second.
    pub game_speed_percent: i64,
    /// Scroll offset of the ground pattern, a fraction of the width.
    pub ground_displacement: i64,
    /// Milliseconds until the next spawn.
    pub spawn_timer: i64,
    pub state: GameState,
    /// Width over height of the cactus image, in thousandths.
    pub cactus_aspect_milli: u32,
}

impl Game {
    pub open spec fn wf(&self) -> bool {
        &&& self.dino.wf()
        &&& forall|i: int| 0 <= i < self.obstacles.len() ==> (#[trigger] self.obstacles[i]).wf()
        &&& forall|i: int| 0 <= i < self.clouds.len() ==> (#[trigger] self.clouds[i]).wf()
        &&& GAME_SPEED <= self.game_speed_percent <= SPEED_CAP
        &&& 0 <= self.ground_displacement < ONE
        &&& 0 < self.spawn_timer <= MIN_SPAWN_MS + SPAWN_SPREAD_MS + OBSTACLE_SPAWN_MS
        &&& self.cactus_aspect_milli <= MAX_ASPECT_MILLI
    }

    /// `new` is `old` after a session reset: a fresh protagonist, no obstacles,
    /// score zero, base speed and spawn timer, playing, and the high score as
    /// it was.
    pub open spec fn is_reset_of(new: Game, old: Game) -> bool {
        &&& new.dino == Dino::fresh()
        &&& new.obstacles@.len() == 0
        &&& new.score == 0
        &&& new.game_speed_percent == GAME_SPEED
        &&& new.ground_displacement == 0
        &&& new.spawn_timer == OBSTACLE_SPAWN_MS
        &&& new.state == GameState::Playing
        &&& new.high_score == old.high_score
        &&& new.cactus_aspect_milli == old.cactus_aspect_milli
    }

    /// What one call of `update` does: the state machine, the protagonist, the
    /// obstacles, spawner and ground, the score and speed rules, the world
    /// freeze, and the high score. Only the random draws are left open.
    pub open spec fn update_relation(
        old: Game,
        input: Input,
        dt: u32,
        view: Viewport,
        new: Game,
    ) -> bool {
        &&& new.cactus_aspect_milli == old.cactus_aspect_milli
        &&& new.clouds.len() == old.clouds.len()
        &&& match old.state {
            GameState::Ready => {
                &&& new.score == old.score
                &&& new.high_score == old.high_score
                &&& new.game_speed_percent == old.game_speed_percent
                &&& new.obstacles@ == old.obstacles@
                &&& new.spawn_timer == old.spawn_timer
                &&& new.ground_displacement == old.ground_displacement
                &&& if input.jump_pressed {
                    new.state == GameState::Playing && new.dino == old.dino.after_jump()
                } else {
                    new.state == GameState::Ready && new.dino == old.dino
                }
            },
            GameState::GameOver => {
                if input.restart_pressed {
                    Game::is_reset_of(new, old)
                } else {
                    &&& new.state == GameState::GameOver
                    &&& new.dino == old.dino
                    &&& new.score == old.score
                    &&& new.high_score == old.high_score
                    &&& new.game_speed_percent == old.game_speed_percent
                    &&& new.obstacles@ == old.obstacles@
                    &&& new.spawn_timer == old.spawn_timer
                    &&& new.ground_displacement == old.ground_displacement
                }
            },
            GameState::Playing => {
                let moved = commanded(old.dino, input).after_update(dt);
                &&& if world_runs(moved) {
                    world_advanced(Game { dino: moved, ..old }, dt, view, new)
                } else {
                    &&& new.dino == moved
                    &&& new.obstacles@ == old.obstacles@
                    &&& new.spawn_timer == old.spawn_timer
                    &&& new.ground_displacement == old.ground_displacement
                    &&& new.score == old.score
                    &&& new.game_speed_percent == old.game_speed_percent
                }
                &&& old.score <= new.score <= old.score + 1
                &&& old.game_speed_percent <= new.game_speed_percent
                &&& (old.dino.is_dead_spec() ==> new.score == old.score
                    && new.game_speed_percent == old.game_speed_percent)
                &&& (!old.dino.is_dead_spec() ==> new.score == (if old.score < u32::MAX {
                    old.score + 1
                } else {
                    old.score as int
                }) && new.game_speed_percent == (if old.game_speed_percent + GAME_SPEED_PER_MS * dt
                    > SPEED_CAP {
                    SPEED_CAP as int
                } else {
                    old.game_speed_percent + GAME_SPEED_PER_MS * dt
                }))
                &&& (old.dino.is_dead_spec() && old.dino.death_cause == Some(DeathCause::Impact)
                    ==> new.obstacles@
                    == old.obstacles@ && new.spawn_timer == old.spawn_timer
                    && new.ground_displacement == old.ground_displacement)
                &&& (old.dino.death_cause is Some ==> new.dino.death_cause == old.dino.death_cause)
                &&& if new.dino.death_animation_finished_spec() {
                    &&& new.state == GameState::GameOver
                    &&& new.high_score == if new.score > old.high_score {
                        new.score
                    } else {
                        old.high_score
                    }
                } else {
                    new.state == GameState::Playing && new.high_score == old.high_score
                }
            },
        }
    }

    /// A session waiting to start, with a fresh protagonist and clouds spread
    /// across the sky.
    pub fn new(cactus_aspect_milli: u32) -> (g: Game)
        requires
            cactus_aspect_milli <= MAX_ASPECT_MILLI,
        ensures
            g.wf(),
            g.state == GameState::Ready,
            g.dino == Dino::fresh(),
            g.obstacles@.len() == 0,
            g.clouds@.len() == CLOUD_COUNT,
            g.score == 0,
            g.high_score == 0,
            g.game_speed_percent == GAME_SPEED,
            g.spawn_timer == OBSTACLE_SPAWN_MS,
    {
        let mut clouds: Vec<Cloud> = Vec::new();
        let mut i: usize = 0;
        while i < CLOUD_COUNT
            invariant
                i <= CLOUD_COUNT,
                clouds.len() == i,
                forall|j: int| 0 <= j < clouds.len() ==> (#[trigger] clouds[j]).wf(),
            decreases CLOUD_COUNT - i,
        {
            let mut cloud = Cloud::new();
            cloud.x_percent = random_below(0, ONE as u32) as i64;
            clouds.push(cloud);
            i = i + 1;
        }
        Game {
            dino: Dino::new(),
            obstacles: Vec::new(),
            clouds,
            score: 0,
            high_score: 0,
            game_speed_percent: GAME_SPEED,
            ground_displacement: 0,
            spawn_timer: OBSTACLE_SPAWN_MS,
            state: GameState::Ready,
            cactus_aspect_milli,
        }
    }

    /// Starts a new session, keeping the high score.
    pub fn reset(&mut self)
        requires
            old(self).wf(),
        ensures
            final(self).wf(),
            Game::is_reset_of(*final(self), *old(self)),
            final(self).clouds@ == old(self).clouds@,
    {
        self.dino.reset();
        self.obstacles.clear();
        self.score = 0;
        self.game_speed_percent = GAME_SPEED;
        self.ground_displacement = 0;
        self.spawn_timer = OBSTACLE_SPAWN_MS;
        self.state = GameState::Playing;
    }

    /// World speed in pixels per second, scaled by `ONE`.
    pub fn game_speed(&self, view: &Viewport) -> (r: i64)
        requires
            self.wf(),
            view.wf(),
        ensures
            r == view.width * self.game_speed_percent,
    {
        proof {
            crate::geometry::lemma_scaled_bound(
                view.width as int,
                self.game_speed_percent as int,
                SPEED_CAP as int,
            );
        }
        view.width as i64 * self.game_speed_percent
    }

    /// Adds an obstacle of a randomly chosen kind (four in ten rocks, three in
    /// ten cacti, three in ten flies) just past the right edge.
    pub fn spawn_obstacle(&mut self)
        requires
            old(self).wf(),
        ensures
            final(self).wf(),
            exists|roll: u32|
                roll < 10 && final(self).obstacles@ == old(self).obstacles@.push(
                    obstacle_for_roll_spec(roll, old(self).cactus_aspect_milli),
                ),
            *final(self) == (Game { obstacles: final(self).obstacles, ..*old(self) }),
    {
        let roll = random_below(0, 10);
        let o = obstacle_for_roll(roll, self.cactus_aspect_milli);
        self.obstacles.push(o);
    }

    /// Counts the spawn timer down by `dt`; when it runs out, spawns an obstacle
    /// and draws the next interval from `[floor, floor + SPAWN_SPREAD_MS)`,
    /// where the floor never drops below `MIN_SPAWN_MS`.
    pub fn tick_spawner(&mut self, dt: u32)
        requires
            old(self).wf(),
        ensures
            final(self).wf(),
            spawn_outcome(
                old(self).spawn_timer as int,
                dt as int,
                old(self).game_speed_percent as int,
                old(self).cactus_aspect_milli,
                old(self).obstacles@,
                final(self).spawn_timer as int,
                final(self).obstacles@,
            ),
            old(self).spawn_timer - dt > 0 ==> *final(self) == (Game {
                spawn_timer: (old(self).spawn_timer - dt) as i64,
                ..*old(self)
            }),
            old(self).spawn_timer - dt <= 0 ==> {
                &&& exists|roll: u32|
                    roll < 10 && final(self).obstacles@ == old(self).obstacles@.push(
                        obstacle_for_roll_spec(roll, old(self).cactus_aspect_milli),
                    )
                &&& spawn_floor_spec(old(self).game_speed_percent as int) <= final(self).spawn_timer
                    < spawn_floor_spec(old(self).game_speed_percent as int) + SPAWN_SPREAD_MS
                &&& MIN_SPAWN_MS <= final(self).spawn_timer
                &&& *final(self) == (Game {
                    obstacles: final(self).obstacles,
                    spawn_timer: final(self).spawn_timer,
                    ..*old(self)
                })
            },
    {
        let t = self.spawn_timer - dt as i64;
        if t > 0 {
            self.spawn_timer = t;
        } else {
            self.spawn_obstacle();
            let floor = spawn_interval_floor(self.game_speed_percent);
            self.spawn_timer = random_below(floor as u32, (floor + SPAWN_SPREAD_MS) as u32) as i64;
        }
    }

    fn update_clouds(&mut self, dt: u32)
        requires
            old(self).wf(),
        ensures
            final(self).wf(),
            *final(self) == (Game { clouds: final(self).clouds, ..*old(self) }),
            final(self).clouds.len() == old(self).clouds.len(),
    {
        let n = self.clouds.len();
        let mut i: usize = 0;
        while i < n
            invariant
                0 <= i <= n,
                n == self.clouds.len(),
                forall|j: int| 0 <= j < n ==> (#[trigger] self.clouds[j]).wf(),
                *self == (Game { clouds: self.clouds, ..*old(self) }),
                old(self).wf(),
            decreases n - i,
        {
            let mut c = self.clouds[i];
            c.update(dt);
            self.clouds.set(i, c);
            i = i + 1;
        }
    }

    /// Scrolls the obstacles and the ground at the world speed, then drops the
    /// obstacles that left the screen or finished their hit animation.
    fn advance_world(&mut self, dt: u32, view: &Viewport)
        requires
            old(self).wf(),
            view.wf(),
        ensures
            final(self).wf(),
            *final(self) == (Game {
                obstacles: final(self).obstacles,
                ground_displacement: final(self).ground_displacement,
                ..*old(self)
            }),
            final(self).obstacles@ == kept(
                scrolled_all(
                    old(self).obstacles@,
                    old(self).game_speed_percent as int,
                    dt as int,
                ),
                *view,
            ),
            final(self).ground_displacement == (old(self).ground_displacement
                + old(self).game_speed_percent * dt / 1000) % (ONE as int),
    {
        let speed = self.game_speed_percent;
        let n = self.obstacles.len();
        let mut i: usize = 0;
        while i < n
            invariant
                0 <= i <= n,
                n == self.obstacles.len(),
                speed == old(self).game_speed_percent,
                forall|j: int| 0 <= j < n ==> (#[trigger] self.obstacles[j]).wf(),
                forall|j: int|
                    0 <= j < i ==> (#[trigger] self.obstacles[j]) == old(self).obstacles[j].after_update(
                        speed as int,
                        dt as int,
                    ),
                forall|j: int| i <= j < n ==> (#[trigger] self.obstacles[j]) == old(self).obstacles[j],
                *self == (Game { obstacles: self.obstacles, ..*old(self) }),
                old(self).wf(),
            decreases n - i,
        {
            let mut o = self.obstacles[i];
            o.update(speed, dt);
            self.obstacles.set(i, o);
            i = i + 1;
        }
        assert(0 <= speed * dt <= SPEED_CAP * u32::MAX) by (nonlinear_arith)
            requires
                0 <= speed <= SPEED_CAP,
                0 <= dt <= u32::MAX,
        ;
        assert(self.obstacles@ =~= scrolled_all(old(self).obstacles@, speed as int, dt as int));
        let step = speed * dt as i64 / 1000;
        self.ground_displacement = (self.ground_displacement + step) % ONE;
        self.obstacles = prune(&self.obstacles, view);
    }

    /// Applies the frame's commands to the protagonist and advances it.
    fn drive_dino(dino: &mut Dino, input: &Input, dt: u32)
        requires
            old(dino).wf(),
        ensures
            final(dino).wf(),
            *final(dino) == commanded(*old(dino), *input).after_update(dt),
            final(dino).health == old(dino).health,
            final(dino).death_cause == old(dino).death_cause,
    {
        if input.jump_pressed {
            dino.jump();
        }
        dino.duck(input.down_held);
        if input.eat_pressed {
            dino.eat();
        }
        let mut direction: i8 = 0;
        if input.up_held {
            direction = direction - 1;
        }
        if input.down_held {
            direction = direction + 1;
        }
        dino.fly(input.fly_held, direction);
        dino.update(dt);
    }

    /// Scrolls the world; while the protagonist lives, also spawns, resolves
    /// collisions, counts the tick and speeds the world up.
    fn run_world(&mut self, dt: u32, view: &Viewport)
        requires
            old(self).wf(),
            view.wf(),
        ensures
            final(self).wf(),
            final(self).clouds == old(self).clouds,
            final(self).state == old(self).state,
            final(self).high_score == old(self).high_score,
            final(self).cactus_aspect_milli == old(self).cactus_aspect_milli,
            world_advanced(*old(self), dt, *view, *final(self)),
            old(self).dino.is_dead_spec() ==> final(self).score == old(self).score
                && final(self).game_speed_percent == old(self).game_speed_percent
                && final(self).dino == old(self).dino,
            !old(self).dino.is_dead_spec() ==> final(self).score == (if old(self).score
                < u32::MAX {
                old(self).score + 1
            } else {
                old(self).score as int
            }) && final(self).game_speed_percent == (if old(self).game_speed_percent
                + GAME_SPEED_PER_MS * dt > SPEED_CAP {
                SPEED_CAP as int
            } else {
                old(self).game_speed_percent + GAME_SPEED_PER_MS * dt
            }),
            old(self).dino.death_cause is Some ==> final(self).dino.death_cause == old(
                self,
            ).dino.death_cause,
    {
        self.advance_world(dt, view);
        let ghost moved = self.obstacles@;
        if !self.dino.is_dead() {
            self.tick_spawner(dt);
            let ghost before = self.dino;
            let ghost obstacles_before = self.obstacles@;
            assert(spawn_outcome(
                old(self).spawn_timer as int,
                dt as int,
                old(self).game_speed_percent as int,
                old(self).cactus_aspect_milli,
                moved,
                self.spawn_timer as int,
                obstacles_before,
            ));
            resolve_collisions(&mut self.dino, &mut self.obstacles, view);
            proof {
                if before.death_cause is Some {
                    crate::effects::lemma_death_cause_is_permanent(
                        before,
                        crate::collision::collision_effects(before, obstacles_before, *view),
                    );
                }
            }
            if self.score < u32::MAX {
                self.score = self.score + 1;
            }
            let faster = self.game_speed_percent + GAME_SPEED_PER_MS * dt as i64;
            self.game_speed_percent = if faster > SPEED_CAP {
                SPEED_CAP
            } else {
                faster
            };
        }
    }

    /// One frame of play: commands, the protagonist, the world (unless frozen by
    /// death), then the game-over check.
    fn update_playing(&mut self, input: &Input, dt: u32, view: &Viewport)
        requires
            old(self).wf(),
            old(self).state == GameState::Playing,
            view.wf(),
        ensures
            final(self).wf(),
            Game::update_relation(*old(self), *input, dt, *view, *final(self)),
    {
        Game::drive_dino(&mut self.dino, input, dt);
        let world_runs = if !self.dino.is_dead() {
            true
        } else {
            match self.dino.death_cause {
                Some(DeathCause::Attrition) => !self.dino.death_animation_finished(),
                _ => false,
            }
        };
        if world_runs {
            self.run_world(dt, view);
        }
        self.update_clouds(dt);
        if self.dino.is_dead() && self.dino.death_animation_finished() {
            self.state = GameState::GameOver;
            if self.score > self.high_score {
                self.high_score = self.score;
            }
        }
    }

    /// Advances the session by one frame of `dt` milliseconds with the commands
    /// of `input`.
    pub fn update(&mut self, input: &Input, dt: u32, view: &Viewport)
        requires
            old(self).wf(),
            view.wf(),
        ensures
            final(self).wf(),
            Game::update_relation(*old(self), *input, dt, *view, *final(self)),
    {
        match self.state {
            GameState::Ready => {
                self.update_clouds(dt);
                if input.jump_pressed {
                    self.state = GameState::Playing;
                    self.dino.jump();
                }
            },
            GameState::Playing => {
                self.update_playing(input, dt, view);
            },
            GameState::GameOver => {
                self.update_clouds(dt);
                if input.restart_pressed {
                    self.reset();
                }
            },
        }
    }

    pub fn score(&self) -> (r: u32)
        ensures
            r == self.score,
    {
        self.score
    }

    pub fn high_score(&self) -> (r: u32)
        ensures
            r == self.high_score,
    {
        self.high_score
    }

    pub fn state(&self) -> (r: GameState)
        ensures
            r == self.state,
    {
        self.state
    }
}

/// However fast the world runs, the spawn interval is drawn from a range that
/// starts at `MIN_SPAWN_MS` or later.
pub proof fn lemma_spawn_floor_is_clamped(speed: int)
    ensures
        spawn_floor_spec(speed) >= MIN_SPAWN_MS,
{
}

/// Restarting after a game over gives full health and mana, no obstacles, a zero
/// score and the base speed, and a high score that is the earlier one, or the
/// finished session's score where that was higher.
pub proof fn lemma_session_round_trip(
    g0: Game,
    input0: Input,
    dt0: u32,
    view0: Viewport,
    g1: Game,
    input1: Input,
    dt1: u32,
    view1: Viewport,
    g2: Game,
)
    requires
        g0.state == GameState::Playing,
        Game::update_relation(g0, input0, dt0, view0, g1),
        g1.state == GameState::GameOver,
        input1.restart_pressed,
        Game::update_relation(g1, input1, dt1, view1, g2),
    ensures
        g2.state == GameState::Playing,
        g2.dino.health == ONE,
        g2.dino.mana == ONE,
        g2.dino.death_cause is None,
        g2.obstacles@.len() == 0,
        g2.score == 0,
        g2.game_speed_percent == GAME_SPEED,
        g2.high_score == if g1.score > g0.high_score {
            g1.score
        } else {
            g0.high_score
        },
{
}

} // verus!
