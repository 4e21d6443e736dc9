//! The obstacles that scroll toward the protagonist: one closed set of variants
//! with a common contract.
use vstd::prelude::*;
use crate::cactus::Cactus;
use crate::dino::{Dino, Effect};
use crate::fly::Fly;
use crate::geometry::{Rect, Viewport};
use crate::rock::Rock;

verus! {

/// Obstacles never scroll further left than this (a fraction of the width).
pub const X_FLOOR: i64 = -1_000_000_000;
/// Obstacles are created no further right than this.
pub const X_CEILING: i64 = 10_000_000;
/// The fastest world speed, in millionths of the width per second.
pub const SPEED_CAP: i64 = 1_000_000_000;
/// Frames of the post-hit animation of breakable and aerial hazards.
pub const HIT_FRAME_COUNT: usize = 4;
/// Milliseconds per frame of the post-hit animation.
pub const HIT_FRAME_MS: u32 = 150;

/// Horizontal position after scrolling at `speed` for `dt` milliseconds.
pub open spec fn scrolled(x: int, speed: int, dt: int) -> int {
    if x - speed * dt / 1000 < X_FLOOR {
        X_FLOOR as int
    } else {
        x - speed * dt / 1000
    }
}

/// Scrolls `x` left at `speed` for `dt` milliseconds.
pub fn scroll(x: i64, speed: i64, dt: u32) -> (r: i64)
    requires
        X_FLOOR <= x <= X_CEILING,
        0 <= speed <= SPEED_CAP,
    ensures
        r == scrolled(x as int, speed as int, dt as int),
        X_FLOOR <= r <= x,
{
    assert(0 <= speed * dt <= SPEED_CAP * u32::MAX) by (nonlinear_arith)
        requires
            0 <= speed <= SPEED_CAP,
            0 <= dt <= u32::MAX,
    ;
    let step = speed * dt as i64 / 1000;
    let moved = x - step;
    if moved < X_FLOOR {
        X_FLOOR
    } else {
        moved
    }
}

/// The post-hit animation after `dt` more milliseconds: a frame passes each
/// time `HIT_FRAME_MS` have accumulated, and the count stops at `HIT_FRAME_COUNT`.
pub open spec fn hit_animation_step(frame: usize, timer: u32, dt: u32) -> (usize, u32) {
    if timer + dt >= HIT_FRAME_MS {
        (if frame < HIT_FRAME_COUNT {
            (frame + 1) as usize
        } else {
            frame
        }, 0)
    } else {
        (frame, (timer + dt) as u32)
    }
}

/// Advances a post-hit animation by `dt` milliseconds.
pub fn advance_hit_animation(frame: usize, timer: u32, dt: u32) -> (r: (usize, u32))
    requires
        frame <= HIT_FRAME_COUNT,
        timer < HIT_FRAME_MS,
    ensures
        r == hit_animation_step(frame, timer, dt),
        r.0 <= HIT_FRAME_COUNT,
        r.1 < HIT_FRAME_MS,
{
    let t: u64 = timer as u64 + dt as u64;
    if t >= HIT_FRAME_MS as u64 {
        if frame < HIT_FRAME_COUNT {
            (frame + 1, 0)
        } else {
            (frame, 0)
        }
    } else {
        (frame, t as u32)
    }
}

/// A step whose world speed an update accepts (any frame time is accepted).
pub open spec fn valid_step(step: (i64, u32)) -> bool {
    0 <= step.0 <= SPEED_CAP
}

proof fn lemma_scrolled_bounds(x: int, speed: int, dt: int)
    requires
        X_FLOOR <= x <= X_CEILING,
        0 <= speed <= SPEED_CAP,
        0 <= dt <= u32::MAX,
    ensures
        X_FLOOR <= scrolled(x, speed, dt) <= x,
{
    assert(0 <= speed * dt) by (nonlinear_arith)
        requires
            0 <= speed,
            0 <= dt,
    ;
}

/// An obstacle of one of the three kinds.
#[derive(Clone, Copy, Debug)]
pub enum Obstacle {
    /// Blocking hazard: kills on contact.
    Rock(Rock),
    /// Breakable hazard: damages, then breaks apart.
    Cactus(Cactus),
    /// Aerial hazard: damages, or is caught while eating.
    Fly(Fly),
}

impl Obstacle {
    pub open spec fn wf(&self) -> bool {
        match self {
            Obstacle::Rock(o) => o.wf(),
            Obstacle::Cactus(o) => o.wf(),
            Obstacle::Fly(o) => o.wf(),
        }
    }

    pub open spec fn x_spec(&self) -> i64 {
        match self {
            Obstacle::Rock(o) => o.x_percent,
            Obstacle::Cactus(o) => o.x_percent,
            Obstacle::Fly(o) => o.x_percent,
        }
    }

    /// Struck already, so that it must not register another hit.
    pub open spec fn is_hit_spec(&self) -> bool {
        match self {
            Obstacle::Rock(o) => false,
            Obstacle::Cactus(o) => o.is_hit,
            Obstacle::Fly(o) => o.is_hit,
        }
    }

    pub open spec fn hit_frame_spec(&self) -> usize {
        match self {
            Obstacle::Rock(o) => 0,
            Obstacle::Cactus(o) => o.hit_frame,
            Obstacle::Fly(o) => o.hit_frame,
        }
    }

    pub open spec fn hitbox_spec(&self, view: Viewport) -> Rect {
        match self {
            Obstacle::Rock(o) => o.hitbox_spec(view),
            Obstacle::Cactus(o) => o.hitbox_spec(view),
            Obstacle::Fly(o) => o.hitbox_spec(view),
        }
    }

    pub open spec fn off_screen_spec(&self, view: Viewport) -> bool {
        match self {
            Obstacle::Rock(o) => o.off_screen_spec(view),
            Obstacle::Cactus(o) => o.off_screen_spec(view),
            Obstacle::Fly(o) => o.off_screen_spec(view),
        }
    }

    pub open spec fn effect_spec(&self, dino: Dino) -> Effect {
        match self {
            Obstacle::Rock(o) => Effect::Kill,
            Obstacle::Cactus(o) => Effect::Damage(crate::cactus::CACTUS_DAMAGE),
            Obstacle::Fly(o) => o.effect_spec(dino),
        }
    }

    pub open spec fn should_remove_spec(&self) -> bool {
        match self {
            Obstacle::Rock(o) => false,
            Obstacle::Cactus(o) => o.is_hit && o.hit_frame >= HIT_FRAME_COUNT,
            Obstacle::Fly(o) => o.is_hit && o.hit_frame >= HIT_FRAME_COUNT,
        }
    }

    pub open spec fn after_update(self, speed: int, dt: int) -> Obstacle {
        match self {
            Obstacle::Rock(o) => Obstacle::Rock(o.after_update(speed, dt)),
            Obstacle::Cactus(o) => Obstacle::Cactus(o.after_update(speed, dt)),
            Obstacle::Fly(o) => Obstacle::Fly(o.after_update(speed, dt)),
        }
    }

    pub open spec fn after_hit(self) -> Obstacle {
        match self {
            Obstacle::Rock(o) => self,
            Obstacle::Cactus(o) => Obstacle::Cactus(o.after_hit()),
            Obstacle::Fly(o) => Obstacle::Fly(o.after_hit()),
        }
    }

    /// The state after the updates `steps`, each a world speed and a frame time.
    pub open spec fn after_updates(self, steps: Seq<(i64, u32)>) -> Obstacle
        decreases steps.len(),
    {
        if steps.len() == 0 {
            self
        } else {
            self.after_updates(steps.drop_last()).after_update(
                steps.last().0 as int,
                steps.last().1 as int,
            )
        }
    }

    /// Scrolls left at `speed` for `dt` milliseconds and advances any post-hit animation.
    pub fn update(&mut self, speed: i64, dt: u32)
        requires
            old(self).wf(),
            0 <= speed <= SPEED_CAP,
        ensures
            final(self).wf(),
            *final(self) == old(self).after_update(speed as int, dt as int),
    {
        match self {
            Obstacle::Rock(o) => o.update(speed, dt),
            Obstacle::Cactus(o) => o.update(speed, dt),
            Obstacle::Fly(o) => o.update(speed, dt),
        }
    }

    /// The collision rectangle in pixels scaled by `ONE`; empty once struck.
    pub fn get_hitbox(&self, view: &Viewport) -> (r: Rect)
        requires
            self.wf(),
            view.wf(),
        ensures
            r == self.hitbox_spec(*view),
            r.bounded(),
            self.is_hit_spec() ==> r.is_empty_spec(),
    {
        match self {
            Obstacle::Rock(o) => o.get_hitbox(view),
            Obstacle::Cactus(o) => o.get_hitbox(view),
            Obstacle::Fly(o) => o.get_hitbox(view),
        }
    }

    /// Whether it has left the viewport on the left.
    pub fn is_off_screen(&self, view: &Viewport) -> (r: bool)
        requires
            self.wf(),
            view.wf(),
        ensures
            r == self.off_screen_spec(*view),
    {
        match self {
            Obstacle::Rock(o) => o.is_off_screen(view),
            Obstacle::Cactus(o) => o.is_off_screen(view),
            Obstacle::Fly(o) => o.is_off_screen(view),
        }
    }

    /// What a collision with this obstacle does to `dino`; changes nothing.
    pub fn get_collision_effect(&self, dino: &Dino) -> (e: Effect)
        requires
            self.wf(),
        ensures
            e == self.effect_spec(*dino),
    {
        match self {
            Obstacle::Rock(o) => o.get_collision_effect(dino),
            Obstacle::Cactus(o) => o.get_collision_effect(dino),
            Obstacle::Fly(o) => o.get_collision_effect(dino),
        }
    }

    /// Marks the obstacle as struck, starting its post-hit behaviour.
    pub fn on_hit(&mut self)
        requires
            old(self).wf(),
        ensures
            final(self).wf(),
            *final(self) == old(self).after_hit(),
    {
        match self {
            Obstacle::Rock(o) => {},
            Obstacle::Cactus(o) => o.on_hit(),
            Obstacle::Fly(o) => o.on_hit(),
        }
    }

    /// Whether the post-hit animation has finished.
    pub fn should_remove(&self) -> (r: bool)
        requires
            self.wf(),
        ensures
            r == self.should_remove_spec(),
    {
        match self {
            Obstacle::Rock(o) => false,
            Obstacle::Cactus(o) => o.should_remove(),
            Obstacle::Fly(o) => o.should_remove(),
        }
    }
}

/// An update keeps an obstacle well formed and keeps a struck one struck.
pub proof fn lemma_update_keeps_wf(o: Obstacle, speed: int, dt: int)
    requires
        o.wf(),
        0 <= speed <= SPEED_CAP,
        0 <= dt <= u32::MAX,
    ensures
        o.after_update(speed, dt).wf(),
        o.after_update(speed, dt).is_hit_spec() == o.is_hit_spec(),
        o.after_update(speed, dt).hit_frame_spec() >= o.hit_frame_spec(),
{
    lemma_scrolled_bounds(o.x_spec() as int, speed, dt);
}

/// Once struck, an obstacle stays struck and exposes an empty hitbox, whatever
/// updates follow.
pub proof fn lemma_struck_stays_unhittable(o: Obstacle, steps: Seq<(i64, u32)>, view: Viewport)
    requires
        o.wf(),
        o.is_hit_spec(),
        forall|i: int| 0 <= i < steps.len() ==> valid_step(#[trigger] steps[i]),
    ensures
        o.after_updates(steps).wf(),
        o.after_updates(steps).is_hit_spec(),
        o.after_updates(steps).hitbox_spec(view).is_empty_spec(),
    decreases steps.len(),
{
    if steps.len() > 0 {
        let rest = steps.drop_last();
        assert forall|i: int| 0 <= i < rest.len() implies valid_step(#[trigger] rest[i]) by {
            assert(rest[i] == steps[i]);
        }
        lemma_struck_stays_unhittable(o, rest, view);
        assert(valid_step(steps[steps.len() - 1]));
        lemma_update_keeps_wf(o.after_updates(rest), steps.last().0 as int, steps.last().1 as int);
    }
}

/// A struck obstacle that has been updated `n` times, each over at least one hit
/// frame's time, has advanced its hit animation by `n` frames or to its end.
pub proof fn lemma_hit_frames_advance(o: Obstacle, steps: Seq<(i64, u32)>)
    requires
        o.wf(),
        o.is_hit_spec(),
        forall|i: int|
            0 <= i < steps.len() ==> valid_step(#[trigger] steps[i]) && steps[i].1 >= HIT_FRAME_MS,
    ensures
        o.after_updates(steps).wf(),
        o.after_updates(steps).is_hit_spec(),
        o.after_updates(steps).hit_frame_spec() >= if o.hit_frame_spec() + steps.len()
            >= HIT_FRAME_COUNT {
            HIT_FRAME_COUNT as int
        } else {
            o.hit_frame_spec() + steps.len()
        },
    decreases steps.len(),
{
    if steps.len() > 0 {
        let rest = steps.drop_last();
        assert forall|i: int| 0 <= i < rest.len() implies valid_step(#[trigger] rest[i])
            && rest[i].1 >= HIT_FRAME_MS by {
            assert(rest[i] == steps[i]);
        }
        lemma_hit_frames_advance(o, rest);
        assert(valid_step(steps[steps.len() - 1]) && steps[steps.len() - 1].1 >= HIT_FRAME_MS);
        lemma_update_keeps_wf(o.after_updates(rest), steps.last().0 as int, steps.last().1 as int);
    }
}

/// A struck breakable or aerial hazard is due for removal once its hit animation
/// has had `HIT_FRAME_COUNT` updates of at least `HIT_FRAME_MS` each, whatever
/// the world speed during them.
pub proof fn lemma_struck_is_removed(o: Obstacle, steps: Seq<(i64, u32)>)
    requires
        o.wf(),
        o.is_hit_spec(),
        steps.len() >= HIT_FRAME_COUNT,
        forall|i: int|
            0 <= i < steps.len() ==> valid_step(#[trigger] steps[i]) && steps[i].1 >= HIT_FRAME_MS,
    ensures
        o.after_updates(steps).should_remove_spec(),
{
    lemma_hit_frames_advance(o, steps);
}

} // verus!
