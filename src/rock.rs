//! The blocking hazard: a rock on the ground that kills on contact.
use vstd::prelude::*;
use crate::dino::{Dino, Effect, GROUND};
use crate::geometry::{lemma_scaled_bound, Rect, Viewport, ONE};
use crate::obstacle::{scroll, scrolled, SPEED_CAP, X_CEILING, X_FLOOR};

verus! {

/// Side length, as a fraction of the viewport height.
pub const ROCK_SIZE: i64 = 125_000;

#[derive(Clone, Copy, Debug)]
pub struct Rock {
    /// Left edge, a fraction of the viewport width.
    pub x_percent: i64,
    /// Side length, a fraction of the viewport height.
    pub size_percent: i64,
}

impl Rock {
    pub open spec fn wf(&self) -> bool {
        self.size_percent == ROCK_SIZE && X_FLOOR <= self.x_percent <= X_CEILING
    }

    pub open spec fn after_update(self, speed: int, dt: int) -> Rock {
        Rock { x_percent: scrolled(self.x_percent as int, speed, dt) as i64, ..self }
    }

    /// A quarter of the side in from the left, half the side wide, twice as tall
    /// as the rock, standing on the ground.
    pub open spec fn hitbox_spec(&self, view: Viewport) -> Rect {
        let x = view.width * self.x_percent;
        let s = view.height * self.size_percent;
        let y = view.height * GROUND - s + 6 * ONE;
        Rect { x: (x + s / 4) as i64, y: y as i64, w: (s / 2) as i64, h: (s * 2) as i64 }
    }

    pub open spec fn off_screen_spec(&self, view: Viewport) -> bool {
        view.width * self.x_percent + view.height * self.size_percent < 0
    }

    /// A rock with its left edge at `x_percent` of the width.
    pub fn new(x_percent: i64) -> (r: Rock)
        requires
            X_FLOOR <= x_percent <= X_CEILING,
        ensures
            r.wf(),
            r == (Rock { x_percent, size_percent: ROCK_SIZE }),
    {
        Rock { x_percent, size_percent: ROCK_SIZE }
    }

    pub fn update(&mut self, speed: i64, dt: u32)
        requires
            old(self).wf(),
            0 <= speed <= SPEED_CAP,
        ensures
            final(self).wf(),
            *final(self) == old(self).after_update(speed as int, dt as int),
    {
        self.x_percent = scroll(self.x_percent, speed, dt);
    }

    pub fn get_hitbox(&self, view: &Viewport) -> (r: Rect)
        requires
            self.wf(),
            view.wf(),
        ensures
            r == self.hitbox_spec(*view),
            r.bounded(),
    {
        proof {
            lemma_scaled_bound(view.width as int, self.x_percent as int, -X_FLOOR as int);
            lemma_scaled_bound(view.height as int, self.size_percent as int, ONE as int);
            lemma_scaled_bound(view.height as int, GROUND as int, ONE as int);
        }
        let x = view.width as i64 * self.x_percent;
        let s = view.height as i64 * self.size_percent;
        let y = view.height as i64 * GROUND - s + 6 * ONE;
        Rect { x: x + s / 4, y, w: s / 2, h: s * 2 }
    }

    pub fn is_off_screen(&self, view: &Viewport) -> (r: bool)
        requires
            self.wf(),
            view.wf(),
        ensures
            r == self.off_screen_spec(*view),
    {
        proof {
            lemma_scaled_bound(view.width as int, self.x_percent as int, -X_FLOOR as int);
            lemma_scaled_bound(view.height as int, self.size_percent as int, ONE as int);
        }
        view.width as i64 * self.x_percent + view.height as i64 * self.size_percent < 0
    }

    /// Contact is fatal.
    pub fn get_collision_effect(&self, _dino: &Dino) -> (e: Effect)
        ensures
            e == Effect::Kill,
    {
        Effect::Kill
    }
}

} // verus!
