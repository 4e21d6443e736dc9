//! The aerial hazard: a fly that damages on contact, unless the protagonist is
//! eating, in which case it is caught and restores health and mana.
use vstd::prelude::*;
use crate::dino::{Dino, Effect};
use crate::geometry::{lemma_scaled_bound, Rect, Viewport, ONE};
use crate::obstacle::{
    advance_hit_animation, hit_animation_step, scroll, scrolled, HIT_FRAME_COUNT, HIT_FRAME_MS,
    SPEED_CAP, X_CEILING, X_FLOOR,
};

verus! {

/// Side length, as a fraction of the viewport height.
pub const FLY_SIZE: i64 = 100_000;
/// Altitude of its top edge, as a fraction of the viewport height.
pub const FLY_ALTITUDE: i64 = 450_000;
/// Health lost when it strikes a protagonist that is not eating, in millionths.
pub const FLY_DAMAGE: u32 = 100_000;

#[derive(Clone, Copy, Debug)]
pub struct Fly {
    /// Left edge, a fraction of the viewport width.
    pub x_percent: i64,
    /// Top edge, a fraction of the viewport height.
    pub y_percent: i64,
    /// Side length, a fraction of the viewport height.
    pub size_percent: i64,
    pub is_hit: bool,
    pub hit_frame: usize,
    /// Milliseconds accumulated toward the next hit frame.
    pub hit_timer: u32,
}

impl Fly {
    pub open spec fn wf(&self) -> bool {
        &&& self.size_percent == FLY_SIZE
        &&& X_FLOOR <= self.x_percent <= X_CEILING
        &&& 0 <= self.y_percent <= ONE
        &&& self.hit_frame <= HIT_FRAME_COUNT
        &&& self.hit_timer < HIT_FRAME_MS
    }

    pub open spec fn after_update(self, speed: int, dt: int) -> Fly {
        let moved = Fly { x_percent: scrolled(self.x_percent as int, speed, dt) as i64, ..self };
        if self.is_hit {
            let (f, t) = hit_animation_step(self.hit_frame, self.hit_timer, dt as u32);
            Fly { hit_frame: f, hit_timer: t, ..moved }
        } else {
            moved
        }
    }

    pub open spec fn after_hit(self) -> Fly {
        Fly { is_hit: true, hit_timer: 0, ..self }
    }

    /// Its whole square; empty once struck.
    pub open spec fn hitbox_spec(&self, view: Viewport) -> Rect {
        if self.is_hit {
            Rect { x: 0, y: 0, w: 0, h: 0 }
        } else {
            let s = view.height * self.size_percent;
            Rect {
                x: (view.width * self.x_percent) as i64,
                y: (view.height * self.y_percent) as i64,
                w: s as i64,
                h: s as i64,
            }
        }
    }

    pub open spec fn off_screen_spec(&self, view: Viewport) -> bool {
        view.width * self.x_percent + view.height * self.size_percent < 0
    }

    /// Caught (`Eaten`) when the protagonist is eating, otherwise `FLY_DAMAGE`.
    pub open spec fn effect_spec(&self, dino: Dino) -> Effect {
        if dino.is_eating {
            Effect::Eaten
        } else {
            Effect::Damage(FLY_DAMAGE)
        }
    }

    /// A fly with its left edge at `x_percent` of the width and its top at
    /// `y_percent` of the height.
    pub fn new(x_percent: i64, y_percent: i64) -> (r: Fly)
        requires
            X_FLOOR <= x_percent <= X_CEILING,
            0 <= y_percent <= ONE,
        ensures
            r.wf(),
            r == (Fly {
                x_percent,
                y_percent,
                size_percent: FLY_SIZE,
                is_hit: false,
                hit_frame: 0,
                hit_timer: 0,
            }),
    {
        Fly { x_percent, y_percent, size_percent: FLY_SIZE, is_hit: false, hit_frame: 0, hit_timer: 0 }
    }

    pub fn update(&mut self, speed: i64, dt: u32)
        requires
            old(self).wf(),
            0 <= speed <= SPEED_CAP,
        ensures
            final(self).wf(),
            *final(self) == old(self).after_update(speed as int, dt as int),
    {
        self.x_percent = scroll(self.x_percent, speed, dt);
        if self.is_hit {
            let (f, t) = advance_hit_animation(self.hit_frame, self.hit_timer, dt);
            self.hit_frame = f;
            self.hit_timer = t;
        }
    }

    pub fn get_hitbox(&self, view: &Viewport) -> (r: Rect)
        requires
            self.wf(),
            view.wf(),
        ensures
            r == self.hitbox_spec(*view),
            r.bounded(),
            self.is_hit ==> r.is_empty_spec(),
    {
        if self.is_hit {
            return Rect::empty();
        }
        proof {
            lemma_scaled_bound(view.width as int, self.x_percent as int, -X_FLOOR as int);
            lemma_scaled_bound(view.height as int, self.size_percent as int, ONE as int);
            lemma_scaled_bound(view.height as int, self.y_percent as int, ONE as int);
        }
        let s = view.height as i64 * self.size_percent;
        Rect {
            x: view.width as i64 * self.x_percent,
            y: view.height as i64 * self.y_percent,
            w: s,
            h: s,
        }
    }

    pub fn is_off_screen(&self, view: &Viewport) -> (r: bool)
        requires
            self.wf(),
            view.wf(),
        ensures
            r == self.off_screen_spec(*view),
    {
        proof {
            lemma_scaled_bound(view.width as int, self.x_percent as int, -X_FLOOR as int);
            lemma_scaled_bound(view.height as int, self.size_percent as int, ONE as int);
        }
        view.width as i64 * self.x_percent + view.height as i64 * self.size_percent < 0
    }

    pub fn get_collision_effect(&self, dino: &Dino) -> (e: Effect)
        ensures
            e == self.effect_spec(*dino),
    {
        if dino.is_eating() {
            Effect::Eaten
        } else {
            Effect::Damage(FLY_DAMAGE)
        }
    }

    pub fn on_hit(&mut self)
        requires
            old(self).wf(),
        ensures
            final(self).wf(),
            *final(self) == old(self).after_hit(),
    {
        self.is_hit = true;
        self.hit_timer = 0;
    }

    /// Struck, and its hit animation has played to the end.
    pub fn should_remove(&self) -> (r: bool)
        ensures
            r == (self.is_hit && self.hit_frame >= HIT_FRAME_COUNT),
    {
        self.is_hit && self.hit_frame >= HIT_FRAME_COUNT
    }
}

} // verus!
