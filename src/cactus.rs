//! The breakable hazard: a cactus that damages on contact and then breaks apart.
use vstd::prelude::*;
use crate::dino::{Dino, Effect, GROUND};
use crate::geometry::{lemma_scaled_bound, Rect, Viewport, ONE};
use crate::obstacle::{
    advance_hit_animation, hit_animation_step, scroll, scrolled, HIT_FRAME_COUNT, HIT_FRAME_MS,
    SPEED_CAP, X_CEILING, X_FLOOR,
};

verus! {

/// Height, as a fraction of the viewport height.
pub const CACTUS_SIZE: i64 = 150_000;
/// Health lost on contact, in millionths.
pub const CACTUS_DAMAGE: u32 = 150_000;
/// Largest width-to-height ratio of the image, in thousandths.
pub const MAX_ASPECT_MILLI: u32 = 10_000;

#[derive(Clone, Copy, Debug)]
pub struct Cactus {
    /// Left edge, a fraction of the viewport width.
    pub x_percent: i64,
    /// Height, a fraction of the viewport height.
    pub size_percent: i64,
    /// Width over height of its image, in thousandths.
    pub aspect_milli: u32,
    pub is_hit: bool,
    pub hit_frame: usize,
    /// Milliseconds accumulated toward the next hit frame.
    pub hit_timer: u32,
}

impl Cactus {
    pub open spec fn wf(&self) -> bool {
        &&& self.size_percent == CACTUS_SIZE
        &&& X_FLOOR <= self.x_percent <= X_CEILING
        &&& self.aspect_milli <= MAX_ASPECT_MILLI
        &&& self.hit_frame <= HIT_FRAME_COUNT
        &&& self.hit_timer < HIT_FRAME_MS
    }

    pub open spec fn after_update(self, speed: int, dt: int) -> Cactus {
        let moved = Cactus { x_percent: scrolled(self.x_percent as int, speed, dt) as i64, ..self };
        if self.is_hit {
            let (f, t) = hit_animation_step(self.hit_frame, self.hit_timer, dt as u32);
            Cactus { hit_frame: f, hit_timer: t, ..moved }
        } else {
            moved
        }
    }

    pub open spec fn after_hit(self) -> Cactus {
        Cactus { is_hit: true, hit_timer: 0, ..self }
    }

    pub open spec fn height_spec(&self, view: Viewport) -> int {
        view.height * self.size_percent
    }

    pub open spec fn width_spec(&self, view: Viewport) -> int {
        self.aspect_milli * self.height_spec(view) / 1000
    }

    /// The middle two fifths of the width and the top nine tenths of the height,
    /// standing on the ground; empty once struck.
    pub open spec fn hitbox_spec(&self, view: Viewport) -> Rect {
        if self.is_hit {
            Rect { x: 0, y: 0, w: 0, h: 0 }
        } else {
            let x = view.width * self.x_percent;
            let s = self.height_spec(view);
            let w = self.width_spec(view);
            let y = view.height * GROUND - s + 13 * ONE;
            Rect {
                x: (x + w * 2 / 7) as i64,
                y: y as i64,
                w: (w * 2 / 5) as i64,
                h: (s - s / 10) as i64,
            }
        }
    }

    pub open spec fn off_screen_spec(&self, view: Viewport) -> bool {
        view.width * self.x_percent + self.width_spec(view) < 0
    }

    /// A cactus with its left edge at `x_percent` of the width, whose image is
    /// `aspect_milli` thousandths as wide as it is tall.
    pub fn new(x_percent: i64, aspect_milli: u32) -> (r: Cactus)
        requires
            X_FLOOR <= x_percent <= X_CEILING,
            aspect_milli <= MAX_ASPECT_MILLI,
        ensures
            r.wf(),
            r == (Cactus {
                x_percent,
                size_percent: CACTUS_SIZE,
                aspect_milli,
                is_hit: false,
                hit_frame: 0,
                hit_timer: 0,
            }),
    {
        Cactus {
            x_percent,
            size_percent: CACTUS_SIZE,
            aspect_milli,
            is_hit: false,
            hit_frame: 0,
            hit_timer: 0,
        }
    }

    pub fn update(&mut self, speed: i64, dt: u32)
        requires
            old(self).wf(),
            0 <= speed <= SPEED_CAP,
        ensures
            final(self).wf(),
            *final(self) == old(self).after_update(speed as int, dt as int),
    {
        self.x_percent = scroll(self.x_percent, speed, dt);
        if self.is_hit {
            let (f, t) = advance_hit_animation(self.hit_frame, self.hit_timer, dt);
            self.hit_frame = f;
            self.hit_timer = t;
        }
    }

    fn width(&self, view: &Viewport) -> (r: i64)
        requires
            self.wf(),
            view.wf(),
        ensures
            r == self.width_spec(*view),
            0 <= r <= 10_000_000_000_000,
    {
        proof {
            lemma_scaled_bound(view.height as int, self.size_percent as int, ONE as int);
        }
        let s = view.height as i64 * self.size_percent;
        assert(0 <= self.aspect_milli * s <= MAX_ASPECT_MILLI * (100_000 * ONE)) by (nonlinear_arith)
            requires
                0 <= self.aspect_milli <= MAX_ASPECT_MILLI,
                0 <= s <= 100_000 * ONE,
        ;
        self.aspect_milli as i64 * s / 1000
    }

    pub fn get_hitbox(&self, view: &Viewport) -> (r: Rect)
        requires
            self.wf(),
            view.wf(),
        ensures
            r == self.hitbox_spec(*view),
            r.bounded(),
            self.is_hit ==> r.is_empty_spec(),
    {
        if self.is_hit {
            return Rect::empty();
        }
        proof {
            lemma_scaled_bound(view.width as int, self.x_percent as int, -X_FLOOR as int);
            lemma_scaled_bound(view.height as int, self.size_percent as int, ONE as int);
            lemma_scaled_bound(view.height as int, GROUND as int, ONE as int);
        }
        let x = view.width as i64 * self.x_percent;
        let s = view.height as i64 * self.size_percent;
        let w = self.width(view);
        let y = view.height as i64 * GROUND - s + 13 * ONE;
        Rect { x: x + w * 2 / 7, y, w: w * 2 / 5, h: s - s / 10 }
    }

    pub fn is_off_screen(&self, view: &Viewport) -> (r: bool)
        requires
            self.wf(),
            view.wf(),
        ensures
            r == self.off_screen_spec(*view),
    {
        proof {
            lemma_scaled_bound(view.width as int, self.x_percent as int, -X_FLOOR as int);
        }
        view.width as i64 * self.x_percent + self.width(view) < 0
    }

    /// Contact costs `CACTUS_DAMAGE` health.
    pub fn get_collision_effect(&self, _dino: &Dino) -> (e: Effect)
        ensures
            e == Effect::Damage(CACTUS_DAMAGE),
    {
        Effect::Damage(CACTUS_DAMAGE)
    }

    pub fn on_hit(&mut self)
        requires
            old(self).wf(),
        ensures
            final(self).wf(),
            *final(self) == old(self).after_hit(),
    {
        self.is_hit = true;
        self.hit_timer = 0;
    }

    /// Struck, and its hit animation has played to the end.
    pub fn should_remove(&self) -> (r: bool)
        ensures
            r == (self.is_hit && self.hit_frame >= HIT_FRAME_COUNT),
    {
        self.is_hit && self.hit_frame >= HIT_FRAME_COUNT
    }
}

} // verus!
