//! The protagonist's commands and its per-tick physics and animation.
use vstd::prelude::*;
use crate::dino::{clamp_unit, ANIMATION_MS, EATING_ANIMATION_MS, FLY_MANA_PER_MS, FLY_SPEED, FLY_TOP, FRAME_COUNT, GROUND, clamp_i64, clamp_int, Dino, DOUBLE_JUMP_MANA_COST, DOUBLE_JUMP_VELOCITY, GRAVITY_PER_MS, JUMP_VELOCITY, VELOCITY_CAP};
use crate::geometry::{
    div_toward_zero, lemma_mul_bound, lemma_scaled_bound, trunc_div, Circle, Viewport, ONE,
};

verus! {

impl Dino {
    /// What `jump()` makes of this state.
    pub open spec fn after_jump(self) -> Dino {
        if !self.is_jumping {
            Dino {
                velocity_y: JUMP_VELOCITY,
                is_jumping: true,
                can_double_jump: true,
                current_frame: 0,
                animation_timer: 0,
                ..self
            }
        } else if self.can_double_jump && self.mana >= DOUBLE_JUMP_MANA_COST {
            Dino {
                velocity_y: DOUBLE_JUMP_VELOCITY,
                mana: (self.mana - DOUBLE_JUMP_MANA_COST) as i64,
                can_double_jump: false,
                ..self
            }
        } else {
            self
        }
    }

    /// Jumps from the ground; in mid-air, spends `DOUBLE_JUMP_MANA_COST` on a
    /// smaller second jump, once until landing. Otherwise nothing happens.
    pub fn jump(&mut self)
        requires
            old(self).wf(),
        ensures
            final(self).wf(),
            *final(self) == old(self).after_jump(),
    {
        if !self.is_jumping {
            self.velocity_y = JUMP_VELOCITY;
            self.is_jumping = true;
            self.can_double_jump = true;
            self.current_frame = 0;
            self.animation_timer = 0;
        } else if self.can_double_jump && self.mana >= DOUBLE_JUMP_MANA_COST {
            self.velocity_y = DOUBLE_JUMP_VELOCITY;
            self.mana = self.mana - DOUBLE_JUMP_MANA_COST;
            self.can_double_jump = false;
        }
    }

    /// Sets the ducking stance.
    pub fn duck(&mut self, ducking: bool)
        requires
            old(self).wf(),
        ensures
            final(self).wf(),
            *final(self) == (Dino { is_ducking: ducking, ..*old(self) }),
    {
        self.is_ducking = ducking;
    }

    /// What `fly(flying, vertical_direction)` makes of this state.
    pub open spec fn after_fly(self, flying: bool, vertical_direction: i8) -> Dino {
        if self.is_jumping && flying && self.mana > 0 {
            Dino { is_flying: true, fly_direction: vertical_direction, ..self }
        } else {
            Dino { is_flying: false, fly_direction: 0, ..self }
        }
    }

    /// Engages flight toward `vertical_direction` (-1 up, 1 down) when airborne,
    /// asked for, and with mana left; otherwise flight is switched off.
    pub fn fly(&mut self, flying: bool, vertical_direction: i8)
        requires
            old(self).wf(),
            -1 <= vertical_direction <= 1,
        ensures
            final(self).wf(),
            *final(self) == old(self).after_fly(flying, vertical_direction),
    {
        if self.is_jumping && flying && self.mana > 0 {
            self.is_flying = true;
            self.fly_direction = vertical_direction;
        } else {
            self.is_flying = false;
            self.fly_direction = 0;
        }
    }

    /// What `eat()` makes of this state.
    pub open spec fn after_eat(self) -> Dino {
        if !self.is_eating && !self.is_dead_spec() {
            Dino { is_eating: true, has_eaten: false, current_frame: 0, animation_timer: 0, ..self }
        } else {
            self
        }
    }

    /// Starts the eating animation, when alive and not already eating.
    pub fn eat(&mut self)
        requires
            old(self).wf(),
        ensures
            final(self).wf(),
            *final(self) == old(self).after_eat(),
    {
        if !self.is_eating && !self.is_dead() {
            self.is_eating = true;
            self.has_eaten = false;
            self.current_frame = 0;
            self.animation_timer = 0;
        }
    }

    pub fn is_eating(&self) -> (r: bool)
        ensures
            r == self.is_eating,
    {
        self.is_eating
    }

    }

/// Jumping from the ground and then again in mid-air with enough mana spends
/// exactly `DOUBLE_JUMP_MANA_COST` on the second jump and uses up the mid-air
/// jump, so that a third jump before landing changes nothing.
pub proof fn lemma_double_jump_once(d: Dino)
    requires
        d.wf(),
        !d.is_jumping,
        d.mana >= DOUBLE_JUMP_MANA_COST,
    ensures
        d.after_jump().after_jump().mana == d.mana - DOUBLE_JUMP_MANA_COST,
        d.after_jump().after_jump().velocity_y == DOUBLE_JUMP_VELOCITY,
        !d.after_jump().after_jump().can_double_jump,
        d.after_jump().after_jump().after_jump() == d.after_jump().after_jump(),
{
}

impl Dino {
    /// The collision circle, in pixels scaled by `ONE`.
    pub fn get_hitbox(&self, view: &Viewport) -> (c: Circle)
        requires
            self.wf(),
            view.wf(),
        ensures
            c == self.hitbox_spec(*view),
            c.bounded(),
    {
        let x = self.x(view);
        let y = self.y(view);
        let s = self.width(view);
        proof {
            lemma_scaled_bound(view.height as int, self.size_percent as int, ONE as int);
            lemma_scaled_bound(view.height as int, self.y_percent as int, ONE as int);
            lemma_scaled_bound(view.width as int, self.x_percent as int, ONE as int);
        }
        let cy = if self.is_jumping {
            y + s / 2
        } else {
            y + s * 40 / 49
        };
        Circle { x: x + s / 2, y: cy, r: s / 4 }
    }

    /// Gravity for `dt` milliseconds: the speed grows, within the cap, and the
    /// protagonist moves at the new speed.
    pub open spec fn gravity_applied(self, dt: u32) -> Dino {
        let v = clamp_int(
            self.velocity_y + GRAVITY_PER_MS * dt,
            -VELOCITY_CAP as int,
            VELOCITY_CAP as int,
        );
        Dino { velocity_y: v as i64, ..self }.moved(dt)
    }

    /// Moving at the current speed for `dt` milliseconds, kept within `[-ONE, ONE]`.
    pub open spec fn moved(self, dt: u32) -> Dino {
        Dino {
            y_percent: clamp_int(
                self.y_percent + trunc_div(dt * self.velocity_y, 1000),
                -ONE as int,
                ONE as int,
            ) as i64,
            ..self
        }
    }

    /// A fall that reached `ground_level` ends the jump on the ground.
    pub open spec fn landed(self, ground_level: int) -> Dino {
        if self.velocity_y > 0 && self.y_percent >= ground_level {
            Dino {
                y_percent: ground_level as i64,
                velocity_y: 0,
                is_jumping: false,
                is_flying: false,
                can_double_jump: false,
                ..self
            }
        } else {
            self
        }
    }

    /// Flight for `dt` milliseconds: the speed eases toward the flight direction
    /// (a tenth of the gap per 10 ms), then the protagonist moves and is kept
    /// between `FLY_TOP` and `ground_level`, stopping where it is held.
    pub open spec fn steered(self, dt: u32, ground_level: int) -> Dino {
        let target = self.fly_direction * FLY_SPEED;
        let v = clamp_int(
            self.velocity_y + trunc_div(dt * (target - self.velocity_y), 100),
            -VELOCITY_CAP as int,
            VELOCITY_CAP as int,
        );
        let d = Dino { velocity_y: v as i64, ..self }.moved(dt);
        if d.y_percent < FLY_TOP {
            Dino { y_percent: FLY_TOP, velocity_y: 0, ..d }
        } else if d.y_percent > ground_level {
            Dino { y_percent: ground_level as i64, velocity_y: 0, ..d }
        } else {
            d
        }
    }

    /// While dead: the death animation advances and stops on its last frame, and
    /// a protagonist that died in the air falls to the ground.
    pub open spec fn dead_step(self, dt: u32, ground_level: int) -> Dino {
        let t = self.animation_timer + dt;
        let d = if t >= ANIMATION_MS {
            Dino {
                animation_timer: 0,
                current_frame: if self.current_frame < FRAME_COUNT - 1 {
                    (self.current_frame + 1) as usize
                } else {
                    self.current_frame
                },
                ..self
            }
        } else {
            Dino { animation_timer: t as u32, ..self }
        };
        if d.is_jumping {
            d.gravity_applied(dt).landed(ground_level)
        } else {
            d
        }
    }

    /// While flying: mana drains, the flight moves the protagonist, and flight
    /// ends (mana at zero) when the drain would take mana below zero.
    pub open spec fn flight_step(self, dt: u32, ground_level: int) -> Dino {
        if self.is_flying {
            if self.mana > 0 {
                let m = self.mana - FLY_MANA_PER_MS * dt;
                let d = Dino { mana: m as i64, ..self }.steered(dt, ground_level);
                if m < 0 {
                    Dino { mana: 0, is_flying: false, ..d }
                } else {
                    d
                }
            } else {
                Dino { is_flying: false, ..self }
            }
        } else {
            self
        }
    }

    /// While eating: a frame passes per `EATING_ANIMATION_MS`; without a catch
    /// the animation ends after frame 1, after one it runs to the last frame.
    pub open spec fn eating_step(self, dt: u32) -> Dino {
        if self.is_eating {
            let t = self.animation_timer + dt;
            if t >= EATING_ANIMATION_MS {
                let f = self.current_frame + 1;
                let max_frame = if self.has_eaten {
                    FRAME_COUNT - 1
                } else {
                    1
                };
                if f > max_frame {
                    Dino { animation_timer: 0, current_frame: 0, is_eating: false, ..self }
                } else {
                    Dino { animation_timer: 0, current_frame: f as usize, ..self }
                }
            } else {
                Dino { animation_timer: t as u32, ..self }
            }
        } else {
            self
        }
    }

    /// While airborne: gravity acts unless flying, and a fall that reaches the
    /// ground lands, restarting the animation.
    pub open spec fn airborne_step(self, dt: u32, ground_level: int) -> Dino {
        if self.is_jumping {
            let d = if !self.is_flying {
                self.gravity_applied(dt)
            } else {
                self
            };
            if d.velocity_y > 0 && d.y_percent >= ground_level {
                Dino { current_frame: 0, ..d.landed(ground_level) }
            } else {
                d
            }
        } else {
            self
        }
    }

    /// Unless eating: a frame passes per `ANIMATION_MS`, cycling through the sheet.
    pub open spec fn animation_step(self, dt: u32) -> Dino {
        if !self.is_eating {
            let t = self.animation_timer + dt;
            if t >= ANIMATION_MS {
                Dino {
                    animation_timer: 0,
                    current_frame: ((self.current_frame + 1) % (FRAME_COUNT as int)) as usize,
                    ..self
                }
            } else {
                Dino { animation_timer: t as u32, ..self }
            }
        } else {
            self
        }
    }

    /// What `update(dt)` makes of this state.
    pub open spec fn after_update(self, dt: u32) -> Dino {
        let gl = self.ground_level_spec();
        if self.health <= 0 {
            self.dead_step(dt, gl)
        } else {
            self.flight_step(dt, gl).eating_step(dt).airborne_step(dt, gl).animation_step(dt)
        }
    }

    /// Advances physics and animation by `dt` milliseconds.
    pub fn update(&mut self, dt: u32)
        requires
            old(self).wf(),
        ensures
            final(self).wf(),
            *final(self) == old(self).after_update(dt),
            final(self).health == old(self).health,
            final(self).death_cause == old(self).death_cause,
            final(self).mana <= old(self).mana,
            old(self).is_dead_spec() ==> final(self).mana == old(self).mana,
            !old(self).is_jumping ==> final(self).y_percent == old(self).y_percent
                && final(self).velocity_y == old(self).velocity_y,
            !old(self).is_dead_spec() && final(self).is_flying ==> FLY_TOP
                <= final(self).y_percent <= old(self).ground_level_spec(),
    {
        let ground_level: i64 = if self.is_ducking {
            GROUND - self.size_percent / 2
        } else {
            GROUND - self.size_percent
        };
        if self.health <= 0 {
            self.update_dead(dt, ground_level);
            return;
        }
        self.update_flight(dt, ground_level);
        self.update_eating(dt);
        self.update_airborne(dt, ground_level);
        self.update_animation(dt);
    }

    fn update_dead(&mut self, dt: u32, ground_level: i64)
        requires
            old(self).wf(),
            old(self).health == 0,
            ground_level == old(self).ground_level_spec(),
        ensures
            final(self).wf(),
            *final(self) == old(self).dead_step(dt, ground_level as int),
    {
        let t: u64 = self.animation_timer as u64 + dt as u64;
        if t >= ANIMATION_MS as u64 {
            self.animation_timer = 0;
            if self.current_frame < FRAME_COUNT - 1 {
                self.current_frame = self.current_frame + 1;
            }
        } else {
            self.animation_timer = t as u32;
        }
        if self.is_jumping {
            self.integrate_gravity(dt);
            self.land_if_grounded(ground_level);
        }
    }

    fn update_flight(&mut self, dt: u32, ground_level: i64)
        requires
            old(self).wf(),
            ground_level == old(self).ground_level_spec(),
        ensures
            final(self).wf(),
            *final(self) == old(self).flight_step(dt, ground_level as int),
            final(self).mana <= old(self).mana,
            final(self).is_flying ==> FLY_TOP <= final(self).y_percent <= ground_level,
    {
        if self.is_flying {
            if self.mana > 0 {
                self.mana = self.mana - FLY_MANA_PER_MS * dt as i64;
                self.steer(dt, ground_level);
                if self.mana < 0 {
                    self.mana = 0;
                    self.is_flying = false;
                }
            } else {
                self.is_flying = false;
            }
        }
    }

    fn update_eating(&mut self, dt: u32)
        requires
            old(self).wf(),
        ensures
            final(self).wf(),
            *final(self) == old(self).eating_step(dt),
    {
        if self.is_eating {
            let t: u64 = self.animation_timer as u64 + dt as u64;
            if t >= EATING_ANIMATION_MS as u64 {
                self.animation_timer = 0;
                self.current_frame = self.current_frame + 1;
                let max_frame: usize = if self.has_eaten {
                    FRAME_COUNT - 1
                } else {
                    1
                };
                if self.current_frame > max_frame {
                    self.is_eating = false;
                    self.current_frame = 0;
                }
            } else {
                self.animation_timer = t as u32;
            }
        }
    }

    fn update_airborne(&mut self, dt: u32, ground_level: i64)
        requires
            old(self).wf(),
            ground_level == old(self).ground_level_spec(),
        ensures
            final(self).wf(),
            *final(self) == old(self).airborne_step(dt, ground_level as int),
    {
        if self.is_jumping {
            if !self.is_flying {
                self.integrate_gravity(dt);
            }
            if self.land_if_grounded(ground_level) {
                self.current_frame = 0;
            }
        }
    }

    fn update_animation(&mut self, dt: u32)
        requires
            old(self).wf(),
        ensures
            final(self).wf(),
            *final(self) == old(self).animation_step(dt),
    {
        if !self.is_eating {
            let t: u64 = self.animation_timer as u64 + dt as u64;
            if t >= ANIMATION_MS as u64 {
                self.animation_timer = 0;
                self.current_frame = (self.current_frame + 1) % FRAME_COUNT;
            } else {
                self.animation_timer = t as u32;
            }
        }
    }

    fn land_if_grounded(&mut self, ground_level: i64) -> (landed: bool)
        ensures
            landed == (old(self).velocity_y > 0 && old(self).y_percent >= ground_level),
            *final(self) == old(self).landed(ground_level as int),
    {
        if self.velocity_y > 0 && self.y_percent >= ground_level {
            self.y_percent = ground_level;
            self.velocity_y = 0;
            self.is_jumping = false;
            self.is_flying = false;
            self.can_double_jump = false;
            true
        } else {
            false
        }
    }

    fn steer(&mut self, dt: u32, ground_level: i64)
        requires
            -VELOCITY_CAP <= old(self).velocity_y <= VELOCITY_CAP,
            -ONE <= old(self).y_percent <= ONE,
            -1 <= old(self).fly_direction <= 1,
            FLY_TOP <= ground_level <= ONE,
        ensures
            *final(self) == old(self).steered(dt, ground_level as int),
            -VELOCITY_CAP <= final(self).velocity_y <= VELOCITY_CAP,
            FLY_TOP <= final(self).y_percent <= ground_level,
    {
        let target = self.fly_direction as i64 * FLY_SPEED;
        let diff = target - self.velocity_y;
        proof {
            lemma_mul_bound(dt as int, diff as int, u32::MAX as int, 2 * VELOCITY_CAP);
        }
        let change = div_toward_zero(dt as i64 * diff, 100);
        assert(-2 * VELOCITY_CAP * u32::MAX <= change <= 2 * VELOCITY_CAP * u32::MAX);
        self.velocity_y = clamp_i64(self.velocity_y + change, -VELOCITY_CAP, VELOCITY_CAP);
        self.advance_position(dt);
        if self.y_percent < FLY_TOP {
            self.y_percent = FLY_TOP;
            self.velocity_y = 0;
        } else if self.y_percent > ground_level {
            self.y_percent = ground_level;
            self.velocity_y = 0;
        }
    }

    fn integrate_gravity(&mut self, dt: u32)
        requires
            -VELOCITY_CAP <= old(self).velocity_y <= VELOCITY_CAP,
            -ONE <= old(self).y_percent <= ONE,
        ensures
            *final(self) == old(self).gravity_applied(dt),
            -VELOCITY_CAP <= final(self).velocity_y <= VELOCITY_CAP,
            -ONE <= final(self).y_percent <= ONE,
    {
        let v = self.velocity_y + GRAVITY_PER_MS * dt as i64;
        self.velocity_y = clamp_i64(v, -VELOCITY_CAP, VELOCITY_CAP);
        self.advance_position(dt);
    }

    fn advance_position(&mut self, dt: u32)
        requires
            -VELOCITY_CAP <= old(self).velocity_y <= VELOCITY_CAP,
            -ONE <= old(self).y_percent <= ONE,
        ensures
            *final(self) == old(self).moved(dt),
            -ONE <= final(self).y_percent <= ONE,
    {
        proof {
            lemma_mul_bound(dt as int, self.velocity_y as int, u32::MAX as int, VELOCITY_CAP as int);
        }
        let step = div_toward_zero(dt as i64 * self.velocity_y, 1000);
        assert(-VELOCITY_CAP * u32::MAX <= step <= VELOCITY_CAP * u32::MAX);
        self.y_percent = clamp_i64(self.y_percent + step, -ONE, ONE);
    }
}

} // verus!
