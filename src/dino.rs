//! The protagonist: kinematics, health and mana, and its animation state machine.
use vstd::prelude::*;
use crate::geometry::{lemma_scaled_bound, Circle, Viewport, ONE};

verus! {

/// Ground line, as a fraction of the viewport height.
pub const GROUND: i64 = 850_000;
/// Top edge when standing on the ground.
pub const START_Y: i64 = GROUND - DINO_SIZE;
/// Fixed horizontal position, as a fraction of the viewport width.
pub const DINO_X: i64 = 150_000;
/// Side length, as a fraction of the viewport height.
pub const DINO_SIZE: i64 = 250_000;
/// Upward impulse of a jump from the ground, in millionths of the height per second.
pub const JUMP_VELOCITY: i64 = -1_050_000;
/// Upward impulse of a jump in mid-air.
pub const DOUBLE_JUMP_VELOCITY: i64 = -800_000;
/// Mana spent by a jump in mid-air.
pub const DOUBLE_JUMP_MANA_COST: i64 = 300_000;
/// Gravity: velocity gained per millisecond (3 viewport heights per second squared).
pub const GRAVITY_PER_MS: i64 = 3_000;
/// Mana drained per millisecond of flight (a tenth of the bar per second).
pub const FLY_MANA_PER_MS: i64 = 100;
/// Vertical speed that flight steers toward, per unit of direction.
pub const FLY_SPEED: i64 = 600_000;
/// Highest point flight may reach, as a fraction of the height from the top.
pub const FLY_TOP: i64 = 50_000;
/// Vertical speeds are kept within this magnitude.
pub const VELOCITY_CAP: i64 = 10_000_000;
/// Frames in each animation sheet.
pub const FRAME_COUNT: usize = 4;
/// Milliseconds per frame of the running, jumping and death animations.
pub const ANIMATION_MS: u32 = 250;
/// Milliseconds per frame of the eating animation.
pub const EATING_ANIMATION_MS: u32 = 100;
/// Health restored by catching something while eating.
pub const EATEN_HEALTH: i64 = 200_000;
/// Mana restored by catching something while eating.
pub const EATEN_MANA: i64 = 300_000;

/// The ground line in pixels scaled by `ONE`.
pub fn ground_y(view: &Viewport) -> (r: i64)
    requires
        view.wf(),
    ensures
        r == view.height * GROUND,
{
    proof {
        lemma_scaled_bound(view.height as int, GROUND as int, ONE as int);
    }
    view.height as i64 * GROUND
}

/// Why the protagonist died.
#[derive(Clone, Copy, Debug, PartialEq, Eq, Structural)]
pub enum DeathCause {
    /// Struck by an instant-kill hazard.
    Impact,
    /// Health worn down to nothing.
    Attrition,
}

/// What a collision does to the protagonist. Amounts are in millionths of a full bar.
#[derive(Clone, Copy, Debug, PartialEq, Eq, Structural)]
pub enum Effect {
    Damage(u32),
    Heal(u32),
    DrainMana(u32),
    RestoreMana(u32),
    Kill,
    Eaten,
}

pub open spec fn clamp_unit(v: int) -> int {
    if v < 0 {
        0
    } else if v > ONE {
        ONE as int
    } else {
        v
    }
}

pub open spec fn clamp_int(v: int, lo: int, hi: int) -> int {
    if v < lo {
        lo
    } else if v > hi {
        hi
    } else {
        v
    }
}

pub fn clamp_i64(v: i64, lo: i64, hi: i64) -> (r: i64)
    requires
        lo <= hi,
    ensures
        r == clamp_int(v as int, lo as int, hi as int),
{
    if v < lo {
        lo
    } else if v > hi {
        hi
    } else {
        v
    }
}

/// The protagonist.
#[derive(Clone, Copy, Debug)]
pub struct Dino {
    /// Horizontal position, a fraction of the viewport width.
    pub x_percent: i64,
    /// Top edge, a fraction of the viewport height.
    pub y_percent: i64,
    /// Side length, a fraction of the viewport height.
    pub size_percent: i64,
    /// Vertical velocity in millionths of the viewport height per second (down is positive).
    pub velocity_y: i64,
    pub is_jumping: bool,
    pub is_flying: bool,
    /// Desired vertical direction while flying: -1 up, 0 level, 1 down.
    pub fly_direction: i8,
    pub is_ducking: bool,
    pub is_eating: bool,
    pub has_eaten: bool,
    pub current_frame: usize,
    /// Milliseconds accumulated toward the next animation frame.
    pub animation_timer: u32,
    /// Health in millionths.
    pub health: i64,
    /// Mana in millionths.
    pub mana: i64,
    pub death_cause: Option<DeathCause>,
    pub can_double_jump: bool,
}

impl Dino {
    /// Well-formedness: the meters are in range, and the flags agree with each other.
    pub open spec fn wf(&self) -> bool {
        &&& self.x_percent == DINO_X
        &&& self.size_percent == DINO_SIZE
        &&& -ONE <= self.y_percent <= ONE
        &&& -VELOCITY_CAP <= self.velocity_y <= VELOCITY_CAP
        &&& -1 <= self.fly_direction <= 1
        &&& self.current_frame < FRAME_COUNT
        &&& self.animation_timer < ANIMATION_MS
        &&& 0 <= self.health <= ONE
        &&& 0 <= self.mana <= ONE
        &&& (self.health == 0 ==> self.death_cause is Some)
        &&& (self.is_flying ==> self.is_jumping)
        &&& (self.can_double_jump ==> self.is_jumping)
    }

    /// The state at the start of a session.
    pub open spec fn fresh() -> Dino {
        Dino {
            x_percent: DINO_X,
            y_percent: START_Y,
            size_percent: DINO_SIZE,
            velocity_y: 0,
            is_jumping: false,
            is_flying: false,
            fly_direction: 0,
            is_ducking: false,
            is_eating: false,
            has_eaten: false,
            current_frame: 0,
            animation_timer: 0,
            health: ONE,
            mana: ONE,
            death_cause: None,
            can_double_jump: false,
        }
    }

    pub open spec fn is_dead_spec(&self) -> bool {
        self.health <= 0
    }

    /// Where the top edge rests on the ground in the current stance.
    pub open spec fn ground_level_spec(&self) -> int {
        if self.is_ducking {
            GROUND - self.size_percent / 2
        } else {
            GROUND - self.size_percent
        }
    }

    /// The state after a death is recorded: the animation restarts and ducking ends.
    pub open spec fn after_death(self, cause: DeathCause) -> Dino {
        Dino {
            death_cause: Some(cause),
            current_frame: 0,
            animation_timer: 0,
            is_ducking: false,
            ..self
        }
    }

    /// What `apply_effect(e)` makes of this state.
    pub open spec fn after_effect(self, e: Effect) -> Dino {
        match e {
            Effect::Damage(a) => {
                let d = Dino { health: clamp_unit(self.health - a) as i64, ..self };
                if d.health == 0 && self.death_cause is None {
                    d.after_death(DeathCause::Attrition)
                } else {
                    d
                }
            },
            Effect::Heal(a) => Dino { health: clamp_unit(self.health + a) as i64, ..self },
            Effect::DrainMana(a) => Dino { mana: clamp_unit(self.mana - a) as i64, ..self },
            Effect::RestoreMana(a) => Dino { mana: clamp_unit(self.mana + a) as i64, ..self },
            Effect::Kill => {
                let d = Dino { health: 0, mana: 0, ..self };
                if self.death_cause is None {
                    d.after_death(DeathCause::Impact)
                } else {
                    d
                }
            },
            Effect::Eaten => {
                let d = Dino {
                    health: clamp_unit(self.health + EATEN_HEALTH) as i64,
                    mana: clamp_unit(self.mana + EATEN_MANA) as i64,
                    has_eaten: true,
                    ..self
                };
                if self.is_eating && self.current_frame < 2 {
                    Dino { current_frame: 2, animation_timer: 0, ..d }
                } else {
                    d
                }
            },
        }
    }

    /// The state after applying each effect of `effects` in turn.
    pub open spec fn after_effects(self, effects: Seq<Effect>) -> Dino
        decreases effects.len(),
    {
        if effects.len() == 0 {
            self
        } else {
            self.after_effects(effects.drop_last()).after_effect(effects.last())
        }
    }

    /// The collision circle in pixels scaled by `ONE`: centred horizontally, lower
    /// when running than when airborne, with a quarter of the side as radius.
    pub open spec fn hitbox_spec(&self, view: Viewport) -> Circle {
        let x = view.width * self.x_percent;
        let y = view.height * self.y_percent;
        let s = view.height * self.size_percent;
        Circle {
            x: (x + s / 2) as i64,
            y: (if self.is_jumping {
                y + s / 2
            } else {
                y + s * 40 / 49
            }) as i64,
            r: (s / 4) as i64,
        }
    }

    /// A protagonist at the start of a session.
    pub fn new() -> (d: Dino)
        ensures
            d == Dino::fresh(),
            d.wf(),
    {
        Dino {
            x_percent: DINO_X,
            y_percent: START_Y,
            size_percent: DINO_SIZE,
            velocity_y: 0,
            is_jumping: false,
            is_flying: false,
            fly_direction: 0,
            is_ducking: false,
            is_eating: false,
            has_eaten: false,
            current_frame: 0,
            animation_timer: 0,
            health: ONE,
            mana: ONE,
            death_cause: None,
            can_double_jump: false,
        }
    }

    /// Reinitialises every field to the start of a session.
    pub fn reset(&mut self)
        ensures
            *final(self) == Dino::fresh(),
            final(self).wf(),
    {
        self.x_percent = DINO_X;
        self.y_percent = START_Y;
        self.size_percent = DINO_SIZE;
        self.velocity_y = 0;
        self.is_jumping = false;
        self.is_flying = false;
        self.fly_direction = 0;
        self.is_ducking = false;
        self.is_eating = false;
        self.has_eaten = false;
        self.current_frame = 0;
        self.animation_timer = 0;
        self.health = ONE;
        self.mana = ONE;
        self.death_cause = None;
        self.can_double_jump = false;
    }

    /// Left edge in pixels scaled by `ONE`.
    pub fn x(&self, view: &Viewport) -> (r: i64)
        requires
            self.wf(),
            view.wf(),
        ensures
            r == view.width * self.x_percent,
    {
        proof {
            lemma_scaled_bound(view.width as int, self.x_percent as int, ONE as int);
        }
        view.width as i64 * self.x_percent
    }

    /// Top edge in pixels scaled by `ONE`.
    pub fn y(&self, view: &Viewport) -> (r: i64)
        requires
            self.wf(),
            view.wf(),
        ensures
            r == view.height * self.y_percent,
    {
        proof {
            lemma_scaled_bound(view.height as int, self.y_percent as int, ONE as int);
        }
        view.height as i64 * self.y_percent
    }

    /// Width in pixels scaled by `ONE`.
    pub fn width(&self, view: &Viewport) -> (r: i64)
        requires
            self.wf(),
            view.wf(),
        ensures
            r == view.height * self.size_percent,
    {
        proof {
            lemma_scaled_bound(view.height as int, self.size_percent as int, ONE as int);
        }
        view.height as i64 * self.size_percent
    }

    /// Height in pixels scaled by `ONE`.
    pub fn height(&self, view: &Viewport) -> (r: i64)
        requires
            self.wf(),
            view.wf(),
        ensures
            r == view.height * self.size_percent,
    {
        proof {
            lemma_scaled_bound(view.height as int, self.size_percent as int, ONE as int);
        }
        view.height as i64 * self.size_percent
    }

    pub fn health(&self) -> (r: i64)
        ensures
            r == self.health,
    {
        self.health
    }

    pub fn mana(&self) -> (r: i64)
        ensures
            r == self.mana,
    {
        self.mana
    }

    pub fn death_cause(&self) -> (r: Option<DeathCause>)
        ensures
            r == self.death_cause,
    {
        self.death_cause
    }

    /// Whether a jump in mid-air is still available.
    pub fn can_double_jump(&self) -> (r: bool)
        ensures
            r == self.can_double_jump,
    {
        self.can_double_jump
    }

    /// Whether the protagonist is off the ground.
    pub fn is_airborne(&self) -> (r: bool)
        ensures
            r == self.is_jumping,
    {
        self.is_jumping
    }
}

} // verus!
