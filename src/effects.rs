//! Applying collision effects to the protagonist, and the laws that govern them.
use vstd::prelude::*;
use crate::dino::{DeathCause, Dino, Effect, EATEN_HEALTH, EATEN_MANA, FRAME_COUNT};
use crate::geometry::ONE;

verus! {

impl Dino {
    /// Applies `effect`: the only way a collision changes health or mana. Meters
    /// are clamped to `[0, ONE]`, and the first death cause recorded is kept.
    pub fn apply_effect(&mut self, effect: Effect)
        requires
            old(self).wf(),
        ensures
            final(self).wf(),
            *final(self) == old(self).after_effect(effect),
    {
        match effect {
            Effect::Damage(amount) => {
                let h = self.health - amount as i64;
                self.health = if h < 0 { 0 } else { h };
                if self.health <= 0 && self.death_cause.is_none() {
                    self.death_cause = Some(DeathCause::Attrition);
                    self.current_frame = 0;
                    self.animation_timer = 0;
                    self.is_ducking = false;
                }
            },
            Effect::Heal(amount) => {
                let h = self.health + amount as i64;
                self.health = if h > ONE { ONE } else { h };
            },
            Effect::DrainMana(amount) => {
                let m = self.mana - amount as i64;
                self.mana = if m < 0 { 0 } else { m };
            },
            Effect::RestoreMana(amount) => {
                let m = self.mana + amount as i64;
                self.mana = if m > ONE { ONE } else { m };
            },
            Effect::Kill => {
                self.health = 0;
                self.mana = 0;
                if self.death_cause.is_none() {
                    self.death_cause = Some(DeathCause::Impact);
                    self.current_frame = 0;
                    self.animation_timer = 0;
                    self.is_ducking = false;
                }
            },
            Effect::Eaten => {
                let h = self.health + EATEN_HEALTH;
                self.health = if h > ONE { ONE } else { h };
                let m = self.mana + EATEN_MANA;
                self.mana = if m > ONE { ONE } else { m };
                self.has_eaten = true;
                if self.is_eating && self.current_frame < 2 {
                    self.current_frame = 2;
                    self.animation_timer = 0;
                }
            },
        }
    }

    /// Whether health has run out.
    pub fn is_dead(&self) -> (r: bool)
        ensures
            r == self.is_dead_spec(),
    {
        self.health <= 0
    }

    pub open spec fn death_animation_finished_spec(&self) -> bool {
        self.is_dead_spec() && self.current_frame >= FRAME_COUNT - 1 && !self.is_jumping
    }

    /// Dead, on the last death frame, and back on the ground.
    pub fn death_animation_finished(&self) -> (r: bool)
        ensures
            r == self.death_animation_finished_spec(),
    {
        self.is_dead() && self.current_frame >= FRAME_COUNT - 1 && !self.is_jumping
    }
}

/// Whatever effects are applied, in whatever order, health and mana stay within
/// `[0, ONE]` and the state stays well formed.
pub proof fn lemma_effects_keep_meters_in_range(d: Dino, effects: Seq<Effect>)
    requires
        d.wf(),
    ensures
        d.after_effects(effects).wf(),
        0 <= d.after_effects(effects).health <= ONE,
        0 <= d.after_effects(effects).mana <= ONE,
    decreases effects.len(),
{
    if effects.len() > 0 {
        lemma_effects_keep_meters_in_range(d, effects.drop_last());
        lemma_effect_keeps_wf(d.after_effects(effects.drop_last()), effects.last());
    }
}

/// One effect keeps the state well formed.
pub proof fn lemma_effect_keeps_wf(d: Dino, e: Effect)
    requires
        d.wf(),
    ensures
        d.after_effect(e).wf(),
{
}

/// Once a death cause is recorded, no sequence of effects changes it.
pub proof fn lemma_death_cause_is_permanent(d: Dino, effects: Seq<Effect>)
    requires
        d.death_cause is Some,
    ensures
        d.after_effects(effects).death_cause == d.death_cause,
    decreases effects.len(),
{
    if effects.len() > 0 {
        lemma_death_cause_is_permanent(d, effects.drop_last());
    }
}

/// A `Kill` always leaves both meters empty, and a death cause of `Impact` unless
/// another cause was recorded first.
pub proof fn lemma_kill_is_fatal(d: Dino)
    ensures
        d.after_effect(Effect::Kill).health == 0,
        d.after_effect(Effect::Kill).mana == 0,
        d.death_cause is None ==> d.after_effect(Effect::Kill).death_cause == Some(
            DeathCause::Impact,
        ),
        d.death_cause is Some ==> d.after_effect(Effect::Kill).death_cause == d.death_cause,
{
}

} // verus!
