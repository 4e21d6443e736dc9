//! The per-tick collision pipeline and the pruning of spent obstacles.
use vstd::prelude::*;
use crate::dino::{Dino, Effect};
use crate::geometry::{circle_meets_rect, Circle, Viewport};
use crate::obstacle::Obstacle;

verus! {

/// The obstacle registers a hit on `c`: its hitbox is not empty and meets the circle.
pub open spec fn collides(c: Circle, o: Obstacle, view: Viewport) -> bool {
    !o.hitbox_spec(view).is_empty_spec() && circle_meets_rect(c, o.hitbox_spec(view))
}

/// The obstacles of `obs` after a collision pass against `c`: those hit are struck.
pub open spec fn struck(c: Circle, obs: Seq<Obstacle>, view: Viewport) -> Seq<Obstacle> {
    Seq::new(
        obs.len(),
        |i: int|
            if collides(c, obs[i], view) {
                obs[i].after_hit()
            } else {
                obs[i]
            },
    )
}

/// The effects of the obstacles of `obs` that hit `d`, in order.
pub open spec fn collision_effects(d: Dino, obs: Seq<Obstacle>, view: Viewport) -> Seq<Effect>
    decreases obs.len(),
{
    if obs.len() == 0 {
        Seq::empty()
    } else {
        let prev = collision_effects(d, obs.drop_last(), view);
        if collides(d.hitbox_spec(view), obs.last(), view) {
            prev.push(obs.last().effect_spec(d))
        } else {
            prev
        }
    }
}

/// The obstacles of `obs` that stay: on screen and not done with their hit animation.
pub open spec fn kept(obs: Seq<Obstacle>, view: Viewport) -> Seq<Obstacle>
    decreases obs.len(),
{
    if obs.len() == 0 {
        Seq::empty()
    } else {
        let prev = kept(obs.drop_last(), view);
        let o = obs.last();
        if !o.off_screen_spec(view) && !o.should_remove_spec() {
            prev.push(o)
        } else {
            prev
        }
    }
}

/// Effects never change whether the protagonist is airborne or eating.
proof fn lemma_effects_keep_stance(d: Dino, effects: Seq<Effect>)
    ensures
        d.after_effects(effects).is_jumping == d.is_jumping,
        d.after_effects(effects).is_eating == d.is_eating,
        d.after_effects(effects).x_percent == d.x_percent,
        d.after_effects(effects).y_percent == d.y_percent,
        d.after_effects(effects).size_percent == d.size_percent,
    decreases effects.len(),
{
    if effects.len() > 0 {
        lemma_effects_keep_stance(d, effects.drop_last());
    }
}

/// Tests the protagonist's hitbox against every obstacle. Each obstacle hit
/// gives its effect to the protagonist, in order, and is marked struck; all
/// overlaps are processed.
pub fn resolve_collisions(dino: &mut Dino, obstacles: &mut Vec<Obstacle>, view: &Viewport)
    requires
        old(dino).wf(),
        view.wf(),
        forall|i: int| 0 <= i < old(obstacles).len() ==> (#[trigger] old(obstacles)[i]).wf(),
    ensures
        final(dino).wf(),
        *final(dino) == old(dino).after_effects(
            collision_effects(*old(dino), old(obstacles)@, *view),
        ),
        final(obstacles)@ == struck(old(dino).hitbox_spec(*view), old(obstacles)@, *view),
        final(obstacles).len() == old(obstacles).len(),
        forall|i: int|
            0 <= i < final(obstacles).len() ==> (#[trigger] final(obstacles)[i]) == if collides(
                old(dino).hitbox_spec(*view),
                old(obstacles)[i],
                *view,
            ) {
                old(obstacles)[i].after_hit()
            } else {
                old(obstacles)[i]
            },
        forall|i: int| 0 <= i < final(obstacles).len() ==> (#[trigger] final(obstacles)[i]).wf(),
{
    let ghost d0 = *dino;
    let ghost obs0 = obstacles@;
    let circle = dino.get_hitbox(view);
    let n = obstacles.len();
    let mut i: usize = 0;
    proof {
        assert(obs0.take(0) =~= Seq::<Obstacle>::empty());
    }
    while i < n
        invariant
            0 <= i <= n,
            n == obstacles.len(),
            obs0.len() == n,
            view.wf(),
            d0.wf(),
            circle == d0.hitbox_spec(*view),
            circle.bounded(),
            dino.wf(),
            *dino == d0.after_effects(collision_effects(d0, obs0.take(i as int), *view)),
            forall|j: int| 0 <= j < n ==> (#[trigger] obs0[j]).wf(),
            forall|j: int| 0 <= j < n ==> (#[trigger] obstacles[j]).wf(),
            forall|j: int| i <= j < n ==> (#[trigger] obstacles[j]) == obs0[j],
            forall|j: int|
                0 <= j < i ==> (#[trigger] obstacles[j]) == if collides(circle, obs0[j], *view) {
                    obs0[j].after_hit()
                } else {
                    obs0[j]
                },
        decreases n - i,
    {
        proof {
            lemma_effects_keep_stance(d0, collision_effects(d0, obs0.take(i as int), *view));
            assert(obs0.take(i as int + 1).drop_last() =~= obs0.take(i as int));
            assert(obs0.take(i as int + 1).last() == obs0[i as int]);
        }
        let mut o = obstacles[i];
        let hitbox = o.get_hitbox(view);
        if !hitbox.is_empty() && circle.overlaps_rect(&hitbox) {
            let effect = o.get_collision_effect(dino);
            dino.apply_effect(effect);
            o.on_hit();
            obstacles.set(i, o);
            proof {
                let prev = collision_effects(d0, obs0.take(i as int), *view);
                assert(prev.push(effect).drop_last() =~= prev);
            }
        }
        i = i + 1;
    }
    proof {
        assert(obs0.take(n as int) =~= obs0);
        assert(obstacles@ =~= struck(d0.hitbox_spec(*view), obs0, *view));
    }
}

/// The obstacles that stay after a tick: those still on screen and not done
/// with their hit animation, in their order.
pub fn prune(obstacles: &Vec<Obstacle>, view: &Viewport) -> (r: Vec<Obstacle>)
    requires
        view.wf(),
        forall|i: int| 0 <= i < obstacles.len() ==> (#[trigger] obstacles[i]).wf(),
    ensures
        r@ == kept(obstacles@, *view),
        forall|i: int| 0 <= i < r.len() ==> (#[trigger] r[i]).wf(),
{
    let mut r: Vec<Obstacle> = Vec::new();
    let n = obstacles.len();
    let mut i: usize = 0;
    proof {
        assert(obstacles@.take(0) =~= Seq::<Obstacle>::empty());
    }
    while i < n
        invariant
            0 <= i <= n,
            n == obstacles.len(),
            view.wf(),
            forall|j: int| 0 <= j < n ==> (#[trigger] obstacles[j]).wf(),
            r@ == kept(obstacles@.take(i as int), *view),
            forall|j: int| 0 <= j < r.len() ==> (#[trigger] r[j]).wf(),
        decreases n - i,
    {
        proof {
            assert(obstacles@.take(i as int + 1).drop_last() =~= obstacles@.take(i as int));
            assert(obstacles@.take(i as int + 1).last() == obstacles@[i as int]);
        }
        let o = obstacles[i];
        if !o.is_off_screen(view) && !o.should_remove() {
            r.push(o);
        }
        i = i + 1;
    }
    proof {
        assert(obstacles@.take(n as int) =~= obstacles@);
    }
    r
}

/// A collision with a blocking hazard leaves the protagonist with no health and
/// no mana, dead by `Impact`, unless an earlier death was already recorded.
pub proof fn lemma_blocking_hazard_kills(o: Obstacle, d: Dino)
    requires
        o is Rock,
        d.death_cause is None,
    ensures
        o.effect_spec(d) == Effect::Kill,
        d.after_effect(o.effect_spec(d)).health == 0,
        d.after_effect(o.effect_spec(d)).mana == 0,
        d.after_effect(o.effect_spec(d)).death_cause == Some(crate::dino::DeathCause::Impact),
{
}

} // verus!
