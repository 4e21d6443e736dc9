use dino_run::dino::{DOUBLE_JUMP_MANA_COST, GROUND, START_Y};
use dino_run::{DeathCause, Dino, Effect, Viewport, ONE};

#[test]
fn fresh_protagonist_is_full_and_grounded() {
    let d = Dino::new();
    assert_eq!(d.health(), ONE);
    assert_eq!(d.mana(), ONE);
    assert_eq!(d.death_cause(), None);
    assert!(!d.is_airborne());
    assert_eq!(d.y_percent, START_Y);
}

#[test]
fn effects_keep_meters_within_bounds() {
    let mut d = Dino::new();
    let effects = [
        Effect::Heal(500_000),
        Effect::RestoreMana(4_000_000),
        Effect::DrainMana(300_000),
        Effect::DrainMana(2_000_000),
        Effect::Damage(400_000),
        Effect::Eaten,
        Effect::Damage(3_000_000),
        Effect::Heal(100_000),
        Effect::Kill,
        Effect::RestoreMana(50_000),
    ];
    for e in effects {
        d.apply_effect(e);
        assert!(0 <= d.health() && d.health() <= ONE);
        assert!(0 <= d.mana() && d.mana() <= ONE);
    }
    assert_eq!(d.mana(), 50_000);
}

#[test]
fn death_cause_never_changes_once_set() {
    let mut d = Dino::new();
    d.apply_effect(Effect::Kill);
    assert_eq!(d.death_cause(), Some(DeathCause::Impact));
    d.apply_effect(Effect::Damage(10));
    d.apply_effect(Effect::Heal(600_000));
    d.apply_effect(Effect::Damage(600_000));
    d.apply_effect(Effect::Kill);
    assert_eq!(d.death_cause(), Some(DeathCause::Impact));
}

#[test]
fn kill_zeroes_both_meters_and_records_impact() {
    let mut d = Dino::new();
    d.apply_effect(Effect::Kill);
    assert_eq!(d.health(), 0);
    assert_eq!(d.mana(), 0);
    assert_eq!(d.death_cause(), Some(DeathCause::Impact));
    assert!(d.is_dead());
    assert_eq!(d.current_frame, 0);
    assert!(!d.is_ducking);
}

#[test]
fn damage_to_exactly_zero_records_attrition_once() {
    let mut d = Dino::new();
    d.apply_effect(Effect::Damage(850_000));
    assert_eq!(d.health(), 150_000);
    assert_eq!(d.death_cause(), None);
    d.apply_effect(Effect::Damage(150_000));
    assert_eq!(d.health(), 0);
    assert_eq!(d.death_cause(), Some(DeathCause::Attrition));
    d.apply_effect(Effect::Damage(150_000));
    d.apply_effect(Effect::Kill);
    assert_eq!(d.health(), 0);
    assert_eq!(d.death_cause(), Some(DeathCause::Attrition));
}

#[test]
fn double_jump_rejected_with_too_little_mana() {
    let mut d = Dino::new();
    d.jump();
    d.apply_effect(Effect::DrainMana(800_000));
    assert_eq!(d.mana(), 200_000);
    assert!(d.can_double_jump());
    let v = d.velocity_y;
    d.jump();
    assert_eq!(d.mana(), 200_000);
    assert!(d.can_double_jump());
    assert_eq!(d.velocity_y, v);
}

#[test]
fn double_jump_costs_exactly_once() {
    let mut d = Dino::new();
    d.jump();
    assert!(d.is_airborne());
    assert_eq!(d.mana(), ONE);
    d.jump();
    assert_eq!(d.mana(), ONE - DOUBLE_JUMP_MANA_COST);
    assert!(!d.can_double_jump());
    let before = d;
    d.jump();
    assert_eq!(d.mana(), before.mana());
    assert_eq!(d.velocity_y, before.velocity_y);
    assert!(!d.can_double_jump());
}

#[test]
fn jump_lands_and_resets_double_jump() {
    let mut d = Dino::new();
    d.jump();
    let mut ticks = 0;
    while d.is_airborne() && ticks < 1000 {
        d.update(16);
        ticks += 1;
    }
    assert!(!d.is_airborne());
    assert!(!d.can_double_jump());
    assert_eq!(d.y_percent, GROUND - d.size_percent);
    assert_eq!(d.velocity_y, 0);
    assert!(ticks > 10);
}

#[test]
fn trajectory_is_close_for_two_tick_sizes() {
    let mut a = Dino::new();
    let mut b = Dino::new();
    a.jump();
    b.jump();
    for _ in 0..30 {
        a.update(10);
    }
    for _ in 0..15 {
        b.update(20);
    }
    assert!(a.is_airborne() && b.is_airborne());
    assert!((a.y_percent - b.y_percent).abs() < 20_000);
}

#[test]
fn flight_needs_air_and_mana_and_drains_it() {
    let mut d = Dino::new();
    d.fly(true, -1);
    assert!(!d.is_flying);
    d.jump();
    d.fly(true, -1);
    assert!(d.is_flying);
    assert_eq!(d.fly_direction, -1);
    d.update(100);
    assert_eq!(d.mana(), ONE - 10_000);
    d.fly(false, 0);
    assert!(!d.is_flying);
}

#[test]
fn eating_runs_two_frames_without_a_catch() {
    let mut d = Dino::new();
    d.eat();
    assert!(d.is_eating());
    d.update(100);
    assert_eq!(d.current_frame, 1);
    d.update(100);
    assert!(!d.is_eating());
    assert_eq!(d.current_frame, 0);
}

#[test]
fn catch_skips_to_second_half_and_restores() {
    let mut d = Dino::new();
    d.apply_effect(Effect::Damage(500_000));
    d.apply_effect(Effect::DrainMana(500_000));
    d.eat();
    d.apply_effect(Effect::Eaten);
    assert_eq!(d.current_frame, 2);
    assert_eq!(d.health(), 700_000);
    assert_eq!(d.mana(), 800_000);
    d.update(100);
    assert_eq!(d.current_frame, 3);
    assert!(d.is_eating());
    d.update(100);
    assert!(!d.is_eating());
}

#[test]
fn eat_is_ignored_when_dead() {
    let mut d = Dino::new();
    d.apply_effect(Effect::Kill);
    d.eat();
    assert!(!d.is_eating());
}

#[test]
fn death_animation_stops_on_last_frame() {
    let mut d = Dino::new();
    d.apply_effect(Effect::Kill);
    assert!(!d.death_animation_finished());
    for _ in 0..10 {
        d.update(250);
    }
    assert_eq!(d.current_frame, 3);
    assert!(d.death_animation_finished());
}

#[test]
fn death_in_the_air_finishes_only_on_the_ground() {
    let mut d = Dino::new();
    d.jump();
    d.update(16);
    d.apply_effect(Effect::Damage(2_000_000));
    assert_eq!(d.death_cause(), Some(DeathCause::Attrition));
    let mut ticks = 0;
    while d.is_airborne() && ticks < 1000 {
        assert!(!d.death_animation_finished());
        d.update(16);
        ticks += 1;
    }
    assert!(ticks > 10);
    for _ in 0..100 {
        d.update(16);
    }
    assert_eq!(d.current_frame, 3);
    assert!(d.death_animation_finished());
}

#[test]
fn hitbox_is_lower_when_running() {
    let view = Viewport { width: 800, height: 600 };
    let mut d = Dino::new();
    let run = d.get_hitbox(&view);
    assert_eq!(run.x, 800 * 150_000 + 600 * 250_000 / 2);
    assert_eq!(run.y, 600 * START_Y + 600 * 250_000 * 40 / 49);
    assert_eq!(run.r, 600 * 250_000 / 4);
    d.jump();
    let air = d.get_hitbox(&view);
    assert_eq!(air.y, 600 * START_Y + 600 * 250_000 / 2);
    assert!(air.y < run.y);
}

#[test]
fn reset_restores_the_start_state() {
    let mut d = Dino::new();
    d.jump();
    d.apply_effect(Effect::Kill);
    d.update(100);
    d.reset();
    assert_eq!(d.health(), ONE);
    assert_eq!(d.mana(), ONE);
    assert_eq!(d.death_cause(), None);
    assert!(!d.is_airborne());
    assert_eq!(d.y_percent, START_Y);
}

#[test]
fn ducking_only_sets_the_flag() {
    let mut d = Dino::new();
    d.duck(true);
    assert!(d.is_ducking);
    assert_eq!(d.y_percent, START_Y);
    d.duck(false);
    assert!(!d.is_ducking);
}

#[test]
fn pixel_geometry_follows_the_viewport() {
    let view = Viewport { width: 1000, height: 500 };
    let d = Dino::new();
    assert_eq!(d.x(&view), 1000 * 150_000);
    assert_eq!(d.y(&view), 500 * START_Y);
    assert_eq!(d.width(&view), 500 * 250_000);
    assert_eq!(d.height(&view), 500 * 250_000);
    assert_eq!(dino_run::ground_y(&view), 500 * GROUND);
}

#[test]
fn long_frames_are_integrated_not_rejected() {
    let mut d = Dino::new();
    d.jump();
    d.update(5_000);
    assert!(!d.is_airborne());
    assert_eq!(d.y_percent, GROUND - d.size_percent);
    assert_eq!(d.velocity_y, 0);
    d.update(u32::MAX);
    assert_eq!(d.y_percent, START_Y);
    assert!(d.current_frame < 4);
}

#[test]
fn gravity_step_is_exact_for_an_airborne_protagonist() {
    let mut d = Dino::new();
    d.jump();
    d.update(10);
    assert_eq!(d.velocity_y, -1_050_000 + 3_000 * 10);
    assert_eq!(d.y_percent, START_Y + (10 * (-1_050_000 + 30_000)) / 1000);
    assert!(d.is_airborne());
}
