use dino_run::cactus::CACTUS_DAMAGE;
use dino_run::cloud::{CLOUD_MAX_SIZE, CLOUD_MAX_Y, CLOUD_MIN_SIZE, CLOUD_MIN_Y};
use dino_run::collision::{prune, resolve_collisions};
use dino_run::game::{
    obstacle_for_roll, spawn_interval_floor, GAME_SPEED, MIN_SPAWN_MS, OBSTACLE_SPAWN_MS, SPAWN_X,
};
use dino_run::geometry::div_toward_zero;
use dino_run::{
    Cactus, Circle, Cloud, DeathCause, Dino, Effect, Fly, Game, GameState, Input, Obstacle, Rect,
    Rock, Viewport, ONE,
};

fn view() -> Viewport {
    Viewport { width: 800, height: 600 }
}

fn idle() -> Input {
    Input {
        jump_pressed: false,
        restart_pressed: false,
        up_held: false,
        down_held: false,
        fly_held: false,
        eat_pressed: false,
    }
}

fn jump() -> Input {
    Input { jump_pressed: true, ..idle() }
}

fn restart() -> Input {
    Input { restart_pressed: true, ..idle() }
}

#[test]
fn breakable_hazard_damages_and_becomes_unhittable() {
    let mut d = Dino::new();
    let mut o = Obstacle::Cactus(Cactus::new(150_000, 500));
    let effect = o.get_collision_effect(&d);
    assert_eq!(effect, Effect::Damage(150_000));
    d.apply_effect(effect);
    o.on_hit();
    assert_eq!(d.health(), 850_000);
    assert_eq!(d.death_cause(), None);
    assert!(o.get_hitbox(&view()).is_empty());
    match o {
        Obstacle::Cactus(c) => {
            assert!(c.is_hit);
            assert_eq!(c.hit_frame, 0);
        }
        _ => panic!("expected a cactus"),
    }
}

#[test]
fn struck_hazard_is_pruned_after_its_hit_animation() {
    let mut o = Obstacle::Cactus(Cactus::new(SPAWN_X, 500));
    o.on_hit();
    for i in 0..4 {
        assert!(!o.should_remove());
        o.update(GAME_SPEED, 150);
        assert!(o.get_hitbox(&view()).is_empty());
        if i < 3 {
            assert!(!o.should_remove());
        }
    }
    assert!(o.should_remove());
    let kept = prune(&vec![o, Obstacle::Rock(Rock::new(SPAWN_X))], &view());
    assert_eq!(kept.len(), 1);
    assert!(matches!(kept[0], Obstacle::Rock(_)));
}

#[test]
fn rock_collision_kills_by_impact() {
    let mut d = Dino::new();
    let mut obstacles = vec![Obstacle::Rock(Rock::new(150_000))];
    resolve_collisions(&mut d, &mut obstacles, &view());
    assert_eq!(d.health(), 0);
    assert_eq!(d.mana(), 0);
    assert_eq!(d.death_cause(), Some(DeathCause::Impact));
    assert!(!obstacles[0].get_hitbox(&view()).is_empty());
}

#[test]
fn every_overlap_in_a_tick_is_processed() {
    let mut d = Dino::new();
    let mut obstacles = vec![
        Obstacle::Cactus(Cactus::new(150_000, 1000)),
        Obstacle::Cactus(Cactus::new(160_000, 1000)),
        Obstacle::Rock(Rock::new(SPAWN_X)),
    ];
    resolve_collisions(&mut d, &mut obstacles, &view());
    assert_eq!(d.health(), ONE - 2 * CACTUS_DAMAGE as i64);
    assert!(obstacles[0].get_hitbox(&view()).is_empty());
    assert!(obstacles[1].get_hitbox(&view()).is_empty());
    assert!(!obstacles[2].get_hitbox(&view()).is_empty());
}

#[test]
fn fly_is_caught_only_while_eating() {
    let mut d = Dino::new();
    let f = Obstacle::Fly(Fly::new(SPAWN_X, 450_000));
    assert_eq!(f.get_collision_effect(&d), Effect::Damage(100_000));
    d.eat();
    assert_eq!(f.get_collision_effect(&d), Effect::Eaten);
}

#[test]
fn obstacles_scroll_left_at_world_speed() {
    let mut o = Obstacle::Rock(Rock::new(SPAWN_X));
    o.update(200_000, 500);
    match o {
        Obstacle::Rock(r) => assert_eq!(r.x_percent, SPAWN_X - 100_000),
        _ => panic!("expected a rock"),
    }
    let far = Obstacle::Rock(Rock::new(-200_000));
    assert!(far.is_off_screen(&view()));
    assert!(!o.is_off_screen(&view()));
}

#[test]
fn spawn_rolls_follow_the_weights() {
    for roll in 0..10u32 {
        let o = obstacle_for_roll(roll, 700);
        match roll {
            0..=3 => assert!(matches!(o, Obstacle::Rock(_))),
            4..=6 => assert!(matches!(o, Obstacle::Cactus(_))),
            _ => assert!(matches!(o, Obstacle::Fly(_))),
        }
    }
}

#[test]
fn spawn_interval_floor_is_clamped() {
    assert_eq!(spawn_interval_floor(GAME_SPEED), 1300);
    assert_eq!(spawn_interval_floor(0), OBSTACLE_SPAWN_MS);
    assert_eq!(spawn_interval_floor(900_000), 600);
    assert_eq!(spawn_interval_floor(1_000_000), MIN_SPAWN_MS);
    assert_eq!(spawn_interval_floor(1_000_000_000), MIN_SPAWN_MS);
}

#[test]
fn spawner_draws_interval_within_range() {
    let mut g = Game::new(700);
    let mut seen = Vec::new();
    for _ in 0..40 {
        g.spawn_timer = 5;
        g.game_speed_percent = 900_000;
        let before = g.obstacles.len();
        g.tick_spawner(10);
        assert_eq!(g.obstacles.len(), before + 1);
        assert!(g.spawn_timer >= 600 && g.spawn_timer < 1600);
        seen.push(g.spawn_timer);
    }
    assert!(seen.iter().any(|t| *t != seen[0]));
    g.spawn_timer = 100;
    g.tick_spawner(30);
    assert_eq!(g.spawn_timer, 70);
}

#[test]
fn clouds_start_with_looks_in_range() {
    for _ in 0..20 {
        let c = Cloud::new();
        assert!(c.x_percent >= ONE);
        assert!(c.y_percent >= CLOUD_MIN_Y as i64 && c.y_percent < CLOUD_MAX_Y as i64);
        assert!(c.size_percent >= CLOUD_MIN_SIZE as i64 && c.size_percent < CLOUD_MAX_SIZE as i64);
        assert!(c.sprite_index < 4);
    }
}

#[test]
fn cloud_reappears_on_the_right() {
    let mut c = Cloud::new();
    c.x_percent = -499_000;
    c.speed_percent = 50_000;
    c.update(100);
    assert!(c.x_percent >= ONE);
    c.update(100);
    assert!(c.x_percent < ONE + 200_000);
}

#[test]
fn ready_waits_for_a_start_that_also_jumps() {
    let mut g = Game::new(700);
    assert_eq!(g.state(), GameState::Ready);
    g.update(&idle(), 16, &view());
    assert_eq!(g.state(), GameState::Ready);
    assert_eq!(g.score(), 0);
    g.update(&jump(), 16, &view());
    assert_eq!(g.state(), GameState::Playing);
    assert!(g.dino.is_airborne());
}

#[test]
fn score_and_speed_grow_while_alive_and_freeze_on_death() {
    let mut g = Game::new(700);
    g.update(&jump(), 16, &view());
    let mut last_score = g.score();
    let mut last_speed = g.game_speed_percent;
    for _ in 0..20 {
        g.obstacles.clear();
        g.update(&idle(), 16, &view());
        assert_eq!(g.score(), last_score + 1);
        assert!(g.game_speed_percent > last_speed);
        last_score = g.score();
        last_speed = g.game_speed_percent;
    }
    assert_eq!(g.game_speed_percent, GAME_SPEED + 20 * 16 * 15);
    g.dino.apply_effect(Effect::Kill);
    let spawn_timer = g.spawn_timer;
    for _ in 0..3 {
        g.update(&idle(), 16, &view());
        assert_eq!(g.score(), last_score);
        assert_eq!(g.game_speed_percent, last_speed);
        assert_eq!(g.spawn_timer, spawn_timer);
    }
}

#[test]
fn restart_after_game_over_resets_the_session() {
    let mut g = Game::new(700);
    g.high_score = 3;
    g.update(&jump(), 16, &view());
    for _ in 0..60 {
        g.obstacles.clear();
        g.update(&idle(), 16, &view());
    }
    let score = g.score();
    assert!(score > 3);
    g.dino.apply_effect(Effect::Kill);
    let mut ticks = 0;
    while g.state() == GameState::Playing && ticks < 1000 {
        g.update(&idle(), 16, &view());
        ticks += 1;
    }
    assert_eq!(g.state(), GameState::GameOver);
    assert_eq!(g.high_score(), score);
    g.update(&restart(), 16, &view());
    assert_eq!(g.state(), GameState::Playing);
    assert_eq!(g.dino.health(), ONE);
    assert_eq!(g.dino.mana(), ONE);
    assert!(g.obstacles.is_empty());
    assert_eq!(g.score(), 0);
    assert_eq!(g.game_speed_percent, GAME_SPEED);
    assert_eq!(g.high_score(), score);
}

#[test]
fn high_score_kept_when_not_beaten() {
    let mut g = Game::new(700);
    g.high_score = 1_000;
    g.update(&jump(), 16, &view());
    g.dino.apply_effect(Effect::Kill);
    let mut ticks = 0;
    while g.state() == GameState::Playing && ticks < 1000 {
        g.update(&idle(), 16, &view());
        ticks += 1;
    }
    assert_eq!(g.state(), GameState::GameOver);
    assert_eq!(g.high_score(), 1_000);
    g.update(&idle(), 16, &view());
    assert_eq!(g.state(), GameState::GameOver);
    g.update(&restart(), 16, &view());
    assert_eq!(g.high_score(), 1_000);
    assert_eq!(g.score(), 0);
}

#[test]
fn circle_and_rect_overlap_exactly() {
    let c = Circle { x: 0, y: 0, r: 5 };
    assert!(c.overlaps_rect(&Rect { x: 3, y: 4, w: 10, h: 10 }));
    assert!(!c.overlaps_rect(&Rect { x: 4, y: 4, w: 10, h: 10 }));
    assert!(c.overlaps_rect(&Rect { x: -20, y: -1, w: 40, h: 2 }));
    assert!(!c.overlaps_rect(&Rect { x: 6, y: -1, w: 4, h: 2 }));
}

#[test]
fn division_rounds_toward_zero() {
    assert_eq!(div_toward_zero(-7, 2), -3);
    assert_eq!(div_toward_zero(7, 2), 3);
    assert_eq!(div_toward_zero(-1, 1000), 0);
}

#[test]
fn long_frame_scrolls_obstacles_and_hit_animation() {
    let mut o = Obstacle::Cactus(Cactus::new(SPAWN_X, 500));
    o.on_hit();
    o.update(GAME_SPEED, 10_000);
    match o {
        Obstacle::Cactus(c) => {
            assert_eq!(c.x_percent, SPAWN_X - 2_000_000);
            assert_eq!(c.hit_frame, 1);
        }
        _ => panic!("expected a cactus"),
    }
    let mut g = Game::new(700);
    g.update(&jump(), 16, &view());
    g.obstacles.clear();
    g.update(&idle(), 3_000, &view());
    assert_eq!(g.score(), 1);
    assert_eq!(g.game_speed_percent, GAME_SPEED + 15 * 3_000);
}
