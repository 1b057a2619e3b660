use invaders_core::game_object::{CollisionShape, KeyStates};
use invaders_core::lifecycle::{enemy_fire, remove_oob_entities, spawn_enemy};
use invaders_core::motion::{apply_velocity, handle_window_collisions};
use invaders_core::combat::handle_projectile_collisions;
use invaders_core::input::{handle_input, track_time};
use invaders_core::pipeline::{frame_order, run_frame, SystemId};
use invaders_core::units::XYPair;
use invaders_core::world::{
    Drawable, DrawableKind, Entity, Role, Simulation, ENEMY_DESCENT_SPEED, ENEMY_HEIGHT,
    ENEMY_WIDTH, PROJECTILE_RADIUS, SCORE_PER_HIT, SPAWN_INTERVAL,
};

fn test_window() -> XYPair {
    // 1280 x 720 pixels, in sub-units.
    XYPair { x: 12800, y: 7200 }
}

fn sim_with_window() -> Simulation {
    Simulation::new(test_window(), 50)
}

fn circle_entity(role: Role, r: i64, x: i64, y: i64, vx: i64, vy: i64, bounce: i64) -> Entity {
    Entity {
        role,
        pos: XYPair { x, y },
        vel: XYPair { x: vx, y: vy },
        shape: CollisionShape::Circle(r),
        bounciness: bounce,
        drawable: Drawable {
            canvas_size: XYPair { x: 2 * r, y: 2 * r },
            kind: DrawableKind::Projectile,
        },
    }
}

fn rect_entity(role: Role, w: i64, h: i64, x: i64, y: i64) -> Entity {
    Entity {
        role,
        pos: XYPair { x, y },
        vel: XYPair { x: 0, y: 0 },
        shape: CollisionShape::Rectangle(w, h),
        bounciness: 8,
        drawable: Drawable {
            canvas_size: XYPair { x: w, y: h },
            kind: DrawableKind::Enemy,
        },
    }
}

#[test]
fn integration_advances_position_by_velocity_times_dt() {
    let mut sim = sim_with_window();
    sim.entities.push(circle_entity(Role::Player, 400, 5000, 6000, 30, -20, 6));
    track_time(&mut sim, 7);
    apply_velocity(&mut sim);
    assert_eq!(sim.entities[0].pos.x, 5000 + 30 * 7);
    assert_eq!(sim.entities[0].pos.y, 6000 - 20 * 7);
    assert_eq!(sim.entities[0].vel.x, 30);
    assert_eq!(sim.entities[0].vel.y, -20);
}

#[test]
fn integration_with_zero_dt_is_identity() {
    let mut sim = sim_with_window();
    sim.entities.push(circle_entity(Role::Enemy, 200, 1234, 987, 17, 23, 8));
    track_time(&mut sim, 0);
    apply_velocity(&mut sim);
    assert_eq!(sim.entities[0].pos.x, 1234);
    assert_eq!(sim.entities[0].pos.y, 987);
}

#[test]
fn bounce_off_right_edge_clamps_and_reflects() {
    let mut sim = sim_with_window();
    // The circle's edge has just crossed the right boundary, moving right.
    sim.entities.push(circle_entity(Role::Player, 400, 12600, 3600, 50, 0, 6));
    handle_window_collisions(&mut sim);
    // position.x == windowWidth - r; velocity.x == -v * bounciness.
    assert_eq!(sim.entities[0].pos.x, 12800 - 400);
    assert_eq!(sim.entities[0].vel.x, -(50 * 6) / 10);
    assert_eq!(sim.entities[0].pos.y, 3600);
    assert_eq!(sim.entities[0].vel.y, 0);
}

#[test]
fn corner_overlap_resolves_both_axes_independently() {
    let mut sim = sim_with_window();
    sim.entities.push(circle_entity(Role::Player, 400, 12700, 7100, 40, 30, 6));
    handle_window_collisions(&mut sim);
    assert_eq!(sim.entities[0].pos.x, 12800 - 400);
    assert_eq!(sim.entities[0].pos.y, 7200 - 400);
    assert_eq!(sim.entities[0].vel.x, -(40 * 6) / 10);
    assert_eq!(sim.entities[0].vel.y, -(30 * 6) / 10);
}

#[test]
fn entity_inside_window_is_untouched_by_bounds_resolver() {
    let mut sim = sim_with_window();
    sim.entities.push(circle_entity(Role::Player, 400, 6400, 3600, 40, 30, 6));
    handle_window_collisions(&mut sim);
    assert_eq!(sim.entities[0].pos.x, 6400);
    assert_eq!(sim.entities[0].pos.y, 3600);
    assert_eq!(sim.entities[0].vel.x, 40);
    assert_eq!(sim.entities[0].vel.y, 30);
}

#[test]
fn projectiles_pass_through_window_bounds() {
    let mut sim = sim_with_window();
    sim.entities.push(circle_entity(Role::Projectile, 50, 13000, 3600, 50, 0, 8));
    handle_window_collisions(&mut sim);
    assert_eq!(sim.entities[0].pos.x, 13000);
    assert_eq!(sim.entities[0].vel.x, 50);
}

#[test]
fn projectile_hit_despawns_both_and_scores_once() {
    let mut sim = sim_with_window();
    sim.entities.push(circle_entity(Role::Projectile, 50, 1000, 1000, 0, 0, 8));
    sim.entities.push(rect_entity(Role::Enemy, 400, 400, 1010, 1050));
    handle_projectile_collisions(&mut sim);
    assert_eq!(sim.entities.len(), 0);
    assert_eq!(sim.score, SCORE_PER_HIT);
}

#[test]
fn non_overlapping_projectile_scores_nothing() {
    let mut sim = sim_with_window();
    sim.entities.push(circle_entity(Role::Projectile, 50, 1000, 1000, 0, 0, 8));
    sim.entities.push(rect_entity(Role::Enemy, 400, 400, 5000, 5000));
    handle_projectile_collisions(&mut sim);
    assert_eq!(sim.entities.len(), 2);
    assert_eq!(sim.score, 0);
}

#[test]
fn two_circles_touching_count_as_overlap() {
    let mut sim = sim_with_window();
    sim.entities.push(circle_entity(Role::Projectile, 50, 1000, 1000, 0, 0, 8));
    sim.entities.push(circle_entity(Role::Enemy, 150, 1200, 1000, 0, 0, 8));
    // center distance 200 == sum of radii.
    handle_projectile_collisions(&mut sim);
    assert_eq!(sim.entities.len(), 0);
    assert_eq!(sim.score, SCORE_PER_HIT);
}

#[test]
fn out_of_bounds_entity_is_reaped() {
    let mut sim = sim_with_window();
    sim.entities.push(circle_entity(Role::Projectile, 50, 12800 + 501, 3600, 0, 0, 8));
    remove_oob_entities(&mut sim);
    assert_eq!(sim.entities.len(), 0);
}

#[test]
fn entity_within_margin_is_kept() {
    let mut sim = sim_with_window();
    sim.entities.push(circle_entity(Role::Projectile, 50, 12800 + 500, 3600, 0, 0, 8));
    remove_oob_entities(&mut sim);
    assert_eq!(sim.entities.len(), 1);
}

#[test]
fn spawner_waits_for_its_cadence() {
    let mut sim = sim_with_window();
    track_time(&mut sim, SPAWN_INTERVAL - 1);
    spawn_enemy(&mut sim, 6000);
    assert_eq!(sim.entities.len(), 0);
    assert_eq!(sim.spawn_timer, SPAWN_INTERVAL - 1);
}

#[test]
fn spawner_creates_enemy_on_cadence() {
    let mut sim = sim_with_window();
    track_time(&mut sim, SPAWN_INTERVAL);
    spawn_enemy(&mut sim, 6000);
    assert_eq!(sim.entities.len(), 1);
    assert_eq!(sim.spawn_timer, 0);
    let e = &sim.entities[0];
    assert!(matches!(e.role, Role::Enemy));
    assert_eq!(e.pos.x, 6000);
    assert_eq!(e.pos.y, ENEMY_HEIGHT / 2);
    assert_eq!(e.vel.y, ENEMY_DESCENT_SPEED);
    assert!(matches!(e.shape, CollisionShape::Rectangle(w, h) if w == ENEMY_WIDTH && h == ENEMY_HEIGHT));
}

#[test]
fn spawn_offset_is_clamped_inside_the_window() {
    let mut sim = sim_with_window();
    track_time(&mut sim, SPAWN_INTERVAL);
    spawn_enemy(&mut sim, -5000);
    assert_eq!(sim.entities[0].pos.x, ENEMY_WIDTH / 2);

    let mut sim = sim_with_window();
    track_time(&mut sim, SPAWN_INTERVAL);
    spawn_enemy(&mut sim, 999_999);
    assert_eq!(sim.entities[0].pos.x, 12800 - ENEMY_WIDTH / 2);
}

#[test]
fn enemies_fire_toward_the_player_on_cadence() {
    let mut sim = sim_with_window();
    sim.spawn_player(XYPair { x: 6400, y: 6800 });
    sim.entities.push(rect_entity(Role::Enemy, ENEMY_WIDTH, ENEMY_HEIGHT, 3000, 200));
    track_time(&mut sim, 3000);
    enemy_fire(&mut sim);
    assert_eq!(sim.entities.len(), 3);
    let p = &sim.entities[2];
    assert!(matches!(p.role, Role::Projectile));
    assert_eq!(p.pos.x, 3000);
    assert_eq!(p.pos.y, 200);
    // The player sits below the enemy, so the projectile flies down at
    // the configured speed.
    assert_eq!(p.vel.x, 0);
    assert_eq!(p.vel.y, 50);
    assert!(matches!(p.shape, CollisionShape::Circle(r) if r == PROJECTILE_RADIUS));
}

#[test]
fn no_player_means_no_fire() {
    let mut sim = sim_with_window();
    sim.entities.push(rect_entity(Role::Enemy, ENEMY_WIDTH, ENEMY_HEIGHT, 3000, 200));
    track_time(&mut sim, 3000);
    enemy_fire(&mut sim);
    assert_eq!(sim.entities.len(), 1);
    assert_eq!(sim.fire_timer, 0);
}

#[test]
fn held_left_key_accelerates_the_player() {
    let mut sim = sim_with_window();
    sim.spawn_player(XYPair { x: 6400, y: 6800 });
    let keys = KeyStates { a_down: true, d_down: false, w_down: false };
    handle_input(&mut sim, &keys);
    assert_eq!(sim.entities[0].vel.x, -2);
    handle_input(&mut sim, &keys);
    assert_eq!(sim.entities[0].vel.x, -4);
}

#[test]
fn out_of_bounds_projectile_still_hits_during_the_frame() {
    // Lifecycle ordering: the projectile has strayed past the margin,
    // but the resolvers still see it in this frame: it despawns by the
    // hit (scoring once), not silently by the reaper.
    let mut sim = sim_with_window();
    sim.spawn_player(XYPair { x: 6400, y: 6800 });
    sim.entities.push(rect_entity(Role::Enemy, 400, 400, 12500, 3600));
    sim.entities.push(circle_entity(Role::Projectile, 1000, 13400, 3600, 0, 0, 8));
    track_time(&mut sim, 0);
    run_frame(&mut sim, 0);
    assert_eq!(sim.score, SCORE_PER_HIT);
    assert_eq!(sim.entities.len(), 1);
    assert!(matches!(sim.entities[0].role, Role::Player));
}

#[test]
fn out_of_bounds_projectile_without_hit_is_reaped_in_stage_four() {
    let mut sim = sim_with_window();
    sim.spawn_player(XYPair { x: 6400, y: 6800 });
    sim.entities.push(circle_entity(Role::Projectile, 50, 13400, 3600, 0, 0, 8));
    track_time(&mut sim, 0);
    run_frame(&mut sim, 0);
    assert_eq!(sim.score, 0);
    assert_eq!(sim.entities.len(), 1);
    assert!(matches!(sim.entities[0].role, Role::Player));
}

#[test]
fn frame_order_runs_integrator_before_resolvers_and_reaper_last() {
    let order = frame_order();
    assert_eq!(
        order,
        vec![
            SystemId::SpawnEnemy,
            SystemId::EnemyFire,
            SystemId::ApplyVelocity,
            SystemId::HandleWindowCollisions,
            SystemId::HandleProjectileCollisions,
            SystemId::RemoveOobEntities,
        ]
    );
    let integrator = order.iter().position(|s| matches!(s, SystemId::ApplyVelocity)).unwrap();
    let window = order
        .iter()
        .position(|s| matches!(s, SystemId::HandleWindowCollisions))
        .unwrap();
    let projectiles = order
        .iter()
        .position(|s| matches!(s, SystemId::HandleProjectileCollisions))
        .unwrap();
    let reaper = order.iter().position(|s| matches!(s, SystemId::RemoveOobEntities)).unwrap();
    assert!(integrator < window && integrator < projectiles);
    assert!(window < reaper && projectiles < reaper);
    assert_eq!(reaper, order.len() - 1);
}

#[test]
fn quiet_frame_leaves_the_world_unchanged() {
    let mut sim = sim_with_window();
    sim.spawn_player(XYPair { x: 6400, y: 6800 });
    track_time(&mut sim, 1);
    run_frame(&mut sim, 0);
    assert_eq!(sim.entities.len(), 1);
    assert_eq!(sim.score, 0);
    assert_eq!(sim.spawn_timer, 1);
    assert_eq!(sim.fire_timer, 1);
}
