use gold_rush::components::{Bullet, Collider, Crate, DirectionInput, Position, Transform, WindowSize};
use gold_rush::entity::{BulletEntity, CrateEntity, Player, CRATE_GOLD};
use gold_rush::state::{AppState, GameState};
use gold_rush::world::GameWorld;

fn window() -> WindowSize {
    WindowSize { width: 800, height: 600 }
}

fn no_keys() -> DirectionInput {
    DirectionInput { up: false, down: false, left: false, right: false }
}

fn bullet_at(x: i64, y: i64, speed: i64) -> BulletEntity {
    BulletEntity {
        transform: Transform { translation: Position { x, y, z: -1 }, scale_x: 4, scale_y: 4 },
        collider: Collider { collided: false },
        bullet: Bullet { speed },
    }
}

fn crate_at(x: i64, y: i64) -> CrateEntity {
    CrateEntity {
        transform: Transform { translation: Position { x, y, z: -1 }, scale_x: 4, scale_y: 4 },
        collider: Collider { collided: false },
        loot: Crate { gold: CRATE_GOLD },
    }
}

fn same_world(a: &GameWorld, b: &GameWorld) -> bool {
    a.game == b.game
        && a.app_state == b.app_state
        && a.player == b.player
        && a.crates == b.crates
        && a.bullets == b.bullets
        && a.game_over_text == b.game_over_text
}

#[test]
fn bullet_hit_at_fifteen_leaves_five() {
    let mut w = GameWorld::new();
    w.game.health = 15;
    w.bullets.push(bullet_at(0, 0, 10));
    w.tick(no_keys(), window(), 16_000_000, false);
    assert_eq!(w.game.health, 5);
    assert!(w.bullets.is_empty());
    assert!(!w.game.is_game_over);
}

#[test]
fn bullet_hit_at_five_clamps_to_zero() {
    let mut w = GameWorld::new();
    w.game.health = 5;
    w.bullets.push(bullet_at(0, 0, 10));
    w.collision();
    assert!(w.bullets[0].collider.collided);
    w.bullet_damage();
    assert_eq!(w.game.health, 0);
    assert!(w.bullets.is_empty());
}

#[test]
fn crate_within_radius_is_flagged_then_looted() {
    let mut w = GameWorld::new();
    w.spawn_crate_at(30, 40);
    w.collision();
    assert!(w.crates[0].collider.collided);
    assert_eq!(w.game.gold, 0);
    w.loot();
    assert_eq!(w.game.gold, 100);
    assert!(w.crates.is_empty());
}

#[test]
fn crate_outside_radius_stays() {
    let mut w = GameWorld::new();
    w.spawn_crate_at(60, 80);
    w.tick(no_keys(), window(), 16_000_000, false);
    assert!(!w.crates[0].collider.collided);
    assert_eq!(w.game.gold, 0);
    assert_eq!(w.crates.len(), 1);
}

#[test]
fn zero_health_ends_game_and_restart_resets() {
    let mut w = GameWorld::new();
    w.game.health = 10;
    w.game.gold = 300;
    w.bullets.push(bullet_at(0, 0, 10));
    w.bullets.push(bullet_at(-390, 200, 10));
    w.crates.push(crate_at(300, 250));
    w.tick(no_keys(), window(), 16_000_000, false);
    assert_eq!(w.game.health, 0);
    assert!(w.game.is_game_over);
    assert!(w.player.is_none());
    assert!(w.crates.is_empty());
    assert!(w.bullets.is_empty());
    assert!(w.game_over_text);
    assert_eq!(w.app_state, AppState::Paused);

    w.tick(no_keys(), window(), 16_000_000, true);
    assert_eq!(w.game, GameState { gold: 0, health: 100, is_game_over: false });
    assert_eq!(w.app_state, AppState::InGame);
    assert!(!w.game_over_text);
    assert_eq!(w.player, Some(Player::create_player()));
}

#[test]
fn game_over_check_twice_changes_nothing_more() {
    let mut w = GameWorld::new();
    w.game.health = 0;
    w.crates.push(crate_at(100, 100));
    w.game_over();
    assert!(w.game.is_game_over);
    let once = w.clone();
    w.game_over();
    assert!(same_world(&w, &once));
}

#[test]
fn game_over_check_ignores_living_player() {
    let mut w = GameWorld::new();
    w.game.health = 1;
    let before = w.clone();
    w.game_over();
    assert!(same_world(&w, &before));
}

#[test]
fn restart_resets_exactly() {
    let mut w = GameWorld::new();
    w.game = GameState { gold: 700, health: 0, is_game_over: true };
    w.player = None;
    w.app_state = AppState::Paused;
    w.game_over_text = true;
    w.restart_game();
    assert_eq!(w.game, GameState { gold: 0, health: 100, is_game_over: false });
    let p = w.player.expect("a player after restart");
    assert_eq!(p.transform.translation, Position { x: 0, y: 0, z: 0 });
    assert_eq!(p.sprite_index, 0);
    assert!(!p.movement.is_moving);
    assert_eq!(w.app_state, AppState::InGame);
    assert!(!w.game_over_text);
}

#[test]
fn restart_without_game_over_does_nothing() {
    let mut w = GameWorld::new();
    w.game.gold = 200;
    w.game.health = 40;
    let before = w.clone();
    w.restart_game();
    assert!(same_world(&w, &before));
}

#[test]
fn bullet_past_the_edge_wraps() {
    let mut w = GameWorld::new();
    w.player = None;
    w.bullets.push(bullet_at(800 + 100 + 5, 0, 10));
    w.move_bullets(window());
    assert_eq!(w.bullets[0].transform.translation.x, -800 - 100 + 10);
    assert_eq!(w.bullets[0].transform.translation.y, 0);
}

#[test]
fn bullet_before_the_edge_advances() {
    let mut w = GameWorld::new();
    w.bullets.push(bullet_at(900, 7, 10));
    w.move_bullets(window());
    assert_eq!(w.bullets[0].transform.translation.x, 910);
    w.move_bullets(window());
    assert_eq!(w.bullets[0].transform.translation.x, -890);
}

#[test]
fn collided_flag_is_sticky() {
    let mut w = GameWorld::new();
    let mut c = crate_at(350, 250);
    c.collider.collided = true;
    w.crates.push(c);
    w.collision();
    assert!(w.crates[0].collider.collided);
    w.move_character(no_keys(), window());
    w.collision();
    assert!(w.crates[0].collider.collided);
}

#[test]
fn collision_needs_a_player() {
    let mut w = GameWorld::new();
    w.player = None;
    w.crates.push(crate_at(0, 0));
    w.collision();
    assert!(!w.crates[0].collider.collided);
}

#[test]
fn health_and_gold_bounds_over_many_ticks() {
    let mut w = GameWorld::new();
    let right = DirectionInput { up: false, down: false, left: false, right: true };
    let mut last_gold = w.game.gold;
    for i in 0..60i64 {
        if i % 3 == 0 {
            w.spawn_crate_at(10 * i + 60, 0);
        }
        if i % 9 == 0 {
            w.bullets.push(bullet_at(10 * i + 40, 10, 10));
        }
        w.tick(right, window(), 16_000_000, false);
        assert!(w.game.health <= 100);
        assert!(w.game.gold >= last_gold);
        last_gold = w.game.gold;
    }
    assert!(w.game.gold > 0);
    assert!(w.game.health < 100);
}
