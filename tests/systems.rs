use gold_rush::collision::in_reach;
use gold_rush::components::{AnimationConfig, DirectionInput, FrameTimer, Position, WindowSize};
use gold_rush::entity::CRATE_GOLD;
use gold_rush::state::{AppState, GameState};
use gold_rush::world::GameWorld;

fn window() -> WindowSize {
    WindowSize { width: 800, height: 600 }
}

fn keys(up: bool, down: bool, left: bool, right: bool) -> DirectionInput {
    DirectionInput { up, down, left, right }
}

#[test]
fn take_hit_rule() {
    let mut g = GameState { gold: 3, health: 100, is_game_over: false };
    g.take_hit();
    assert_eq!(g.health, 90);
    g.health = 11;
    g.take_hit();
    assert_eq!(g.health, 1);
    g.take_hit();
    assert_eq!(g.health, 0);
    g.take_hit();
    assert_eq!(g.health, 0);
    assert_eq!(g.gold, 3);
}

#[test]
fn several_hits_in_one_tick() {
    let mut w = GameWorld::new();
    w.game.health = 35;
    for _ in 0..3 {
        w.spawn_bullet_at(window(), 0);
    }
    w.bullets.push(w.bullets[0]);
    w.bullets[3].transform.translation.y = 250;
    w.player.as_mut().unwrap().transform.translation.x = -380;
    w.collision();
    w.bullet_damage();
    assert_eq!(w.game.health, 5);
    assert_eq!(w.bullets.len(), 1);
    assert_eq!(w.bullets[0].transform.translation.y, 250);
}

#[test]
fn default_game_state() {
    assert_eq!(GameState::default(), GameState { gold: 0, health: 100, is_game_over: false });
    assert_eq!(AppState::default(), AppState::InGame);
}

#[test]
fn status_text_lines() {
    let g = GameState { gold: 0, health: 100, is_game_over: false };
    assert_eq!(g.status_text(), "Gold: 0\nHealth: 100");
    let g = GameState { gold: 4200, health: 7, is_game_over: false };
    assert_eq!(g.status_text(), "Gold: 4200\nHealth: 7");
}

#[test]
fn reach_is_strict() {
    let o = Position { x: 0, y: 0, z: 0 };
    assert!(in_reach(o, Position { x: 30, y: 40, z: -1 }));
    assert!(!in_reach(o, Position { x: 100, y: 0, z: 0 }));
    assert!(in_reach(o, Position { x: 99, y: 0, z: 0 }));
    assert!(!in_reach(o, Position { x: 60, y: 80, z: -1 }));
}

#[test]
fn player_moves_and_faces() {
    let mut w = GameWorld::new();
    w.move_character(keys(true, false, true, false), window());
    let p = w.player.unwrap();
    assert_eq!((p.transform.translation.x, p.transform.translation.y), (-10, 10));
    assert_eq!(p.transform.scale_x, -6);
    assert!(p.movement.is_moving);

    w.move_character(keys(true, false, false, false), window());
    let p = w.player.unwrap();
    assert_eq!(p.transform.scale_x, 6);

    w.move_character(keys(true, true, false, false), window());
    let p = w.player.unwrap();
    assert!(!p.movement.is_moving);
    assert_eq!((p.transform.translation.x, p.transform.translation.y), (-10, 20));
}

#[test]
fn player_diagonal_is_not_normalised() {
    let mut w = GameWorld::new();
    w.move_character(keys(false, true, false, true), window());
    let p = w.player.unwrap();
    assert_eq!((p.transform.translation.x, p.transform.translation.y), (10, -10));
}

#[test]
fn player_is_kept_inside_margin() {
    let mut w = GameWorld::new();
    for _ in 0..100 {
        w.move_character(keys(false, true, false, true), window());
    }
    let p = w.player.unwrap();
    assert_eq!((p.transform.translation.x, p.transform.translation.y), (380, -280));
}

#[test]
fn spawners_place_inside_window() {
    let mut w = GameWorld::new();
    for _ in 0..50 {
        w.spawn_crates(window());
        w.spawn_bullets(window());
    }
    assert_eq!(w.crates.len(), 50);
    assert_eq!(w.bullets.len(), 50);
    for c in &w.crates {
        let t = c.transform.translation;
        assert!(-400 <= t.x && t.x < 400 && -300 <= t.y && t.y < 300);
        assert_eq!(t.z, -1);
        assert_eq!(c.loot.gold, CRATE_GOLD);
        assert!(!c.collider.collided);
    }
    for b in &w.bullets {
        let t = b.transform.translation;
        assert_eq!(t.x, -400);
        assert!(-300 <= t.y && t.y < 300);
        assert_eq!(b.bullet.speed, 10);
    }
    let x0 = w.crates[0].transform.translation.x;
    assert!(w.crates.iter().any(|c| c.transform.translation.x != x0));
    let y0 = w.bullets[0].transform.translation.y;
    assert!(w.bullets.iter().any(|b| b.transform.translation.y != y0));
}

#[test]
fn spawners_idle_while_paused() {
    let mut w = GameWorld::new();
    w.app_state = AppState::Paused;
    w.spawn_crates(window());
    w.spawn_bullets(window());
    assert!(w.crates.is_empty());
    assert!(w.bullets.is_empty());
}

#[test]
fn timer_runs_out_once() {
    let mut t = FrameTimer::new(100);
    t.tick(60);
    assert_eq!((t.elapsed, t.just_finished), (60, false));
    t.tick(60);
    assert_eq!((t.elapsed, t.just_finished), (100, true));
    t.tick(60);
    assert_eq!((t.elapsed, t.just_finished), (100, false));
}

#[test]
fn timer_from_fps_duration() {
    let c = AnimationConfig::new(0, 6, 12);
    assert_eq!(c.frame_timer.duration, 83_333_333);
    assert_eq!(AnimationConfig::timer_from_fps(10).duration, 100_000_000);
}

#[test]
fn animation_advances_only_while_moving() {
    let mut w = GameWorld::new();
    w.execute_animations(1_000_000_000);
    assert_eq!(w.player.unwrap().sprite_index, 0);
    w.move_character(keys(false, false, false, true), window());
    w.execute_animations(50_000_000);
    assert_eq!(w.player.unwrap().sprite_index, 0);
    w.execute_animations(50_000_000);
    assert_eq!(w.player.unwrap().sprite_index, 1);
    assert_eq!(w.player.unwrap().animation.frame_timer.elapsed, 0);
    for _ in 0..5 {
        w.execute_animations(100_000_000);
    }
    assert_eq!(w.player.unwrap().sprite_index, 6);
    w.execute_animations(100_000_000);
    assert_eq!(w.player.unwrap().sprite_index, 0);
}

#[test]
fn gold_room_check() {
    let mut w = GameWorld::new();
    assert!(w.has_gold_room());
    w.spawn_crate_at(10, 10);
    w.game.gold = u32::MAX - 100;
    assert!(w.has_gold_room());
    w.game.gold = u32::MAX - 99;
    assert!(!w.has_gold_room());
}

#[test]
fn diagonal_keys_move_one_step_each_way() {
    let mut w = GameWorld::new();
    w.move_character(keys(true, false, false, true), window());
    let p = w.player.unwrap();
    assert_eq!(p.transform.translation, Position { x: 10, y: 10, z: 0 });
    assert!(p.movement.is_moving);
    assert_eq!((p.transform.scale_x, p.transform.scale_y), (6, 6));
}

#[test]
fn opposite_keys_cancel() {
    let mut w = GameWorld::new();
    w.move_character(keys(false, false, true, true), window());
    let p = w.player.unwrap();
    assert_eq!(p.transform.translation, Position { x: 0, y: 0, z: 0 });
    assert!(!p.movement.is_moving);
    assert_eq!(p.transform.scale_x, 6);
}

#[test]
fn movement_keeps_depth_and_height_scale() {
    let mut w = GameWorld::new();
    {
        let p = w.player.as_mut().unwrap();
        p.transform.translation.z = 3;
        p.transform.scale_y = 2;
    }
    w.move_character(keys(false, true, true, false), window());
    let p = w.player.unwrap();
    assert_eq!(p.transform.translation, Position { x: -10, y: -10, z: 3 });
    assert_eq!((p.transform.scale_x, p.transform.scale_y), (-6, 2));
}
