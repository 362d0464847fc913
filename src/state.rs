//! Aggregate game state: gold, health, game-over flag and the app state.
use vstd::prelude::*;

verus! {

/// Health the player starts with, and its upper bound.
pub const MAX_HEALTH: u32 = 100;

/// Health taken by one bullet.
pub const BULLET_DAMAGE: u32 = 10;

/// Whether the game is running or halted after a game over.
#[derive(Debug, Clone, Copy, PartialEq, Eq, Structural)]
pub enum AppState {
    InGame,
    Paused,
}

impl Default for AppState {
    fn default() -> (r: AppState)
        ensures
            r == AppState::InGame,
    {
        AppState::InGame
    }
}

/// Gold collected, health left and whether the game is over.
#[derive(Debug, Clone, Copy, PartialEq, Eq, Structural)]
pub struct GameState {
    pub gold: u32,
    pub health: u32,
    pub is_game_over: bool,
}

/// Health after one bullet hit: ten less, but never below zero.
pub open spec fn damaged(health: u32) -> u32 {
    if health > BULLET_DAMAGE {
        (health - BULLET_DAMAGE) as u32
    } else {
        0
    }
}

/// Health after `hits` bullet hits in a row.
pub open spec fn damaged_n(health: u32, hits: nat) -> u32
    decreases hits,
{
    if hits == 0 {
        health
    } else {
        damaged(damaged_n(health, (hits - 1) as nat))
    }
}

/// The state a fresh game starts in.
pub open spec fn initial_game() -> GameState {
    GameState { gold: 0, health: MAX_HEALTH, is_game_over: false }
}

impl GameState {
    /// Health stays within `0..=MAX_HEALTH`.
    pub open spec fn wf(&self) -> bool {
        self.health <= MAX_HEALTH
    }

    /// Applies one bullet hit to the player's health.
    pub fn take_hit(&mut self)
        ensures
            final(self).health == damaged(old(self).health),
            final(self).gold == old(self).gold,
            final(self).is_game_over == old(self).is_game_over,
    {
        if self.health > BULLET_DAMAGE {
            self.health = self.health - BULLET_DAMAGE;
        } else {
            self.health = 0;
        }
    }

    /// Adds a crate's reward to the gold total.
    pub fn add_gold(&mut self, amount: u32)
        requires
            old(self).gold + amount <= u32::MAX,
        ensures
            final(self).gold == old(self).gold + amount,
            final(self).health == old(self).health,
            final(self).is_game_over == old(self).is_game_over,
    {
        self.gold = self.gold + amount;
    }
}

impl Default for GameState {
    fn default() -> (r: GameState)
        ensures
            r == initial_game(),
    {
        GameState { gold: 0, health: MAX_HEALTH, is_game_over: false }
    }
}

/// Repeated hits never push health outside `0..=MAX_HEALTH`, and each hit
/// takes exactly `BULLET_DAMAGE` while more than that is left.
pub proof fn lemma_damage_bounded(health: u32, hits: nat)
    requires
        health <= MAX_HEALTH,
    ensures
        damaged_n(health, hits) <= health,
        damaged_n(health, hits) as int == if health as int > BULLET_DAMAGE * hits {
            health as int - BULLET_DAMAGE * hits
        } else {
            0
        },
    decreases hits,
{
    if hits > 0 {
        lemma_damage_bounded(health, (hits - 1) as nat);
    }
}

} // verus!
