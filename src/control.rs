//! Game over, restart and the status line.
use vstd::prelude::*;
use vstd::string::StringExecFns;
use crate::entity::Player;
use crate::state::{initial_game, AppState, GameState};
use crate::world::GameWorld;

verus! {

/// What the game-over check does: on the first tick at zero health it flags
/// the game as over, clears the scene, shows the message and pauses;
/// otherwise it changes nothing.
pub open spec fn game_over_step(pre: GameWorld, post: GameWorld) -> bool {
    if pre.game.health == 0 && !pre.game.is_game_over {
        &&& post.game == (GameState { is_game_over: true, ..pre.game })
        &&& post.player.is_none()
        &&& post.crates@.len() == 0
        &&& post.bullets@.len() == 0
        &&& post.game_over_text
        &&& post.app_state == AppState::Paused
    } else {
        post == pre
    }
}

/// What a restart does: after a game over it resumes play with fresh state
/// and a fresh player and hides the message; otherwise it changes nothing.
pub open spec fn restart_step(pre: GameWorld, post: GameWorld) -> bool {
    if pre.game.is_game_over {
        &&& post.game == initial_game()
        &&& post.player matches Some(p) && p.is_fresh()
        &&& post.app_state == AppState::InGame
        &&& !post.game_over_text
        &&& post.crates == pre.crates
        &&& post.bullets == pre.bullets
    } else {
        post == pre
    }
}

impl GameWorld {
    /// Ends the game once health has reached zero.
    pub fn game_over(&mut self)
        requires
            old(self).wf(),
        ensures
            final(self).wf(),
            game_over_step(*old(self), *final(self)),
    {
        if self.game.health == 0 && !self.game.is_game_over {
            self.game.is_game_over = true;
            self.player = None;
            self.crates = Vec::new();
            self.bullets = Vec::new();
            self.game_over_text = true;
            self.app_state = AppState::Paused;
        }
    }

    /// Starts a new game after a game over; does nothing otherwise.
    pub fn restart_game(&mut self)
        requires
            old(self).wf(),
        ensures
            final(self).wf(),
            restart_step(*old(self), *final(self)),
    {
        if self.game.is_game_over {
            self.app_state = AppState::InGame;
            self.game = GameState::default();
            self.player = Some(Player::create_player());
            self.game_over_text = false;
        }
    }
}

/// Running the game-over check twice in a row does no more than running it
/// once: the second run changes nothing.
pub proof fn lemma_game_over_idempotent(w0: GameWorld, w1: GameWorld, w2: GameWorld)
    requires
        game_over_step(w0, w1),
        game_over_step(w1, w2),
    ensures
        w2 == w1,
{
}

/// Decimal digits of `n`, most significant first, without leading zeros.
pub open spec fn decimal(n: nat) -> Seq<char>
    decreases n,
{
    if n < 10 {
        seq![digit_char(n)]
    } else {
        decimal(n / 10).push(digit_char(n % 10))
    }
}

/// The character of the decimal digit `d`.
pub open spec fn digit_char(d: nat) -> char {
    if d < 10 {
        (d + '0' as nat) as char
    } else {
        '?'
    }
}

/// The one-character text of the decimal digit `d`.
fn digit_str(d: u32) -> (r: &'static str)
    requires
        d < 10,
    ensures
        r@ == seq![digit_char(d as nat)],
{
    proof {
        reveal_strlit("0");
        reveal_strlit("1");
        reveal_strlit("2");
        reveal_strlit("3");
        reveal_strlit("4");
        reveal_strlit("5");
        reveal_strlit("6");
        reveal_strlit("7");
        reveal_strlit("8");
        reveal_strlit("9");
    }
    if d == 0 {
        "0"
    } else if d == 1 {
        "1"
    } else if d == 2 {
        "2"
    } else if d == 3 {
        "3"
    } else if d == 4 {
        "4"
    } else if d == 5 {
        "5"
    } else if d == 6 {
        "6"
    } else if d == 7 {
        "7"
    } else if d == 8 {
        "8"
    } else {
        "9"
    }
}

/// Appends `n` in decimal to `s`.
fn push_decimal(s: &mut String, n: u32)
    ensures
        final(s)@ == old(s)@ + decimal(n as nat),
    decreases n,
{
    if n >= 10 {
        push_decimal(s, n / 10);
    }
    s.append(digit_str(n % 10));
    proof {
        assert(decimal(n as nat) == if n < 10 {
            seq![digit_char(n as nat)]
        } else {
            decimal((n / 10) as nat).push(digit_char((n % 10) as nat))
        });
    }
}

/// The status line text for `gold` and `health`.
pub open spec fn status_line(gold: u32, health: u32) -> Seq<char> {
    "Gold: "@ + decimal(gold as nat) + "\nHealth: "@ + decimal(health as nat)
}

impl GameState {
    /// The status line shown on screen: gold on one line, health on the next.
    pub fn status_text(&self) -> (r: String)
        ensures
            r@ == status_line(self.gold, self.health),
    {
        let mut s = String::from_str("Gold: ");
        push_decimal(&mut s, self.gold);
        s.append("\nHealth: ");
        push_decimal(&mut s, self.health);
        s
    }
}

} // verus!
