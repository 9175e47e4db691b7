//! The game-mode state machine and the running score.
//!
//! Modes cycle `PressStart -> Play -> GameOver -> Restart -> PressStart`.
//! `Paused` is defined but no transition reaches it.  The score is reset to
//! zero on the transitions out of `PressStart` and `GameOver`, frozen while
//! the mode is `GameOver`, and otherwise changed only by the scoring system.
use vstd::prelude::*;

use crate::pipe::{pipes_wf, spawned_pipe_at, PipeBundle, OBSTACLE_AMOUNT, PIPES_H_SEPARATION, PIPE_MAX_Y, PIPE_MIN_Y};
use crate::player::{player_wf, PlayerBundle, PLAYER_SPAWN_X, PLAYER_SPAWN_Y};
use crate::rng::rand_in_range;
use crate::transform::{Position, Velocity, SCALE};

verus! {

/// World width and height in micro-pixels (the visible area is square).
pub const SCREEN_SIZE: i64 = 320 * SCALE;

#[derive(Clone, Copy, Debug, PartialEq, Eq, Structural)]
pub enum GameStates {
    Play,
    Paused,
    GameOver,
    PressStart,
    Restart,
}

impl Default for GameStates {
    /// A fresh session awaits the start input.
    fn default() -> (r: Self)
        ensures
            r == GameStates::PressStart,
    {
        GameStates::PressStart
    }
}

#[derive(Clone, Copy, Debug, PartialEq, Eq, Structural)]
pub struct GameState {
    pub game_state: GameStates,
    pub score: u32,
}

impl Default for GameState {
    /// A fresh session: awaiting start, score zero.
    fn default() -> (r: Self)
        ensures
            r == (GameState { game_state: GameStates::PressStart, score: 0 }),
    {
        GameState { game_state: GameStates::PressStart, score: 0 }
    }
}

/// What the input system does to the mode and score on one frame:
/// an edge-triggered jump starts a run from `PressStart` and requests a
/// restart from `GameOver`, resetting the score in both cases.
pub open spec fn inputs_step(s: GameState, jump_pressed: bool) -> GameState {
    if jump_pressed && s.game_state == GameStates::PressStart {
        GameState { game_state: GameStates::Play, score: 0 }
    } else if jump_pressed && s.game_state == GameStates::GameOver {
        GameState { game_state: GameStates::Restart, score: 0 }
    } else {
        s
    }
}

/// Reacts to the edge-triggered jump input: starts a run while awaiting
/// start, or requests a restart after a game over.
pub fn check_inputs(game_state: &mut GameState, jump_pressed: bool)
    ensures
        *final(game_state) == inputs_step(*old(game_state), jump_pressed),
{
    if jump_pressed && game_state.game_state == GameStates::PressStart {
        game_state.score = 0;
        game_state.game_state = GameStates::Play;
    } else if jump_pressed && game_state.game_state == GameStates::GameOver {
        game_state.score = 0;
        game_state.game_state = GameStates::Restart;
    }
}

/// Performs the session reset while the mode is `Restart`, then immediately
/// advances to `PressStart`, so `Restart` is observable for one scheduler pass
/// only.  The reset relocates every obstacle to a freshly randomized slot with
/// the same placement rule as the startup spawn, re-arms all scoring flags,
/// puts the player back at its spawn position at rest, and picks a random
/// animation variant for the asset collaborator.  In every other mode nothing
/// changes and no variant is requested.
pub fn restart_game(
    game_state: &mut GameState,
    player: &mut PlayerBundle,
    pipes: &mut Vec<PipeBundle>,
    rng: &mut rand::rngs::StdRng,
) -> (variant: Option<usize>)
    requires
        old(pipes)@.len() == OBSTACLE_AMOUNT,
        pipes_wf(old(pipes)@),
    ensures
        final(pipes)@.len() == old(pipes)@.len(),
        pipes_wf(final(pipes)@),
        old(game_state).game_state != GameStates::Restart ==> {
            &&& *final(game_state) == *old(game_state)
            &&& *final(player) == *old(player)
            &&& final(pipes)@ == old(pipes)@
            &&& variant is None
        },
        old(game_state).game_state == GameStates::Restart ==> {
            &&& final(game_state).game_state == GameStates::PressStart
            &&& final(game_state).score == old(game_state).score
            &&& final(player).position == (Position { x: PLAYER_SPAWN_X, y: PLAYER_SPAWN_Y })
            &&& final(player).velocity == (Velocity { x: 0, y: 0 })
            &&& player_wf(*final(player))
            &&& forall|i: int|
                0 <= i < final(pipes)@.len() ==> spawned_pipe_at(#[trigger] final(pipes)@[i], i)
            &&& forall|i: int|
                0 <= i < final(pipes)@.len() ==> (#[trigger] final(pipes)@[i]).velocity == old(
                    pipes,
                )@[i].velocity
            &&& variant matches Some(v) && 0 <= v <= 2
        },
{
    if game_state.game_state == GameStates::Restart {
        let n: usize = pipes.len();
        for i in 0..n
            invariant
                pipes@.len() == n,
                n == OBSTACLE_AMOUNT,
                n == old(pipes)@.len(),
                pipes_wf(pipes@),
                forall|j: int| i <= j < n ==> pipes@[j] == old(pipes)@[j],
                forall|j: int| 0 <= j < i ==> spawned_pipe_at(#[trigger] pipes@[j], j),
                forall|j: int|
                    0 <= j < i ==> (#[trigger] pipes@[j]).velocity == old(pipes)@[j].velocity,
        {
            let mut q: PipeBundle = pipes[i];
            q.position.x = SCREEN_SIZE + (i as i64) * PIPES_H_SEPARATION;
            q.position.y = rand_in_range(rng, PIPE_MIN_Y, PIPE_MAX_Y);
            q.is_type.can_score = true;
            pipes[i] = q;
        }
        player.position.x = PLAYER_SPAWN_X;
        player.position.y = PLAYER_SPAWN_Y;
        player.velocity.x = 0;
        player.velocity.y = 0;
        game_state.game_state = GameStates::PressStart;
        let v: i64 = rand_in_range(rng, 0, 2);
        Some(v as usize)
    } else {
        None
    }
}

} // verus!
