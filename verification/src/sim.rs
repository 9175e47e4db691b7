//! The scheduler: one world value and one synchronous tick that runs every
//! system in the fixed order input -> gravity -> collision/scoring ->
//! mode-transition -> player motion -> obstacle motion -> floor scroll.
//!
//! A tick takes the frame's edge-triggered jump flag and time delta, mutates
//! the world in place, and returns the frame's side-effect signals for the
//! audio and animation collaborators.
use vstd::prelude::*;

use crate::background::{
    floor_step_x, floors_wf, spawn_background, update_background, FloorBundle,
    BACKGROUND_TILES_AMOUNT, TILE_WIDTH_LIMIT,
};
use crate::game::{check_inputs, inputs_step, restart_game, GameState, GameStates};
use crate::pipe::{
    move_pipe, pipe_stepped, pipes_wf, spawn_pipes, spawned_pipe_at, PipeBundle, OBSTACLE_AMOUNT,
};
use crate::player::{
    add_gravity, after_scoring, any_hit, collide_player, hit_count, move_player,
    player_after_gravity, player_after_move, player_wf, sat_add_u32, score_count, spawn_player,
    PlayerBundle, PLAYER_SPAWN_X, PLAYER_SPAWN_Y,
};
use crate::transform::{clamped_dt, Position, Velocity, COORD_LIMIT, MAX_DT_MS};
use crate::ui::{add_ui, ScoreUI};

verus! {

/// Side-effect signals of one tick, for the excluded collaborators: sounds to
/// request, animation frames to advance, and a freshly drawn animation variant
/// on a session reset.
#[derive(Clone, Copy, Debug, PartialEq, Eq, Structural)]
pub struct TickEvents {
    /// Request the flap sound once.
    pub flap_sound: bool,
    /// How many obstacles triggered the hit test: one hit-sound request and
    /// one diagnostic record each.
    pub hit_sounds: usize,
    /// How many obstacles scored: one score-sound request each.
    pub score_sounds: usize,
    /// Advance the player's active animation cycle by one frame.
    pub animation_advanced: bool,
    /// A new random player animation variant, drawn on a session reset.
    pub new_animation_variant: Option<usize>,
}

/// The whole simulation: the mode and score, the fixed entity pools, and the
/// floor tile width supplied by the sprite collaborator at startup.
pub struct GameWorld {
    pub state: GameState,
    pub player: PlayerBundle,
    pub pipes: Vec<PipeBundle>,
    pub floors: Vec<FloorBundle>,
    pub score_ui: ScoreUI,
    pub tile_width: i64,
}

/// Every floor tile advanced and wrapped by one scroll step; nothing else of
/// a tile changes.
pub open spec fn floors_scrolled(
    f0: Seq<FloorBundle>,
    f1: Seq<FloorBundle>,
    dt: int,
    tile_width: int,
) -> bool {
    &&& f1.len() == f0.len()
    &&& forall|i: int|
        0 <= i < f0.len() ==> (#[trigger] f1[i]) == (FloorBundle {
            position: Position {
                x: floor_step_x(
                    f0[i].position.x as int,
                    f0[i].velocity.x as int,
                    dt,
                    tile_width,
                ) as i64,
                y: f0[i].position.y,
            },
            velocity: f0[i].velocity,
            is_type: f0[i].is_type,
        })
}

/// The obstacle pool after the motion system: stepped while playing, frozen in
/// every other mode.
pub open spec fn pipes_moved(
    p0: Seq<PipeBundle>,
    p1: Seq<PipeBundle>,
    mode: GameStates,
    dt: int,
) -> bool {
    &&& p1.len() == p0.len()
    &&& if mode == GameStates::Play {
        forall|i: int| 0 <= i < p0.len() ==> pipe_stepped(p0[i], #[trigger] p1[i], dt)
    } else {
        p1 == p0
    }
}

/// The mode once the input system has run.
pub open spec fn mode_after_inputs(w: GameWorld, jump_pressed: bool) -> GameStates {
    inputs_step(w.state, jump_pressed).game_state
}

/// Whether this tick's collision pass detects a hit: only evaluated while
/// playing, against the player's tick-start position.
pub open spec fn collision_hit(w: GameWorld, jump_pressed: bool) -> bool {
    mode_after_inputs(w, jump_pressed) == GameStates::Play && any_hit(w.player.position, w.pipes@)
}

/// The mode once the collision pass has run.
pub open spec fn mode_after_collision(w: GameWorld, jump_pressed: bool) -> GameStates {
    if collision_hit(w, jump_pressed) {
        GameStates::GameOver
    } else {
        mode_after_inputs(w, jump_pressed)
    }
}

/// How one tick relates the world before (`w0`) to the world after (`w1`),
/// given the frame's jump flag and clamped time delta.  Composes the systems
/// in their fixed order; only the freshly drawn obstacle slots on a recycle or
/// session reset are left open, bounded to the random interval.
pub open spec fn tick_rel(w0: GameWorld, w1: GameWorld, jump_pressed: bool, dt: int) -> bool {
    let s1 = inputs_step(w0.state, jump_pressed);
    let pl1 = player_after_gravity(w0.player, s1.game_state, dt);
    let playing = s1.game_state == GameStates::Play;
    let hit = playing && any_hit(w0.player.position, w0.pipes@);
    let mode2 = if hit {
        GameStates::GameOver
    } else {
        s1.game_state
    };
    let score2 = if playing {
        sat_add_u32(s1.score as int, score_count(w0.player.position, w0.pipes@) as int)
    } else {
        s1.score as int
    };
    let pipes2 = if playing {
        after_scoring(w0.player.position, w0.pipes@)
    } else {
        w0.pipes@
    };
    &&& w1.tile_width == w0.tile_width
    &&& w1.score_ui == w0.score_ui
    &&& w1.state.score == score2
    &&& if mode2 == GameStates::Restart {
        // The session reset runs, advances the mode to `PressStart`, and the
        // later motion systems leave the player and obstacles still while the
        // floor keeps scrolling.
        &&& w1.state.game_state == GameStates::PressStart
        &&& w1.player.position == (Position { x: PLAYER_SPAWN_X, y: PLAYER_SPAWN_Y })
        &&& w1.player.velocity == (Velocity { x: 0, y: 0 })
        &&& w1.pipes@.len() == pipes2.len()
        &&& forall|i: int|
            0 <= i < w1.pipes@.len() ==> spawned_pipe_at(#[trigger] w1.pipes@[i], i)
        &&& forall|i: int|
            0 <= i < w1.pipes@.len() ==> (#[trigger] w1.pipes@[i]).velocity == pipes2[i].velocity
        &&& floors_scrolled(w0.floors@, w1.floors@, dt, w0.tile_width as int)
    } else {
        &&& w1.state.game_state == mode2
        &&& w1.player == player_after_move(pl1, mode2, jump_pressed, dt)
        &&& pipes_moved(pipes2, w1.pipes@, mode2, dt)
        &&& if mode2 == GameStates::GameOver {
            w1.floors@ == w0.floors@
        } else {
            floors_scrolled(w0.floors@, w1.floors@, dt, w0.tile_width as int)
        }
    }
}

impl GameWorld {
    /// Structural well-formedness: the fixed pool sizes, every coordinate in
    /// range, and a usable tile width.
    pub open spec fn wf(self) -> bool {
        &&& self.pipes@.len() == OBSTACLE_AMOUNT
        &&& pipes_wf(self.pipes@)
        &&& self.floors@.len() == BACKGROUND_TILES_AMOUNT
        &&& floors_wf(self.floors@)
        &&& player_wf(self.player)
        &&& 0 < self.tile_width <= TILE_WIDTH_LIMIT
    }

    /// Runtime check of `wf`, for callers outside the verified boundary.
    pub fn is_well_formed(&self) -> (b: bool)
        ensures
            b == self.wf(),
    {
        if self.pipes.len() != OBSTACLE_AMOUNT {
            return false;
        }
        if self.floors.len() != BACKGROUND_TILES_AMOUNT {
            return false;
        }
        if !(0 < self.tile_width && self.tile_width <= TILE_WIDTH_LIMIT) {
            return false;
        }
        let pp = &self.player;
        if !(-COORD_LIMIT <= pp.position.x && pp.position.x <= COORD_LIMIT && -COORD_LIMIT
            <= pp.position.y && pp.position.y <= COORD_LIMIT && -COORD_LIMIT <= pp.velocity.x
            && pp.velocity.x <= COORD_LIMIT && -COORD_LIMIT <= pp.velocity.y && pp.velocity.y
            <= COORD_LIMIT) {
            return false;
        }
        let n: usize = self.pipes.len();
        for i in 0..n
            invariant
                n == self.pipes@.len(),
                forall|j: int| 0 <= j < i ==> crate::pipe::pipe_wf(#[trigger] self.pipes@[j]),
        {
            let q = &self.pipes[i];
            if !(-COORD_LIMIT <= q.position.x && q.position.x <= COORD_LIMIT && -COORD_LIMIT
                <= q.position.y && q.position.y <= COORD_LIMIT && -COORD_LIMIT <= q.velocity.x
                && q.velocity.x <= COORD_LIMIT && -COORD_LIMIT <= q.velocity.y && q.velocity.y
                <= COORD_LIMIT) {
                return false;
            }
        }
        let m: usize = self.floors.len();
        for i in 0..m
            invariant
                m == self.floors@.len(),
                forall|j: int| 0 <= j < i ==> crate::background::floor_wf(#[trigger] self.floors@[j]),
        {
            let f = &self.floors[i];
            if !(-COORD_LIMIT <= f.position.x && f.position.x <= COORD_LIMIT && -COORD_LIMIT
                <= f.position.y && f.position.y <= COORD_LIMIT && -COORD_LIMIT <= f.velocity.x
                && f.velocity.x <= COORD_LIMIT && -COORD_LIMIT <= f.velocity.y && f.velocity.y
                <= COORD_LIMIT) {
                return false;
            }
        }
        true
    }

    /// The startup spawn phase: a fresh session awaiting start, the player at
    /// its spawn position, the obstacle pool pre-spaced with random slots, the
    /// floor row tiled by `tile_width`, and the score anchor placed.
    pub fn new(tile_width: i64, rng: &mut rand::rngs::StdRng) -> (w: GameWorld)
        requires
            0 < tile_width <= TILE_WIDTH_LIMIT,
        ensures
            w.wf(),
            w.state == (GameState { game_state: GameStates::PressStart, score: 0 }),
            w.player.position == (Position { x: PLAYER_SPAWN_X, y: PLAYER_SPAWN_Y }),
            w.player.velocity == (Velocity { x: 0, y: 0 }),
            forall|i: int| 0 <= i < w.pipes@.len() ==> spawned_pipe_at(#[trigger] w.pipes@[i], i),
            forall|i: int|
                0 <= i < w.floors@.len() ==> (#[trigger] w.floors@[i]).position == (Position {
                    x: (i * tile_width) as i64,
                    y: crate::background::FLOOR_Y,
                }),
            w.score_ui == (ScoreUI {
                position: Position {
                    x: crate::ui::SCORE_ANCHOR_X,
                    y: crate::ui::SCORE_ANCHOR_Y,
                },
                is_type: crate::ui::Score,
            }),
            w.tile_width == tile_width,
    {
        GameWorld {
            state: GameState { game_state: GameStates::PressStart, score: 0 },
            player: spawn_player(),
            pipes: spawn_pipes(rng),
            floors: spawn_background(tile_width),
            score_ui: add_ui(),
            tile_width,
        }
    }

    /// One simulated frame: runs every system in the fixed order on this
    /// world and returns the frame's side-effect signals.  The time delta is
    /// clamped to `[0, MAX_DT_MS]` milliseconds before any system runs.
    pub fn tick(&mut self, jump_pressed: bool, dt_ms: i64, rng: &mut rand::rngs::StdRng) -> (ev:
        TickEvents)
        requires
            old(self).wf(),
        ensures
            final(self).wf(),
            tick_rel(*old(self), *final(self), jump_pressed, clamped_dt(dt_ms as int)),
            ev.hit_sounds == (if mode_after_inputs(*old(self), jump_pressed) == GameStates::Play {
                hit_count(old(self).player.position, old(self).pipes@) as int
            } else {
                0int
            }),
            ev.score_sounds == (if mode_after_inputs(*old(self), jump_pressed)
                == GameStates::Play {
                score_count(old(self).player.position, old(self).pipes@) as int
            } else {
                0int
            }),
            ev.flap_sound == (mode_after_collision(*old(self), jump_pressed) == GameStates::Play
                && jump_pressed),
            ev.animation_advanced == (mode_after_collision(*old(self), jump_pressed)
                == GameStates::Play || mode_after_collision(*old(self), jump_pressed)
                == GameStates::Restart || mode_after_collision(*old(self), jump_pressed)
                == GameStates::PressStart),
            ev.new_animation_variant is Some <==> mode_after_collision(*old(self), jump_pressed)
                == GameStates::Restart,
            ev.new_animation_variant matches Some(v) ==> 0 <= v <= 2,
    {
        let dt: i64 = if dt_ms < 0 {
            0
        } else if dt_ms > MAX_DT_MS {
            MAX_DT_MS
        } else {
            dt_ms
        };
        check_inputs(&mut self.state, jump_pressed);
        add_gravity(&self.state, &mut self.player, dt);
        let cev = collide_player(&mut self.state, &self.player.position, &mut self.pipes);
        let variant = restart_game(&mut self.state, &mut self.player, &mut self.pipes, rng);
        let pev = move_player(&self.state, &mut self.player, jump_pressed, dt);
        move_pipe(&self.state, &mut self.pipes, dt, rng);
        update_background(&self.state, &mut self.floors, self.tile_width, dt);
        TickEvents {
            flap_sound: pev.flap_sound,
            hit_sounds: cev.hits,
            score_sounds: cev.scores,
            animation_advanced: pev.animation_advanced,
            new_animation_variant: variant,
        }
    }
}

/// Law: the score never goes negative, and it is frozen while the mode stays
/// `GameOver`: a tick that both starts and ends in `GameOver` leaves the score
/// exactly as it was.
pub proof fn lemma_score_frozen_in_game_over(w0: GameWorld, w1: GameWorld, jump: bool, dt: int)
    requires
        tick_rel(w0, w1, jump, dt),
        w0.state.game_state == GameStates::GameOver,
        w1.state.game_state == GameStates::GameOver,
    ensures
        w1.state.score == w0.state.score,
        w1.state.score >= 0,
{
}

/// Law: restart determinism of structure.  A tick that sees the jump input
/// while the mode is `GameOver` ends with the player exactly at its spawn
/// position with zero velocity, the score reset, every obstacle back on the
/// startup placement rule, and the mode awaiting start on the very next tick.
pub proof fn lemma_restart_determinism(w0: GameWorld, w1: GameWorld, dt: int)
    requires
        tick_rel(w0, w1, true, dt),
        w0.state.game_state == GameStates::GameOver,
    ensures
        w1.state.game_state == GameStates::PressStart,
        w1.state.score == 0,
        w1.player.position == (Position { x: PLAYER_SPAWN_X, y: PLAYER_SPAWN_Y }),
        w1.player.velocity == (Velocity { x: 0, y: 0 }),
        forall|i: int| 0 <= i < w1.pipes@.len() ==> spawned_pipe_at(#[trigger] w1.pipes@[i], i),
{
}

} // verus!
