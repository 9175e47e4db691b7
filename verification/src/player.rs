//! The player system and the collision & scoring system.
//!
//! While the mode is `Play`, gravity accelerates the player downward, an
//! edge-triggered jump replaces the vertical velocity with a fixed upward
//! impulse, and the vertical position integrates the velocity over the frame
//! delta.  Each frame the player's collision box is tested against every
//! obstacle's pipes and against the fixed boundary threshold; a hit freezes
//! the session in `GameOver`, and a clean pass past an obstacle's right edge
//! scores one point and disarms that obstacle until its next recycle.
use vstd::prelude::*;

use crate::game::{GameState, GameStates};
use crate::pipe::{pipes_wf, Pipe, PipeBundle, PIPES_V_SEPARATION, PIPE_WIDTH};
use crate::transform::{
    advance_coord, position_ok, step_coord, velocity_ok, Position, Velocity, MAX_DT_MS, SCALE,
};

verus! {

/// Magnitude of the upward jump impulse, in micro-pixels per millisecond.
pub const JUMP_SPEED: i64 = 7_600;

/// Downward acceleration, in micro-pixels per millisecond per millisecond.
pub const GRAVITY: i64 = 32;

/// Side length of the square player sprite.
pub const PLAYER_SPRITE_SIZE: i64 = 36 * SCALE;

/// Side length of the square collision box, centered on the sprite.
pub const PLAYER_COLLISION_SIZE: i64 = 20 * SCALE;

/// Half the sprite side: offset from the stored position to the sprite center.
pub const PLAYER_HALF_SPRITE: i64 = 18 * SCALE;

/// Half the collision box side.
pub const PLAYER_HALF_COLLISION: i64 = 10 * SCALE;

/// The fixed boundary the collision box must stay above; crossing it is a hit
/// whatever the obstacle positions are.
pub const CEILING_THRESHOLD: i64 = -36 * SCALE;

/// Tolerance subtracted from the gap's far edge in the safe-gap test.
pub const GAP_TOLERANCE: i64 = 10 * SCALE;

pub const PLAYER_SPAWN_X: i64 = 50 * SCALE;

pub const PLAYER_SPAWN_Y: i64 = -160 * SCALE;

/// Marks the player entity.
#[derive(Clone, Copy, Debug, PartialEq, Eq, Structural)]
pub struct Player;

#[derive(Clone, Copy, Debug, PartialEq, Eq, Structural)]
pub struct PlayerBundle {
    pub position: Position,
    pub velocity: Velocity,
    pub player: Player,
}

pub open spec fn player_wf(p: PlayerBundle) -> bool {
    position_ok(p.position) && velocity_ok(p.velocity)
}

pub open spec fn player_center_x(p: Position) -> int {
    p.x + PLAYER_HALF_SPRITE
}

pub open spec fn player_center_y(p: Position) -> int {
    p.y + PLAYER_HALF_SPRITE
}

/// The collision box overlaps the obstacle's horizontal extent.
pub open spec fn x_overlaps(p: Position, pipe_x: int) -> bool {
    &&& player_center_x(p) - PLAYER_HALF_COLLISION < pipe_x + PIPE_WIDTH
    &&& player_center_x(p) + PLAYER_HALF_COLLISION > pipe_x
}

/// The collision box sits strictly inside the obstacle's safe gap, within the
/// fixed tolerance at the gap's far edge.
pub open spec fn inside_gap(p: Position, pipe_y: int) -> bool {
    &&& player_center_y(p) - PLAYER_HALF_COLLISION > pipe_y
    &&& player_center_y(p) + PLAYER_HALF_COLLISION < pipe_y + PIPES_V_SEPARATION - GAP_TOLERANCE
}

/// The collision box crosses the fixed boundary threshold.
pub open spec fn over_boundary(p: Position) -> bool {
    player_center_y(p) + PLAYER_HALF_COLLISION > CEILING_THRESHOLD
}

/// The hit test run against one obstacle: horizontal overlap outside the safe
/// gap, or the boundary threshold crossed.  The boundary term applies whatever
/// the obstacle's position is, so any obstacle makes the frame a hit once the
/// threshold is crossed.
pub open spec fn hit_test(p: Position, pipe: PipeBundle) -> bool {
    ||| (x_overlaps(p, pipe.position.x as int) && !inside_gap(p, pipe.position.y as int))
    ||| over_boundary(p)
}

/// The collision box's right edge has passed the obstacle's right edge.
pub open spec fn passes_pipe(p: Position, pipe: PipeBundle) -> bool {
    player_center_x(p) + PLAYER_HALF_COLLISION > pipe.position.x + PIPE_WIDTH
}

/// The obstacle scores on this frame: just passed and still armed.
pub open spec fn scores_now(p: Position, pipe: PipeBundle) -> bool {
    passes_pipe(p, pipe) && pipe.is_type.can_score
}

/// Some obstacle makes this frame a hit.
pub open spec fn any_hit(p: Position, pipes: Seq<PipeBundle>) -> bool {
    exists|i: int| 0 <= i < pipes.len() && #[trigger] hit_test(p, pipes[i])
}

/// How many obstacles trigger the hit test this frame.
pub open spec fn hit_count(p: Position, pipes: Seq<PipeBundle>) -> nat
    decreases pipes.len(),
{
    if pipes.len() == 0 {
        0
    } else {
        hit_count(p, pipes.drop_last()) + (if hit_test(p, pipes.last()) {
            1nat
        } else {
            0nat
        })
    }
}

/// How many obstacles score this frame.
pub open spec fn score_count(p: Position, pipes: Seq<PipeBundle>) -> nat
    decreases pipes.len(),
{
    if pipes.len() == 0 {
        0
    } else {
        score_count(p, pipes.drop_last()) + (if scores_now(p, pipes.last()) {
            1nat
        } else {
            0nat
        })
    }
}

/// One obstacle after the scoring pass: its flag stays armed exactly while the
/// player has not passed it.
pub open spec fn pipe_after_scoring(p: Position, pipe: PipeBundle) -> PipeBundle {
    PipeBundle {
        position: pipe.position,
        velocity: pipe.velocity,
        is_type: Pipe { can_score: pipe.is_type.can_score && !passes_pipe(p, pipe) },
    }
}

/// The whole pool after the scoring pass.
pub open spec fn after_scoring(p: Position, pipes: Seq<PipeBundle>) -> Seq<PipeBundle> {
    pipes.map_values(|q: PipeBundle| pipe_after_scoring(p, q))
}

/// The score after `n` points land on `s`, saturating at the counter's top.
pub open spec fn sat_add_u32(a: int, b: int) -> int {
    if a + b > u32::MAX {
        u32::MAX as int
    } else {
        a + b
    }
}

/// The player after the gravity step: downward acceleration integrates into
/// the vertical velocity while the mode is `Play`; otherwise nothing moves.
pub open spec fn player_after_gravity(o: PlayerBundle, mode: GameStates, dt: int) -> PlayerBundle {
    if mode == GameStates::Play {
        PlayerBundle {
            position: o.position,
            velocity: Velocity {
                x: o.velocity.x,
                y: step_coord(o.velocity.y as int, GRAVITY as int, dt) as i64,
            },
            player: o.player,
        }
    } else {
        o
    }
}

/// The player after the motion step: while the mode is `Play` the vertical
/// position integrates the velocity, and a jump replaces the vertical velocity
/// with the upward impulse; in every other mode nothing moves.
pub open spec fn player_after_move(
    o: PlayerBundle,
    mode: GameStates,
    jump_pressed: bool,
    dt: int,
) -> PlayerBundle {
    if mode == GameStates::Play {
        PlayerBundle {
            position: Position {
                x: o.position.x,
                y: step_coord(o.position.y as int, o.velocity.y as int, dt) as i64,
            },
            velocity: Velocity {
                x: o.velocity.x,
                y: if jump_pressed {
                    (-JUMP_SPEED) as i64
                } else {
                    o.velocity.y
                },
            },
            player: o.player,
        }
    } else {
        o
    }
}

/// Side-effect signals of one player-motion step, consumed by the audio and
/// animation collaborators.
#[derive(Clone, Copy, Debug, PartialEq, Eq, Structural)]
pub struct PlayerEvents {
    /// Request the flap sound once.
    pub flap_sound: bool,
    /// Advance the active animation cycle by one frame.
    pub animation_advanced: bool,
}

/// Side-effect signals of one collision-and-scoring pass.
#[derive(Clone, Copy, Debug, PartialEq, Eq, Structural)]
pub struct CollisionEvents {
    /// How many obstacles triggered the hit test: one hit-sound request and
    /// one diagnostic record each.
    pub hits: usize,
    /// How many obstacles scored: one score-sound request each.
    pub scores: usize,
}

impl PlayerBundle {
    /// A fresh player at the spawn position, at rest.
    pub fn new() -> (p: PlayerBundle)
        ensures
            p.position == (Position { x: PLAYER_SPAWN_X, y: PLAYER_SPAWN_Y }),
            p.velocity == (Velocity { x: 0, y: 0 }),
            player_wf(p),
    {
        PlayerBundle {
            position: Position { x: PLAYER_SPAWN_X, y: PLAYER_SPAWN_Y },
            velocity: Velocity { x: 0, y: 0 },
            player: Player,
        }
    }
}

/// Creates the single player entity at its spawn position.
pub fn spawn_player() -> (p: PlayerBundle)
    ensures
        p.position == (Position { x: PLAYER_SPAWN_X, y: PLAYER_SPAWN_Y }),
        p.velocity == (Velocity { x: 0, y: 0 }),
        player_wf(p),
{
    PlayerBundle::new()
}

/// Integrates gravity into the player's vertical velocity while the mode is
/// `Play`; the player is untouched in every other mode.
pub fn add_gravity(game_state: &GameState, player: &mut PlayerBundle, dt: i64)
    requires
        player_wf(*old(player)),
        0 <= dt <= MAX_DT_MS,
    ensures
        *final(player) == player_after_gravity(*old(player), game_state.game_state, dt as int),
        player_wf(*final(player)),
{
    if game_state.game_state == GameStates::Play {
        player.velocity.y = advance_coord(player.velocity.y, GRAVITY, dt);
    }
}

/// Advances the player by one frame: idle animation while awaiting start;
/// motion, jump impulse and animation during play; stillness in every other
/// mode.
pub fn move_player(
    game_state: &GameState,
    player: &mut PlayerBundle,
    jump_pressed: bool,
    dt: i64,
) -> (ev: PlayerEvents)
    requires
        player_wf(*old(player)),
        0 <= dt <= MAX_DT_MS,
    ensures
        *final(player) == player_after_move(
            *old(player),
            game_state.game_state,
            jump_pressed,
            dt as int,
        ),
        player_wf(*final(player)),
        ev.flap_sound == (game_state.game_state == GameStates::Play && jump_pressed),
        ev.animation_advanced == (game_state.game_state == GameStates::Play
            || game_state.game_state == GameStates::PressStart),
{
    match game_state.game_state {
        GameStates::PressStart => PlayerEvents { flap_sound: false, animation_advanced: true },
        GameStates::Play => {
            player.position.y = advance_coord(player.position.y, player.velocity.y, dt);
            let mut flap: bool = false;
            if jump_pressed {
                player.velocity.y = -JUMP_SPEED;
                flap = true;
            }
            PlayerEvents { flap_sound: flap, animation_advanced: true }
        },
        _ => PlayerEvents { flap_sound: false, animation_advanced: false },
    }
}

/// Step lemma for the per-obstacle folds: extending a prefix by one obstacle
/// extends the hit and score counts by that obstacle's own contribution, and
/// the hit disjunction by its own hit test.
proof fn lemma_counts_take_step(p: Position, s: Seq<PipeBundle>, i: int)
    requires
        0 <= i < s.len(),
    ensures
        hit_count(p, s.take(i + 1)) == hit_count(p, s.take(i)) + (if hit_test(p, s[i]) {
            1int
        } else {
            0int
        }),
        score_count(p, s.take(i + 1)) == score_count(p, s.take(i)) + (if scores_now(p, s[i]) {
            1int
        } else {
            0int
        }),
        any_hit(p, s.take(i + 1)) == (any_hit(p, s.take(i)) || hit_test(p, s[i])),
{
    let t0 = s.take(i);
    let t1 = s.take(i + 1);
    assert(t1.drop_last() =~= t0);
    assert(t1.last() == s[i]);
    if any_hit(p, t1) {
        let j = choose|j: int| 0 <= j < t1.len() && #[trigger] hit_test(p, t1[j]);
        if j < i {
            assert(t0[j] == t1[j]);
            assert(any_hit(p, t0));
        } else {
            assert(t1[j] == s[i]);
        }
    }
    if any_hit(p, t0) {
        let j = choose|j: int| 0 <= j < t0.len() && #[trigger] hit_test(p, t0[j]);
        assert(hit_test(p, t1[j]));
        assert(any_hit(p, t1));
    }
    if hit_test(p, s[i]) {
        assert(hit_test(p, t1[i]));
        assert(any_hit(p, t1));
    }
}

/// Runs the hit test and the score test against every obstacle, only while the
/// mode is `Play`.  A hit moves the mode to `GameOver`; the score rises by one
/// per obstacle just passed while still armed, and each such obstacle is
/// disarmed in place.  Both tests run for every obstacle whatever the earlier
/// obstacles did this frame.
pub fn collide_player(
    game_state: &mut GameState,
    player_position: &Position,
    pipes: &mut Vec<PipeBundle>,
) -> (ev: CollisionEvents)
    requires
        position_ok(*player_position),
        pipes_wf(old(pipes)@),
    ensures
        final(pipes)@.len() == old(pipes)@.len(),
        pipes_wf(final(pipes)@),
        old(game_state).game_state != GameStates::Play ==> {
            &&& *final(game_state) == *old(game_state)
            &&& final(pipes)@ == old(pipes)@
            &&& ev == (CollisionEvents { hits: 0, scores: 0 })
        },
        old(game_state).game_state == GameStates::Play ==> {
            &&& final(pipes)@ == after_scoring(*player_position, old(pipes)@)
            &&& final(game_state).game_state == (if any_hit(*player_position, old(pipes)@) {
                GameStates::GameOver
            } else {
                GameStates::Play
            })
            &&& final(game_state).score == sat_add_u32(
                old(game_state).score as int,
                score_count(*player_position, old(pipes)@) as int,
            )
            &&& ev.hits == hit_count(*player_position, old(pipes)@)
            &&& ev.scores == score_count(*player_position, old(pipes)@)
        },
{
    let mut hits: usize = 0;
    let mut scores: usize = 0;
    if game_state.game_state == GameStates::Play {
        let p: Position = *player_position;
        let n: usize = pipes.len();
        for i in 0..n
            invariant
                pipes@.len() == n,
                n == old(pipes)@.len(),
                position_ok(p),
                p == *player_position,
                pipes_wf(pipes@),
                old(game_state).game_state == GameStates::Play,
                forall|j: int| i <= j < n ==> pipes@[j] == old(pipes)@[j],
                forall|j: int|
                    0 <= j < i ==> pipes@[j] == pipe_after_scoring(p, #[trigger] old(pipes)@[j]),
                game_state.game_state == (if any_hit(p, old(pipes)@.take(i as int)) {
                    GameStates::GameOver
                } else {
                    GameStates::Play
                }),
                game_state.score == sat_add_u32(
                    old(game_state).score as int,
                    score_count(p, old(pipes)@.take(i as int)) as int,
                ),
                hits == hit_count(p, old(pipes)@.take(i as int)),
                hits <= i,
                scores == score_count(p, old(pipes)@.take(i as int)),
                scores <= i,
        {
            let q: PipeBundle = pipes[i];
            proof {
                lemma_counts_take_step(p, old(pipes)@, i as int);
            }
            // Hit test: horizontal overlap outside the safe gap, or the
            // boundary threshold crossed.
            let cx: i64 = p.x + PLAYER_HALF_SPRITE;
            let cy: i64 = p.y + PLAYER_HALF_SPRITE;
            if (cx - PLAYER_HALF_COLLISION < q.position.x + PIPE_WIDTH && cx
                + PLAYER_HALF_COLLISION > q.position.x && !(cy - PLAYER_HALF_COLLISION
                > q.position.y && cy + PLAYER_HALF_COLLISION < q.position.y + PIPES_V_SEPARATION
                - GAP_TOLERANCE)) || cy + PLAYER_HALF_COLLISION > CEILING_THRESHOLD {
                game_state.game_state = GameStates::GameOver;
                hits = hits + 1;
            }
            // Score test, independent of the hit test.
            if cx + PLAYER_HALF_COLLISION > q.position.x + PIPE_WIDTH && q.is_type.can_score {
                let mut r: PipeBundle = q;
                r.is_type.can_score = false;
                pipes[i] = r;
                if game_state.score < u32::MAX {
                    game_state.score = game_state.score + 1;
                }
                scores = scores + 1;
            } else {
                let mut r: PipeBundle = q;
                r.is_type.can_score = q.is_type.can_score && !(cx + PLAYER_HALF_COLLISION
                    > q.position.x + PIPE_WIDTH);
                pipes[i] = r;
            }
        }
        proof {
            assert(old(pipes)@.take(n as int) =~= old(pipes)@);
            assert(pipes@ =~= after_scoring(p, old(pipes)@));
        }
    }
    CollisionEvents { hits, scores }
}

/// Law: a collision pass disarms exactly the obstacles the player has passed.
/// An obstacle's flag flips to false on this pass precisely when it was armed
/// and the player's box has passed its right edge, and an obstacle the player
/// has not passed keeps its state untouched.
pub proof fn lemma_scoring_flips_exactly_passed(p: Position, pipes: Seq<PipeBundle>, i: int)
    requires
        0 <= i < pipes.len(),
    ensures
        after_scoring(p, pipes).len() == pipes.len(),
        after_scoring(p, pipes)[i].is_type.can_score == (pipes[i].is_type.can_score
            && !passes_pipe(p, pipes[i])),
        (pipes[i].is_type.can_score && !after_scoring(p, pipes)[i].is_type.can_score)
            == scores_now(p, pipes[i]),
        !passes_pipe(p, pipes[i]) ==> after_scoring(p, pipes)[i] == pipes[i],
{
}

/// How many obstacles were disarmed between two equal-length snapshots of the
/// pool.
pub open spec fn flipped_count(before: Seq<PipeBundle>, after: Seq<PipeBundle>) -> nat
    decreases before.len(),
{
    if before.len() == 0 || after.len() != before.len() {
        0
    } else {
        flipped_count(before.drop_last(), after.drop_last()) + (if before.last().is_type.can_score
            && !after.last().is_type.can_score {
            1nat
        } else {
            0nat
        })
    }
}

/// Law: one point per flip, no more and no fewer.  The points a collision
/// pass awards equal the number of obstacles whose scoring flag it disarms.
pub proof fn lemma_one_point_per_pass(p: Position, pipes: Seq<PipeBundle>)
    ensures
        score_count(p, pipes) == flipped_count(pipes, after_scoring(p, pipes)),
    decreases pipes.len(),
{
    if pipes.len() > 0 {
        lemma_one_point_per_pass(p, pipes.drop_last());
        assert(after_scoring(p, pipes).drop_last() =~= after_scoring(p, pipes.drop_last()));
        assert(after_scoring(p, pipes).last() == pipe_after_scoring(p, pipes.last()));
    }
}

/// Law: re-passing the same unrecycled obstacle never re-scores.  Once a
/// collision pass has seen the player past an obstacle, that obstacle cannot
/// score on any later pass, wherever the player then stands.
pub proof fn lemma_no_rescore(p1: Position, p2: Position, pipes: Seq<PipeBundle>, i: int)
    requires
        0 <= i < pipes.len(),
        passes_pipe(p1, pipes[i]),
    ensures
        !scores_now(p2, after_scoring(p1, pipes)[i]),
{
}

} // verus!
