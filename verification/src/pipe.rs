//! The obstacle system: a fixed pool of scrolling pipes with a vertical gap.
//!
//! Obstacles move leftward while the mode is `Play` and are frozen otherwise.
//! One that scrolls fully off the left edge is recycled in place: shifted
//! right by the length of the whole procession and given a fresh random
//! vertical slot, with its scoring flag re-armed.  Obstacles are never created
//! or destroyed after startup.
use vstd::prelude::*;

use crate::game::{GameState, GameStates, SCREEN_SIZE};
use crate::rng::rand_in_range;
use crate::transform::{
    advance_coord, coord_ok, position_ok, step_coord, velocity_ok, Position, Velocity, COORD_LIMIT,
    MAX_DT_MS, SCALE,
};

verus! {

/// Number of obstacles kept alive in the recycling pool.
pub const OBSTACLE_AMOUNT: usize = 5;

/// Height of the safe gap between the lower and the upper pipe.
pub const PIPES_V_SEPARATION: i64 = 110 * SCALE;

/// Horizontal distance between two neighbouring obstacles.
pub const PIPES_H_SEPARATION: i64 = 150 * SCALE;

pub const PIPE_WIDTH: i64 = 52 * SCALE;

/// The gap's top edge keeps at least this distance from the lower screen bound.
pub const PIPE_FLOOR_PADDING: i64 = 65 * SCALE;

/// The gap's top edge keeps at least this distance from the upper screen bound.
pub const PIPE_CEILING_PADDING: i64 = 20 * SCALE;

/// Leftward scroll velocity of every obstacle, in micro-pixels per millisecond.
pub const PIPE_SPEED_X: i64 = -120_000;

/// Lowest vertical slot an obstacle's gap may be placed at.
pub const PIPE_MIN_Y: i64 = -SCREEN_SIZE + PIPE_CEILING_PADDING;

/// Highest vertical slot an obstacle's gap may be placed at.
pub const PIPE_MAX_Y: i64 = -PIPES_V_SEPARATION - PIPE_FLOOR_PADDING;

/// How far a recycled obstacle is shifted right: the procession's full length.
pub const OBSTACLE_SHIFT: i64 = 5 * PIPES_H_SEPARATION;

/// Per-obstacle scoring flag: true while the player has not yet passed this
/// obstacle since its last recycle or session reset.
#[derive(Clone, Copy, Debug, PartialEq, Eq, Structural)]
pub struct Pipe {
    pub can_score: bool,
}

#[derive(Clone, Copy, Debug, PartialEq, Eq, Structural)]
pub struct PipeBundle {
    pub position: Position,
    pub velocity: Velocity,
    pub is_type: Pipe,
}

pub open spec fn pipe_wf(p: PipeBundle) -> bool {
    position_ok(p.position) && velocity_ok(p.velocity)
}

pub open spec fn pipes_wf(s: Seq<PipeBundle>) -> bool {
    forall|i: int| 0 <= i < s.len() ==> pipe_wf(#[trigger] s[i])
}

/// An obstacle as the spawn phase and the session reset place it at slot `i`:
/// pre-spaced from the right screen edge, gap slot inside the random interval,
/// scoring re-armed.
pub open spec fn spawned_pipe_at(p: PipeBundle, i: int) -> bool {
    &&& p.position.x == SCREEN_SIZE + i * PIPES_H_SEPARATION
    &&& PIPE_MIN_Y <= p.position.y <= PIPE_MAX_Y
    &&& p.is_type.can_score == true
}

/// What recycling does, whatever the random vertical draw: the horizontal
/// position advances by exactly `OBSTACLE_SHIFT`, the vertical slot lands
/// inside the random interval, the scoring flag is re-armed, and the velocity
/// is kept.
pub open spec fn recycled_from(o: PipeBundle, n: PipeBundle) -> bool {
    &&& n.position.x == o.position.x + OBSTACLE_SHIFT
    &&& PIPE_MIN_Y <= n.position.y <= PIPE_MAX_Y
    &&& n.is_type.can_score == true
    &&& n.velocity == o.velocity
}

/// One motion step of a single obstacle while the mode is `Play`: advance by
/// velocity times delta; if the right edge has left the screen, recycle.
pub open spec fn pipe_stepped(o: PipeBundle, n: PipeBundle, dt: int) -> bool {
    let mx = step_coord(o.position.x as int, o.velocity.x as int, dt);
    let my = step_coord(o.position.y as int, o.velocity.y as int, dt);
    if mx < -PIPE_WIDTH {
        &&& n.position.x == mx + OBSTACLE_SHIFT
        &&& PIPE_MIN_Y <= n.position.y <= PIPE_MAX_Y
        &&& n.is_type.can_score == true
        &&& n.velocity == o.velocity
    } else {
        &&& n.position.x == mx
        &&& n.position.y == my
        &&& n.is_type.can_score == o.is_type.can_score
        &&& n.velocity == o.velocity
    }
}

impl PipeBundle {
    /// A fresh obstacle at the given position, scrolling left, scoring armed.
    pub fn new(x: i64, y: i64) -> (p: PipeBundle)
        requires
            coord_ok(x as int),
            coord_ok(y as int),
        ensures
            p.position == (Position { x, y }),
            p.velocity == (Velocity { x: PIPE_SPEED_X, y: 0 }),
            p.is_type.can_score == true,
            pipe_wf(p),
    {
        PipeBundle {
            position: Position { x, y },
            velocity: Velocity { x: PIPE_SPEED_X, y: 0 },
            is_type: Pipe { can_score: true },
        }
    }
}

/// Creates the fixed obstacle pool: `OBSTACLE_AMOUNT` obstacles pre-spaced by
/// `PIPES_H_SEPARATION` from the right screen edge, each with a random
/// vertical slot.
pub fn spawn_pipes(rng: &mut rand::rngs::StdRng) -> (pipes: Vec<PipeBundle>)
    ensures
        pipes@.len() == OBSTACLE_AMOUNT,
        forall|i: int| 0 <= i < pipes@.len() ==> spawned_pipe_at(#[trigger] pipes@[i], i),
        forall|i: int|
            0 <= i < pipes@.len() ==> (#[trigger] pipes@[i]).velocity == (Velocity {
                x: PIPE_SPEED_X,
                y: 0,
            }),
        pipes_wf(pipes@),
{
    let mut pipes: Vec<PipeBundle> = Vec::new();
    for i in 0..OBSTACLE_AMOUNT
        invariant
            pipes@.len() == i,
            forall|j: int| 0 <= j < i ==> spawned_pipe_at(#[trigger] pipes@[j], j),
            forall|j: int|
                0 <= j < i ==> (#[trigger] pipes@[j]).velocity == (Velocity {
                    x: PIPE_SPEED_X,
                    y: 0,
                }),
            pipes_wf(pipes@),
    {
        let x: i64 = SCREEN_SIZE + (i as i64) * PIPES_H_SEPARATION;
        let y: i64 = rand_in_range(rng, PIPE_MIN_Y, PIPE_MAX_Y);
        pipes.push(PipeBundle::new(x, y));
    }
    pipes
}

/// Relocates one obstacle to the back of the procession with a fresh random
/// vertical slot and re-arms its scoring flag, in place.
pub fn recycle_pipe(pipe: &mut PipeBundle, rng: &mut rand::rngs::StdRng)
    requires
        pipe_wf(*old(pipe)),
        old(pipe).position.x + OBSTACLE_SHIFT <= COORD_LIMIT,
    ensures
        recycled_from(*old(pipe), *final(pipe)),
        pipe_wf(*final(pipe)),
{
    pipe.position.x = pipe.position.x + OBSTACLE_SHIFT;
    pipe.position.y = rand_in_range(rng, PIPE_MIN_Y, PIPE_MAX_Y);
    pipe.is_type.can_score = true;
}

/// Law: recycle idempotence of structure.  An obstacle recycled twice in
/// succession always lands with its scoring flag armed, and each recycle
/// advances the horizontal position by exactly `OBSTACLE_SHIFT`, whatever the
/// random vertical draws were.
pub proof fn lemma_recycle_twice(p0: PipeBundle, p1: PipeBundle, p2: PipeBundle)
    requires
        recycled_from(p0, p1),
        recycled_from(p1, p2),
    ensures
        p1.is_type.can_score,
        p2.is_type.can_score,
        p1.position.x == p0.position.x + OBSTACLE_SHIFT,
        p2.position.x == p0.position.x + 2 * OBSTACLE_SHIFT,
        p2.velocity == p0.velocity,
{
}

/// Advances every obstacle by its velocity while the mode is `Play`, recycling
/// each one whose right edge has scrolled off the left side of the screen.
/// Obstacles are frozen in every other mode.
pub fn move_pipe(
    game_state: &GameState,
    pipes: &mut Vec<PipeBundle>,
    dt: i64,
    rng: &mut rand::rngs::StdRng,
)
    requires
        pipes_wf(old(pipes)@),
        0 <= dt <= MAX_DT_MS,
    ensures
        final(pipes)@.len() == old(pipes)@.len(),
        pipes_wf(final(pipes)@),
        game_state.game_state != GameStates::Play ==> final(pipes)@ == old(pipes)@,
        game_state.game_state == GameStates::Play ==> forall|i: int|
            0 <= i < old(pipes)@.len() ==> pipe_stepped(
                old(pipes)@[i],
                #[trigger] final(pipes)@[i],
                dt as int,
            ),
{
    if game_state.game_state == GameStates::Play {
        let n: usize = pipes.len();
        for i in 0..n
            invariant
                pipes@.len() == n,
                n == old(pipes)@.len(),
                0 <= dt <= MAX_DT_MS,
                pipes_wf(pipes@),
                forall|j: int| i <= j < n ==> pipes@[j] == old(pipes)@[j],
                forall|j: int|
                    0 <= j < i ==> pipe_stepped(old(pipes)@[j], #[trigger] pipes@[j], dt as int),
        {
            let p: PipeBundle = pipes[i];
            let mx: i64 = advance_coord(p.position.x, p.velocity.x, dt);
            let my: i64 = advance_coord(p.position.y, p.velocity.y, dt);
            let mut q: PipeBundle = p;
            if mx < -PIPE_WIDTH {
                q.position.x = mx;
                q.position.y = my;
                recycle_pipe(&mut q, rng);
            } else {
                q.position.x = mx;
                q.position.y = my;
            }
            pipes[i] = q;
        }
    }
}

} // verus!
