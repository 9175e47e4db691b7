//! The floor scroll system: a fixed row of ground tiles that slides left and
//! wraps around for an illusion of infinite scroll.
//!
//! The floor keeps scrolling while the session is not in `GameOver` (unlike
//! obstacles, it also moves while awaiting the start input).  A tile that has
//! passed fully off the left edge is shifted right by the whole row's width,
//! so the row re-tiles seamlessly.
use vstd::prelude::*;

use crate::game::{GameState, GameStates, SCREEN_SIZE};
use crate::transform::{
    advance_coord, position_ok, step_coord, velocity_ok, Position, Velocity, COORD_LIMIT,
    MAX_DT_MS, SCALE,
};
use vstd::arithmetic::div_mod::lemma_mod_multiples_vanish;

verus! {

/// Number of floor tiles in the wrapping row.
pub const BACKGROUND_TILES_AMOUNT: usize = 5;

/// Leftward scroll velocity of every tile, in micro-pixels per millisecond.
pub const BACKGROUND_SPEED_X: i64 = -120_000;

/// Vertical position shared by all floor tiles.
pub const FLOOR_Y: i64 = -30 * SCALE;

/// Upper bound accepted for a tile's width: keeps the wraparound shift of
/// `BACKGROUND_TILES_AMOUNT` widths inside the coordinate range.
pub const TILE_WIDTH_LIMIT: i64 = 4 * SCREEN_SIZE;

/// Marks a floor tile.
#[derive(Clone, Copy, Debug, PartialEq, Eq, Structural)]
pub struct Floor;

#[derive(Clone, Copy, Debug, PartialEq, Eq, Structural)]
pub struct FloorBundle {
    pub position: Position,
    pub velocity: Velocity,
    pub is_type: Floor,
}

pub open spec fn floor_wf(f: FloorBundle) -> bool {
    position_ok(f.position) && velocity_ok(f.velocity)
}

pub open spec fn floors_wf(s: Seq<FloorBundle>) -> bool {
    forall|i: int| 0 <= i < s.len() ==> floor_wf(#[trigger] s[i])
}

/// One motion step of a tile's horizontal position: advance by velocity times
/// delta, then wrap a tile that has passed fully off-screen left by the whole
/// row's width.
pub open spec fn floor_step_x(x: int, vx: int, dt: int, tile_width: int) -> int {
    let m = step_coord(x, vx, dt);
    if m < -tile_width {
        m + BACKGROUND_TILES_AMOUNT * tile_width
    } else {
        m
    }
}

impl FloorBundle {
    /// A fresh tile at horizontal offset `x`, on the floor line, scrolling left.
    pub fn new(x: i64) -> (f: FloorBundle)
        requires
            crate::transform::coord_ok(x as int),
        ensures
            f.position == (Position { x, y: FLOOR_Y }),
            f.velocity == (Velocity { x: BACKGROUND_SPEED_X, y: 0 }),
            floor_wf(f),
    {
        FloorBundle {
            position: Position { x, y: FLOOR_Y },
            velocity: Velocity { x: BACKGROUND_SPEED_X, y: 0 },
            is_type: Floor,
        }
    }
}

/// Creates the fixed row of floor tiles, one tile width apart.
pub fn spawn_background(tile_width: i64) -> (floors: Vec<FloorBundle>)
    requires
        0 < tile_width <= TILE_WIDTH_LIMIT,
    ensures
        floors@.len() == BACKGROUND_TILES_AMOUNT,
        forall|i: int|
            0 <= i < floors@.len() ==> (#[trigger] floors@[i]).position == (Position {
                x: (i * tile_width) as i64,
                y: FLOOR_Y,
            }),
        forall|i: int|
            0 <= i < floors@.len() ==> (#[trigger] floors@[i]).velocity == (Velocity {
                x: BACKGROUND_SPEED_X,
                y: 0,
            }),
        floors_wf(floors@),
{
    let mut floors: Vec<FloorBundle> = Vec::new();
    for i in 0..BACKGROUND_TILES_AMOUNT
        invariant
            0 < tile_width <= TILE_WIDTH_LIMIT,
            floors@.len() == i,
            forall|j: int|
                0 <= j < i ==> (#[trigger] floors@[j]).position == (Position {
                    x: (j * tile_width) as i64,
                    y: FLOOR_Y,
                }),
            forall|j: int|
                0 <= j < i ==> (#[trigger] floors@[j]).velocity == (Velocity {
                    x: BACKGROUND_SPEED_X,
                    y: 0,
                }),
            floors_wf(floors@),
    {
        proof {
            assert(0 <= (i as int) * (tile_width as int) <= 4 * TILE_WIDTH_LIMIT)
                by (nonlinear_arith)
                requires
                    0 <= i as int <= 4,
                    0 < tile_width as int <= TILE_WIDTH_LIMIT,
            ;
        }
        let x: i64 = (i as i64) * tile_width;
        floors.push(FloorBundle::new(x));
    }
    floors
}

/// Advances every floor tile while the mode is not `GameOver`, wrapping each
/// tile that has passed fully off-screen left back to the row's right end.
pub fn update_background(
    game_state: &GameState,
    floors: &mut Vec<FloorBundle>,
    tile_width: i64,
    dt: i64,
)
    requires
        floors_wf(old(floors)@),
        0 < tile_width <= TILE_WIDTH_LIMIT,
        0 <= dt <= MAX_DT_MS,
    ensures
        final(floors)@.len() == old(floors)@.len(),
        floors_wf(final(floors)@),
        game_state.game_state == GameStates::GameOver ==> final(floors)@ == old(floors)@,
        game_state.game_state != GameStates::GameOver ==> forall|i: int|
            0 <= i < old(floors)@.len() ==> (#[trigger] final(floors)@[i]) == (FloorBundle {
                position: Position {
                    x: floor_step_x(
                        old(floors)@[i].position.x as int,
                        old(floors)@[i].velocity.x as int,
                        dt as int,
                        tile_width as int,
                    ) as i64,
                    y: old(floors)@[i].position.y,
                },
                velocity: old(floors)@[i].velocity,
                is_type: old(floors)@[i].is_type,
            }),
{
    if game_state.game_state != GameStates::GameOver {
        let n: usize = floors.len();
        for i in 0..n
            invariant
                floors@.len() == n,
                n == old(floors)@.len(),
                0 < tile_width <= TILE_WIDTH_LIMIT,
                0 <= dt <= MAX_DT_MS,
                floors_wf(floors@),
                forall|j: int| i <= j < n ==> floors@[j] == old(floors)@[j],
                forall|j: int|
                    0 <= j < i ==> (#[trigger] floors@[j]) == (FloorBundle {
                        position: Position {
                            x: floor_step_x(
                                old(floors)@[j].position.x as int,
                                old(floors)@[j].velocity.x as int,
                                dt as int,
                                tile_width as int,
                            ) as i64,
                            y: old(floors)@[j].position.y,
                        },
                        velocity: old(floors)@[j].velocity,
                        is_type: old(floors)@[j].is_type,
                    }),
        {
            let f: FloorBundle = floors[i];
            let mx: i64 = advance_coord(f.position.x, f.velocity.x, dt);
            let mut g: FloorBundle = f;
            if mx < -tile_width {
                g.position.x = mx + 5 * tile_width;
            } else {
                g.position.x = mx;
            }
            floors[i] = g;
        }
    }
}

/// Placeholder kept in the scheduler's declared pipeline; the floor's motion
/// is done by `update_background`.
pub fn move_background() {
}

/// Law: the wrap step changes a tile's position only by a multiple of the
/// whole row's width.  As long as the motion step does not saturate, the new
/// position is congruent to the plainly advanced one modulo the row width, so
/// one step shifts every tile by the same amount modulo the row and the tiles'
/// relative layout is preserved.
pub proof fn lemma_wraparound_congruent(x: int, vx: int, dt: int, tile_width: int)
    requires
        0 < tile_width,
        -COORD_LIMIT <= x + vx * dt <= COORD_LIMIT,
    ensures
        floor_step_x(x, vx, dt, tile_width) % (BACKGROUND_TILES_AMOUNT * tile_width) == (x + vx
            * dt) % (BACKGROUND_TILES_AMOUNT * tile_width),
{
    let row = BACKGROUND_TILES_AMOUNT * tile_width;
    let m = step_coord(x, vx, dt);
    assert(m == x + vx * dt);
    if m < -tile_width {
        lemma_mod_multiples_vanish(1, m, row);
        assert(row * 1 + m == m + row);
    }
}

/// Law: one scroll step preserves the spacing of any two tiles modulo the
/// row's width, so tiles that tile the row without overlap keep doing so after
/// any number of steps.
pub proof fn lemma_wraparound_preserves_spacing(
    x1: int,
    x2: int,
    vx: int,
    dt: int,
    tile_width: int,
)
    requires
        0 < tile_width,
        -COORD_LIMIT <= x1 + vx * dt <= COORD_LIMIT,
        -COORD_LIMIT <= x2 + vx * dt <= COORD_LIMIT,
    ensures
        (floor_step_x(x1, vx, dt, tile_width) - floor_step_x(x2, vx, dt, tile_width)) % (
        BACKGROUND_TILES_AMOUNT * tile_width) == (x1 - x2) % (BACKGROUND_TILES_AMOUNT * tile_width),
{
    let row = BACKGROUND_TILES_AMOUNT * tile_width;
    let f1 = floor_step_x(x1, vx, dt, tile_width);
    let f2 = floor_step_x(x2, vx, dt, tile_width);
    let m1 = step_coord(x1, vx, dt);
    let m2 = step_coord(x2, vx, dt);
    assert(m1 == x1 + vx * dt);
    assert(m2 == x2 + vx * dt);
    if m1 < -tile_width && m2 < -tile_width {
        assert(f1 - f2 == row * 0 + (x1 - x2));
        lemma_mod_multiples_vanish(0, x1 - x2, row);
    } else if m1 < -tile_width {
        assert(f1 - f2 == row * 1 + (x1 - x2));
        lemma_mod_multiples_vanish(1, x1 - x2, row);
    } else if m2 < -tile_width {
        assert(f1 - f2 == row * (-1) + (x1 - x2));
        lemma_mod_multiples_vanish(-1, x1 - x2, row);
    } else {
        assert(f1 - f2 == row * 0 + (x1 - x2));
        lemma_mod_multiples_vanish(0, x1 - x2, row);
    }
}

} // verus!
