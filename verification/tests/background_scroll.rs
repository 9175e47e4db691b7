//! Floor tile scrolling and wraparound.
use flappy::background::{
    spawn_background, update_background, Floor, FloorBundle, BACKGROUND_SPEED_X, FLOOR_Y,
};
use flappy::game::{GameState, GameStates};
use flappy::transform::{Position, Velocity};

const SCALE: i64 = 1_000_000;
const TILE_WIDTH: i64 = 336 * SCALE;

fn tile_at(x: i64) -> FloorBundle {
    FloorBundle {
        position: Position { x, y: FLOOR_Y },
        velocity: Velocity { x: BACKGROUND_SPEED_X, y: 0 },
        is_type: Floor,
    }
}

fn state(mode: GameStates) -> GameState {
    GameState { game_state: mode, score: 0 }
}

#[test]
fn wraparound_repositions_by_whole_row_width() {
    // A tile at x = -tileWidth - 0.01 px after its motion step is shifted
    // right by TileCount * tileWidth.
    let mut floors = vec![tile_at(-TILE_WIDTH - 10_000)];
    update_background(&state(GameStates::Play), &mut floors, TILE_WIDTH, 0);
    assert_eq!(floors[0].position.x, -TILE_WIDTH - 10_000 + 5 * TILE_WIDTH);
    assert_eq!(floors[0].position.y, FLOOR_Y);
}

#[test]
fn tile_exactly_at_width_does_not_wrap() {
    // The wrap test is strict: exactly -tileWidth stays put.
    let mut floors = vec![tile_at(-TILE_WIDTH)];
    update_background(&state(GameStates::Play), &mut floors, TILE_WIDTH, 0);
    assert_eq!(floors[0].position.x, -TILE_WIDTH);
}

#[test]
fn floor_scrolls_while_awaiting_start() {
    // Unlike obstacles, the floor scrolls during PressStart.
    let mut floors = vec![tile_at(100 * SCALE)];
    update_background(&state(GameStates::PressStart), &mut floors, TILE_WIDTH, 1000);
    assert_eq!(floors[0].position.x, 100 * SCALE - 120 * SCALE);
}

#[test]
fn floor_frozen_in_game_over() {
    let mut floors = vec![tile_at(100 * SCALE)];
    update_background(&state(GameStates::GameOver), &mut floors, TILE_WIDTH, 1000);
    assert_eq!(floors[0].position.x, 100 * SCALE);
}

#[test]
fn spacing_is_preserved_over_many_ticks() {
    // Five tiles tiling the row stay exactly one width apart modulo the row.
    let mut floors = spawn_background(TILE_WIDTH);
    let gs = state(GameStates::Play);
    for _ in 0..500 {
        update_background(&gs, &mut floors, TILE_WIDTH, 16);
    }
    let row = 5 * TILE_WIDTH;
    for i in 0..5usize {
        for j in 0..5usize {
            if i != j {
                let d = (floors[i].position.x - floors[j].position.x).rem_euclid(row);
                let expect = ((i as i64 - j as i64) * TILE_WIDTH).rem_euclid(row);
                assert_eq!(d, expect);
            }
        }
    }
}

#[test]
fn spawn_background_tiles_the_row() {
    let floors = spawn_background(TILE_WIDTH);
    assert_eq!(floors.len(), 5);
    for (i, f) in floors.iter().enumerate() {
        assert_eq!(f.position, Position { x: (i as i64) * TILE_WIDTH, y: FLOOR_Y });
        assert_eq!(f.velocity, Velocity { x: BACKGROUND_SPEED_X, y: 0 });
    }
}
