//! Whole-tick behaviour of the scheduler.
use flappy::game::{GameState, GameStates};
use flappy::pipe::{PIPES_H_SEPARATION, PIPE_MAX_Y, PIPE_MIN_Y};
use flappy::player::{GRAVITY, JUMP_SPEED, PLAYER_SPAWN_X, PLAYER_SPAWN_Y};
use flappy::sim::GameWorld;
use flappy::transform::{Position, Velocity};
use rand::SeedableRng;

const SCALE: i64 = 1_000_000;
const TILE_WIDTH: i64 = 336 * SCALE;

fn demo_rng() -> rand::rngs::StdRng {
    rand::rngs::StdRng::seed_from_u64(42)
}

fn fresh_world(rng: &mut rand::rngs::StdRng) -> GameWorld {
    let w = GameWorld::new(TILE_WIDTH, rng);
    assert!(w.is_well_formed());
    w
}

#[test]
fn jump_starts_a_run_and_flaps() {
    let mut rng = demo_rng();
    let mut w = fresh_world(&mut rng);
    let ev = w.tick(true, 16, &mut rng);
    assert_eq!(w.state.game_state, GameStates::Play);
    assert_eq!(w.state.score, 0);
    assert!(ev.flap_sound);
    assert!(ev.animation_advanced);
    assert!(ev.new_animation_variant.is_none());
    assert!(w.is_well_formed());
}

#[test]
fn awaiting_start_without_input_stays_put() {
    let mut rng = demo_rng();
    let mut w = fresh_world(&mut rng);
    let player_before = w.player;
    let pipes_before = w.pipes.clone();
    let floor_before = w.floors[0].position.x;
    let ev = w.tick(false, 1000, &mut rng);
    assert_eq!(w.state.game_state, GameStates::PressStart);
    assert_eq!(w.player, player_before);
    for (p, q) in w.pipes.iter().zip(pipes_before.iter()) {
        assert_eq!(p, q);
    }
    // The floor still scrolls while awaiting the start input.
    assert_eq!(w.floors[0].position.x, floor_before - 120 * SCALE);
    assert!(!ev.flap_sound);
    assert!(ev.animation_advanced);
}

#[test]
fn gravity_and_motion_integrate_exactly() {
    let mut rng = demo_rng();
    let mut w = fresh_world(&mut rng);
    w.state = GameState { game_state: GameStates::Play, score: 0 };
    let y0 = w.player.position.y;
    let ev = w.tick(false, 100, &mut rng);
    // Gravity first: vy = 0 + 32 * 100; then y += vy * 100.
    assert_eq!(w.player.velocity.y, GRAVITY * 100);
    assert_eq!(w.player.position.y, y0 + GRAVITY * 100 * 100);
    assert!(!ev.flap_sound);
}

#[test]
fn jump_replaces_vertical_velocity() {
    let mut rng = demo_rng();
    let mut w = fresh_world(&mut rng);
    w.state = GameState { game_state: GameStates::Play, score: 0 };
    w.player.velocity.y = 9_999;
    let ev = w.tick(true, 16, &mut rng);
    assert_eq!(w.player.velocity.y, -JUMP_SPEED);
    assert!(ev.flap_sound);
}

#[test]
fn negative_delta_is_clamped_to_zero() {
    let mut rng = demo_rng();
    let mut w = fresh_world(&mut rng);
    w.state = GameState { game_state: GameStates::Play, score: 0 };
    let y0 = w.player.position.y;
    let x0 = w.pipes[0].position.x;
    w.tick(false, -50, &mut rng);
    assert_eq!(w.player.position.y, y0);
    assert_eq!(w.pipes[0].position.x, x0);
}

#[test]
fn score_is_frozen_while_game_over() {
    let mut rng = demo_rng();
    let mut w = fresh_world(&mut rng);
    w.state = GameState { game_state: GameStates::GameOver, score: 7 };
    for _ in 0..10 {
        let ev = w.tick(false, 16, &mut rng);
        assert_eq!(w.state.game_state, GameStates::GameOver);
        assert_eq!(w.state.score, 7);
        assert!(!ev.animation_advanced);
        assert!(!ev.flap_sound);
    }
}

#[test]
fn restart_tick_resets_structure_deterministically() {
    let mut rng = demo_rng();
    let mut w = fresh_world(&mut rng);
    w.state = GameState { game_state: GameStates::GameOver, score: 7 };
    w.player.position = Position { x: 90 * SCALE, y: -40 * SCALE };
    w.player.velocity = Velocity { x: 0, y: 77_000 };
    let ev = w.tick(true, 16, &mut rng);
    // The Restart mode is observable for one scheduler pass only.
    assert_eq!(w.state.game_state, GameStates::PressStart);
    assert_eq!(w.state.score, 0);
    assert_eq!(w.player.position, Position { x: PLAYER_SPAWN_X, y: PLAYER_SPAWN_Y });
    assert_eq!(w.player.velocity, Velocity { x: 0, y: 0 });
    for (i, p) in w.pipes.iter().enumerate() {
        assert_eq!(p.position.x, 320 * SCALE + (i as i64) * PIPES_H_SEPARATION);
        assert!(p.position.y >= PIPE_MIN_Y && p.position.y <= PIPE_MAX_Y);
        assert!(p.is_type.can_score);
    }
    let v = ev.new_animation_variant.expect("a restart draws an animation variant");
    assert!(v <= 2);
    assert!(w.is_well_formed());
}

#[test]
fn hit_freezes_the_frame_in_game_over() {
    let mut rng = demo_rng();
    let mut w = fresh_world(&mut rng);
    w.state = GameState { game_state: GameStates::Play, score: 2 };
    // Past the boundary threshold: box edge below -36 px.
    w.player.position = Position { x: 50 * SCALE, y: -60 * SCALE };
    let pipe_x0 = w.pipes[0].position.x;
    let floor_x0 = w.floors[0].position.x;
    let ev = w.tick(false, 16, &mut rng);
    assert_eq!(w.state.game_state, GameStates::GameOver);
    assert_eq!(w.state.score, 2);
    assert!(ev.hit_sounds >= 1);
    // Once the mode is GameOver, obstacles, player and floor are frozen.
    assert_eq!(w.pipes[0].position.x, pipe_x0);
    assert_eq!(w.floors[0].position.x, floor_x0);
    assert_eq!(w.player.position, Position { x: 50 * SCALE, y: -60 * SCALE });
}

#[test]
fn clean_pass_scores_during_a_tick() {
    let mut rng = demo_rng();
    let mut w = fresh_world(&mut rng);
    w.state = GameState { game_state: GameStates::Play, score: 0 };
    // Inside the first obstacle's gap, box right edge just past its right edge.
    w.pipes[0].position = Position { x: 0, y: -200 * SCALE };
    w.player.position = Position { x: 25 * SCALE, y: -168 * SCALE };
    w.player.velocity = Velocity { x: 0, y: 0 };
    let ev = w.tick(false, 0, &mut rng);
    assert_eq!(w.state.score, 1);
    assert_eq!(ev.score_sounds, 1);
    assert!(!w.pipes[0].is_type.can_score);
    assert_eq!(w.state.game_state, GameStates::Play);
}
