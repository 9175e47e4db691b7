//! Obstacle motion, recycling and spawning.
use flappy::game::{GameState, GameStates};
use flappy::pipe::{
    move_pipe, recycle_pipe, spawn_pipes, Pipe, PipeBundle, OBSTACLE_SHIFT, PIPES_H_SEPARATION,
    PIPE_MAX_Y, PIPE_MIN_Y,
};
use flappy::transform::{Position, Velocity};
use rand::SeedableRng;

const SCALE: i64 = 1_000_000;

fn fixed_rng() -> rand::rngs::StdRng {
    rand::rngs::StdRng::seed_from_u64(7)
}

fn obstacle_at(x: i64, y: i64) -> PipeBundle {
    PipeBundle {
        position: Position { x, y },
        velocity: Velocity { x: -120_000, y: 0 },
        is_type: Pipe { can_score: false },
    }
}

#[test]
fn recycle_twice_advances_by_exact_shift_each_time() {
    let mut rng = fixed_rng();
    let mut p = obstacle_at(-60 * SCALE, -200 * SCALE);
    let x0 = p.position.x;
    recycle_pipe(&mut p, &mut rng);
    assert_eq!(p.position.x, x0 + OBSTACLE_SHIFT);
    assert!(p.is_type.can_score);
    assert!(p.position.y >= PIPE_MIN_Y && p.position.y <= PIPE_MAX_Y);
    recycle_pipe(&mut p, &mut rng);
    assert_eq!(p.position.x, x0 + 2 * OBSTACLE_SHIFT);
    assert!(p.is_type.can_score);
    assert!(p.position.y >= PIPE_MIN_Y && p.position.y <= PIPE_MAX_Y);
    assert_eq!(OBSTACLE_SHIFT, 5 * PIPES_H_SEPARATION);
}

#[test]
fn move_pipe_advances_without_recycle() {
    let gs = GameState { game_state: GameStates::Play, score: 0 };
    let mut pipes = vec![obstacle_at(100 * SCALE, -200 * SCALE)];
    // -120 px/s over one full second: lands at -20 px, right edge on screen.
    move_pipe(&gs, &mut pipes, 1000, &mut fixed_rng());
    assert_eq!(pipes[0].position.x, -20 * SCALE);
    assert_eq!(pipes[0].position.y, -200 * SCALE);
    assert!(!pipes[0].is_type.can_score);
}

#[test]
fn move_pipe_recycles_offscreen_obstacle() {
    let gs = GameState { game_state: GameStates::Play, score: 0 };
    // After the motion step the pipe sits at -172 px < -52 px: recycled.
    let mut pipes = vec![obstacle_at(-52 * SCALE, -200 * SCALE)];
    move_pipe(&gs, &mut pipes, 1000, &mut fixed_rng());
    assert_eq!(pipes[0].position.x, -172 * SCALE + OBSTACLE_SHIFT);
    assert!(pipes[0].is_type.can_score);
    assert!(pipes[0].position.y >= PIPE_MIN_Y && pipes[0].position.y <= PIPE_MAX_Y);
}

#[test]
fn move_pipe_frozen_outside_play() {
    for mode in [
        GameStates::PressStart,
        GameStates::GameOver,
        GameStates::Restart,
        GameStates::Paused,
    ] {
        let gs = GameState { game_state: mode, score: 0 };
        let mut pipes = vec![obstacle_at(100 * SCALE, -200 * SCALE)];
        move_pipe(&gs, &mut pipes, 1000, &mut fixed_rng());
        assert_eq!(pipes[0].position.x, 100 * SCALE);
        assert_eq!(pipes[0].position.y, -200 * SCALE);
    }
}

#[test]
fn spawn_pipes_prespaces_the_procession() {
    let mut rng = fixed_rng();
    let pipes = spawn_pipes(&mut rng);
    assert_eq!(pipes.len(), 5);
    for (i, p) in pipes.iter().enumerate() {
        assert_eq!(p.position.x, 320 * SCALE + (i as i64) * PIPES_H_SEPARATION);
        assert!(p.position.y >= PIPE_MIN_Y && p.position.y <= PIPE_MAX_Y);
        assert!(p.is_type.can_score);
        assert_eq!(p.velocity, Velocity { x: -120_000, y: 0 });
    }
}

#[test]
fn pipe_new_sets_velocity_and_arms_scoring() {
    let p = PipeBundle::new(10 * SCALE, -200 * SCALE);
    assert_eq!(p.position, Position { x: 10 * SCALE, y: -200 * SCALE });
    assert_eq!(p.velocity, Velocity { x: -120_000, y: 0 });
    assert!(p.is_type.can_score);
}

#[test]
fn random_slot_interval_matches_paddings() {
    // [-screen + ceiling padding, -gap - floor padding] = [-300, -175] px.
    assert_eq!(PIPE_MIN_Y, -300 * SCALE);
    assert_eq!(PIPE_MAX_Y, -175 * SCALE);
}
