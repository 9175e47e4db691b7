//! Simulation core of a side-scrolling obstacle-avoidance arcade game.
//!
//! A player-controlled body falls under gravity, jumps on input, and must pass
//! through gaps in a procession of recycling obstacles without colliding; a
//! score increments once per obstacle cleared.  This crate holds the entity
//! data model, the per-frame system pipeline, the game-mode state machine,
//! collision detection and scoring, and obstacle recycling.  Rendering, audio
//! playback, input polling and asset loading are outside collaborators: the
//! systems here take plain values (an edge-triggered jump flag, a frame delta)
//! and hand back plain signals (sound requests, animation requests).
//!
//! Coordinates are fixed-point integers in micro-pixels; see [`transform`].

pub mod background;
pub mod game;
pub mod pipe;
pub mod player;
pub mod rng;
pub mod sim;
pub mod transform;
pub mod ui;
