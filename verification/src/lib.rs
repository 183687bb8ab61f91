//! Core logic of a small top-down "dodge and collect" car game.
//!
//! The host game engine owns the window, the sprites, the clock and the input
//! devices; once per frame it hands the current input snapshot to the game.
//! Everything the game itself decides lives here: how the score and the high
//! score move, which collisions count as a collect, which sprites must be
//! removed, what the on-screen labels read, and when a new car is spawned.
//! The thin shell that talks to the engine translates a frame's raw events
//! into a [`frame::FrameInput`], calls [`frame::frame`], and carries the
//! returned [`frame::Action`]s back to the engine.

pub mod events;
pub mod frame;
pub mod state;
pub mod text;
