//! Simulation core of a small arcade suite: a paddle game, a growing-snake
//! game and a descending-alien shooter, hosted in a stack of scenes.
//!
//! Everything here advances in fixed steps. Time is counted in whole
//! microseconds, so a run is reproducible from its sequence of steps and
//! input snapshots. Drawing, audio playback and input polling are left to the
//! host: the games hand out draw commands and audio commands, and take an
//! input snapshot once per step.

pub mod timer;
pub mod geometry;
pub mod input;
pub mod sound;
pub mod chance;
pub mod screen;
pub mod invaders;
pub mod snake;
pub mod pong;
pub mod draw;
pub mod button_bar;
pub mod menu;
pub mod host;
