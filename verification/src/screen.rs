//! The screen the games are laid out for, and what a game tells its host.

use vstd::prelude::*;

verus! {

/// Width of the screen in pixels.
pub const SCREEN_WIDTH: isize = 160;

/// Height of the screen in pixels.
pub const SCREEN_HEIGHT: isize = 166;

/// Microseconds a held direction waits before it acts again.
pub const INPUT_DELAY: i64 = 200_000;

/// The games a menu can start.
#[derive(Clone, Copy, Debug, PartialEq, Eq, Structural)]
pub enum GameName {
    Pong,
    Snake,
    Invaders,
}

/// What a game asks of the scene stack at the end of a step.
#[derive(Clone, Copy, Debug, PartialEq, Eq, Structural)]
pub enum GameUpdateResult {
    /// Keep running this game.
    Nothing,
    /// Start the named game on top of this one.
    Push(GameName),
    /// End this game and return to the one below.
    Pop,
}

/// A score raised by `points`, held at the largest number that fits.
pub open spec fn score_plus(score: usize, points: usize) -> usize {
    if score + points > usize::MAX {
        usize::MAX
    } else {
        (score + points) as usize
    }
}

} // verus!
