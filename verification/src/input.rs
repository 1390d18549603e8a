//! The input snapshot a game is given once per step.

use vstd::prelude::*;

verus! {

/// The keys that are held down.
#[derive(Clone, Copy, Debug, PartialEq, Eq, Structural)]
pub struct Keys {
    pub up: bool,
    pub down: bool,
    pub left: bool,
    pub right: bool,
    pub escape: bool,
    pub space: bool,
}

/// The state of a game controller: its direction pad and the two action
/// buttons the games use.
#[derive(Clone, Copy, Debug, PartialEq, Eq, Structural)]
pub struct Pad {
    pub up: bool,
    pub down: bool,
    pub left: bool,
    pub right: bool,
    /// The lower action button: serve, fire, choose.
    pub south: bool,
    /// The right action button: leave.
    pub east: bool,
    /// Any other button of the controller.
    pub other: bool,
}

/// Everything a game learns about the player during one step.
#[derive(Clone, Copy, Debug, PartialEq, Eq, Structural)]
pub struct Input {
    pub keys: Keys,
    pub pad: Pad,
}

impl Input {
    /// Up, on the keyboard or the controller.
    pub open spec fn up(self) -> bool {
        self.keys.up || self.pad.up
    }

    /// Down, on the keyboard or the controller.
    pub open spec fn down(self) -> bool {
        self.keys.down || self.pad.down
    }

    /// Left, on the keyboard or the controller.
    pub open spec fn left(self) -> bool {
        self.keys.left || self.pad.left
    }

    /// Right, on the keyboard or the controller.
    pub open spec fn right(self) -> bool {
        self.keys.right || self.pad.right
    }

    /// Space bar or the lower action button.
    pub open spec fn action(self) -> bool {
        self.keys.space || self.pad.south
    }

    /// Escape or the right action button.
    pub open spec fn leave(self) -> bool {
        self.keys.escape || self.pad.east
    }

    /// Whether anything on the controller is held.
    pub open spec fn pad_active(self) -> bool {
        self.pad.up || self.pad.down || self.pad.left || self.pad.right || self.pad.south
            || self.pad.east || self.pad.other
    }

    /// A snapshot with nothing held.
    pub fn idle() -> (input: Input)
        ensures
            !input.up() && !input.down() && !input.left() && !input.right(),
            !input.action() && !input.leave() && !input.pad_active(),
            input == (Input {
                keys: Keys {
                    up: false,
                    down: false,
                    left: false,
                    right: false,
                    escape: false,
                    space: false,
                },
                pad: Pad {
                    up: false,
                    down: false,
                    left: false,
                    right: false,
                    south: false,
                    east: false,
                    other: false,
                },
            }),
    {
        Input {
            keys: Keys {
                up: false,
                down: false,
                left: false,
                right: false,
                escape: false,
                space: false,
            },
            pad: Pad {
                up: false,
                down: false,
                left: false,
                right: false,
                south: false,
                east: false,
                other: false,
            },
        }
    }

    /// Whether anything on the controller is held.
    pub fn uses_pad(&self) -> (held: bool)
        ensures
            held == self.pad_active(),
    {
        self.pad.up || self.pad.down || self.pad.left || self.pad.right || self.pad.south
            || self.pad.east || self.pad.other
    }

    /// Whether up is held.
    pub fn wants_up(&self) -> (held: bool)
        ensures
            held == self.up(),
    {
        self.keys.up || self.pad.up
    }

    /// Whether down is held.
    pub fn wants_down(&self) -> (held: bool)
        ensures
            held == self.down(),
    {
        self.keys.down || self.pad.down
    }

    /// Whether left is held.
    pub fn wants_left(&self) -> (held: bool)
        ensures
            held == self.left(),
    {
        self.keys.left || self.pad.left
    }

    /// Whether right is held.
    pub fn wants_right(&self) -> (held: bool)
        ensures
            held == self.right(),
    {
        self.keys.right || self.pad.right
    }

    /// Whether the space bar or the lower action button is held.
    pub fn wants_action(&self) -> (held: bool)
        ensures
            held == self.action(),
    {
        self.keys.space || self.pad.south
    }

    /// Whether escape or the right action button is held.
    pub fn wants_leave(&self) -> (held: bool)
        ensures
            held == self.leave(),
    {
        self.keys.escape || self.pad.east
    }
}

} // verus!
