//! What a game hands to the renderer: an ordered list of draw commands in
//! screen coordinates.

use vstd::prelude::*;
use crate::geometry::{Coord, Rect};

verus! {

/// The four shades of the palette.
#[derive(Clone, Copy, Debug, PartialEq, Eq, Structural)]
pub enum Shade {
    /// The background.
    Lightest,
    Light,
    Dark,
    Darkest,
}

/// Whether a shape is drawn solid or as an outline.
#[derive(Clone, Copy, Debug, PartialEq, Eq, Structural)]
pub enum Style {
    Fill,
    Stroke,
}

/// The fonts text is drawn in.
#[derive(Clone, Copy, Debug, PartialEq, Eq, Structural)]
pub enum Font {
    Small,
    Normal,
    Large,
    /// Eight by ten pixels a letter.
    Standard8x10,
}

/// Which point of a text its position names.
#[derive(Clone, Copy, Debug, PartialEq, Eq, Structural)]
pub enum Anchor {
    LeftTop,
    CenterTop,
    RightTop,
    Center,
    LeftBottom,
    RightBottom,
}

/// The kinds of game controller whose buttons the button bar can show.
#[derive(Clone, Copy, Debug, PartialEq, Eq, Structural)]
pub enum Controller {
    Playstation,
    Xbox,
    Switch,
}

/// The pictures of buttons and keys.
#[derive(Clone, Copy, Debug, PartialEq, Eq, Structural)]
pub enum Icon {
    ControllerX,
    ControllerA,
    ControllerB,
    ControllerO,
    ControllerVert,
    ControllerHorz,
    ControllerDpad,
    KeySpace,
    KeyEscape,
    KeyVert,
    KeyHorz,
    KeyDpad,
}

/// The pictures the renderer keeps.
#[derive(Clone, Copy, Debug, PartialEq, Eq, Structural)]
pub enum Picture {
    Heart,
    /// The aliens of the top row, of the two rows below it, and of the two
    /// lowest rows.
    InvaderTop,
    InvaderMiddle,
    InvaderBottom,
    AlienAttack,
    Ufo,
    /// The player's ship in the shooter.
    Ship,
    /// The cursor of the menu.
    Cursor,
    Icon(Icon),
}

/// What a text says.
#[derive(Clone, Copy, Debug, PartialEq, Eq)]
pub enum Caption {
    /// The words as they stand.
    Words(&'static str),
    /// The label followed by the number, the number set right in a field of
    /// `width` characters.
    Count { label: &'static str, value: usize, width: usize },
}

/// One thing for the renderer to draw.
#[derive(Clone, Copy, Debug, PartialEq, Eq)]
pub enum DrawCommand {
    /// Fill the whole screen.
    Clear { shade: Shade },
    Rect { rect: Rect, style: Style, shade: Shade },
    /// A solid circle.
    Circle { center: Coord, radius: isize, shade: Shade },
    Text { caption: Caption, pos: Coord, font: Font, shade: Shade, anchor: Anchor },
    /// A picture with its top left corner at `pos`.
    Picture { picture: Picture, pos: Coord },
}

} // verus!
