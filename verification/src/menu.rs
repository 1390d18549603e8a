//! The menu from which the games are started.

use vstd::prelude::*;
use crate::button_bar::{arranged, ButtonBar, ButtonDef, BAR_HEIGHT};
use crate::draw::{Anchor, Caption, Controller, DrawCommand, Font, Picture, Shade};
use crate::geometry::Coord;
use crate::input::Input;
use crate::screen::{GameName, GameUpdateResult, INPUT_DELAY, SCREEN_HEIGHT, SCREEN_WIDTH};
use crate::timer::Timer;

verus! {

/// Where the title stands.
pub const TITLE_X: isize = 8;

pub const TITLE_Y: isize = 8;

/// Left edge of the cursor and of the entries, and top of the first entry.
pub const CURSOR_X: isize = 8;

pub const MENU_X: isize = 20;

pub const MENU_START_Y: isize = 30;

/// Space between two entries, on top of the height of a letter.
pub const MENU_LEADING: isize = 4;

/// Number of entries.
pub const OPTION_COUNT: usize = 3;

/// Reads `buffer_graphics_lib::text::large::CHAR_HEIGHT`, the height of a
/// letter of the large font. Trusted: it is ten pixels.
#[verifier::external_body]
fn large_char_height() -> (height: usize)
    ensures
        height == 10,
{
    buffer_graphics_lib::text::large::CHAR_HEIGHT
}

/// The game the `idx`-th entry starts.
pub open spec fn game_at(idx: usize) -> Option<GameName> {
    if idx == 0 {
        Some(GameName::Pong)
    } else if idx == 1 {
        Some(GameName::Snake)
    } else if idx == 2 {
        Some(GameName::Invaders)
    } else {
        None
    }
}

/// The words of the `idx`-th entry.
pub open spec fn option_words(idx: int) -> &'static str {
    if idx == 0 {
        "Pong"
    } else if idx == 1 {
        "Snake"
    } else {
        "Invaders"
    }
}

/// The buttons the menu's bar shows.
pub open spec fn menu_buttons() -> Seq<(&'static str, ButtonDef)> {
    seq![("Exit", ButtonDef::Escape), ("Cursor", ButtonDef::Vert), ("Play", ButtonDef::Space)]
}

/// The menu as the contracts see it.
pub struct GameMenuView {
    /// The entry the cursor is on.
    pub cursor_idx: usize,
    /// Where the cursor is drawn.
    pub cursor: Coord,
    /// Distance from one entry to the next.
    pub step: isize,
    pub result: GameUpdateResult,
    pub input_timer: Timer,
    pub button_bar: ButtonBar,
}

impl GameMenuView {
    /// What holds of the menu between steps.
    pub open spec fn wf(self) -> bool {
        &&& self.cursor_idx < OPTION_COUNT
        &&& self.step == 14
        &&& self.button_bar.wf()
    }

    /// Whether this is a menu as it is first shown.
    pub open spec fn is_fresh(self) -> bool {
        &&& self.cursor_idx == 0
        &&& self.cursor == (Coord { x: CURSOR_X, y: MENU_START_Y })
        &&& self.step == 14
        &&& self.result == GameUpdateResult::Nothing
        &&& self.input_timer == (Timer { remaining: 0, period: INPUT_DELAY, looping: true })
        &&& self.button_bar.width == SCREEN_WIDTH
        &&& self.button_bar.position == (Coord { x: 0, y: 148 })
        &&& self.button_bar.buttons@ == arranged(SCREEN_WIDTH as usize, menu_buttons())
    }

    /// Where the cursor is drawn when it is on the entry `idx`.
    pub open spec fn cursor_at(self, idx: usize) -> Coord {
        Coord { x: CURSOR_X, y: (MENU_START_Y + 1 + idx * self.step) as isize }
    }

    /// The entry above the cursor, round the list.
    pub open spec fn entry_above(self) -> usize {
        if self.cursor_idx == 0 {
            (OPTION_COUNT - 1) as usize
        } else {
            (self.cursor_idx - 1) as usize
        }
    }

    /// The entry below the cursor, round the list.
    pub open spec fn entry_below(self) -> usize {
        if self.cursor_idx == OPTION_COUNT - 1 {
            0
        } else {
            (self.cursor_idx + 1) as usize
        }
    }

    /// The menu after one step of `elapsed` microseconds under `input`. The
    /// cursor is drawn where it stood when the step began. On a firing of the
    /// input timer one thing is done: the cursor moves up, or else down, or
    /// else the entry is chosen, or else the menu is left.
    pub open spec fn stepped(self, elapsed: u32, input: Input) -> GameMenuView {
        let drawn = GameMenuView {
            cursor: self.cursor_at(self.cursor_idx),
            input_timer: self.input_timer.updated(elapsed),
            ..self
        };
        let rearmed = Timer { remaining: self.input_timer.period, ..self.input_timer };
        if !self.input_timer.fires(elapsed) {
            drawn
        } else if input.up() {
            GameMenuView { cursor_idx: self.entry_above(), input_timer: rearmed, ..drawn }
        } else if input.down() {
            GameMenuView { cursor_idx: self.entry_below(), input_timer: rearmed, ..drawn }
        } else if input.action() {
            GameMenuView {
                result: match game_at(self.cursor_idx) {
                    Some(name) => GameUpdateResult::Push(name),
                    None => self.result,
                },
                input_timer: rearmed,
                ..drawn
            }
        } else if input.leave() {
            GameMenuView { result: GameUpdateResult::Pop, ..drawn }
        } else {
            drawn
        }
    }

    /// The menu after it became the live scene again: nothing is pending and
    /// the input timer is armed afresh, so that a key still held does not act
    /// at once.
    pub open spec fn resumed(self) -> GameMenuView {
        GameMenuView {
            input_timer: Timer { remaining: self.input_timer.period, ..self.input_timer },
            result: GameUpdateResult::Nothing,
            ..self
        }
    }

    /// The draw command for the entry `idx`: darkest when the cursor is on
    /// it.
    pub open spec fn option_command(self, idx: int) -> DrawCommand {
        DrawCommand::Text {
            caption: Caption::Words(option_words(idx)),
            pos: Coord { x: MENU_X, y: (MENU_START_Y + idx * self.step) as isize },
            font: Font::Large,
            shade: if self.cursor_idx == idx { Shade::Darkest } else { Shade::Dark },
            anchor: Anchor::LeftTop,
        }
    }

    /// The draw commands for the menu: the title, the cursor, the entries
    /// and the button bar.
    pub open spec fn commands(self, controller: Option<Controller>) -> Seq<DrawCommand> {
        seq![
            DrawCommand::Text {
                caption: Caption::Words("Games"),
                pos: Coord { x: TITLE_X, y: TITLE_Y },
                font: Font::Large,
                shade: Shade::Darkest,
                anchor: Anchor::LeftTop,
            },
            DrawCommand::Picture { picture: Picture::Cursor, pos: self.cursor },
            self.option_command(0),
            self.option_command(1),
            self.option_command(2),
        ] + self.button_bar.commands(controller)
    }
}

/// The menu.
pub struct GameMenu {
    /// The entry the cursor is on.
    pub cursor_idx: usize,
    /// Where the cursor is drawn.
    pub cursor: Coord,
    /// Distance from one entry to the next.
    pub step: isize,
    /// What the menu asks of the scene stack.
    pub result: GameUpdateResult,
    /// Paces the reading of the keys.
    pub input_timer: Timer,
    pub button_bar: ButtonBar,
}

impl View for GameMenu {
    type V = GameMenuView;

    open spec fn view(&self) -> GameMenuView {
        GameMenuView {
            cursor_idx: self.cursor_idx,
            cursor: self.cursor,
            step: self.step,
            result: self.result,
            input_timer: self.input_timer,
            button_bar: self.button_bar,
        }
    }
}

impl GameMenu {
    /// The menu with its cursor on the first entry.
    pub fn new() -> (menu: GameMenu)
        ensures
            menu@.is_fresh(),
            menu@.wf(),
    {
        let buttons = [("Exit", ButtonDef::Escape), ("Cursor", ButtonDef::Vert), ("Play", ButtonDef::Space)];
        let bar = ButtonBar::new(
            Coord { x: 0, y: SCREEN_HEIGHT - BAR_HEIGHT },
            SCREEN_WIDTH as usize,
            buttons.as_slice(),
        );
        proof {
            assert(buttons@ =~= menu_buttons());
        }
        GameMenu {
            cursor_idx: 0,
            cursor: Coord { x: CURSOR_X, y: MENU_START_Y },
            step: large_char_height() as isize + MENU_LEADING,
            result: GameUpdateResult::Nothing,
            input_timer: Timer::new(INPUT_DELAY),
            button_bar: bar,
        }
    }

    /// Whether the menu is as its functions expect it.
    pub fn is_valid(&self) -> (ok: bool)
        ensures
            ok == self@.wf(),
    {
        self.cursor_idx < OPTION_COUNT && self.step == 14 && self.button_bar.is_valid()
    }

    /// One step of the menu.
    pub fn update(&mut self, elapsed: u32, input: &Input) -> (result: GameUpdateResult)
        requires
            old(self)@.wf(),
        ensures
            final(self)@ == old(self)@.stepped(elapsed, *input),
            result == final(self)@.result,
            final(self)@.wf(),
    {
        self.cursor = Coord {
            x: CURSOR_X,
            y: MENU_START_Y + 1 + (self.cursor_idx as isize) * self.step,
        };
        if self.input_timer.update(elapsed) {
            if input.wants_up() {
                self.input_timer.reset();
                if self.cursor_idx == 0 {
                    self.cursor_idx = OPTION_COUNT - 1;
                } else {
                    self.cursor_idx = self.cursor_idx - 1;
                }
            } else if input.wants_down() {
                self.input_timer.reset();
                if self.cursor_idx == OPTION_COUNT - 1 {
                    self.cursor_idx = 0;
                } else {
                    self.cursor_idx = self.cursor_idx + 1;
                }
            } else if input.wants_action() {
                self.input_timer.reset();
                if self.cursor_idx == 0 {
                    self.result = GameUpdateResult::Push(GameName::Pong);
                } else if self.cursor_idx == 1 {
                    self.result = GameUpdateResult::Push(GameName::Snake);
                } else if self.cursor_idx == 2 {
                    self.result = GameUpdateResult::Push(GameName::Invaders);
                }
            } else if input.wants_leave() {
                self.result = GameUpdateResult::Pop;
            }
        }
        self.result
    }

    /// Makes the menu ready to be the live scene again.
    pub fn resuming(&mut self)
        ensures
            final(self)@ == old(self)@.resumed(),
    {
        self.input_timer.reset();
        self.result = GameUpdateResult::Nothing;
    }

    /// Key releases mean nothing to the menu.
    pub fn on_key_press(&mut self)
        ensures
            *final(self) == *old(self),
    {
    }

    /// The draw commands for the menu.
    pub fn render(&self, controller: Option<Controller>) -> (out: Vec<DrawCommand>)
        requires
            self@.wf(),
        ensures
            out@ == self@.commands(controller),
    {
        let mut out: Vec<DrawCommand> = Vec::new();
        out.push(
            DrawCommand::Text {
                caption: Caption::Words("Games"),
                pos: Coord { x: TITLE_X, y: TITLE_Y },
                font: Font::Large,
                shade: Shade::Darkest,
                anchor: Anchor::LeftTop,
            },
        );
        out.push(DrawCommand::Picture { picture: Picture::Cursor, pos: self.cursor });
        let mut i: usize = 0;
        while i < OPTION_COUNT
            invariant
                i <= OPTION_COUNT,
                self@.wf(),
                out@.len() == 2 + i,
                out@[0] == self@.commands(controller)[0],
                out@[1] == self@.commands(controller)[1],
                forall|k: int| 0 <= k < i ==> out@[2 + k] == self@.option_command(k),
            decreases OPTION_COUNT - i,
        {
            let words = if i == 0 {
                "Pong"
            } else if i == 1 {
                "Snake"
            } else {
                "Invaders"
            };
            out.push(
                DrawCommand::Text {
                    caption: Caption::Words(words),
                    pos: Coord { x: MENU_X, y: MENU_START_Y + (i as isize) * self.step },
                    font: Font::Large,
                    shade: if self.cursor_idx == i { Shade::Darkest } else { Shade::Dark },
                    anchor: Anchor::LeftTop,
                },
            );
            i = i + 1;
        }
        let ghost head = out@;
        self.button_bar.render(&mut out, controller);
        proof {
            assert(head =~= self@.commands(controller).subrange(0, 5));
            assert(out@ =~= self@.commands(controller));
        }
        out
    }
}

} // verus!
