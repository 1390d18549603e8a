//! The bar at the foot of the screen that shows which buttons do what.

use vstd::prelude::*;
use crate::draw::{Anchor, Caption, Controller, DrawCommand, Font, Icon, Picture, Shade};
use crate::geometry::Coord;

verus! {

/// Height of the bar.
pub const BAR_HEIGHT: isize = 20;

/// Width and height of an icon.
pub const ICON_WIDTH: usize = 17;

pub const ICON_HEIGHT: usize = 17;

/// Space between an icon and its label.
pub const ICON_PADDING: usize = 2;

/// Space kept free around every button when the bar is filled.
pub const BUTTON_MARGIN: usize = 2;

/// How far below the icon's top its label starts.
pub const LABEL_DROP: isize = 6;

/// Longest label, in characters, that the bar measures.
pub const LABEL_LIMIT: usize = 1000;

/// The buttons the bar knows.
#[derive(Clone, Copy, Debug, PartialEq, Eq, Hash, Structural)]
pub enum ButtonDef {
    Escape,
    Space,
    Horz,
    Vert,
    Cursor,
}

/// The picture that stands for a button on the given kind of controller, or
/// on the keyboard when there is none.
pub open spec fn icon_of(def: ButtonDef, controller: Option<Controller>) -> Icon {
    match def {
        ButtonDef::Space => match controller {
            Some(Controller::Playstation) => Icon::ControllerX,
            Some(Controller::Xbox) => Icon::ControllerA,
            Some(Controller::Switch) => Icon::ControllerB,
            None => Icon::KeySpace,
        },
        ButtonDef::Escape => match controller {
            Some(Controller::Playstation) => Icon::ControllerO,
            Some(Controller::Xbox) => Icon::ControllerB,
            Some(Controller::Switch) => Icon::ControllerA,
            None => Icon::KeyEscape,
        },
        ButtonDef::Vert => match controller {
            Some(_) => Icon::ControllerVert,
            None => Icon::KeyVert,
        },
        ButtonDef::Horz => match controller {
            Some(_) => Icon::ControllerHorz,
            None => Icon::KeyHorz,
        },
        ButtonDef::Cursor => match controller {
            Some(_) => Icon::ControllerDpad,
            None => Icon::KeyDpad,
        },
    }
}

/// The picture that stands for a button on the given kind of controller, or
/// on the keyboard when there is none.
pub fn get_icon(def: ButtonDef, controller: Option<Controller>) -> (icon: Icon)
    ensures
        icon == icon_of(def, controller),
{
    match def {
        ButtonDef::Space => match controller {
            Some(Controller::Playstation) => Icon::ControllerX,
            Some(Controller::Xbox) => Icon::ControllerA,
            Some(Controller::Switch) => Icon::ControllerB,
            None => Icon::KeySpace,
        },
        ButtonDef::Escape => match controller {
            Some(Controller::Playstation) => Icon::ControllerO,
            Some(Controller::Xbox) => Icon::ControllerB,
            Some(Controller::Switch) => Icon::ControllerA,
            None => Icon::KeyEscape,
        },
        ButtonDef::Vert => match controller {
            Some(_) => Icon::ControllerVert,
            None => Icon::KeyVert,
        },
        ButtonDef::Horz => match controller {
            Some(_) => Icon::ControllerHorz,
            None => Icon::KeyHorz,
        },
        ButtonDef::Cursor => match controller {
            Some(_) => Icon::ControllerDpad,
            None => Icon::KeyDpad,
        },
    }
}

/// Width in pixels of `text` set in the small font, as the text renderer
/// measures it.
pub uninterp spec fn small_text_width(text: Seq<char>) -> nat;

/// Calls `buffer_graphics_lib::text::TextSize::measure` for the small font
/// without wrapping and takes the width. Trusted: the width depends on the
/// text alone. The text is kept short so that the renderer's arithmetic stays
/// in range.
#[verifier::external_body]
fn measure_small(text: &str) -> (width: usize)
    requires
        text@.len() <= LABEL_LIMIT,
    ensures
        width == small_text_width(text@),
{
    buffer_graphics_lib::text::TextSize::Small.measure(
        text,
        buffer_graphics_lib::text::wrapping::WrappingStrategy::None,
    ).0
}

/// Sum of the first `n` of `widths`.
pub open spec fn total_width(widths: Seq<usize>, n: int) -> int
    decreases n,
{
    if n <= 0 {
        0
    } else {
        total_width(widths, n - 1) + widths[n - 1]
    }
}

/// Whether buttons of the given widths fit into a bar of width `width`, each
/// with its margin.
pub open spec fn buttons_fit(width: usize, widths: Seq<usize>) -> bool {
    total_width(widths, widths.len() as int) + BUTTON_MARGIN * widths.len() <= width
}

/// Where the `i`-th button starts when the bar is cut into equal sections,
/// one a button, and every button stands in the middle of its section. A
/// button wider than its section starts where the section does.
pub open spec fn button_x(width: usize, widths: Seq<usize>, i: int) -> int {
    let section = width as int / widths.len() as int;
    let padding = if widths[i] <= section {
        (section - widths[i]) / 2
    } else {
        0
    };
    section * i + padding
}

/// Places buttons of the given widths in a bar of width `width`. `None` when
/// there is no button or the buttons do not fit.
pub fn layout(width: usize, widths: &Vec<usize>) -> (xs: Option<Vec<usize>>)
    ensures
        xs.is_some() <==> widths@.len() > 0 && buttons_fit(width, widths@),
        match xs {
            Some(xs) => {
                &&& xs@.len() == widths@.len()
                &&& forall|i: int|
                    0 <= i < xs@.len() ==> #[trigger] xs@[i] == button_x(width, widths@, i)
                &&& forall|i: int| 0 <= i < xs@.len() ==> #[trigger] xs@[i] <= width
            },
            None => true,
        },
{
    let n = widths.len();
    if n == 0 {
        return None;
    }
    let mut total: usize = 0;
    let mut i: usize = 0;
    while i < n
        invariant
            i <= n,
            n == widths@.len(),
            total == total_width(widths@, i as int),
            total <= width,
        decreases n - i,
    {
        if widths[i] > width - total {
            proof {
                lemma_total_width_grows(widths@, i + 1, n as int);
            }
            return None;
        }
        total = total + widths[i];
        i = i + 1;
    }
    if n > (width - total) / BUTTON_MARGIN {
        return None;
    }
    let section = width / n;
    let mut xs: Vec<usize> = Vec::new();
    let mut i: usize = 0;
    while i < n
        invariant
            i <= n,
            n == widths@.len(),
            n > 0,
            section == width / n,
            xs@.len() == i,
            forall|k: int| 0 <= k < i ==> #[trigger] xs@[k] == button_x(width, widths@, k),
            forall|k: int| 0 <= k < i ==> #[trigger] xs@[k] <= width,
        decreases n - i,
    {
        let padding = if widths[i] <= section {
            (section - widths[i]) / 2
        } else {
            0
        };
        assert(section * i + section <= width) by (nonlinear_arith)
            requires
                section == width / n,
                i < n,
                n > 0,
        ;
        assert(section * i >= 0) by (nonlinear_arith)
            requires
                section >= 0,
                i >= 0,
        ;
        let x = section * i;
        xs.push(x + padding);
        i = i + 1;
    }
    Some(xs)
}

/// The sum of widths never shrinks as more are added.
pub proof fn lemma_total_width_grows(widths: Seq<usize>, a: int, b: int)
    requires
        0 <= a <= b,
    ensures
        total_width(widths, a) <= total_width(widths, b),
    decreases b - a,
{
    if a < b {
        lemma_total_width_grows(widths, a, b - 1);
    }
}

/// A button of the bar.
#[derive(Clone, Copy, Debug, PartialEq, Eq)]
pub struct Button {
    pub label: &'static str,
    pub def: ButtonDef,
    /// Where the button's icon stands within the bar.
    pub pos: Coord,
}

/// The width a button takes: its label, its icon and the space between them.
pub open spec fn button_width(label: &'static str) -> int {
    small_text_width(label@) + ICON_WIDTH + ICON_PADDING
}

/// The widths of the buttons with the given labels.
pub open spec fn button_widths(buttons: Seq<(&'static str, ButtonDef)>) -> Seq<usize> {
    Seq::new(buttons.len(), |i: int| button_width(buttons[i].0) as usize)
}

/// Whether every label is short enough to be measured and every button's
/// width is a number the bar can reckon with.
pub open spec fn measurable(buttons: Seq<(&'static str, ButtonDef)>) -> bool {
    forall|i: int|
        0 <= i < buttons.len() ==> (#[trigger] buttons[i]).0@.len() <= LABEL_LIMIT
            && button_width(buttons[i].0) <= usize::MAX
}

/// Whether the bar shows the given buttons: there is one at least, all can
/// be measured, and together they fit.
pub open spec fn shows(width: usize, buttons: Seq<(&'static str, ButtonDef)>) -> bool {
    buttons.len() > 0 && measurable(buttons) && buttons_fit(width, button_widths(buttons))
}

/// The buttons as the bar of width `width` holds them.
pub open spec fn arranged(width: usize, buttons: Seq<(&'static str, ButtonDef)>) -> Seq<Button> {
    if shows(width, buttons) {
        Seq::new(
            buttons.len(),
            |i: int|
                Button {
                    label: buttons[i].0,
                    def: buttons[i].1,
                    pos: Coord {
                        x: button_x(width, button_widths(buttons), i) as isize,
                        y: 0,
                    },
                },
        )
    } else {
        Seq::empty()
    }
}

/// The bar of buttons.
pub struct ButtonBar {
    pub width: usize,
    /// Top left corner of the row of icons.
    pub position: Coord,
    pub buttons: Vec<Button>,
}

impl ButtonBar {
    /// What holds of a bar: it is no wider than a coordinate can say, stands
    /// within reach of the screen, and its buttons start within it.
    pub open spec fn wf(&self) -> bool {
        &&& self.width <= 0x7fff_0000
        &&& -0x7fff <= self.position.x <= 0x7fff
        &&& -0x7fff <= self.position.y <= 0x7fff
        &&& forall|i: int|
            0 <= i < self.buttons@.len() ==> 0 <= (#[trigger] self.buttons@[i]).pos.x <= self.width
                && self.buttons@[i].pos.y == 0
    }

    /// Whether the bar is as its functions expect it.
    pub fn is_valid(&self) -> (ok: bool)
        ensures
            ok == self.wf(),
    {
        if self.width > 0x7fff_0000 || self.position.x < -0x7fff || self.position.x > 0x7fff
            || self.position.y < -0x7fff || self.position.y > 0x7fff {
            return false;
        }
        let mut i: usize = 0;
        while i < self.buttons.len()
            invariant
                i <= self.buttons@.len(),
                self.width <= 0x7fff_0000,
                forall|k: int|
                    0 <= k < i ==> 0 <= (#[trigger] self.buttons@[k]).pos.x <= self.width
                        && self.buttons@[k].pos.y == 0,
            decreases self.buttons@.len() - i,
        {
            let pos = self.buttons[i].pos;
            if pos.x < 0 || pos.x > self.width as isize || pos.y != 0 {
                assert(!(0 <= (#[trigger] self.buttons@[i as int]).pos.x <= self.width
                    && self.buttons@[i as int].pos.y == 0));
                return false;
            }
            i = i + 1;
        }
        true
    }

    /// A bar without buttons. The icons stand two pixels below `position`.
    pub fn new_blank(position: Coord, width: usize) -> (bar: ButtonBar)
        requires
            width <= 0x7fff_0000,
            -0x7fff <= position.x <= 0x7fff,
            -0x7fff <= position.y <= 0x7fff - 2,
        ensures
            bar.width == width,
            bar.position == (Coord { x: position.x, y: (position.y + 2) as isize }),
            bar.buttons@ == Seq::<Button>::empty(),
            bar.wf(),
    {
        ButtonBar {
            width,
            position: Coord { x: position.x, y: position.y + 2 },
            buttons: Vec::new(),
        }
    }

    /// A bar with the given buttons, if they fit.
    pub fn new(position: Coord, width: usize, buttons: &[(&'static str, ButtonDef)]) -> (bar:
        ButtonBar)
        requires
            width <= 0x7fff_0000,
            -0x7fff <= position.x <= 0x7fff,
            -0x7fff <= position.y <= 0x7fff - 2,
        ensures
            bar.width == width,
            bar.position == (Coord { x: position.x, y: (position.y + 2) as isize }),
            bar.buttons@ == arranged(width, buttons@),
            bar.wf(),
    {
        let mut bar = ButtonBar::new_blank(position, width);
        bar.set_buttons(buttons);
        bar
    }

    /// Replaces the buttons of the bar. When there is none, when a label is
    /// too long to measure or when the buttons do not fit, the bar is left
    /// empty.
    pub fn set_buttons(&mut self, buttons: &[(&'static str, ButtonDef)])
        requires
            old(self).wf(),
        ensures
            final(self).width == old(self).width,
            final(self).position == old(self).position,
            final(self).buttons@ == arranged(old(self).width, buttons@),
            final(self).wf(),
    {
        self.buttons.clear();
        let n = buttons.len();
        let mut widths: Vec<usize> = Vec::new();
        let mut i: usize = 0;
        while i < n
            invariant
                i <= n,
                n == buttons@.len(),
                widths@.len() == i,
                self.width == old(self).width,
                self.position == old(self).position,
                self.buttons@ == Seq::<Button>::empty(),
                self.wf(),
                forall|k: int|
                    0 <= k < i ==> (#[trigger] buttons@[k]).0@.len() <= LABEL_LIMIT
                        && button_width(buttons@[k].0) <= usize::MAX,
                forall|k: int|
                    0 <= k < i ==> #[trigger] widths@[k] == button_width(buttons@[k].0) as usize,
            decreases n - i,
        {
            let label = buttons[i].0;
            if label.unicode_len() > LABEL_LIMIT {
                assert(!((#[trigger] buttons@[i as int]).0@.len() <= LABEL_LIMIT));
                return ;
            }
            let text_width = measure_small(label);
            if text_width > usize::MAX - ICON_WIDTH - ICON_PADDING {
                assert(!(button_width((#[trigger] buttons@[i as int]).0) <= usize::MAX));
                return ;
            }
            widths.push(text_width + ICON_WIDTH + ICON_PADDING);
            i = i + 1;
        }
        proof {
            assert(widths@ =~= button_widths(buttons@));
        }
        match layout(self.width, &widths) {
            None => {},
            Some(xs) => {
                let mut i: usize = 0;
                while i < n
                    invariant
                        i <= n,
                        n == buttons@.len(),
                        xs@.len() == n,
                        self.buttons@.len() == i,
                        self.width == old(self).width,
                        self.position == old(self).position,
                        self.width <= 0x7fff_0000,
                        forall|k: int| 0 <= k < n ==> #[trigger] xs@[k] <= self.width,
                        forall|k: int|
                            0 <= k < i ==> #[trigger] self.buttons@[k] == (Button {
                                label: buttons@[k].0,
                                def: buttons@[k].1,
                                pos: Coord { x: xs@[k] as isize, y: 0 },
                            }),
                    decreases n - i,
                {
                    assert(xs@[i as int] <= self.width);
                    self.buttons.push(
                        Button {
                            label: buttons[i].0,
                            def: buttons[i].1,
                            pos: Coord { x: xs[i] as isize, y: 0 },
                        },
                    );
                    i = i + 1;
                }
                proof {
                    assert(self.buttons@ =~= arranged(self.width, buttons@));
                }
            },
        }
    }

    /// The draw commands for the `i`-th button: its icon, then its label.
    pub open spec fn button_commands(&self, controller: Option<Controller>, i: int) -> Seq<
        DrawCommand,
    > {
        let button = self.buttons@[i];
        seq![
            DrawCommand::Picture {
                picture: Picture::Icon(icon_of(button.def, controller)),
                pos: Coord {
                    x: (self.position.x + button.pos.x) as isize,
                    y: (self.position.y + button.pos.y) as isize,
                },
            },
            DrawCommand::Text {
                caption: Caption::Words(button.label),
                pos: Coord {
                    x: (self.position.x + button.pos.x + ICON_WIDTH + ICON_PADDING) as isize,
                    y: (self.position.y + button.pos.y + LABEL_DROP) as isize,
                },
                font: Font::Small,
                shade: Shade::Darkest,
                anchor: Anchor::LeftTop,
            },
        ]
    }

    /// The draw commands for the first `n` buttons.
    pub open spec fn commands_upto(&self, controller: Option<Controller>, n: int) -> Seq<
        DrawCommand,
    >
        decreases n,
    {
        if n <= 0 {
            Seq::empty()
        } else {
            self.commands_upto(controller, n - 1) + self.button_commands(controller, n - 1)
        }
    }

    /// The draw commands for the bar: for every button its icon and its
    /// label, from left to right.
    pub open spec fn commands(&self, controller: Option<Controller>) -> Seq<DrawCommand> {
        self.commands_upto(controller, self.buttons@.len() as int)
    }

    /// Appends the bar's draw commands to `out`. The icons are those of the
    /// active controller, or of the keyboard when there is none.
    pub fn render(&self, out: &mut Vec<DrawCommand>, active_controller: Option<Controller>)
        requires
            self.wf(),
        ensures
            final(out)@ == old(out)@ + self.commands(active_controller),
    {
        let n = self.buttons.len();
        let mut i: usize = 0;
        while i < n
            invariant
                i <= n,
                n == self.buttons@.len(),
                self.wf(),
                out@ == old(out)@ + self.commands_upto(active_controller, i as int),
            decreases n - i,
        {
            let button = self.buttons[i];
            assert(0 <= self.buttons@[i as int].pos.x <= self.width);
            let ghost before = out@;
            out.push(
                DrawCommand::Picture {
                    picture: Picture::Icon(get_icon(button.def, active_controller)),
                    pos: Coord {
                        x: self.position.x + button.pos.x,
                        y: self.position.y + button.pos.y,
                    },
                },
            );
            out.push(
                DrawCommand::Text {
                    caption: Caption::Words(button.label),
                    pos: Coord {
                        x: self.position.x + button.pos.x + (ICON_WIDTH + ICON_PADDING) as isize,
                        y: self.position.y + button.pos.y + LABEL_DROP,
                    },
                    font: Font::Small,
                    shade: Shade::Darkest,
                    anchor: Anchor::LeftTop,
                },
            );
            proof {
                assert(out@ =~= before + self.button_commands(active_controller, i as int));
                assert(out@ =~= old(out)@ + self.commands_upto(active_controller, i + 1));
            }
            i = i + 1;
        }
    }
}

} // verus!
