//! The stack of scenes and the host that steps it.
//!
//! Only the scene on top of the stack is live: it alone is stepped and
//! drawn. The scenes below keep their state untouched until they are on top
//! again, and are then told once that they resume. The host is done when the
//! stack is empty.

use vstd::prelude::*;
use crate::draw::{Controller, DrawCommand, Shade};
use crate::geometry::Coord;
use crate::input::Input;
use crate::invaders::{Invaders, InvadersView};
use crate::menu::{GameMenu, GameMenuView};
use crate::pong::{Pong, PongView, Rolls};
use crate::screen::{GameName, GameUpdateResult};
use crate::snake::{Snake, SnakeView};
use crate::sound::AudioCommand;

verus! {

/// A scene: the menu or one of the games.
pub enum Scene {
    Menu(GameMenu),
    Pong(Pong),
    Snake(Snake),
    Invaders(Invaders),
}

/// A scene as the contracts see it.
pub enum SceneView {
    Menu(GameMenuView),
    Pong(PongView),
    Snake(SnakeView),
    Invaders(InvadersView),
}

impl View for Scene {
    type V = SceneView;

    open spec fn view(&self) -> SceneView {
        match self {
            Scene::Menu(menu) => SceneView::Menu(menu@),
            Scene::Pong(game) => SceneView::Pong(game@),
            Scene::Snake(game) => SceneView::Snake(game@),
            Scene::Invaders(game) => SceneView::Invaders(game@),
        }
    }
}

impl SceneView {
    /// What holds of a scene between steps.
    pub open spec fn wf(self) -> bool {
        match self {
            SceneView::Menu(menu) => menu.wf(),
            SceneView::Pong(game) => game.wf(),
            SceneView::Snake(game) => game.wf(),
            SceneView::Invaders(game) => game.wf(),
        }
    }

    /// What the scene asks of the stack.
    pub open spec fn result(self) -> GameUpdateResult {
        match self {
            SceneView::Menu(menu) => menu.result,
            SceneView::Pong(game) => game.result,
            SceneView::Snake(game) => game.result,
            SceneView::Invaders(game) => game.result,
        }
    }

    /// The scene after it was told that it resumes. Only the menu has
    /// anything to reset.
    pub open spec fn resumed(self) -> SceneView {
        match self {
            SceneView::Menu(menu) => SceneView::Menu(menu.resumed()),
            _ => self,
        }
    }

    /// Whether this is the game `name` as it starts. In the shooter the
    /// bonus ship's hit box is `ufo_width` by `ufo_height`.
    pub open spec fn is_fresh(self, name: GameName, ufo_width: u16, ufo_height: u16) -> bool {
        match self {
            SceneView::Menu(_) => false,
            SceneView::Pong(game) => name == GameName::Pong && game == PongView::fresh(),
            SceneView::Snake(game) => name == GameName::Snake && game.is_fresh(),
            SceneView::Invaders(game) => name == GameName::Invaders && game.is_fresh(
                ufo_width,
                ufo_height,
            ),
        }
    }

    /// The draw commands for the scene.
    pub open spec fn commands(self, controller: Option<Controller>) -> Seq<DrawCommand> {
        match self {
            SceneView::Menu(menu) => menu.commands(controller),
            SceneView::Pong(game) => game.commands(),
            SceneView::Snake(game) => game.commands(controller),
            SceneView::Invaders(game) => game.commands(),
        }
    }

    /// Whether one step of `elapsed` microseconds under `input` can take
    /// this scene to `next`. The menu has one next state; a game has one for
    /// every outcome of its draws.
    pub open spec fn steps_to(self, next: SceneView, elapsed: u32, input: Input) -> bool {
        match (self, next) {
            (SceneView::Menu(a), SceneView::Menu(b)) => b == a.stepped(elapsed, input),
            (SceneView::Pong(a), SceneView::Pong(b)) => exists|rolls: Rolls|
                rolls.wf() && b == #[trigger] a.stepped(elapsed, input, rolls),
            (SceneView::Snake(a), SceneView::Snake(b)) => exists|slot: Option<Coord>|
                b == #[trigger] a.stepped(elapsed, input, slot),
            (SceneView::Invaders(a), SceneView::Invaders(b)) => exists|pick: int|
                0 <= pick < 45 && b == #[trigger] a.stepped(elapsed, input, pick),
            _ => false,
        }
    }
}

impl Scene {
    /// The game `name` as it starts.
    pub fn start(name: GameName, ufo_width: u16, ufo_height: u16) -> (scene: Scene)
        ensures
            scene@.is_fresh(name, ufo_width, ufo_height),
            scene@.wf(),
    {
        match name {
            GameName::Pong => Scene::Pong(Pong::new()),
            GameName::Snake => Scene::Snake(Snake::new()),
            GameName::Invaders => Scene::Invaders(Invaders::new(ufo_width, ufo_height)),
        }
    }

    /// Whether the scene is as its functions expect it.
    pub fn is_valid(&self) -> (ok: bool)
        ensures
            ok == self@.wf(),
    {
        match self {
            Scene::Menu(menu) => menu.is_valid(),
            Scene::Pong(game) => game.is_valid(),
            Scene::Snake(game) => game.is_valid(),
            Scene::Invaders(game) => game.is_valid(),
        }
    }

    /// One step of the scene.
    pub fn update(&mut self, elapsed: u32, input: &Input) -> (result: GameUpdateResult)
        requires
            old(self)@.wf(),
        ensures
            old(self)@.steps_to(final(self)@, elapsed, *input),
            result == final(self)@.result(),
            final(self)@.wf(),
    {
        match self {
            Scene::Menu(menu) => menu.update(elapsed, input),
            Scene::Pong(game) => game.update(elapsed, input),
            Scene::Snake(game) => game.update(elapsed, input),
            Scene::Invaders(game) => game.update(elapsed, input),
        }
    }

    /// Tells the scene that it is the live one again.
    pub fn resuming(&mut self)
        ensures
            final(self)@ == old(self)@.resumed(),
    {
        match self {
            Scene::Menu(menu) => menu.resuming(),
            Scene::Pong(game) => game.resuming(),
            Scene::Snake(game) => game.resuming(),
            Scene::Invaders(game) => game.resuming(),
        }
    }

    /// Tells the scene that a key was released.
    pub fn on_key_press(&mut self)
        ensures
            final(self)@ == old(self)@,
    {
        match self {
            Scene::Menu(menu) => menu.on_key_press(),
            Scene::Pong(game) => game.on_key_press(),
            Scene::Snake(game) => game.on_key_press(),
            Scene::Invaders(game) => game.on_key_press(),
        }
    }

    /// The draw commands for the scene. Button icons are those of
    /// `controller`, or of the keyboard when there is none.
    pub fn render(&self, controller: Option<Controller>) -> (out: Vec<DrawCommand>)
        requires
            self@.wf(),
        ensures
            out@ == self@.commands(controller),
    {
        match self {
            Scene::Menu(menu) => menu.render(controller),
            Scene::Pong(game) => game.render(),
            Scene::Snake(game) => game.render(controller),
            Scene::Invaders(game) => game.render(),
        }
    }

    /// The audio commands of the scene's latest step. The menu has none.
    pub fn audio(&self) -> (commands: Vec<AudioCommand>)
        ensures
            commands@ == match self@ {
                SceneView::Menu(_) => Seq::<AudioCommand>::empty(),
                SceneView::Pong(game) => game.audio,
                SceneView::Snake(game) => game.audio,
                SceneView::Invaders(game) => game.audio,
            },
    {
        match self {
            Scene::Menu(_) => Vec::new(),
            Scene::Pong(game) => game.audio.clone(),
            Scene::Snake(game) => game.audio.clone(),
            Scene::Invaders(game) => game.audio.clone(),
        }
    }
}

/// The host as the contracts see it.
pub struct GameHostView {
    /// The scenes, the live one last.
    pub stack: Seq<SceneView>,
    /// Whether the keyboard was used last, rather than a controller.
    pub keyboard: bool,
    pub ufo_width: u16,
    pub ufo_height: u16,
}

impl GameHostView {
    /// What holds of the host between steps.
    pub open spec fn wf(self) -> bool {
        forall|i: int| 0 <= i < self.stack.len() ==> (#[trigger] self.stack[i]).wf()
    }

    /// Whether the host is done: no scene is left.
    pub open spec fn should_exit(self) -> bool {
        self.stack.len() == 0
    }

    /// The host with `scene` put on top. The scene that was on top is not
    /// told.
    pub open spec fn pushed(self, scene: SceneView) -> GameHostView {
        GameHostView { stack: self.stack.push(scene), ..self }
    }

    /// The host with its top scene gone and the scene below it, if there is
    /// one, told once that it resumes.
    pub open spec fn popped(self) -> GameHostView {
        if self.stack.len() == 0 {
            self
        } else {
            let rest = self.stack.drop_last();
            GameHostView {
                stack: if rest.len() > 0 {
                    rest.drop_last().push(rest.last().resumed())
                } else {
                    rest
                },
                ..self
            }
        }
    }

    /// The draw commands for a frame: the screen is cleared and the live
    /// scene drawn. Button icons are the keyboard's when the keyboard was
    /// used last, and otherwise those of `controller`.
    pub open spec fn commands(self, controller: Option<Controller>) -> Seq<DrawCommand> {
        let clear = seq![DrawCommand::Clear { shade: Shade::Lightest }];
        if self.stack.len() == 0 {
            clear
        } else {
            clear + self.stack.last().commands(if self.keyboard { None } else { controller })
        }
    }

    /// Whether `next` is this host after it did what its top scene asks.
    pub open spec fn settles_to(self, next: GameHostView) -> bool {
        match self.stack.last().result() {
            GameUpdateResult::Nothing => next == self,
            GameUpdateResult::Push(name) => exists|scene: SceneView|
                #[trigger] scene.is_fresh(name, self.ufo_width, self.ufo_height) && next
                    == self.pushed(scene),
            GameUpdateResult::Pop => next == self.popped(),
        }
    }

    /// Whether one step of `elapsed` microseconds under `input` can take
    /// this host to `next`: the top scene is stepped, and then the host does
    /// what the scene asks. A controller in use takes the keyboard's place.
    pub open spec fn steps_to(self, next: GameHostView, elapsed: u32, input: Input) -> bool {
        let keyboard = self.keyboard && !input.pad_active();
        if self.stack.len() == 0 {
            next == (GameHostView { keyboard, ..self })
        } else {
            exists|top: SceneView| #[trigger]
                self.stack.last().steps_to(top, elapsed, input) && (GameHostView {
                    stack: self.stack.drop_last().push(top),
                    keyboard,
                    ..self
                }).settles_to(next)
        }
    }
}

/// The host of the games.
pub struct GameHost {
    /// The scenes, the live one last.
    pub game_stack: Vec<Scene>,
    /// Whether the keyboard was used last, rather than a controller.
    pub keyboard: bool,
    /// Size of the bonus ship's picture, handed to every new shooter.
    pub ufo_width: u16,
    pub ufo_height: u16,
}

impl View for GameHost {
    type V = GameHostView;

    open spec fn view(&self) -> GameHostView {
        GameHostView {
            stack: Seq::new(self.game_stack@.len(), |i: int| self.game_stack@[i]@),
            keyboard: self.keyboard,
            ufo_width: self.ufo_width,
            ufo_height: self.ufo_height,
        }
    }
}

impl GameHost {
    /// A host that shows the menu.
    pub fn new(ufo_width: u16, ufo_height: u16) -> (host: GameHost)
        ensures
            host@.stack.len() == 1,
            host@.stack[0] is Menu,
            host@.stack[0]->Menu_0.is_fresh(),
            !host@.keyboard,
            host@.ufo_width == ufo_width,
            host@.ufo_height == ufo_height,
            host@.wf(),
    {
        let mut game_stack: Vec<Scene> = Vec::new();
        game_stack.push(Scene::Menu(GameMenu::new()));
        GameHost { game_stack, keyboard: false, ufo_width, ufo_height }
    }

    /// Whether every scene of the host is as its functions expect it.
    pub fn is_valid(&self) -> (ok: bool)
        ensures
            ok == self@.wf(),
    {
        let mut i: usize = 0;
        while i < self.game_stack.len()
            invariant
                i <= self.game_stack@.len(),
                forall|k: int| 0 <= k < i ==> (#[trigger] self@.stack[k]).wf(),
            decreases self.game_stack@.len() - i,
        {
            if !self.game_stack[i].is_valid() {
                assert(!(#[trigger] self@.stack[i as int]).wf());
                return false;
            }
            i = i + 1;
        }
        true
    }

    /// Whether the host is done.
    pub fn should_exit(&self) -> (done: bool)
        ensures
            done == self@.should_exit(),
    {
        self.game_stack.len() == 0
    }

    /// Starts the game `name` on top of the stack.
    pub fn push(&mut self, name: GameName)
        requires
            old(self)@.wf(),
        ensures
            exists|scene: SceneView|
                #[trigger] scene.is_fresh(name, old(self)@.ufo_width, old(self)@.ufo_height)
                    && final(self)@ == old(self)@.pushed(scene),
            final(self)@.wf(),
    {
        let scene = Scene::start(name, self.ufo_width, self.ufo_height);
        let ghost view = scene@;
        self.game_stack.push(scene);
        proof {
            assert(self@.stack =~= old(self)@.stack.push(view));
            assert(view.is_fresh(name, old(self)@.ufo_width, old(self)@.ufo_height));
        }
    }

    /// Ends the live scene and lets the one below it resume.
    pub fn pop(&mut self)
        requires
            old(self)@.wf(),
        ensures
            final(self)@ == old(self)@.popped(),
            final(self)@.wf(),
    {
        if self.game_stack.len() == 0 {
            return ;
        }
        self.game_stack.pop();
        match self.game_stack.pop() {
            Some(mut below) => {
                below.resuming();
                self.game_stack.push(below);
            },
            None => {},
        }
        proof {
            assert(self@.stack =~= old(self)@.popped().stack);
            assert forall|i: int| 0 <= i < self@.stack.len() implies (#[trigger] self@.stack[i]).wf() by {
                if i < self@.stack.len() - 1 {
                    assert(self@.stack[i] == old(self)@.stack[i]);
                } else {
                    assert(old(self)@.stack[i].wf());
                }
            }
        }
    }

    /// One step of the host.
    pub fn update(&mut self, elapsed: u32, input: &Input)
        requires
            old(self)@.wf(),
        ensures
            old(self)@.steps_to(final(self)@, elapsed, *input),
            final(self)@.wf(),
    {
        if input.uses_pad() {
            self.keyboard = false;
        }
        match self.game_stack.pop() {
            None => {
                assert(self@.stack =~= old(self)@.stack);
            },
            Some(mut game) => {
                let ghost before = game@;
                assert(before == old(self)@.stack.last());
                assert(before.wf());
                let result = game.update(elapsed, input);
                let ghost top = game@;
                self.game_stack.push(game);
                let ghost stepped = self@;
                proof {
                    assert(stepped.stack =~= old(self)@.stack.drop_last().push(top));
                    assert forall|i: int| 0 <= i < stepped.stack.len() implies (
                    #[trigger] stepped.stack[i]).wf() by {
                        if i < stepped.stack.len() - 1 {
                            assert(stepped.stack[i] == old(self)@.stack[i]);
                        }
                    }
                }
                match result {
                    GameUpdateResult::Nothing => {},
                    GameUpdateResult::Push(name) => {
                        self.push(name);
                    },
                    GameUpdateResult::Pop => {
                        self.pop();
                    },
                }
                proof {
                    assert(stepped.settles_to(self@));
                    assert(old(self)@.stack.last().steps_to(top, elapsed, *input));
                }
            },
        }
    }

    /// The draw commands for a frame.
    pub fn render(&self, controller: Option<Controller>) -> (out: Vec<DrawCommand>)
        requires
            self@.wf(),
        ensures
            out@ == self@.commands(controller),
    {
        let mut out: Vec<DrawCommand> = Vec::new();
        out.push(DrawCommand::Clear { shade: Shade::Lightest });
        let n = self.game_stack.len();
        if n > 0 {
            assert(self@.stack[n - 1].wf());
            let mut scene = self.game_stack[n - 1].render(if self.keyboard { None } else { controller });
            out.append(&mut scene);
        }
        out
    }

    /// Notes that a key went down: the keyboard is in use.
    pub fn on_key_down(&mut self)
        ensures
            final(self)@ == (GameHostView { keyboard: true, ..old(self)@ }),
    {
        self.keyboard = true;
        assert(self@.stack =~= old(self)@.stack);
    }

    /// Tells the live scene that a key was released.
    pub fn on_key_up(&mut self)
        ensures
            final(self)@ == old(self)@,
    {
        match self.game_stack.pop() {
            Some(mut game) => {
                game.on_key_press();
                self.game_stack.push(game);
            },
            None => {},
        }
        assert(self@.stack =~= old(self)@.stack);
    }

    /// The audio commands of the live scene's latest step.
    pub fn audio(&self) -> (commands: Vec<AudioCommand>)
        ensures
            commands@ == if self@.stack.len() == 0 {
                Seq::<AudioCommand>::empty()
            } else {
                match self@.stack.last() {
                    SceneView::Menu(_) => Seq::<AudioCommand>::empty(),
                    SceneView::Pong(game) => game.audio,
                    SceneView::Snake(game) => game.audio,
                    SceneView::Invaders(game) => game.audio,
                }
            },
    {
        let n = self.game_stack.len();
        if n == 0 {
            Vec::new()
        } else {
            self.game_stack[n - 1].audio()
        }
    }
}

/// Starting a game and ending it again hands the stage back to the scene
/// that was live before: that scene has been told once that it resumes, and
/// every scene below it is as it was.
pub proof fn lemma_push_then_pop(host: GameHostView, scene: SceneView)
    requires
        host.stack.len() > 0,
    ensures
        host.pushed(scene).popped().stack == host.stack.drop_last().push(
            host.stack.last().resumed(),
        ),
        host.pushed(scene).popped().stack.len() == host.stack.len(),
        host.pushed(scene).popped().stack.last() == host.stack.last().resumed(),
        forall|i: int|
            0 <= i < host.stack.len() - 1 ==> host.pushed(scene).popped().stack[i]
                == host.stack[i],
{
    assert(host.stack.push(scene).drop_last() =~= host.stack);
}

/// Ending the last scene empties the stack, and the host is done.
pub proof fn lemma_pop_last_scene(host: GameHostView)
    requires
        host.stack.len() == 1,
    ensures
        host.popped().stack.len() == 0,
        host.popped().should_exit(),
{
}

/// A step leaves every scene untouched that lies below the top both before
/// and after it.
pub proof fn lemma_step_touches_top_only(
    host: GameHostView,
    next: GameHostView,
    elapsed: u32,
    input: Input,
    i: int,
)
    requires
        host.steps_to(next, elapsed, input),
        0 <= i < host.stack.len() - 1,
        i < next.stack.len() - 1,
    ensures
        next.stack[i] == host.stack[i],
{
    let keyboard = host.keyboard && !input.pad_active();
    let top = choose|top: SceneView| #[trigger]
        host.stack.last().steps_to(top, elapsed, input) && (GameHostView {
            stack: host.stack.drop_last().push(top),
            keyboard,
            ..host
        }).settles_to(next);
    let stepped = GameHostView { stack: host.stack.drop_last().push(top), keyboard, ..host };
    assert(stepped.settles_to(next));
    assert(stepped.stack[i] == host.stack[i]);
    match stepped.stack.last().result() {
        GameUpdateResult::Nothing => {},
        GameUpdateResult::Push(name) => {
            let scene = choose|scene: SceneView| #[trigger]
                scene.is_fresh(name, stepped.ufo_width, stepped.ufo_height) && next
                    == stepped.pushed(scene);
            assert(next.stack[i] == stepped.stack[i]);
        },
        GameUpdateResult::Pop => {
            assert(stepped.stack.drop_last() =~= host.stack.drop_last());
        },
    }
}

} // verus!
