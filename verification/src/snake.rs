//! The growing-snake game.
//!
//! The snake lives on a grid of tiles inside a wall. It moves one tile at a
//! time, faster and faster; it grows when it eats a fruit, dies when it runs
//! into the wall or itself, and wins when it fills half the arena.

use vstd::prelude::*;
use crate::button_bar::{arranged, ButtonBar, ButtonDef, BAR_HEIGHT};
use crate::chance::random_usize;
use crate::draw::{Anchor, Caption, Controller, DrawCommand, Font, Shade, Style};
use crate::geometry::{Coord, Rect};
use crate::input::Input;
use crate::screen::{score_plus, GameUpdateResult, INPUT_DELAY, SCREEN_HEIGHT, SCREEN_WIDTH};
use crate::sound::{AudioCommand, SoundEffect, SoundId};
use crate::timer::{count_down, remaining_after, remaining_delayed, Timer};

verus! {

/// Side of a tile in pixels.
pub const TILE_SIZE: isize = 8;

/// Tiles across and down the arena, walls not counted.
pub const ARENA_WIDTH: isize = 18;

pub const ARENA_HEIGHT: isize = 14;

/// Where the arena stands on the screen.
pub const ARENA_START_X: isize = 0;

pub const ARENA_START_Y: isize = 16;

/// Microseconds between two tries to place a fruit.
pub const FRUIT_SPAWN_PERIOD: i64 = 1_666_667;

/// Microseconds until the next fruit once the last one was eaten.
pub const FRUIT_RESPAWN_DELAY: i64 = 200_000;

/// Microseconds by which every move and every fruit shorten the time between
/// moves.
pub const SPEED_CHANGE_PER_TICK: i64 = 1_000;

pub const SPEED_CHANGE_PER_FRUIT: i64 = 5_000;

/// Microseconds between moves at the start, and the least there can be.
pub const DEFAULT_MOVE_SPEED: i64 = 400_000;

pub const MIN_MOVE_SPEED: i64 = 70_000;

pub const SCORE_PER_TICK: usize = 1;

pub const SCORE_PER_FRUIT: usize = 100;

pub const SCORE_FOR_WIN: usize = 1000;

pub const MAX_FRUIT_ON_SCREEN: usize = 3;

/// Microseconds between two steps of the dying snake's shrinking.
pub const DYING_ANIM_RATE: i64 = 100_000;

/// Body length at which the game is won: half the arena.
pub const WINNING_LENGTH: usize = 126;

/// Tries made to find a free tile for a fruit.
pub const SPAWN_ATTEMPTS: usize = 200;

/// Where the game stands.
#[derive(Clone, Copy, Debug, PartialEq, Eq, Structural)]
pub enum State {
    Playing,
    Won,
    Dying,
    Dead,
}

/// The way the snake is heading.
#[derive(Clone, Copy, Debug, PartialEq, Eq, Structural)]
pub enum Direction {
    Up,
    Left,
    Right,
    Down,
}

impl Direction {
    /// The step to the next tile in this direction, as `(dx, dy)`.
    pub open spec fn step(self) -> (int, int) {
        match self {
            Direction::Up => (0, -1),
            Direction::Left => (-1, 0),
            Direction::Right => (1, 0),
            Direction::Down => (0, 1),
        }
    }

    /// The step to the next tile in this direction.
    pub fn delta(&self) -> (d: Coord)
        ensures
            (d.x as int, d.y as int) == self.step(),
    {
        match self {
            Direction::Up => Coord { x: 0, y: -1 },
            Direction::Left => Coord { x: -1, y: 0 },
            Direction::Right => Coord { x: 1, y: 0 },
            Direction::Down => Coord { x: 0, y: 1 },
        }
    }
}

/// The direction the player asks for. Of several held at once the first of
/// up, left, right, down counts.
pub open spec fn wanted_direction(input: Input) -> Option<Direction> {
    if input.up() {
        Some(Direction::Up)
    } else if input.left() {
        Some(Direction::Left)
    } else if input.right() {
        Some(Direction::Right)
    } else if input.down() {
        Some(Direction::Down)
    } else {
        None
    }
}

/// Whether `tile` lies inside the wall.
pub open spec fn in_arena(tile: Coord) -> bool {
    1 <= tile.x <= ARENA_WIDTH && 1 <= tile.y <= ARENA_HEIGHT
}

/// Whether `tile` is part of the wall around the arena.
pub open spec fn is_wall(tile: Coord) -> bool {
    tile.x == 0 || tile.y == 0 || tile.x == ARENA_WIDTH + 1 || tile.y == ARENA_HEIGHT + 1
}

/// Whether a fruit may be placed on `tile`: fruits keep one tile away from
/// the right and the lower wall.
pub open spec fn in_orchard(tile: Coord) -> bool {
    1 <= tile.x < ARENA_WIDTH && 1 <= tile.y < ARENA_HEIGHT
}

/// The tile next to `tile` in direction `direction`.
pub open spec fn neighbour(tile: Coord, direction: Direction) -> Coord {
    Coord {
        x: (tile.x + direction.step().0) as isize,
        y: (tile.y + direction.step().1) as isize,
    }
}

/// Index of the first of `tiles` at or after `from` that equals `tile`, or the
/// length of `tiles` when there is none.
pub open spec fn position_of(tiles: Seq<Coord>, tile: Coord, from: int) -> int
    decreases tiles.len() - from,
{
    if from >= tiles.len() {
        tiles.len() as int
    } else if tiles[from] == tile {
        from
    } else {
        position_of(tiles, tile, from + 1)
    }
}

/// The time between moves after it was shortened by `change`, never less
/// than the least there can be.
pub open spec fn faster(move_speed: i64, change: i64) -> i64 {
    if move_speed - change < MIN_MOVE_SPEED {
        MIN_MOVE_SPEED
    } else {
        (move_speed - change) as i64
    }
}

/// The game as the contracts see it.
pub struct SnakeView {
    /// Tiles of the snake, head first.
    pub body: Seq<Coord>,
    pub fruits: Seq<Coord>,
    pub next_fruit_spawn: Timer,
    pub result: GameUpdateResult,
    pub move_speed: i64,
    pub next_move: i64,
    pub score: usize,
    pub state: State,
    pub direction: Direction,
    pub next_dying_anim: Timer,
    pub apple: SoundEffect,
    pub death: SoundEffect,
    pub input_timer: Timer,
    pub button_bar: ButtonBar,
    /// The audio commands of the latest step.
    pub audio: Seq<AudioCommand>,
}

/// The buttons the game's bar shows.
pub open spec fn snake_buttons() -> Seq<(&'static str, ButtonDef)> {
    seq![("EXIT", ButtonDef::Escape), ("SNAKE", ButtonDef::Cursor)]
}

impl SnakeView {
    /// Whether this is a game as it starts: a snake of three tiles in the
    /// middle of the arena heading right, no fruit yet, every timer due.
    pub open spec fn is_fresh(self) -> bool {
        &&& self.body == seq![
            Coord { x: 9, y: 7 },
            Coord { x: 8, y: 7 },
            Coord { x: 7, y: 7 },
        ]
        &&& self.fruits == Seq::<Coord>::empty()
        &&& self.next_fruit_spawn == (Timer {
            remaining: 0,
            period: FRUIT_SPAWN_PERIOD,
            looping: true,
        })
        &&& self.result == GameUpdateResult::Nothing
        &&& self.move_speed == DEFAULT_MOVE_SPEED
        &&& self.next_move == 0
        &&& self.score == 0
        &&& self.state == State::Playing
        &&& self.direction == Direction::Right
        &&& self.next_dying_anim == (Timer { remaining: 0, period: DYING_ANIM_RATE, looping: true })
        &&& self.apple == (SoundEffect {
            sound: SoundId::Apple,
            is_playing: false,
            duration: 250_000,
            next_play_in: 0,
            loops: false,
        })
        &&& self.death == (SoundEffect {
            sound: SoundId::SnakeDeath,
            is_playing: false,
            duration: 3_200_000,
            next_play_in: 0,
            loops: false,
        })
        &&& self.input_timer == (Timer { remaining: 0, period: INPUT_DELAY, looping: true })
        &&& self.audio == Seq::<AudioCommand>::empty()
        &&& self.button_bar.width == SCREEN_WIDTH
        &&& self.button_bar.position == (Coord { x: 0, y: 148 })
        &&& self.button_bar.buttons@ == arranged(SCREEN_WIDTH as usize, snake_buttons())
    }

    /// What holds of the game between steps: the snake lies inside the wall
    /// on tiles that are all different, it has a head and a neck while the
    /// game is played, and the time between its moves is within its limits.
    pub open spec fn wf(self) -> bool {
        &&& forall|i: int| 0 <= i < self.body.len() ==> in_arena(#[trigger] self.body[i])
        &&& self.body.no_duplicates()
        &&& self.state == State::Playing ==> self.body.len() >= 2
        &&& MIN_MOVE_SPEED <= self.move_speed <= DEFAULT_MOVE_SPEED
        &&& self.fruits.len() <= MAX_FRUIT_ON_SCREEN
        &&& forall|i: int| 0 <= i < self.fruits.len() ==> in_orchard(#[trigger] self.fruits[i])
        &&& self.button_bar.wf()
    }

    /// The tile the head moves to next.
    pub open spec fn next_tile(self) -> Coord {
        neighbour(self.body[0], self.direction)
    }

    /// Whether moving the head on runs the snake into the wall or itself.
    pub open spec fn crashes(self) -> bool {
        is_wall(self.next_tile()) || self.body.contains(self.next_tile())
    }

    /// Whether a fruit lies on the tile the head moves to next.
    pub open spec fn reaches_fruit(self) -> bool {
        self.fruits.contains(self.next_tile())
    }

    /// Whether the snake may turn to `direction`: not straight back into its
    /// neck.
    pub open spec fn may_turn(self, direction: Direction) -> bool {
        self.body[1] != neighbour(self.body[0], direction)
    }

    /// The game after the player's input was read: on a firing of the input
    /// timer the snake takes the wanted direction unless that would reverse
    /// it, and the way out is looked at.
    pub open spec fn steered(self, elapsed: u32, input: Input) -> SnakeView {
        let turned = match wanted_direction(input) {
            Some(direction) => {
                if self.input_timer.fires(elapsed) && self.state == State::Playing
                    && self.may_turn(direction) {
                    SnakeView {
                        direction,
                        input_timer: Timer {
                            remaining: self.input_timer.period,
                            ..self.input_timer
                        },
                        ..self
                    }
                } else {
                    SnakeView { input_timer: self.input_timer.updated(elapsed), ..self }
                }
            },
            None => SnakeView { input_timer: self.input_timer.updated(elapsed), ..self },
        };
        SnakeView {
            result: if input.leave() { GameUpdateResult::Pop } else { self.result },
            ..turned
        }
    }

    /// Both sounds updated.
    pub open spec fn sounds_updated(self, elapsed: u32) -> SnakeView {
        SnakeView {
            apple: self.apple.updated(elapsed),
            death: self.death.updated(elapsed),
            audio: self.death.updated_audio(self.apple.updated_audio(self.audio)),
            ..self
        }
    }

    /// Whether the snake has reached the winning length.
    pub open spec fn has_won(self) -> bool {
        self.body.len() == WINNING_LENGTH
    }

    /// Whether a fruit is to be placed on this step: the game is played and
    /// not yet won, a fruit is missing, and the spawn timer fires.
    pub open spec fn fruit_due(self, elapsed: u32) -> bool {
        &&& self.state == State::Playing
        &&& !self.has_won()
        &&& self.fruits.len() < MAX_FRUIT_ON_SCREEN
        &&& self.next_fruit_spawn.fires(elapsed)
    }

    /// Whether `tile` can take a new fruit: it is in the orchard and neither
    /// a fruit nor the snake lies on it.
    pub open spec fn is_free(self, tile: Coord) -> bool {
        in_orchard(tile) && !self.fruits.contains(tile) && !self.body.contains(tile)
    }

    /// Whether a search for a free tile that drew the tiles `draws`, in that
    /// order, ends with `slot`: all draws are tiles of the orchard, the search
    /// stops at the first free one and hands it out, and it gives up, with
    /// nothing, only when it has drawn as many tiles as it may and none was
    /// free.
    pub open spec fn search_ends_with(self, draws: Seq<Coord>, slot: Option<Coord>) -> bool {
        &&& draws.len() <= SPAWN_ATTEMPTS
        &&& forall|i: int| 0 <= i < draws.len() ==> in_orchard(#[trigger] draws[i])
        &&& match slot {
            Some(tile) => {
                &&& draws.len() > 0
                &&& tile == draws.last()
                &&& self.is_free(tile)
                &&& forall|i: int| 0 <= i < draws.len() - 1 ==> !self.is_free(#[trigger] draws[i])
            },
            None => {
                &&& draws.len() == SPAWN_ATTEMPTS
                &&& forall|i: int| 0 <= i < draws.len() ==> !self.is_free(#[trigger] draws[i])
            },
        }
    }

    /// The game after the spawn timer was looked at, with `slot` the tile
    /// that was found for a new fruit, if any.
    pub open spec fn fruit_spawned(self, elapsed: u32, slot: Option<Coord>) -> SnakeView {
        if self.state == State::Playing && !self.has_won() && self.fruits.len()
            < MAX_FRUIT_ON_SCREEN {
            SnakeView {
                next_fruit_spawn: self.next_fruit_spawn.updated(elapsed),
                fruits: match slot {
                    Some(tile) => if self.next_fruit_spawn.fires(elapsed) && self.is_free(tile) {
                        self.fruits.push(tile)
                    } else {
                        self.fruits
                    },
                    None => self.fruits,
                },
                ..self
            }
        } else {
            self
        }
    }

    /// The snake after it ate the fruit on the next tile: one tile longer.
    pub open spec fn fed(self) -> SnakeView {
        let fruits = self.fruits.remove(position_of(self.fruits, self.next_tile(), 0));
        SnakeView {
            fruits,
            apple: self.apple.played(),
            audio: self.apple.played_audio(self.audio),
            body: self.body.insert(0, self.next_tile()),
            next_move: self.move_speed,
            score: score_plus(self.score, SCORE_PER_FRUIT),
            move_speed: faster(self.move_speed, SPEED_CHANGE_PER_FRUIT),
            next_fruit_spawn: if fruits.len() == 0 {
                Timer { remaining: FRUIT_RESPAWN_DELAY, ..self.next_fruit_spawn }
            } else {
                self.next_fruit_spawn
            },
            ..self
        }
    }

    /// The snake after a plain move: the head on the next tile, the tail
    /// gone.
    pub open spec fn crawled(self) -> SnakeView {
        SnakeView {
            body: self.body.drop_last().insert(0, self.next_tile()),
            next_move: self.move_speed,
            score: score_plus(self.score, SCORE_PER_TICK),
            move_speed: faster(self.move_speed, SPEED_CHANGE_PER_TICK),
            ..self
        }
    }

    /// The game after the state's own part of a step.
    pub open spec fn advanced(self, elapsed: u32) -> SnakeView {
        match self.state {
            State::Playing => {
                if self.has_won() {
                    SnakeView {
                        score: score_plus(self.score, SCORE_FOR_WIN),
                        state: State::Won,
                        ..self
                    }
                } else if self.next_move < 0 {
                    if self.crashes() {
                        SnakeView {
                            state: State::Dying,
                            death: self.death.played(),
                            audio: self.death.played_audio(self.audio),
                            ..self
                        }
                    } else {
                        let moved = if self.reaches_fruit() {
                            self.fed()
                        } else {
                            self.crawled()
                        };
                        SnakeView {
                            next_move: remaining_after(moved.next_move, elapsed),
                            ..moved
                        }
                    }
                } else {
                    SnakeView { next_move: remaining_after(self.next_move, elapsed), ..self }
                }
            },
            State::Dying => {
                let cleared = SnakeView {
                    fruits: Seq::empty(),
                    next_dying_anim: self.next_dying_anim.updated(elapsed),
                    ..self
                };
                if self.next_dying_anim.fires(elapsed) {
                    if self.body.len() == 0 {
                        SnakeView { state: State::Dead, ..cleared }
                    } else {
                        SnakeView { body: self.body.drop_last(), ..cleared }
                    }
                } else {
                    cleared
                }
            },
            State::Won => self,
            State::Dead => self,
        }
    }

    /// The game as the state's own part of a step finds it: input read,
    /// sounds updated and the fruit, if one was due, placed.
    pub open spec fn prepared(self, elapsed: u32, input: Input, slot: Option<Coord>) -> SnakeView {
        (SnakeView { audio: Seq::empty(), ..self }).steered(elapsed, input).sounds_updated(
            elapsed,
        ).fruit_spawned(elapsed, slot)
    }

    /// The game after one step of `elapsed` microseconds under `input`, with
    /// `slot` the tile that was found for a new fruit, if any.
    pub open spec fn stepped(self, elapsed: u32, input: Input, slot: Option<Coord>) -> SnakeView {
        self.prepared(elapsed, input, slot).advanced(elapsed)
    }
}

/// Where the arena's tiles are drawn from: the arena's corner, one pixel in.
pub const ARENA_ORIGIN_X: isize = 1;

pub const ARENA_ORIGIN_Y: isize = 16;

/// Side of the square drawn for a tile of the wall or of the snake.
pub const TILE_INNER: isize = 6;

/// Radius of a fruit.
pub const FRUIT_RADIUS: isize = 3;

/// Tiles from wall to wall, across and down.
pub const WALL_SPAN_X: isize = 19;

pub const WALL_SPAN_Y: isize = 15;

/// The square drawn for the tile `(x, y)`.
pub open spec fn tile_square(x: int, y: int, shade: Shade) -> DrawCommand {
    DrawCommand::Rect {
        rect: Rect {
            left: (ARENA_ORIGIN_X + x * 8) as isize,
            top: (ARENA_ORIGIN_Y + y * 8) as isize,
            right: (ARENA_ORIGIN_X + x * 8 + 6) as isize,
            bottom: (ARENA_ORIGIN_Y + y * 8 + 6) as isize,
        },
        style: Style::Fill,
        shade,
    }
}

/// The disc drawn for a fruit on `tile`.
pub open spec fn fruit_disc(tile: Coord) -> DrawCommand {
    DrawCommand::Circle {
        center: Coord {
            x: (ARENA_ORIGIN_X + tile.x * 8 + 4) as isize,
            y: (ARENA_ORIGIN_Y + tile.y * 8 + 4) as isize,
        },
        radius: FRUIT_RADIUS,
        shade: Shade::Darkest,
    }
}

/// The wall: the top and bottom rows tile by tile from the left, a tile of
/// the top row before the one below it, then the left and right columns from
/// the top, a tile of the left column before the one across.
pub open spec fn wall_commands() -> Seq<DrawCommand> {
    wall_rows() + wall_columns()
}

/// The top and bottom rows of the wall.
pub open spec fn wall_rows() -> Seq<DrawCommand> {
    Seq::new(
        40,
        |k: int|
            tile_square(k / 2, if k % 2 == 0 { 0 } else { WALL_SPAN_Y as int }, Shade::Light),
    )
}

/// The left and right columns of the wall.
pub open spec fn wall_columns() -> Seq<DrawCommand> {
    Seq::new(
        32,
        |k: int|
            tile_square(if k % 2 == 0 { 0 } else { WALL_SPAN_X as int }, k / 2, Shade::Light),
    )
}

/// The middle of the arena on the screen.
pub fn mid_point() -> (middle: Coord)
    ensures
        middle == (Coord { x: 80, y: 80 }),
{
    Coord {
        x: ARENA_START_X + (ARENA_WIDTH / 2 + 1) * TILE_SIZE,
        y: ARENA_START_Y + (ARENA_HEIGHT / 2 + 1) * TILE_SIZE,
    }
}

/// The frame and the words shown over the arena at the end of a round.
pub open spec fn banner(left: isize, right: isize, words: &'static str) -> Seq<DrawCommand> {
    seq![
        DrawCommand::Rect {
            rect: Rect { left, top: 67, right, bottom: 90 },
            style: Style::Fill,
            shade: Shade::Lightest,
        },
        DrawCommand::Rect {
            rect: Rect { left, top: 67, right, bottom: 90 },
            style: Style::Stroke,
            shade: Shade::Darkest,
        },
        DrawCommand::Rect {
            rect: Rect {
                left: (left + 1) as isize,
                top: 68,
                right: (right - 1) as isize,
                bottom: 89,
            },
            style: Style::Stroke,
            shade: Shade::Dark,
        },
        DrawCommand::Rect {
            rect: Rect {
                left: (left + 2) as isize,
                top: 69,
                right: (right - 2) as isize,
                bottom: 88,
            },
            style: Style::Stroke,
            shade: Shade::Light,
        },
        DrawCommand::Text {
            caption: Caption::Words(words),
            pos: Coord { x: 80, y: 80 },
            font: Font::Standard8x10,
            shade: Shade::Darkest,
            anchor: Anchor::Center,
        },
    ]
}

impl SnakeView {
    /// The squares of the snake, head first.
    pub open spec fn body_commands(self) -> Seq<DrawCommand> {
        Seq::new(
            self.body.len(),
            |i: int| tile_square(self.body[i].x as int, self.body[i].y as int, Shade::Darkest),
        )
    }

    /// The discs of the fruits.
    pub open spec fn fruit_commands(self) -> Seq<DrawCommand> {
        Seq::new(self.fruits.len(), |i: int| fruit_disc(self.fruits[i]))
    }

    /// The score line: darkest once the round is over.
    pub open spec fn score_command(self) -> DrawCommand {
        DrawCommand::Text {
            caption: Caption::Count { label: "SCORE: ", value: self.score, width: 8 },
            pos: Coord { x: 3, y: 3 },
            font: Font::Standard8x10,
            shade: if self.state != State::Playing { Shade::Darkest } else { Shade::Dark },
            anchor: Anchor::LeftTop,
        }
    }

    /// The banner of a round that is won or lost; nothing while it goes on.
    pub open spec fn banner_commands(self) -> Seq<DrawCommand> {
        match self.state {
            State::Won => banner(35, 120, "YOU WIN!"),
            State::Dead => banner(15, 140, "YOU'RE DEAD!"),
            _ => Seq::empty(),
        }
    }

    /// The draw commands for the game: the button bar, the wall, the snake,
    /// the fruits, the score and the banner.
    pub open spec fn commands(self, controller: Option<Controller>) -> Seq<DrawCommand> {
        self.button_bar.commands(controller) + wall_commands() + self.body_commands()
            + self.fruit_commands() + seq![self.score_command()] + self.banner_commands()
    }
}

/// The snake game.
pub struct Snake {
    /// Tiles of the snake, head first.
    pub body: Vec<Coord>,
    /// Tiles on which a fruit lies.
    pub fruits: Vec<Coord>,
    /// Paces the placing of fruits.
    pub next_fruit_spawn: Timer,
    /// What the game asks of the scene stack.
    pub result: GameUpdateResult,
    /// Microseconds between two moves.
    pub move_speed: i64,
    /// Microseconds until the snake moves again; due when below zero.
    pub next_move: i64,
    pub score: usize,
    pub state: State,
    pub direction: Direction,
    /// Paces the shrinking of the dying snake.
    pub next_dying_anim: Timer,
    pub apple: SoundEffect,
    pub death: SoundEffect,
    /// Paces the reading of the direction keys.
    pub input_timer: Timer,
    pub button_bar: ButtonBar,
    /// The audio commands of the latest step, in the order they were given.
    pub audio: Vec<AudioCommand>,
}

impl View for Snake {
    type V = SnakeView;

    open spec fn view(&self) -> SnakeView {
        SnakeView {
            body: self.body@,
            fruits: self.fruits@,
            next_fruit_spawn: self.next_fruit_spawn,
            result: self.result,
            move_speed: self.move_speed,
            next_move: self.next_move,
            score: self.score,
            state: self.state,
            direction: self.direction,
            next_dying_anim: self.next_dying_anim,
            apple: self.apple,
            death: self.death,
            input_timer: self.input_timer,
            button_bar: self.button_bar,
            audio: self.audio@,
        }
    }
}

/// Whether `tile` is among `tiles`.
fn contains_tile(tiles: &Vec<Coord>, tile: Coord) -> (found: bool)
    ensures
        found == tiles@.contains(tile),
{
    let mut i: usize = 0;
    while i < tiles.len()
        invariant
            i <= tiles@.len(),
            forall|k: int| 0 <= k < i ==> tiles@[k] != tile,
        decreases tiles@.len() - i,
    {
        if tiles[i] == tile {
            return true;
        }
        i = i + 1;
    }
    false
}

/// Index of the first of `tiles` that equals `tile`, or their number when
/// none does.
fn find_tile(tiles: &Vec<Coord>, tile: Coord) -> (at: usize)
    ensures
        at == position_of(tiles@, tile, 0),
        at <= tiles@.len(),
        at < tiles@.len() <==> tiles@.contains(tile),
{
    let mut i: usize = 0;
    while i < tiles.len()
        invariant
            i <= tiles@.len(),
            position_of(tiles@, tile, 0) == position_of(tiles@, tile, i as int),
            forall|k: int| 0 <= k < i ==> tiles@[k] != tile,
        decreases tiles@.len() - i,
    {
        if tiles[i] == tile {
            return i;
        }
        i = i + 1;
    }
    i
}

/// A new head that is not on the snake keeps its tiles all different.
pub proof fn lemma_new_head_keeps_distinct(body: Seq<Coord>, head: Coord)
    requires
        body.no_duplicates(),
        !body.contains(head),
    ensures
        body.insert(0, head).no_duplicates(),
        body.drop_last().no_duplicates() || body.len() == 0,
        body.len() > 0 ==> body.drop_last().insert(0, head).no_duplicates(),
{
    let grown = body.insert(0, head);
    assert forall|i: int, j: int| 0 <= i < grown.len() && 0 <= j < grown.len() && i != j implies grown[i]
        != grown[j] by {
        if i > 0 {
            assert(grown[i] == body[i - 1]);
        }
        if j > 0 {
            assert(grown[j] == body[j - 1]);
        }
    }
    if body.len() > 0 {
        let short = body.drop_last();
        assert forall|i: int, j: int| 0 <= i < short.len() && 0 <= j < short.len() && i != j implies short[i]
            != short[j] by {
            assert(short[i] == body[i] && short[j] == body[j]);
        }
        let moved = short.insert(0, head);
        assert forall|i: int, j: int| 0 <= i < moved.len() && 0 <= j < moved.len() && i != j implies moved[i]
            != moved[j] by {
            if i > 0 {
                assert(moved[i] == body[i - 1]);
            }
            if j > 0 {
                assert(moved[j] == body[j - 1]);
            }
        }
    }
}

impl Snake {
    /// A new game: a snake of three tiles heading right, no fruit yet.
    pub fn new() -> (game: Snake)
        ensures
            game@.is_fresh(),
            game@.wf(),
    {
        let mut body: Vec<Coord> = Vec::new();
        body.push(Coord { x: 9, y: 7 });
        body.push(Coord { x: 8, y: 7 });
        body.push(Coord { x: 7, y: 7 });
        let buttons = [("EXIT", ButtonDef::Escape), ("SNAKE", ButtonDef::Cursor)];
        let bar = ButtonBar::new(
            Coord { x: 0, y: SCREEN_HEIGHT - BAR_HEIGHT },
            SCREEN_WIDTH as usize,
            buttons.as_slice(),
        );
        proof {
            assert(buttons@ =~= snake_buttons());
        }
        let game = Snake {
            body,
            fruits: Vec::new(),
            next_fruit_spawn: Timer::new(FRUIT_SPAWN_PERIOD),
            next_move: 0,
            move_speed: DEFAULT_MOVE_SPEED,
            score: 0,
            result: GameUpdateResult::Nothing,
            state: State::Playing,
            next_dying_anim: Timer::new(DYING_ANIM_RATE),
            direction: Direction::Right,
            apple: SoundEffect::new(SoundId::Apple, 250_000),
            death: SoundEffect::new(SoundId::SnakeDeath, 3_200_000),
            input_timer: Timer::new(INPUT_DELAY),
            button_bar: bar,
            audio: Vec::new(),
        };
        assert(game@.body =~= seq![
            Coord { x: 9, y: 7 },
            Coord { x: 8, y: 7 },
            Coord { x: 7, y: 7 },
        ]);
        game
    }

    /// Whether the game is as its functions expect it.
    pub fn is_valid(&self) -> (ok: bool)
        ensures
            ok == self@.wf(),
    {
        if (self.state == State::Playing && self.body.len() < 2) || self.move_speed
            < MIN_MOVE_SPEED || self.move_speed > DEFAULT_MOVE_SPEED || self.fruits.len()
            > MAX_FRUIT_ON_SCREEN || !self.button_bar.is_valid() {
            return false;
        }
        let mut i: usize = 0;
        while i < self.fruits.len()
            invariant
                i <= self.fruits@.len(),
                forall|k: int| 0 <= k < i ==> in_orchard(#[trigger] self.fruits@[k]),
            decreases self.fruits@.len() - i,
        {
            let tile = self.fruits[i];
            if !(1 <= tile.x && tile.x < ARENA_WIDTH && 1 <= tile.y && tile.y < ARENA_HEIGHT) {
                assert(!in_orchard(#[trigger] self.fruits@[i as int]));
                return false;
            }
            i = i + 1;
        }
        let mut i: usize = 0;
        while i < self.body.len()
            invariant
                i <= self.body@.len(),
                forall|k: int| 0 <= k < i ==> in_arena(#[trigger] self.body@[k]),
                forall|a: int, b: int| 0 <= a < b < i ==> self.body@[a] != self.body@[b],
            decreases self.body@.len() - i,
        {
            let tile = self.body[i];
            if !(1 <= tile.x && tile.x <= ARENA_WIDTH && 1 <= tile.y && tile.y <= ARENA_HEIGHT) {
                assert(!in_arena(#[trigger] self.body@[i as int]));
                return false;
            }
            let mut j: usize = 0;
            while j < i
                invariant
                    j <= i < self.body@.len(),
                    tile == self.body@[i as int],
                    forall|a: int| 0 <= a < j ==> self.body@[a] != tile,
                decreases i - j,
            {
                if self.body[j] == tile {
                    assert(self.body@[j as int] == self.body@[i as int]);
                    assert(!self.body@.no_duplicates());
                    return false;
                }
                j = j + 1;
            }
            i = i + 1;
        }
        assert(self.body@.no_duplicates()) by {
            assert forall|a: int, b: int|
                0 <= a < self.body@.len() && 0 <= b < self.body@.len() && a != b implies self.body@[a]
                != self.body@[b] by {
                if a < b {
                } else {
                    assert(self.body@[b] != self.body@[a]);
                }
            }
        }
        true
    }

    /// Whether `tile` can take a new fruit.
    pub fn is_free(&self, tile: Coord) -> (free: bool)
        ensures
            free == self@.is_free(tile),
    {
        1 <= tile.x && tile.x < ARENA_WIDTH && 1 <= tile.y && tile.y < ARENA_HEIGHT
            && !contains_tile(&self.fruits, tile) && !contains_tile(&self.body, tile)
    }

    /// Looks for a free tile for a fruit by drawing tiles of the orchard at
    /// random, one after the other, until one is free or a fixed number of
    /// tiles has been drawn. `Some` of the first free tile drawn; `None` when
    /// every one of them was taken.
    pub fn find_empty_slot(&self) -> (slot: Option<Coord>)
        ensures
            exists|draws: Seq<Coord>| #[trigger] self@.search_ends_with(draws, slot),
            match slot {
                Some(tile) => self@.is_free(tile),
                None => exists|tile: Coord| in_orchard(tile) && !self@.is_free(tile),
            },
    {
        let ghost mut draws: Seq<Coord> = Seq::empty();
        let mut tries: usize = 0;
        while tries < SPAWN_ATTEMPTS
            invariant
                tries <= SPAWN_ATTEMPTS,
                draws.len() == tries,
                forall|i: int| 0 <= i < draws.len() ==> in_orchard(#[trigger] draws[i]),
                forall|i: int| 0 <= i < draws.len() ==> !self@.is_free(#[trigger] draws[i]),
            decreases SPAWN_ATTEMPTS - tries,
        {
            let x = random_usize(1, 18);
            let y = random_usize(1, 14);
            let xy = Coord { x: x as isize, y: y as isize };
            let ghost before = draws;
            proof {
                draws = draws.push(xy);
                assert forall|i: int| 0 <= i < draws.len() implies in_orchard(
                    #[trigger] draws[i],
                ) by {
                    if i < before.len() {
                        assert(draws[i] == before[i]);
                    }
                }
            }
            if self.is_free(xy) {
                proof {
                    assert forall|i: int| 0 <= i < draws.len() - 1 implies !self@.is_free(
                        #[trigger] draws[i],
                    ) by {
                        assert(draws[i] == before[i]);
                    }
                    assert(self@.search_ends_with(draws, Some(xy)));
                }
                return Some(xy);
            }
            proof {
                assert forall|i: int| 0 <= i < draws.len() implies !self@.is_free(
                    #[trigger] draws[i],
                ) by {
                    if i < before.len() {
                        assert(draws[i] == before[i]);
                    }
                }
            }
            tries = tries + 1;
        }
        proof {
            assert(self@.search_ends_with(draws, None));
            assert(in_orchard(draws[0]) && !self@.is_free(draws[0]));
        }
        None
    }

    /// Whether a fruit is to be placed on a step of `elapsed` microseconds.
    pub fn fruit_due(&self, elapsed: u32) -> (due: bool)
        ensures
            due == self@.fruit_due(elapsed),
    {
        self.state == State::Playing && self.body.len() != WINNING_LENGTH && self.fruits.len()
            < MAX_FRUIT_ON_SCREEN && self.next_fruit_spawn.will_fire(elapsed)
    }

    /// The tile next to `tile` in direction `direction`.
    fn neighbour_of(tile: Coord, direction: Direction) -> (next: Coord)
        requires
            in_arena(tile),
        ensures
            next == neighbour(tile, direction),
    {
        let d = direction.delta();
        Coord { x: tile.x + d.x, y: tile.y + d.y }
    }

    /// Reads the player's input.
    fn steer(&mut self, elapsed: u32, input: &Input)
        requires
            old(self)@.wf(),
        ensures
            final(self)@ == old(self)@.steered(elapsed, *input),
            final(self)@.wf(),
    {
        if self.input_timer.update(elapsed) && self.state == State::Playing {
            let wanted = if input.wants_up() {
                Some(Direction::Up)
            } else if input.wants_left() {
                Some(Direction::Left)
            } else if input.wants_right() {
                Some(Direction::Right)
            } else if input.wants_down() {
                Some(Direction::Down)
            } else {
                None
            };
            if let Some(direction) = wanted {
                assert(in_arena(self@.body[0]));
                let next = Self::neighbour_of(self.body[0], direction);
                if self.body[1] != next {
                    self.input_timer.reset();
                    self.direction = direction;
                }
            }
        }
        if input.wants_leave() {
            self.result = GameUpdateResult::Pop;
        }
    }

    /// Looks at the spawn timer and places a fruit on `slot` when one is due
    /// and the tile is free.
    fn spawn_fruit(&mut self, elapsed: u32, slot: Option<Coord>)
        requires
            old(self)@.wf(),
        ensures
            final(self)@ == old(self)@.fruit_spawned(elapsed, slot),
            final(self)@.wf(),
    {
        if self.state == State::Playing && self.body.len() != WINNING_LENGTH && self.fruits.len()
            < MAX_FRUIT_ON_SCREEN {
            if self.next_fruit_spawn.update(elapsed) {
                if let Some(tile) = slot {
                    if self.is_free(tile) {
                        self.fruits.push(tile);
                    }
                }
            }
        }
    }

    /// Moves the snake one tile on, eating the fruit there if there is one.
    fn crawl(&mut self, elapsed: u32)
        requires
            old(self)@.wf(),
            old(self)@.state == State::Playing,
            !old(self)@.has_won(),
            old(self)@.next_move < 0,
        ensures
            final(self)@ == old(self)@.advanced(elapsed),
            final(self)@.wf(),
    {
        assert(in_arena(self@.body[0]));
        let next_tile = Self::neighbour_of(self.body[0], self.direction);
        if next_tile.x == 0 || next_tile.y == 0 || next_tile.x == ARENA_WIDTH + 1 || next_tile.y
            == ARENA_HEIGHT + 1 || contains_tile(&self.body, next_tile) {
            self.state = State::Dying;
            self.death.play(&mut self.audio);
            return ;
        }
        proof {
            lemma_new_head_keeps_distinct(self@.body, next_tile);
        }
        let at = find_tile(&self.fruits, next_tile);
        if at < self.fruits.len() {
            self.fruits.remove(at);
            self.apple.play(&mut self.audio);
            self.body.insert(0, next_tile);
            self.next_move = self.move_speed;
            self.score = self.score.saturating_add(SCORE_PER_FRUIT);
            self.move_speed = self.move_speed - SPEED_CHANGE_PER_FRUIT;
            if self.fruits.len() == 0 {
                self.next_fruit_spawn.trigger();
                self.next_fruit_spawn.delay(FRUIT_RESPAWN_DELAY);
            }
        } else {
            self.body.pop();
            self.body.insert(0, next_tile);
            self.next_move = self.move_speed;
            self.score = self.score.saturating_add(SCORE_PER_TICK);
            self.move_speed = self.move_speed - SPEED_CHANGE_PER_TICK;
        }
        if self.move_speed < MIN_MOVE_SPEED {
            self.move_speed = MIN_MOVE_SPEED;
        }
        self.next_move = count_down(self.next_move, elapsed);
        proof {
            let before = old(self)@;
            assert forall|i: int| 0 <= i < self@.body.len() implies in_arena(
                #[trigger] self@.body[i],
            ) by {
                if i > 0 {
                    assert(self@.body[i] == before.body[i - 1]);
                }
            }
        }
    }

    /// The state's own part of a step.
    fn advance(&mut self, elapsed: u32)
        requires
            old(self)@.wf(),
        ensures
            final(self)@ == old(self)@.advanced(elapsed),
            final(self)@.wf(),
    {
        match self.state {
            State::Playing => {
                if self.body.len() == WINNING_LENGTH {
                    self.score = self.score.saturating_add(SCORE_FOR_WIN);
                    self.state = State::Won;
                } else if self.next_move < 0 {
                    self.crawl(elapsed);
                } else {
                    self.next_move = count_down(self.next_move, elapsed);
                }
            },
            State::Won => {},
            State::Dying => {
                self.fruits.clear();
                if self.next_dying_anim.update(elapsed) {
                    if self.body.len() == 0 {
                        self.state = State::Dead;
                    } else {
                        proof {
                            let body = self@.body;
                            assert forall|i: int, j: int|
                                0 <= i < body.drop_last().len() && 0 <= j < body.drop_last().len()
                                    && i != j implies body.drop_last()[i] != body.drop_last()[j] by {
                                assert(body.drop_last()[i] == body[i]);
                                assert(body.drop_last()[j] == body[j]);
                            }
                        }
                        self.body.pop();
                    }
                }
            },
            State::Dead => {},
        }
    }

    /// One step of the game in which `slot` is the tile offered for a new
    /// fruit. The fruit is placed only when one is due and the tile is free.
    pub fn update_with(&mut self, elapsed: u32, input: &Input, slot: Option<Coord>) -> (result:
        GameUpdateResult)
        requires
            old(self)@.wf(),
        ensures
            final(self)@ == old(self)@.stepped(elapsed, *input, slot),
            result == final(self)@.result,
            final(self)@.wf(),
    {
        self.audio.clear();
        self.steer(elapsed, input);
        self.apple.update(elapsed, &mut self.audio);
        self.death.update(elapsed, &mut self.audio);
        self.spawn_fruit(elapsed, slot);
        self.advance(elapsed);
        self.result
    }

    /// One step of the game. When a fruit is due, a free tile is looked for
    /// at random; the fruit is skipped when none is found.
    pub fn update(&mut self, elapsed: u32, input: &Input) -> (result: GameUpdateResult)
        requires
            old(self)@.wf(),
        ensures
            exists|slot: Option<Coord>| final(self)@ == #[trigger] old(self)@.stepped(
                elapsed,
                *input,
                slot,
            ),
            result == final(self)@.result,
            final(self)@.wf(),
    {
        let slot = if self.fruit_due(elapsed) {
            self.find_empty_slot()
        } else {
            None
        };
        self.update_with(elapsed, input, slot)
    }

    /// Appends the frame and the words shown at the end of a round.
    fn push_banner(out: &mut Vec<DrawCommand>, left: isize, right: isize, words: &'static str)
        requires
            -1000 <= left <= 1000,
            -1000 <= right <= 1000,
        ensures
            final(out)@ == old(out)@ + banner(left, right, words),
    {
        out.push(
            DrawCommand::Rect {
                rect: Rect { left, top: 67, right, bottom: 90 },
                style: Style::Fill,
                shade: Shade::Lightest,
            },
        );
        out.push(
            DrawCommand::Rect {
                rect: Rect { left, top: 67, right, bottom: 90 },
                style: Style::Stroke,
                shade: Shade::Darkest,
            },
        );
        out.push(
            DrawCommand::Rect {
                rect: Rect { left: left + 1, top: 68, right: right - 1, bottom: 89 },
                style: Style::Stroke,
                shade: Shade::Dark,
            },
        );
        out.push(
            DrawCommand::Rect {
                rect: Rect { left: left + 2, top: 69, right: right - 2, bottom: 88 },
                style: Style::Stroke,
                shade: Shade::Light,
            },
        );
        out.push(
            DrawCommand::Text {
                caption: Caption::Words(words),
                pos: mid_point(),
                font: Font::Standard8x10,
                shade: Shade::Darkest,
                anchor: Anchor::Center,
            },
        );
        assert(out@ =~= old(out)@ + banner(left, right, words));
    }

    /// The square drawn for the tile `(x, y)`.
    fn square(x: isize, y: isize, shade: Shade) -> (command: DrawCommand)
        requires
            -1000 <= x <= 1000,
            -1000 <= y <= 1000,
        ensures
            command == tile_square(x as int, y as int, shade),
    {
        DrawCommand::Rect {
            rect: Rect {
                left: ARENA_ORIGIN_X + x * TILE_SIZE,
                top: ARENA_ORIGIN_Y + y * TILE_SIZE,
                right: ARENA_ORIGIN_X + x * TILE_SIZE + TILE_INNER,
                bottom: ARENA_ORIGIN_Y + y * TILE_SIZE + TILE_INNER,
            },
            style: Style::Fill,
            shade,
        }
    }

    /// Appends the wall.
    fn push_wall(out: &mut Vec<DrawCommand>)
        ensures
            final(out)@ == old(out)@ + wall_commands(),
    {
        let mut x: isize = 0;
        while x <= WALL_SPAN_X
            invariant
                0 <= x <= WALL_SPAN_X + 1,
                out@ =~= old(out)@ + wall_rows().subrange(0, 2 * x),
            decreases WALL_SPAN_X + 1 - x,
        {
            out.push(Self::square(x, 0, Shade::Light));
            out.push(Self::square(x, WALL_SPAN_Y, Shade::Light));
            x = x + 1;
        }
        assert(wall_rows().subrange(0, 40) =~= wall_rows());
        let ghost top = out@;
        let mut y: isize = 0;
        while y <= WALL_SPAN_Y
            invariant
                0 <= y <= WALL_SPAN_Y + 1,
                out@ =~= top + wall_columns().subrange(0, 2 * y),
            decreases WALL_SPAN_Y + 1 - y,
        {
            out.push(Self::square(0, y, Shade::Light));
            out.push(Self::square(WALL_SPAN_X, y, Shade::Light));
            y = y + 1;
        }
        assert(wall_columns().subrange(0, 32) =~= wall_columns());
        assert(out@ =~= old(out)@ + (wall_rows() + wall_columns()));
    }

    /// The draw commands for the game. The icons of the button bar are those
    /// of `controller`, or of the keyboard when there is none.
    pub fn render(&self, controller: Option<Controller>) -> (out: Vec<DrawCommand>)
        requires
            self@.wf(),
        ensures
            out@ == self@.commands(controller),
    {
        let mut out: Vec<DrawCommand> = Vec::new();
        self.button_bar.render(&mut out, controller);
        Self::push_wall(&mut out);
        let ghost framed = out@;
        let n = self.body.len();
        let mut i: usize = 0;
        while i < n
            invariant
                i <= n,
                n == self.body@.len(),
                self@.wf(),
                out@ =~= framed + self@.body_commands().subrange(0, i as int),
            decreases n - i,
        {
            let segment = self.body[i];
            assert(in_arena(self@.body[i as int]));
            out.push(Self::square(segment.x, segment.y, Shade::Darkest));
            i = i + 1;
        }
        assert(self@.body_commands().subrange(0, n as int) =~= self@.body_commands());
        let ghost bodied = out@;
        let m = self.fruits.len();
        let mut i: usize = 0;
        while i < m
            invariant
                i <= m,
                m == self.fruits@.len(),
                self@.wf(),
                out@ =~= bodied + self@.fruit_commands().subrange(0, i as int),
            decreases m - i,
        {
            let fruit = self.fruits[i];
            assert(in_orchard(self@.fruits[i as int]));
            out.push(
                DrawCommand::Circle {
                    center: Coord {
                        x: ARENA_ORIGIN_X + fruit.x * TILE_SIZE + 4,
                        y: ARENA_ORIGIN_Y + fruit.y * TILE_SIZE + 4,
                    },
                    radius: FRUIT_RADIUS,
                    shade: Shade::Darkest,
                },
            );
            i = i + 1;
        }
        assert(self@.fruit_commands().subrange(0, m as int) =~= self@.fruit_commands());
        out.push(
            DrawCommand::Text {
                caption: Caption::Count { label: "SCORE: ", value: self.score, width: 8 },
                pos: Coord { x: 3, y: 3 },
                font: Font::Standard8x10,
                shade: if self.state != State::Playing { Shade::Darkest } else { Shade::Dark },
                anchor: Anchor::LeftTop,
            },
        );
        let ghost scored = out@;
        match self.state {
            State::Won => Self::push_banner(&mut out, 35, 120, "YOU WIN!"),
            State::Dead => Self::push_banner(&mut out, 15, 140, "YOU'RE DEAD!"),
            _ => {},
        }
        proof {
            assert(scored =~= self.button_bar.commands(controller) + wall_commands()
                + self@.body_commands() + self@.fruit_commands() + seq![self@.score_command()]);
            assert(out@ =~= self@.commands(controller));
        }
        out
    }

    /// Key releases mean nothing to this game.
    pub fn on_key_press(&mut self)
        ensures
            *final(self) == *old(self),
    {
    }

    /// Nothing is reset when the game becomes the live scene again.
    pub fn resuming(&mut self)
        ensures
            *final(self) == *old(self),
    {
    }
}

/// On a step on which the snake moves without crashing, its body grows by
/// exactly one tile if a fruit lies on the tile its head moves to, and keeps
/// its length otherwise; either way the head is on that tile afterwards.
pub proof fn lemma_snake_grows_only_on_fruit(
    game: SnakeView,
    elapsed: u32,
    input: Input,
    slot: Option<Coord>,
)
    requires
        game.wf(),
        game.prepared(elapsed, input, slot).state == State::Playing,
        !game.prepared(elapsed, input, slot).has_won(),
        game.prepared(elapsed, input, slot).next_move < 0,
        !game.prepared(elapsed, input, slot).crashes(),
    ensures
        ({
            let ready = game.prepared(elapsed, input, slot);
            let after = game.stepped(elapsed, input, slot);
            &&& ready.body == game.body
            &&& after.state == State::Playing
            &&& after.body[0] == ready.next_tile()
            &&& ready.reaches_fruit() ==> after.body.len() == game.body.len() + 1
            &&& ready.reaches_fruit() ==> after.body == game.body.insert(0, ready.next_tile())
            &&& ready.reaches_fruit() ==> after.fruits.len() == ready.fruits.len() - 1
            &&& !ready.reaches_fruit() ==> after.body.len() == game.body.len()
            &&& !ready.reaches_fruit() ==> after.fruits == ready.fruits
        }),
{
    let ready = game.prepared(elapsed, input, slot);
    if ready.reaches_fruit() {
        lemma_position_of(ready.fruits, ready.next_tile(), 0);
    }
}

/// On a step on which the snake is due to move into the wall or into itself
/// it starts dying, where it lies; on every other step of a game that is
/// played and not yet won it stays alive.
pub proof fn lemma_snake_dies_only_on_crash(
    game: SnakeView,
    elapsed: u32,
    input: Input,
    slot: Option<Coord>,
)
    requires
        game.wf(),
        game.state == State::Playing,
        !game.has_won(),
    ensures
        ({
            let ready = game.prepared(elapsed, input, slot);
            let after = game.stepped(elapsed, input, slot);
            &&& ready.next_move == game.next_move
            &&& ready.body == game.body
            &&& after.state == State::Dying <==> game.next_move < 0 && ready.crashes()
            &&& after.state == State::Dying || after.state == State::Playing
            &&& after.state == State::Dying ==> after.body == game.body
        }),
{
}

/// Every move shortens the time between moves until the least is reached,
/// and nothing else changes it.
pub proof fn lemma_snake_speeds_up(
    game: SnakeView,
    elapsed: u32,
    input: Input,
    slot: Option<Coord>,
)
    requires
        game.wf(),
    ensures
        ({
            let ready = game.prepared(elapsed, input, slot);
            let after = game.stepped(elapsed, input, slot);
            let moves = game.state == State::Playing && !game.has_won() && game.next_move < 0
                && !ready.crashes();
            &&& MIN_MOVE_SPEED <= after.move_speed <= game.move_speed
            &&& moves && game.move_speed > MIN_MOVE_SPEED ==> after.move_speed < game.move_speed
            &&& moves ==> after.move_speed == faster(
                game.move_speed,
                if ready.reaches_fruit() {
                    SPEED_CHANGE_PER_FRUIT
                } else {
                    SPEED_CHANGE_PER_TICK
                },
            )
            &&& !moves ==> after.move_speed == game.move_speed
        }),
{
}

/// A search for a free tile cannot come back with nothing while every tile of
/// the orchard is free.
pub proof fn lemma_search_succeeds_in_a_free_orchard(
    game: SnakeView,
    draws: Seq<Coord>,
    slot: Option<Coord>,
)
    requires
        game.search_ends_with(draws, slot),
        forall|tile: Coord| in_orchard(tile) ==> #[trigger] game.is_free(tile),
    ensures
        slot.is_some(),
        slot == Some(draws[0]),
{
    if slot.is_none() {
        assert(in_orchard(draws[0]));
        assert(game.is_free(draws[0]));
    } else {
        if draws.len() > 1 {
            assert(in_orchard(draws[0]));
            assert(game.is_free(draws[0]));
        }
    }
}

/// What `position_of` finds: the first index from `from` on at which `tile`
/// stands, or the length when it stands nowhere from there on.
pub proof fn lemma_position_of(tiles: Seq<Coord>, tile: Coord, from: int)
    requires
        0 <= from <= tiles.len(),
    ensures
        from <= position_of(tiles, tile, from) <= tiles.len(),
        position_of(tiles, tile, from) < tiles.len() ==> tiles[position_of(tiles, tile, from)]
            == tile,
        forall|k: int| from <= k < position_of(tiles, tile, from) ==> tiles[k] != tile,
    decreases tiles.len() - from,
{
    if from < tiles.len() && tiles[from] != tile {
        lemma_position_of(tiles, tile, from + 1);
    }
}

} // verus!
