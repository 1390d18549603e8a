//! The paddle game.
//!
//! The ball travels one pixel at a time along one of the eight compass
//! headings. It is reflected by the top and bottom walls and by the paddles;
//! a side remembers that it was the last to reflect the ball and lets the
//! ball pass until another side has had its turn. A ball that reaches the
//! left or right edge next to the paddle scores for the other side and is
//! served again.

use vstd::prelude::*;
use crate::chance::{random_bool, random_isize, random_usize};
use crate::draw::{Anchor, Caption, DrawCommand, Font, Shade, Style};
use crate::geometry::{compass_step, is_compass, point_on_circle, Coord, Rect};
use crate::input::Input;
use crate::screen::{score_plus, GameUpdateResult, INPUT_DELAY, SCREEN_HEIGHT, SCREEN_WIDTH};
use crate::sound::{AudioCommand, SoundEffect, SoundId};
use crate::timer::{count_down, remaining_after, Timer};

verus! {

/// Left edge of the human's paddle and of the computer's.
pub const PADDLE_X_H: isize = 0;

pub const PADDLE_X_C: isize = 154;

/// Width and height of a paddle.
pub const PADDLE_WIDTH: isize = 6;

pub const PADDLE_HEIGHT: isize = 30;

/// Where the top of both paddles is put for a serve.
pub const PADDLE_SERVE_Y: isize = 83;

/// Microseconds between two moves of the ball.
pub const BALL_MOVE_RATE: i64 = 10_000;

/// Pixels a paddle moves at a time.
pub const PADDLE_MOVE_DISTANCE: isize = 2;

/// Microseconds a paddle rests after a move.
pub const PADDLE_REST: i64 = 100;

/// Where the ball is served from, and the range of heights it is served at.
pub const SERVE_X: isize = 40;

pub const SERVE_Y_MIN: isize = 40;

pub const SERVE_Y_MAX: isize = 100;

/// Radius of the ball.
pub const BALL_RADIUS: isize = 5;

/// No coordinate of the ball goes beyond this distance from the origin: a
/// ball that has strayed so far stays where it is.
pub const FIELD_LIMIT: isize = 1_000_000;

/// A side of the court that can reflect the ball.
#[derive(Clone, Copy, Debug, PartialEq, Eq, Structural)]
pub enum Direction {
    Top,
    Left,
    Right,
    Bottom,
}

/// A compass heading mirrored at a horizontal wall: up becomes down and down
/// up, left stays left and right stays right.
pub open spec fn reflected_at_wall(degrees: int) -> int {
    (540 - degrees) % 360
}

/// A compass heading mirrored at a paddle: left becomes right and right left,
/// up stays up and down stays down.
pub open spec fn reflected_at_paddle(degrees: int) -> int {
    (360 - degrees) % 360
}

/// One side of the game: its paddle and its score.
#[derive(Clone, Copy, Debug, PartialEq, Eq, Structural)]
pub struct Player {
    pub paddle: Rect,
    /// Expires when the paddle may move again.
    pub next_move: Timer,
    pub score: usize,
}

impl Player {
    /// The size and the ranges a paddle keeps to.
    pub open spec fn wf(self) -> bool {
        &&& self.paddle.right == self.paddle.left + PADDLE_WIDTH
        &&& self.paddle.bottom == self.paddle.top + PADDLE_HEIGHT
        &&& -1000 <= self.paddle.left <= 1000
        &&& -1000 <= self.paddle.top <= 1000
    }

    /// The side with its paddle moved by `dy` and at rest.
    pub open spec fn moved(self, dy: int) -> Player {
        Player {
            paddle: Rect {
                top: (self.paddle.top + dy) as isize,
                bottom: (self.paddle.bottom + dy) as isize,
                ..self.paddle
            },
            next_move: Timer { remaining: self.next_move.period, ..self.next_move },
            ..self
        }
    }

    /// The side with its paddle put where it stands for a serve.
    pub open spec fn lined_up(self, x: isize) -> Player {
        Player {
            paddle: Rect {
                left: x,
                top: PADDLE_SERVE_Y,
                right: (x + (self.paddle.right - self.paddle.left)) as isize,
                bottom: (PADDLE_SERVE_Y + (self.paddle.bottom - self.paddle.top)) as isize,
            },
            ..self
        }
    }

    /// Whether the paddle is as the game expects it.
    pub fn is_valid(&self) -> (ok: bool)
        ensures
            ok == self.wf(),
    {
        -1000 <= self.paddle.left && self.paddle.left <= 1000 && -1000 <= self.paddle.top
            && self.paddle.top <= 1000 && self.paddle.right == self.paddle.left + PADDLE_WIDTH
            && self.paddle.bottom == self.paddle.top + PADDLE_HEIGHT
    }

    /// A side whose paddle stands at the top of the screen with its left edge
    /// at `x`.
    pub fn new(x: isize) -> (player: Player)
        requires
            -1000 <= x <= 1000 - 6,
        ensures
            player == (Player {
                paddle: Rect { left: x, top: 0, right: (x + 6) as isize, bottom: 30 },
                next_move: Timer { remaining: PADDLE_REST, period: PADDLE_REST, looping: false },
                score: 0,
            }),
            player.wf(),
    {
        Player {
            paddle: Rect { left: x, top: 0, right: x + PADDLE_WIDTH, bottom: PADDLE_HEIGHT },
            next_move: Timer::new_once(PADDLE_REST),
            score: 0,
        }
    }
}

/// The ball.
#[derive(Clone, Copy, Debug, PartialEq, Eq, Structural)]
pub struct Ball {
    /// Middle of the ball.
    pub center: Coord,
    /// Compass heading in degrees: 0 is up the screen, 90 to the right.
    pub direction: isize,
    /// Microseconds until the ball moves again; due when zero or below.
    pub next_move: i64,
    /// The side that reflected the ball last.
    pub last_bounce_side: Direction,
}

/// Whether a point lies within the bounds the ball is kept to.
pub open spec fn in_field(x: int, y: int) -> bool {
    -FIELD_LIMIT <= x <= FIELD_LIMIT && -FIELD_LIMIT <= y <= FIELD_LIMIT
}

impl Ball {
    /// What holds of the ball between steps.
    pub open spec fn wf(self) -> bool {
        is_compass(self.direction as int) && in_field(self.center.x as int, self.center.y as int)
    }

    /// The heading after a reflection at `side`.
    pub open spec fn reflected(self, side: Direction) -> isize {
        match side {
            Direction::Top => reflected_at_wall(self.direction as int) as isize,
            Direction::Bottom => reflected_at_wall(self.direction as int) as isize,
            Direction::Left => reflected_at_paddle(self.direction as int) as isize,
            Direction::Right => reflected_at_paddle(self.direction as int) as isize,
        }
    }

    /// The ball after it touched `side`: reflected, unless that side was the
    /// last to reflect it.
    pub open spec fn bounced(self, side: Direction) -> Ball {
        if self.last_bounce_side != side {
            Ball { direction: self.reflected(side), last_bounce_side: side, ..self }
        } else {
            self
        }
    }

    /// The ball one pixel further along its heading, or where it is when
    /// that pixel lies outside the field.
    pub open spec fn pushed(self) -> Ball {
        let step = compass_step(self.direction as int);
        if in_field(self.center.x + step.0, self.center.y + step.1) {
            Ball {
                center: Coord {
                    x: (self.center.x + step.0) as isize,
                    y: (self.center.y + step.1) as isize,
                },
                next_move: BALL_MOVE_RATE,
                ..self
            }
        } else {
            Ball { next_move: BALL_MOVE_RATE, ..self }
        }
    }

    /// Whether the ball is as the game expects it.
    pub fn is_valid(&self) -> (ok: bool)
        ensures
            ok == self.wf(),
    {
        0 <= self.direction && self.direction < 360 && self.direction % 45 == 0 && -FIELD_LIMIT
            <= self.center.x && self.center.x <= FIELD_LIMIT && -FIELD_LIMIT <= self.center.y
            && self.center.y <= FIELD_LIMIT
    }

    /// The ball as it lies before the first serve.
    pub fn new() -> (ball: Ball)
        ensures
            ball == (Ball {
                center: Coord { x: 40, y: 40 },
                direction: 135,
                next_move: 0,
                last_bounce_side: Direction::Left,
            }),
            ball.wf(),
    {
        Ball {
            last_bounce_side: Direction::Left,
            center: Coord { x: 40, y: 40 },
            direction: 135,
            next_move: 0,
        }
    }

    /// Moves the ball one pixel along its heading.
    pub fn push(&mut self)
        requires
            old(self).wf(),
        ensures
            *final(self) == old(self).pushed(),
            final(self).wf(),
    {
        let next = point_on_circle(self.center, 1, self.direction);
        if -FIELD_LIMIT <= next.x && next.x <= FIELD_LIMIT && -FIELD_LIMIT <= next.y && next.y
            <= FIELD_LIMIT {
            self.center = next;
        }
        self.next_move = BALL_MOVE_RATE;
    }

    /// Lets the ball touch `side`.
    pub fn bounce(&mut self, side: Direction) -> (turned: bool)
        requires
            old(self).wf(),
        ensures
            *final(self) == old(self).bounced(side),
            turned == (old(self).last_bounce_side != side),
            final(self).wf(),
            final(self).last_bounce_side == side,
    {
        if self.last_bounce_side != side {
            self.direction = match side {
                Direction::Top => (540 - self.direction) % 360,
                Direction::Bottom => (540 - self.direction) % 360,
                Direction::Left => (360 - self.direction) % 360,
                Direction::Right => (360 - self.direction) % 360,
            };
            self.last_bounce_side = side;
            true
        } else {
            false
        }
    }
}

/// The draws a step may use.
#[derive(Clone, Copy, Debug, PartialEq, Eq, Structural)]
pub struct Rolls {
    /// Whether the computer's paddle follows the ball on this step.
    pub cpu_moves: bool,
    /// The height the ball is served at after a miss.
    pub serve_y: isize,
    /// The heading the ball is served with after a miss.
    pub serve_heading: isize,
}

impl Rolls {
    /// Whether the draws are ones the game makes: a height within the serving
    /// range and one of the two headings to the right.
    pub open spec fn wf(self) -> bool {
        &&& SERVE_Y_MIN <= self.serve_y < SERVE_Y_MAX
        &&& (self.serve_heading == 45 || self.serve_heading == 135)
    }
}

impl Rolls {
    /// Whether the draws are ones the game makes.
    pub fn is_valid(&self) -> (ok: bool)
        ensures
            ok == self.wf(),
    {
        SERVE_Y_MIN <= self.serve_y && self.serve_y < SERVE_Y_MAX && (self.serve_heading == 45
            || self.serve_heading == 135)
    }
}

/// The game as the contracts see it.
pub struct PongView {
    pub human: Player,
    pub cpu: Player,
    pub ball: Ball,
    pub serving: bool,
    pub result: GameUpdateResult,
    pub paddle: SoundEffect,
    pub miss: SoundEffect,
    pub wall: SoundEffect,
    pub input_timer: Timer,
    /// The audio commands of the latest step.
    pub audio: Seq<AudioCommand>,
}

impl PongView {
    /// The game as it starts: both paddles at the top, the ball at rest
    /// with its first heading, waiting for the serve.
    pub open spec fn fresh() -> PongView {
        PongView {
                human: Player {
                    paddle: Rect { left: 0, top: 0, right: 6, bottom: 30 },
                    next_move: Timer { remaining: PADDLE_REST, period: PADDLE_REST, looping: false },
                    score: 0,
                },
                cpu: Player {
                    paddle: Rect { left: 154, top: 0, right: 160, bottom: 30 },
                    next_move: Timer { remaining: PADDLE_REST, period: PADDLE_REST, looping: false },
                    score: 0,
                },
                ball: Ball {
                    center: Coord { x: 40, y: 40 },
                    direction: 135,
                    next_move: 0,
                    last_bounce_side: Direction::Left,
                },
                serving: true,
                result: GameUpdateResult::Nothing,
                paddle: SoundEffect {
                    sound: SoundId::Paddle,
                    is_playing: false,
                    duration: 200_000,
                    next_play_in: 0,
                    loops: false,
                },
                miss: SoundEffect {
                    sound: SoundId::Miss,
                    is_playing: false,
                    duration: 400_000,
                    next_play_in: 0,
                    loops: false,
                },
                wall: SoundEffect {
                    sound: SoundId::Wall,
                    is_playing: false,
                    duration: 200_000,
                    next_play_in: 0,
                    loops: false,
                },
                input_timer: Timer { remaining: 0, period: INPUT_DELAY, looping: true },
                audio: Seq::empty(),
            }
    }

    /// What holds of the game between steps.
    pub open spec fn wf(self) -> bool {
        self.human.wf() && self.cpu.wf() && self.ball.wf()
    }

    /// The three sounds updated.
    pub open spec fn sounds_updated(self, elapsed: u32) -> PongView {
        PongView {
            wall: self.wall.updated(elapsed),
            paddle: self.paddle.updated(elapsed),
            miss: self.miss.updated(elapsed),
            audio: self.miss.updated_audio(
                self.paddle.updated_audio(self.wall.updated_audio(self.audio)),
            ),
            ..self
        }
    }

    /// The buttons looked at: the serve and the way out.
    pub open spec fn buttons_read(self, input: Input) -> PongView {
        PongView {
            serving: self.serving && !input.action(),
            result: if input.leave() { GameUpdateResult::Pop } else { self.result },
            ..self
        }
    }

    /// The human's paddle moved: two pixels towards the held side when the
    /// paddle has rested and the wall is not reached. Up wins over down.
    pub open spec fn human_moved(self, elapsed: u32, input: Input) -> PongView {
        let rested = Player { next_move: self.human.next_move.updated(elapsed), ..self.human };
        PongView {
            human: if self.human.next_move.fires(elapsed) && input.up() && rested.paddle.top
                > 0 {
                rested.moved(-PADDLE_MOVE_DISTANCE)
            } else if self.human.next_move.fires(elapsed) && !input.up() && input.down()
                && rested.paddle.bottom < SCREEN_HEIGHT {
                rested.moved(PADDLE_MOVE_DISTANCE as int)
            } else {
                rested
            },
            ..self
        }
    }

    /// The side that a ball at `at` touches, if any. The walls are looked at
    /// before the paddles, and the human's paddle before the computer's.
    pub open spec fn contact(self, at: Coord) -> Option<Direction> {
        if at.y == 0 {
            Some(Direction::Top)
        } else if at.y == SCREEN_HEIGHT {
            Some(Direction::Bottom)
        } else if self.human.paddle.holds(at) {
            Some(Direction::Left)
        } else if self.cpu.paddle.holds(at) {
            Some(Direction::Right)
        } else {
            None
        }
    }

    /// The game set up for a serve at height `serve_y` with heading
    /// `serve_heading`.
    pub open spec fn served_again(self, serve_y: isize, serve_heading: isize) -> PongView {
        PongView {
            serving: true,
            ball: Ball {
                center: Coord { x: SERVE_X, y: serve_y },
                last_bounce_side: Direction::Left,
                direction: serve_heading,
                ..self.ball
            },
            human: self.human.lined_up(PADDLE_X_H),
            cpu: self.cpu.lined_up(PADDLE_X_C),
            ..self
        }
    }

    /// The game after the ball's move was resolved against what it touched
    /// at `at`, the place it moved from.
    pub open spec fn ball_judged(self, at: Coord, rolls: Rolls) -> PongView {
        match self.contact(at) {
            Some(side) => {
                let sound = if side == Direction::Top || side == Direction::Bottom {
                    self.wall
                } else {
                    self.paddle
                };
                let turned = self.ball.last_bounce_side != side;
                PongView {
                    ball: self.ball.bounced(side),
                    wall: if turned && (side == Direction::Top || side == Direction::Bottom) {
                        self.wall.played()
                    } else {
                        self.wall
                    },
                    paddle: if turned && (side == Direction::Left || side == Direction::Right) {
                        self.paddle.played()
                    } else {
                        self.paddle
                    },
                    audio: if turned {
                        sound.played_audio(self.audio)
                    } else {
                        self.audio
                    },
                    ..self
                }
            },
            None => {
                if at.x == 0 || at.x == SCREEN_WIDTH {
                    let scored = if at.x == 0 {
                        PongView {
                            cpu: Player { score: score_plus(self.cpu.score, 1), ..self.cpu },
                            ..self
                        }
                    } else {
                        PongView {
                            human: Player { score: score_plus(self.human.score, 1), ..self.human },
                            ..self
                        }
                    };
                    let again = scored.served_again(rolls.serve_y, rolls.serve_heading);
                    PongView {
                        miss: again.miss.played(),
                        audio: again.miss.played_audio(again.audio),
                        ..again
                    }
                } else {
                    self
                }
            },
        }
    }

    /// The ball's part of a step: when its move is due it moves, and what it
    /// touched where it came from is resolved; then its clock is counted
    /// down.
    pub open spec fn ball_stepped(self, elapsed: u32, rolls: Rolls) -> PongView {
        let moved = if self.ball.next_move <= 0 {
            (PongView { ball: self.ball.pushed(), ..self }).ball_judged(self.ball.center, rolls)
        } else {
            self
        };
        PongView {
            ball: Ball { next_move: remaining_after(moved.ball.next_move, elapsed), ..moved.ball },
            ..moved
        }
    }

    /// The computer's part of a step: when its paddle has rested and the draw
    /// lets it, the paddle moves two pixels towards the height `ball_y`,
    /// within the walls.
    pub open spec fn cpu_moved(self, elapsed: u32, cpu_moves: bool, ball_y: isize) -> PongView {
        let rested = Player { next_move: self.cpu.next_move.updated(elapsed), ..self.cpu };
        let middle = rested.paddle.middle().1;
        PongView {
            cpu: if self.cpu.next_move.fires(elapsed) && cpu_moves && middle < ball_y
                && rested.paddle.bottom < SCREEN_HEIGHT {
                rested.moved(PADDLE_MOVE_DISTANCE as int)
            } else if self.cpu.next_move.fires(elapsed) && cpu_moves && middle > ball_y
                && rested.paddle.top > 0 {
                rested.moved(-PADDLE_MOVE_DISTANCE)
            } else {
                rested
            },
            ..self
        }
    }

    /// The game after one step of `elapsed` microseconds under `input`, with
    /// `rolls` the draws it may use.
    pub open spec fn stepped(self, elapsed: u32, input: Input, rolls: Rolls) -> PongView {
        let ready = (PongView { audio: Seq::empty(), ..self }).sounds_updated(
            elapsed,
        ).buttons_read(input).human_moved(elapsed, input);
        if ready.serving {
            ready
        } else {
            ready.ball_stepped(elapsed, rolls).cpu_moved(
                elapsed,
                rolls.cpu_moves,
                self.ball.center.y,
            )
        }
    }
}

/// Where the two scores stand.
pub const SCORE_H_X: isize = 40;

pub const SCORE_C_X: isize = 120;

pub const SCORE_Y: isize = 6;

/// The draw command for a score.
pub open spec fn score_command(score: usize, x: isize) -> DrawCommand {
    DrawCommand::Text {
        caption: Caption::Count { label: "", value: score, width: 0 },
        pos: Coord { x, y: SCORE_Y },
        font: Font::Large,
        shade: Shade::Dark,
        anchor: Anchor::CenterTop,
    }
}

impl PongView {
    /// The draw commands for the game: the line down the middle, the two
    /// scores, the two paddles and the ball.
    pub open spec fn commands(self) -> Seq<DrawCommand> {
        seq![
            DrawCommand::Rect {
                rect: Rect { left: 79, top: 0, right: 81, bottom: SCREEN_HEIGHT },
                style: Style::Fill,
                shade: Shade::Dark,
            },
            score_command(self.human.score, SCORE_H_X),
            score_command(self.cpu.score, SCORE_C_X),
            DrawCommand::Rect {
                rect: self.human.paddle,
                style: Style::Fill,
                shade: Shade::Darkest,
            },
            DrawCommand::Rect { rect: self.cpu.paddle, style: Style::Fill, shade: Shade::Darkest },
            DrawCommand::Circle {
                center: self.ball.center,
                radius: BALL_RADIUS,
                shade: Shade::Darkest,
            },
        ]
    }
}

/// The paddle game.
pub struct Pong {
    pub human: Player,
    pub cpu: Player,
    pub ball: Ball,
    /// Whether the ball rests and waits for the serve.
    pub serving: bool,
    /// What the game asks of the scene stack.
    pub result: GameUpdateResult,
    pub paddle: SoundEffect,
    pub miss: SoundEffect,
    pub wall: SoundEffect,
    pub input_timer: Timer,
    /// The audio commands of the latest step, in the order they were given.
    pub audio: Vec<AudioCommand>,
}

impl View for Pong {
    type V = PongView;

    open spec fn view(&self) -> PongView {
        PongView {
            human: self.human,
            cpu: self.cpu,
            ball: self.ball,
            serving: self.serving,
            result: self.result,
            paddle: self.paddle,
            miss: self.miss,
            wall: self.wall,
            input_timer: self.input_timer,
            audio: self.audio@,
        }
    }
}

impl Pong {
    /// A new game, waiting for the first serve.
    pub fn new() -> (game: Pong)
        ensures
            game@ == PongView::fresh(),
            game@.wf(),
    {
        Pong {
            result: GameUpdateResult::Nothing,
            paddle: SoundEffect::new(SoundId::Paddle, 200_000),
            miss: SoundEffect::new(SoundId::Miss, 400_000),
            serving: true,
            human: Player::new(PADDLE_X_H),
            cpu: Player::new(PADDLE_X_C),
            ball: Ball::new(),
            wall: SoundEffect::new(SoundId::Wall, 200_000),
            input_timer: Timer::new(INPUT_DELAY),
            audio: Vec::new(),
        }
    }

    /// Whether the game is as its functions expect it.
    pub fn is_valid(&self) -> (ok: bool)
        ensures
            ok == self@.wf(),
    {
        self.human.is_valid() && self.cpu.is_valid() && self.ball.is_valid()
    }

    /// Sets the game up for a serve: the ball at the serving place at height
    /// `serve_y` with heading `serve_heading`, both paddles at their serving
    /// height.
    pub fn reset_play(&mut self, serve_y: isize, serve_heading: isize)
        requires
            old(self)@.wf(),
            SERVE_Y_MIN <= serve_y < SERVE_Y_MAX,
            serve_heading == 45 || serve_heading == 135,
        ensures
            final(self)@ == old(self)@.served_again(serve_y, serve_heading),
            final(self)@.wf(),
    {
        self.serving = true;
        self.ball.center = Coord { x: SERVE_X, y: serve_y };
        self.human.paddle = self.human.paddle.moved_to(Coord { x: PADDLE_X_H, y: PADDLE_SERVE_Y });
        self.cpu.paddle = self.cpu.paddle.moved_to(Coord { x: PADDLE_X_C, y: PADDLE_SERVE_Y });
        self.ball.last_bounce_side = Direction::Left;
        self.ball.direction = serve_heading;
    }

    /// The side that a ball at `at` touches, if any.
    pub fn contact(&self, at: Coord) -> (side: Option<Direction>)
        ensures
            side == self@.contact(at),
    {
        if at.y == 0 {
            Some(Direction::Top)
        } else if at.y == SCREEN_HEIGHT {
            Some(Direction::Bottom)
        } else if self.human.paddle.contains(at) {
            Some(Direction::Left)
        } else if self.cpu.paddle.contains(at) {
            Some(Direction::Right)
        } else {
            None
        }
    }

    /// Moves the human's paddle as the player steers.
    fn move_human(&mut self, elapsed: u32, input: &Input)
        requires
            old(self)@.wf(),
        ensures
            final(self)@ == old(self)@.human_moved(elapsed, *input),
            final(self)@.wf(),
    {
        if self.human.next_move.update(elapsed) {
            if input.wants_up() {
                if self.human.paddle.top > 0 {
                    self.human.paddle = self.human.paddle.translated(0, -PADDLE_MOVE_DISTANCE);
                    self.human.next_move.reset();
                }
            } else if input.wants_down() {
                if self.human.paddle.bottom < SCREEN_HEIGHT {
                    self.human.paddle = self.human.paddle.translated(0, PADDLE_MOVE_DISTANCE);
                    self.human.next_move.reset();
                }
            }
        }
    }

    /// Resolves the ball's move against what it touched at `at`.
    fn judge_ball(&mut self, at: Coord, rolls: &Rolls)
        requires
            old(self)@.wf(),
            rolls.wf(),
        ensures
            final(self)@ == old(self)@.ball_judged(at, *rolls),
            final(self)@.wf(),
    {
        match self.contact(at) {
            Some(side) => {
                if self.ball.bounce(side) {
                    match side {
                        Direction::Top => self.wall.play(&mut self.audio),
                        Direction::Bottom => self.wall.play(&mut self.audio),
                        Direction::Left => self.paddle.play(&mut self.audio),
                        Direction::Right => self.paddle.play(&mut self.audio),
                    }
                }
            },
            None => {
                if at.x == 0 {
                    self.cpu.score = self.cpu.score.saturating_add(1);
                    self.reset_play(rolls.serve_y, rolls.serve_heading);
                    self.miss.play(&mut self.audio);
                } else if at.x == SCREEN_WIDTH {
                    self.human.score = self.human.score.saturating_add(1);
                    self.reset_play(rolls.serve_y, rolls.serve_heading);
                    self.miss.play(&mut self.audio);
                }
            },
        }
    }

    /// The ball's part of a step.
    fn step_ball(&mut self, elapsed: u32, rolls: &Rolls)
        requires
            old(self)@.wf(),
            rolls.wf(),
        ensures
            final(self)@ == old(self)@.ball_stepped(elapsed, *rolls),
            final(self)@.wf(),
    {
        if self.ball.next_move <= 0 {
            let at = self.ball.center;
            self.ball.push();
            self.judge_ball(at, rolls);
        }
        self.ball.next_move = count_down(self.ball.next_move, elapsed);
    }

    /// The computer's part of a step.
    fn move_cpu(&mut self, elapsed: u32, cpu_moves: bool, ball_y: isize)
        requires
            old(self)@.wf(),
        ensures
            final(self)@ == old(self)@.cpu_moved(elapsed, cpu_moves, ball_y),
            final(self)@.wf(),
    {
        if self.cpu.next_move.update(elapsed) {
            if cpu_moves {
                let cpu_center = self.cpu.paddle.center();
                if cpu_center.y < ball_y && self.cpu.paddle.bottom < SCREEN_HEIGHT {
                    self.cpu.paddle = self.cpu.paddle.translated(0, PADDLE_MOVE_DISTANCE);
                    self.cpu.next_move.reset();
                } else if cpu_center.y > ball_y && self.cpu.paddle.top > 0 {
                    self.cpu.paddle = self.cpu.paddle.translated(0, -PADDLE_MOVE_DISTANCE);
                    self.cpu.next_move.reset();
                }
            }
        }
    }

    /// One step of the game with the draws given.
    pub fn update_with(&mut self, elapsed: u32, input: &Input, rolls: &Rolls) -> (result:
        GameUpdateResult)
        requires
            old(self)@.wf(),
            rolls.wf(),
        ensures
            final(self)@ == old(self)@.stepped(elapsed, *input, *rolls),
            result == final(self)@.result,
            final(self)@.wf(),
    {
        self.audio.clear();
        self.wall.update(elapsed, &mut self.audio);
        self.paddle.update(elapsed, &mut self.audio);
        self.miss.update(elapsed, &mut self.audio);
        if self.serving && input.wants_action() {
            self.serving = false;
        }
        if input.wants_leave() {
            self.result = GameUpdateResult::Pop;
        }
        self.move_human(elapsed, input);
        let ball_center = self.ball.center;
        if !self.serving {
            self.step_ball(elapsed, rolls);
            self.move_cpu(elapsed, rolls.cpu_moves, ball_center.y);
        }
        self.result
    }

    /// One step of the game. The draws are made at random: whether the
    /// computer's paddle follows the ball, and the height and heading of the
    /// next serve.
    pub fn update(&mut self, elapsed: u32, input: &Input) -> (result: GameUpdateResult)
        requires
            old(self)@.wf(),
        ensures
            exists|rolls: Rolls|
                rolls.wf() && final(self)@ == #[trigger] old(self)@.stepped(
                    elapsed,
                    *input,
                    rolls,
                ),
            result == final(self)@.result,
            final(self)@.wf(),
    {
        let serve_y = random_isize(SERVE_Y_MIN, SERVE_Y_MAX);
        let serve_heading: isize = if random_usize(0, 2) == 0 { 45 } else { 135 };
        let rolls = Rolls { cpu_moves: random_bool(), serve_y, serve_heading };
        self.update_with(elapsed, input, &rolls)
    }

    /// The draw commands for the game.
    pub fn render(&self) -> (out: Vec<DrawCommand>)
        ensures
            out@ == self@.commands(),
    {
        let mut out: Vec<DrawCommand> = Vec::new();
        out.push(
            DrawCommand::Rect {
                rect: Rect {
                    left: SCREEN_WIDTH / 2 - 1,
                    top: 0,
                    right: SCREEN_WIDTH / 2 + 1,
                    bottom: SCREEN_HEIGHT,
                },
                style: Style::Fill,
                shade: Shade::Dark,
            },
        );
        out.push(
            DrawCommand::Text {
                caption: Caption::Count { label: "", value: self.human.score, width: 0 },
                pos: Coord { x: SCORE_H_X, y: SCORE_Y },
                font: Font::Large,
                shade: Shade::Dark,
                anchor: Anchor::CenterTop,
            },
        );
        out.push(
            DrawCommand::Text {
                caption: Caption::Count { label: "", value: self.cpu.score, width: 0 },
                pos: Coord { x: SCORE_C_X, y: SCORE_Y },
                font: Font::Large,
                shade: Shade::Dark,
                anchor: Anchor::CenterTop,
            },
        );
        out.push(
            DrawCommand::Rect {
                rect: self.human.paddle,
                style: Style::Fill,
                shade: Shade::Darkest,
            },
        );
        out.push(
            DrawCommand::Rect { rect: self.cpu.paddle, style: Style::Fill, shade: Shade::Darkest },
        );
        out.push(
            DrawCommand::Circle {
                center: self.ball.center,
                radius: BALL_RADIUS,
                shade: Shade::Darkest,
            },
        );
        assert(out@ =~= self@.commands());
        out
    }

    /// Key releases mean nothing to this game.
    pub fn on_key_press(&mut self)
        ensures
            *final(self) == *old(self),
    {
    }

    /// Nothing is reset when the game becomes the live scene again.
    pub fn resuming(&mut self)
        ensures
            *final(self) == *old(self),
    {
    }
}

/// A ball that a wall has just reflected is let through by that wall on its
/// next visit: as long as no other side reflects it in between, touching the
/// same side again changes nothing.
pub proof fn lemma_bounce_is_latched(ball: Ball, side: Direction)
    ensures
        ball.bounced(side).last_bounce_side == side,
        ball.bounced(side).bounced(side) == ball.bounced(side),
{
}

/// A ball whose move is due and which lies on the top line is reflected by
/// the top wall if that wall was not the last to reflect it, and goes on
/// unturned if it was; either way the top wall is then the last.
pub proof fn lemma_top_wall_bounces_once(game: PongView, elapsed: u32, rolls: Rolls)
    requires
        game.ball.next_move <= 0,
        game.ball.center.y == 0,
    ensures
        game.ball_stepped(elapsed, rolls).ball.last_bounce_side == Direction::Top,
        game.ball.last_bounce_side != Direction::Top ==> game.ball_stepped(
            elapsed,
            rolls,
        ).ball.direction == reflected_at_wall(game.ball.direction as int),
        game.ball.last_bounce_side == Direction::Top ==> game.ball_stepped(
            elapsed,
            rolls,
        ).ball.direction == game.ball.direction,
        reflected_at_wall(45) == 135,
        reflected_at_wall(315) == 225,
{
}

/// A ball whose move is due and which lies on the left edge, on neither the
/// top nor the bottom line and off the human's paddle, scores for the
/// computer and is served again; on the right edge it scores for the human.
pub proof fn lemma_miss_scores_and_serves(game: PongView, elapsed: u32, rolls: Rolls)
    requires
        game.ball.next_move <= 0,
        game.contact(game.ball.center).is_none(),
        game.ball.center.x == 0 || game.ball.center.x == SCREEN_WIDTH,
    ensures
        ({
            let after = game.ball_stepped(elapsed, rolls);
            &&& after.serving
            &&& after.ball.center == (Coord { x: SERVE_X, y: rolls.serve_y })
            &&& after.ball.direction == rolls.serve_heading
            &&& after.ball.last_bounce_side == Direction::Left
            &&& game.ball.center.x == 0 ==> after.cpu.score == score_plus(game.cpu.score, 1)
                && after.human.score == game.human.score
            &&& game.ball.center.x == SCREEN_WIDTH ==> after.human.score == score_plus(
                game.human.score,
                1,
            ) && after.cpu.score == game.cpu.score
        }),
{
}

/// Reflection at a wall turns up into down and keeps left and right; at a
/// paddle it turns left into right and keeps up and down. Either way a
/// compass heading stays one, and reflecting twice gives the heading back.
pub proof fn lemma_reflection(degrees: int)
    requires
        is_compass(degrees),
    ensures
        is_compass(reflected_at_wall(degrees)),
        is_compass(reflected_at_paddle(degrees)),
        compass_step(reflected_at_wall(degrees)) == (
            compass_step(degrees).0,
            -compass_step(degrees).1,
        ),
        compass_step(reflected_at_paddle(degrees)) == (
            -compass_step(degrees).0,
            compass_step(degrees).1,
        ),
        reflected_at_wall(reflected_at_wall(degrees)) == degrees,
        reflected_at_paddle(reflected_at_paddle(degrees)) == degrees,
{
    assert(degrees == 0 || degrees == 45 || degrees == 90 || degrees == 135 || degrees == 180
        || degrees == 225 || degrees == 270 || degrees == 315);
}

} // verus!
