//! The alien swarm: a grid of alive flags that moves as one block.

use vstd::prelude::*;
use crate::chance::random_usize;
use crate::draw::{DrawCommand, Picture};
use crate::geometry::{Coord, Rect};
use crate::screen::SCREEN_WIDTH;
use crate::sound::{AudioCommand, SoundEffect, SoundId};
use crate::timer::{count_down, remaining_after};

verus! {

/// Rows of the grid.
pub const ALIEN_ROWS: usize = 5;

/// Aliens in a row.
pub const ALIEN_ROW_SIZE: usize = 9;

/// Width and height of an alien's hit box.
pub const ALIEN_WIDTH: isize = 11;

pub const ALIEN_HEIGHT: isize = 8;

/// Distance from one alien to the next in its row, and from row to row.
pub const ALIEN_PITCH_X: isize = 15;

pub const ALIEN_PITCH_Y: isize = 12;

/// Margin kept between the outermost alien and the side wall.
pub const ALIEN_MARGIN: isize = 2;

/// Where the grid's top left alien starts.
pub const ALIEN_START_X: isize = 3;

pub const ALIEN_START_Y: isize = 18;

/// Microseconds between two moves of a full swarm.
pub const ALIEN_SPEED_START: i64 = 1_000_000;

/// Microseconds by which every kill shortens the time between moves.
pub const SPEED_DELTA_PER_INVADER: u32 = 40_000;

/// Microseconds between two shots of the swarm.
pub const ALIEN_ATTACK_RATE: i64 = 5_000_000;

/// Microseconds between two moves of a shot of the swarm.
pub const ALIEN_ATTACK_SPEED: i64 = 100_000;

/// Most shots the swarm may have in flight.
pub const MAX_ALIENS_ATTACKS: usize = 4;

/// Lowest the grid's top edge may stand before the swarm has landed.
pub const ALIEN_LOWEST_Y: isize = 147;

/// A shot fired by the swarm, falling one pixel per move.
#[derive(Clone, Copy, Debug, PartialEq, Eq, Structural)]
pub struct EnemyAttack {
    pub xy: Coord,
    /// Microseconds until the shot moves again.
    pub next_move: i64,
}

impl EnemyAttack {
    /// The shot's hit box.
    pub open spec fn hit_box(self) -> Rect {
        Rect {
            left: self.xy.x,
            top: self.xy.y,
            right: (self.xy.x + 5) as isize,
            bottom: (self.xy.y + 8) as isize,
        }
    }

    /// The shot's hit box: five pixels wide and eight high from its position.
    pub fn bounds(&self) -> (r: Rect)
        requires
            self.xy.x + 5 <= isize::MAX,
            self.xy.y + 8 <= isize::MAX,
        ensures
            r == self.hit_box(),
    {
        Rect::new_with_size(self.xy, 5, 8)
    }
}

/// Index of the cell in `row` and `col` in the row-by-row list of flags.
pub open spec fn cell_index(row: int, col: int) -> int {
    row * 9 + col
}

/// Whether the alien in `row` and `col` is alive.
pub open spec fn cell_alive(alive: Seq<bool>, row: int, col: int) -> bool {
    0 <= row < 5 && 0 <= col < 9 && alive[cell_index(row, col)]
}

/// Whether any alien in column `col` is alive.
pub open spec fn column_occupied(alive: Seq<bool>, col: int) -> bool {
    cell_alive(alive, 0, col) || cell_alive(alive, 1, col) || cell_alive(alive, 2, col)
        || cell_alive(alive, 3, col) || cell_alive(alive, 4, col)
}

/// Whether any alien in row `row` is alive.
pub open spec fn row_occupied(alive: Seq<bool>, row: int) -> bool {
    exists|col: int| cell_alive(alive, row, col)
}

/// The first occupied column at or after `col`, or 9 when there is none.
pub open spec fn first_occupied_col(alive: Seq<bool>, col: int) -> int
    decreases 9 - col,
{
    if col >= 9 {
        9
    } else if column_occupied(alive, col) {
        col
    } else {
        first_occupied_col(alive, col + 1)
    }
}

/// The last occupied column at or before `col`, or -1 when there is none.
pub open spec fn last_occupied_col(alive: Seq<bool>, col: int) -> int
    decreases col + 1,
{
    if col < 0 {
        -1
    } else if column_occupied(alive, col) {
        col
    } else {
        last_occupied_col(alive, col - 1)
    }
}

/// The last occupied row at or before `row`, or -1 when there is none.
pub open spec fn last_occupied_row(alive: Seq<bool>, row: int) -> int
    decreases row + 1,
{
    if row < 0 {
        -1
    } else if row_occupied(alive, row) {
        row
    } else {
        last_occupied_row(alive, row - 1)
    }
}

/// Number of aliens alive among the first `n` cells.
pub open spec fn count_alive(alive: Seq<bool>, n: int) -> int
    decreases n,
{
    if n <= 0 {
        0
    } else {
        count_alive(alive, n - 1) + if alive[n - 1] { 1int } else { 0int }
    }
}

/// Index of the first alive cell at or after `from` whose hit box, with the
/// grid at `offset`, holds `xy`; 45 when there is none.
pub open spec fn first_hit(alive: Seq<bool>, offset: Coord, xy: Coord, from: int) -> int
    decreases 45 - from,
{
    if from >= 45 {
        45
    } else if alive[from] && cell_box(offset, from / 9, from % 9).holds(xy) {
        from
    } else {
        first_hit(alive, offset, xy, from + 1)
    }
}

/// Index of the `k`-th alive cell, counting from 0 and from cell `from` on; 45
/// when fewer are alive.
pub open spec fn nth_alive(alive: Seq<bool>, k: int, from: int) -> int
    decreases 45 - from,
{
    if from >= 45 {
        45
    } else if alive[from] {
        if k <= 0 {
            from
        } else {
            nth_alive(alive, k - 1, from + 1)
        }
    } else {
        nth_alive(alive, k, from + 1)
    }
}

/// Top left corner of the alien in `row` and `col` when the grid is at
/// `offset`.
pub open spec fn cell_corner(offset: Coord, row: int, col: int) -> (int, int) {
    (offset.x + col * 15, offset.y + row * 12)
}

/// Hit box of the alien in `row` and `col` when the grid is at `offset`.
pub open spec fn cell_box(offset: Coord, row: int, col: int) -> Rect {
    Rect {
        left: (offset.x + col * 15) as isize,
        top: (offset.y + row * 12) as isize,
        right: (offset.x + col * 15 + 11) as isize,
        bottom: (offset.y + row * 12 + 8) as isize,
    }
}

/// The point below the middle of the alien in `row` and `col`, from which it
/// fires.
pub open spec fn cell_muzzle(offset: Coord, row: int, col: int) -> Coord {
    Coord { x: (offset.x + col * 15 + 5) as isize, y: (offset.y + row * 12 + 8) as isize }
}

/// The picture of the aliens of row `row`.
pub open spec fn picture_of_row(row: int) -> Picture {
    if row == 0 {
        Picture::InvaderTop
    } else if row <= 2 {
        Picture::InvaderMiddle
    } else {
        Picture::InvaderBottom
    }
}

/// The pictures of the aliens alive among the first `n` cells, row by row.
pub open spec fn alien_commands(alive: Seq<bool>, offset: Coord, n: int) -> Seq<DrawCommand>
    decreases n,
{
    if n <= 0 {
        Seq::empty()
    } else {
        let rest = alien_commands(alive, offset, n - 1);
        if alive[n - 1] {
            rest.push(
                DrawCommand::Picture {
                    picture: picture_of_row((n - 1) / 9),
                    pos: Coord {
                        x: (offset.x + ((n - 1) % 9) * 15) as isize,
                        y: (offset.y + ((n - 1) / 9) * 12) as isize,
                    },
                },
            )
        } else {
            rest
        }
    }
}

/// The swarm as the contracts see it.
pub struct AliensView {
    pub alive: Seq<bool>,
    pub offset: Coord,
    pub last_move: i64,
    pub dir: isize,
    pub move_rate: i64,
    pub death_sound: SoundEffect,
    pub move_sound_low: SoundEffect,
    pub move_sound_high: SoundEffect,
    pub next_move_sound: usize,
    pub attacks: Seq<EnemyAttack>,
    pub next_attack: i64,
}

/// Whether any alien of the grid is alive.
pub open spec fn some_alive(alive: Seq<bool>) -> bool {
    exists|i: int| 0 <= i < 45 && alive[i]
}

impl AliensView {
    pub open spec fn any_alive(self) -> bool {
        some_alive(self.alive)
    }

    /// Left edge of the swarm with its margin, if any alien is alive.
    pub open spec fn left_most_x(self) -> Option<int> {
        if self.any_alive() {
            Some(self.offset.x + first_occupied_col(self.alive, 0) * 15 - 2)
        } else {
            None
        }
    }

    /// Right edge of the swarm with its margin, if any alien is alive.
    pub open spec fn right_most_x(self) -> Option<int> {
        if self.any_alive() {
            Some(self.offset.x + last_occupied_col(self.alive, 8) * 15 + 11 + 2)
        } else {
            None
        }
    }

    /// Bottom edge of the swarm, if any alien is alive.
    pub open spec fn bottom_most_y(self) -> Option<int> {
        if self.any_alive() {
            Some(self.offset.y + last_occupied_row(self.alive, 4) * 12 + 8)
        } else {
            None
        }
    }

    /// Whether the swarm moves on this step.
    pub open spec fn moves_now(self) -> bool {
        self.last_move < 0 && self.any_alive()
    }

    /// Whether the swarm touches the left wall.
    pub open spec fn at_left_wall(self) -> bool {
        self.any_alive() && self.offset.x + first_occupied_col(self.alive, 0) * 15 - 2 <= 0
    }

    /// Whether the swarm touches the right wall.
    pub open spec fn at_right_wall(self) -> bool {
        self.any_alive() && self.offset.x + last_occupied_col(self.alive, 8) * 15 + 13
            >= SCREEN_WIDTH
    }

    /// The sound the next move plays.
    pub open spec fn move_sound(self) -> SoundEffect {
        if self.next_move_sound == 0 {
            self.move_sound_low
        } else {
            self.move_sound_high
        }
    }

    /// The swarm after one move: a step sideways in the old direction, then,
    /// for a wall it touched before the step, a turn away from it and a row
    /// down.
    pub open spec fn moved(self) -> AliensView {
        let down = (if self.at_left_wall() { 1int } else { 0int }) + (if self.at_right_wall() {
            1int
        } else {
            0int
        });
        let dir: isize = if self.at_right_wall() {
            -1isize
        } else if self.at_left_wall() {
            1isize
        } else {
            self.dir
        };
        let ready = self.move_sound().is_ready();
        AliensView {
            offset: Coord {
                x: (self.offset.x + self.dir) as isize,
                y: (self.offset.y + down) as isize,
            },
            dir,
            last_move: self.move_rate,
            move_sound_low: if ready && self.next_move_sound == 0 {
                self.move_sound_low.played()
            } else {
                self.move_sound_low
            },
            move_sound_high: if ready && self.next_move_sound != 0 {
                self.move_sound_high.played()
            } else {
                self.move_sound_high
            },
            next_move_sound: if ready {
                if self.next_move_sound == 1 { 0usize } else { 1usize }
            } else {
                self.next_move_sound
            },
            ..self
        }
    }

    /// The swarm after one step of `elapsed` microseconds. An empty swarm
    /// whose move is due stands still and does not count time.
    pub open spec fn updated(self, elapsed: u32) -> AliensView {
        if self.last_move < 0 {
            if self.any_alive() {
                let m = self.moved();
                AliensView { last_move: remaining_after(m.last_move, elapsed), ..m }
            } else {
                self
            }
        } else {
            AliensView { last_move: remaining_after(self.last_move, elapsed), ..self }
        }
    }

    /// The commands after one step.
    pub open spec fn updated_audio(self, audio: Seq<AudioCommand>) -> Seq<AudioCommand> {
        if self.moves_now() && self.move_sound().is_ready() {
            self.move_sound().played_audio(audio)
        } else {
            audio
        }
    }

    /// Whether a player's shot at `xy` hits an alien.
    pub open spec fn is_hit_at(self, xy: Coord) -> bool {
        first_hit(self.alive, self.offset, xy, 0) < 45
    }

    /// The swarm after a player's shot at `xy` was tested against it: the
    /// first alive alien whose hit box holds the point dies, and the swarm
    /// speeds up.
    pub open spec fn shot_at(self, xy: Coord) -> AliensView {
        if self.is_hit_at(xy) {
            AliensView {
                alive: self.alive.update(first_hit(self.alive, self.offset, xy, 0), false),
                move_rate: remaining_after(self.move_rate, SPEED_DELTA_PER_INVADER),
                ..self
            }
        } else {
            self
        }
    }

    /// The point from which the `pick`-th alien alive fires.
    pub open spec fn muzzle_of(self, pick: int) -> Coord {
        let cell = nth_alive(self.alive, pick, 0);
        cell_muzzle(self.offset, cell / 9, cell % 9)
    }
}

/// The alien swarm.
pub struct Aliens {
    /// Alive flags, row by row from the top.
    pub alive: Vec<bool>,
    /// Position of the top left alien.
    pub offset: Coord,
    /// Microseconds until the swarm moves again; due when below zero.
    pub last_move: i64,
    /// Direction of travel: 1 to the right, -1 to the left.
    pub dir: isize,
    /// Microseconds between two moves.
    pub move_rate: i64,
    pub death_sound: SoundEffect,
    pub move_sound_low: SoundEffect,
    pub move_sound_high: SoundEffect,
    /// Which of the two move sounds plays next: 0 the low one, 1 the high one.
    pub next_move_sound: usize,
    /// Shots in flight.
    pub attacks: Vec<EnemyAttack>,
    /// Microseconds until the swarm fires again.
    pub next_attack: i64,
}

impl View for Aliens {
    type V = AliensView;

    open spec fn view(&self) -> AliensView {
        AliensView {
            alive: self.alive@,
            offset: self.offset,
            last_move: self.last_move,
            dir: self.dir,
            move_rate: self.move_rate,
            death_sound: self.death_sound,
            move_sound_low: self.move_sound_low,
            move_sound_high: self.move_sound_high,
            next_move_sound: self.next_move_sound,
            attacks: self.attacks@,
            next_attack: self.next_attack,
        }
    }
}

/// Whether a shot of the swarm is within the screen, with room to move.
pub open spec fn attack_in_range(attack: EnemyAttack) -> bool {
    -1000 <= attack.xy.x <= 1000 && -1000 <= attack.xy.y <= 1000
}

impl AliensView {
    /// The ranges the swarm keeps to while it is stepped.
    pub open spec fn wf(self) -> bool {
        &&& self.alive.len() == 45
        &&& (self.dir == 1 || self.dir == -1)
        &&& (self.offset.x <= 147 || (self.offset.x == 148 && self.dir == -1))
        &&& (self.offset.x >= -118 || (self.offset.x == -119 && self.dir == 1))
        &&& ALIEN_START_Y <= self.offset.y <= ALIEN_LOWEST_Y + 2
        &&& self.next_move_sound <= 1
        &&& self.attacks.len() <= MAX_ALIENS_ATTACKS
        &&& forall|i: int| 0 <= i < self.attacks.len() ==> attack_in_range(#[trigger] self.attacks[i])
    }

    /// Whether the grid's top edge is above the line at which a swarm with
    /// any alien alive has landed.
    pub open spec fn above_ground(self) -> bool {
        self.offset.y <= ALIEN_LOWEST_Y
    }
}

impl Aliens {
    /// A full swarm at its starting place, moving right, with no shot in
    /// flight.
    pub fn new(death_sound: SoundEffect, move_sound1: SoundEffect, move_sound2: SoundEffect) -> (aliens:
        Aliens)
        ensures
            aliens@ == (AliensView {
                alive: Seq::new(45, |i: int| true),
                offset: Coord { x: ALIEN_START_X, y: ALIEN_START_Y },
                last_move: 0,
                dir: 1,
                move_rate: ALIEN_SPEED_START,
                death_sound,
                move_sound_low: move_sound1,
                move_sound_high: move_sound2,
                next_move_sound: 0,
                attacks: Seq::empty(),
                next_attack: 10_000_000,
            }),
            aliens@.wf(),
            aliens@.above_ground(),
    {
        let aliens = Aliens {
            alive: full_grid(),
            offset: Coord { x: ALIEN_START_X, y: ALIEN_START_Y },
            last_move: 0,
            dir: 1,
            move_rate: ALIEN_SPEED_START,
            death_sound,
            move_sound_low: move_sound1,
            move_sound_high: move_sound2,
            next_move_sound: 0,
            attacks: Vec::new(),
            next_attack: 2 * ALIEN_ATTACK_RATE,
        };
        assert(aliens@.alive =~= Seq::new(45, |i: int| true));
        aliens
    }

    /// Whether the swarm is as its functions expect it.
    pub fn is_valid(&self) -> (ok: bool)
        ensures
            ok == self@.wf(),
    {
        if self.alive.len() != 45 || !(self.dir == 1 || self.dir == -1) || !(self.offset.x <= 147
            || (self.offset.x == 148 && self.dir == -1)) || !(self.offset.x >= -118 || (
        self.offset.x == -119 && self.dir == 1)) || self.offset.y < ALIEN_START_Y || self.offset.y
            > ALIEN_LOWEST_Y + 2 || self.next_move_sound > 1 || self.attacks.len()
            > MAX_ALIENS_ATTACKS {
            return false;
        }
        let mut i: usize = 0;
        while i < self.attacks.len()
            invariant
                i <= self.attacks@.len(),
                forall|k: int| 0 <= k < i ==> attack_in_range(#[trigger] self.attacks@[k]),
            decreases self.attacks@.len() - i,
        {
            let xy = self.attacks[i].xy;
            if !(-1000 <= xy.x && xy.x <= 1000 && -1000 <= xy.y && xy.y <= 1000) {
                assert(!attack_in_range(#[trigger] self.attacks@[i as int]));
                return false;
            }
            i = i + 1;
        }
        true
    }

    /// Whether the grid's top edge is above the line at which a swarm with
    /// any alien alive has landed.
    pub fn is_above_ground(&self) -> (ok: bool)
        ensures
            ok == self@.above_ground(),
    {
        self.offset.y <= ALIEN_LOWEST_Y
    }

    /// Whether the alien in row `y` and column `x` is alive.
    pub fn is_alive(&self, y: usize, x: usize) -> (alive: bool)
        requires
            self@.wf(),
        ensures
            alive == cell_alive(self@.alive, y as int, x as int),
    {
        y < ALIEN_ROWS && x < ALIEN_ROW_SIZE && self.alive[y * ALIEN_ROW_SIZE + x]
    }

    /// Top left corner of the alien in row `y` and column `x`.
    pub fn coord_for_ship(&self, y: usize, x: usize) -> (c: Coord)
        requires
            self@.wf(),
            y < ALIEN_ROWS,
            x < ALIEN_ROW_SIZE,
        ensures
            (c.x as int, c.y as int) == cell_corner(self.offset, y as int, x as int),
    {
        Coord {
            x: self.offset.x + (x as isize) * ALIEN_PITCH_X,
            y: self.offset.y + (y as isize) * ALIEN_PITCH_Y,
        }
    }

    /// Hit box of the alien in row `y` and column `x`.
    pub fn rect_for_ship(&self, y: usize, x: usize) -> (r: Rect)
        requires
            self@.wf(),
            y < ALIEN_ROWS,
            x < ALIEN_ROW_SIZE,
        ensures
            r == cell_box(self.offset, y as int, x as int),
    {
        let corner = self.coord_for_ship(y, x);
        Rect::new_with_size(corner, 11, 8)
    }

    /// Number of aliens alive.
    pub fn alive_count(&self) -> (n: usize)
        requires
            self@.wf(),
        ensures
            n == count_alive(self@.alive, 45),
            n <= 45,
            n > 0 <==> self@.any_alive(),
    {
        let mut n: usize = 0;
        let mut i: usize = 0;
        while i < 45
            invariant
                i <= 45,
                self.alive@.len() == 45,
                n == count_alive(self.alive@, i as int),
                n <= i,
            decreases 45 - i,
        {
            if self.alive[i] {
                n = n + 1;
            }
            i = i + 1;
        }
        proof {
            lemma_count_alive(self.alive@, 45);
        }
        n
    }

    /// Whether any alien in column `x` is alive.
    fn column_has_alive(&self, x: usize) -> (occupied: bool)
        requires
            self@.wf(),
            x < ALIEN_ROW_SIZE,
        ensures
            occupied == column_occupied(self@.alive, x as int),
    {
        self.alive[x] || self.alive[9 + x] || self.alive[18 + x] || self.alive[27 + x]
            || self.alive[36 + x]
    }

    /// Whether any alien in row `y` is alive.
    fn row_has_alive(&self, y: usize) -> (occupied: bool)
        requires
            self@.wf(),
            y < ALIEN_ROWS,
        ensures
            occupied == row_occupied(self@.alive, y as int),
    {
        let mut x: usize = 0;
        while x < ALIEN_ROW_SIZE
            invariant
                x <= 9,
                y < 5,
                self.alive@.len() == 45,
                forall|c: int| 0 <= c < x ==> !cell_alive(self.alive@, y as int, c),
            decreases 9 - x,
        {
            if self.alive[y * ALIEN_ROW_SIZE + x] {
                assert(cell_alive(self.alive@, y as int, x as int));
                return true;
            }
            x = x + 1;
        }
        false
    }

    /// Left edge of the swarm: the left side of its leftmost alien alive, less
    /// the margin. `None` when no alien is alive.
    pub fn left_most_x(&self) -> (edge: Option<isize>)
        requires
            self@.wf(),
        ensures
            match edge {
                Some(x) => self@.left_most_x() == Some(x as int),
                None => self@.left_most_x().is_none(),
            },
    {
        proof {
            lemma_occupied_iff_some_alive(self.alive@);
        }
        let mut x: usize = 0;
        while x < ALIEN_ROW_SIZE
            invariant
                x <= 9,
                self@.wf(),
                first_occupied_col(self.alive@, 0) == first_occupied_col(self.alive@, x as int),
            decreases 9 - x,
        {
            if self.column_has_alive(x) {
                return Some(self.offset.x + (x as isize) * ALIEN_PITCH_X - ALIEN_MARGIN);
            }
            x = x + 1;
        }
        None
    }

    /// Right edge of the swarm: the right side of its rightmost alien alive,
    /// plus the margin. `None` when no alien is alive.
    pub fn right_most_x(&self) -> (edge: Option<isize>)
        requires
            self@.wf(),
        ensures
            match edge {
                Some(x) => self@.right_most_x() == Some(x as int),
                None => self@.right_most_x().is_none(),
            },
    {
        proof {
            lemma_occupied_iff_some_alive(self.alive@);
        }
        let mut x: usize = ALIEN_ROW_SIZE;
        while x > 0
            invariant
                x <= 9,
                self@.wf(),
                last_occupied_col(self.alive@, 8) == last_occupied_col(self.alive@, x - 1),
            decreases x,
        {
            x = x - 1;
            if self.column_has_alive(x) {
                return Some(
                    self.offset.x + (x as isize) * ALIEN_PITCH_X + ALIEN_WIDTH + ALIEN_MARGIN,
                );
            }
        }
        None
    }

    /// Bottom edge of the swarm: the lower side of its lowest alien alive.
    /// `None` when no alien is alive.
    pub fn bottom_most_y(&self) -> (edge: Option<isize>)
        requires
            self@.wf(),
        ensures
            match edge {
                Some(y) => self@.bottom_most_y() == Some(y as int),
                None => self@.bottom_most_y().is_none(),
            },
    {
        proof {
            lemma_occupied_iff_some_alive(self.alive@);
        }
        let mut y: usize = ALIEN_ROWS;
        while y > 0
            invariant
                y <= 5,
                self@.wf(),
                last_occupied_row(self.alive@, 4) == last_occupied_row(self.alive@, y - 1),
            decreases y,
        {
            y = y - 1;
            if self.row_has_alive(y) {
                return Some(self.offset.y + (y as isize) * ALIEN_PITCH_Y + ALIEN_HEIGHT);
            }
        }
        None
    }

    /// Steps the swarm: when its move is due and an alien is alive it moves,
    /// turning and descending at a wall; then the time to the next move is
    /// counted down.
    pub fn update(&mut self, elapsed: u32, audio: &mut Vec<AudioCommand>)
        requires
            old(self)@.wf(),
            old(self)@.above_ground(),
        ensures
            final(self)@ == old(self)@.updated(elapsed),
            final(audio)@ == old(self)@.updated_audio(old(audio)@),
            final(self)@.wf(),
            !old(self)@.moves_now() ==> final(self)@.above_ground(),
    {
        if self.last_move < 0 {
            let min = self.left_most_x();
            let max = self.right_most_x();
            if min.is_none() || max.is_none() {
                return ;
            }
            proof {
                lemma_occupied_iff_some_alive(self.alive@);
                lemma_first_occupied_col(self.alive@, 0);
                lemma_last_occupied_col(self.alive@, 8);
            }
            let min = min.unwrap();
            let max = max.unwrap();
            self.offset = Coord { x: self.offset.x + self.dir, y: self.offset.y };
            if min <= 0 {
                self.dir = 1;
                self.offset = Coord { x: self.offset.x, y: self.offset.y + 1 };
            }
            if max >= SCREEN_WIDTH {
                self.dir = -1;
                self.offset = Coord { x: self.offset.x, y: self.offset.y + 1 };
            }
            self.last_move = self.move_rate;
            if self.next_move_sound == 0 {
                if self.move_sound_low.can_play() {
                    self.move_sound_low.play(audio);
                    self.next_move_sound = 1;
                }
            } else {
                if self.move_sound_high.can_play() {
                    self.move_sound_high.play(audio);
                    self.next_move_sound = if self.next_move_sound == 1 { 0 } else { 1 };
                }
            }
        }
        self.last_move = count_down(self.last_move, elapsed);
    }

    /// The point from which the `pick`-th alien alive fires, counting row by
    /// row from 0.
    pub fn attack_position(&self, pick: usize) -> (xy: Coord)
        requires
            self@.wf(),
            pick < count_alive(self@.alive, 45),
        ensures
            xy == self@.muzzle_of(pick as int),
            self.offset.x + 5 <= xy.x <= self.offset.x + 125,
            self.offset.y + 8 <= xy.y <= self.offset.y + 56,
    {
        proof {
            lemma_nth_alive(self.alive@, pick as int, 0);
        }
        let mut seen: usize = 0;
        let mut i: usize = 0;
        loop
            invariant
                self@.wf(),
                i < 45,
                seen <= pick,
                seen == count_alive(self.alive@, i as int),
                pick < count_alive(self.alive@, 45),
                nth_alive(self.alive@, pick as int, 0) == nth_alive(
                    self.alive@,
                    pick - seen,
                    i as int,
                ),
            decreases 45 - i,
        {
            proof {
                lemma_count_step(self.alive@, i as int);
                lemma_nth_alive(self.alive@, pick - seen, i as int);
            }
            if self.alive[i] {
                if seen == pick {
                    let corner = self.coord_for_ship(i / ALIEN_ROW_SIZE, i % ALIEN_ROW_SIZE);
                    return Coord { x: corner.x + 5, y: corner.y + 8 };
                }
                seen = seen + 1;
            }
            i = i + 1;
        }
    }

    /// A point from which the swarm may fire: the muzzle of an alien alive
    /// chosen at random. `None` when no alien is alive.
    pub fn random_attack_position(&self) -> (xy: Option<Coord>)
        requires
            self@.wf(),
        ensures
            xy.is_none() <==> !self@.any_alive(),
            xy.is_some() ==> exists|pick: int|
                0 <= pick < count_alive(self@.alive, 45) && xy == Some(
                    #[trigger] self@.muzzle_of(pick),
                ),
    {
        let count = self.alive_count();
        if count == 0 {
            return None;
        }
        let pick = random_usize(0, count);
        let xy = self.attack_position(pick);
        assert(xy == self@.muzzle_of(pick as int));
        Some(xy)
    }

    /// Tests a player's shot at `xy` against the swarm: the first alien alive
    /// whose hit box holds the point dies and the swarm speeds up.
    pub fn detect_player_attack_hit(&mut self, xy: Coord) -> (hit: bool)
        requires
            old(self)@.wf(),
        ensures
            hit == old(self)@.is_hit_at(xy),
            final(self)@ == old(self)@.shot_at(xy),
            final(self)@.wf(),
            count_alive(final(self)@.alive, 45) == count_alive(old(self)@.alive, 45) - if hit {
                1int
            } else {
                0int
            },
    {
        let mut i: usize = 0;
        while i < 45
            invariant
                i <= 45,
                self@ == old(self)@,
                self@.wf(),
                first_hit(self.alive@, self.offset, xy, 0) == first_hit(
                    self.alive@,
                    self.offset,
                    xy,
                    i as int,
                ),
            decreases 45 - i,
        {
            if self.alive[i] && self.rect_for_ship(i / ALIEN_ROW_SIZE, i % ALIEN_ROW_SIZE).contains(
                xy,
            ) {
                proof {
                    lemma_count_alive_after_kill(self.alive@, i as int, 45);
                }
                self.alive.set(i, false);
                self.move_rate = count_down(self.move_rate, SPEED_DELTA_PER_INVADER);
                return true;
            }
            i = i + 1;
        }
        false
    }
}

/// A grid with every alien alive.
pub(crate) fn full_grid() -> (alive: Vec<bool>)
    ensures
        alive@.len() == 45,
        forall|i: int| 0 <= i < 45 ==> alive@[i],
{
    let mut alive: Vec<bool> = Vec::new();
    let mut i: usize = 0;
    while i < 45
        invariant
            i <= 45,
            alive@.len() == i,
            forall|j: int| 0 <= j < i ==> alive@[j],
        decreases 45 - i,
    {
        alive.push(true);
        i = i + 1;
    }
    alive
}

/// What `first_occupied_col` finds: an occupied column with none occupied
/// between `col` and it, or 9 when no column from `col` on is occupied.
pub proof fn lemma_first_occupied_col(alive: Seq<bool>, col: int)
    requires
        0 <= col <= 9,
    ensures
        col <= first_occupied_col(alive, col) <= 9,
        first_occupied_col(alive, col) < 9 ==> column_occupied(
            alive,
            first_occupied_col(alive, col),
        ),
        forall|c: int| col <= c < first_occupied_col(alive, col) ==> !column_occupied(alive, c),
    decreases 9 - col,
{
    if col < 9 && !column_occupied(alive, col) {
        lemma_first_occupied_col(alive, col + 1);
    }
}

/// What `last_occupied_col` finds, scanning from `col` down.
pub proof fn lemma_last_occupied_col(alive: Seq<bool>, col: int)
    requires
        -1 <= col <= 8,
    ensures
        -1 <= last_occupied_col(alive, col) <= col,
        last_occupied_col(alive, col) >= 0 ==> column_occupied(
            alive,
            last_occupied_col(alive, col),
        ),
        forall|c: int| last_occupied_col(alive, col) < c <= col ==> !column_occupied(alive, c),
    decreases col + 1,
{
    if col >= 0 && !column_occupied(alive, col) {
        lemma_last_occupied_col(alive, col - 1);
    }
}

/// What `last_occupied_row` finds, scanning from `row` up.
pub proof fn lemma_last_occupied_row(alive: Seq<bool>, row: int)
    requires
        -1 <= row <= 4,
    ensures
        -1 <= last_occupied_row(alive, row) <= row,
        last_occupied_row(alive, row) >= 0 ==> row_occupied(
            alive,
            last_occupied_row(alive, row),
        ),
        forall|r: int| last_occupied_row(alive, row) < r <= row ==> !row_occupied(alive, r),
    decreases row + 1,
{
    if row >= 0 && !row_occupied(alive, row) {
        lemma_last_occupied_row(alive, row - 1);
    }
}

/// A grid has an alien alive exactly when it has an occupied column, and
/// exactly when it has an occupied row; the outermost occupied columns are
/// then in order.
pub proof fn lemma_occupied_iff_some_alive(alive: Seq<bool>)
    ensures
        some_alive(alive) <==> first_occupied_col(alive, 0) < 9,
        some_alive(alive) <==> last_occupied_col(alive, 8) >= 0,
        some_alive(alive) <==> last_occupied_row(alive, 4) >= 0,
        some_alive(alive) ==> first_occupied_col(alive, 0) <= last_occupied_col(alive, 8),
{
    lemma_first_occupied_col(alive, 0);
    lemma_last_occupied_col(alive, 8);
    lemma_last_occupied_row(alive, 4);
    if some_alive(alive) {
        let i = choose|i: int| 0 <= i < 45 && alive[i];
        let row = i / 9;
        let col = i % 9;
        assert(cell_index(row, col) == i);
        assert(cell_alive(alive, row, col));
        assert(column_occupied(alive, col));
        assert(row_occupied(alive, row));
    }
    let first = first_occupied_col(alive, 0);
    if first < 9 {
        assert(column_occupied(alive, first));
        let row = if cell_alive(alive, 0, first) {
            0int
        } else if cell_alive(alive, 1, first) {
            1int
        } else if cell_alive(alive, 2, first) {
            2int
        } else if cell_alive(alive, 3, first) {
            3int
        } else {
            4int
        };
        assert(alive[cell_index(row, first)]);
    }
    let last = last_occupied_col(alive, 8);
    if last >= 0 {
        assert(column_occupied(alive, last));
        let row = if cell_alive(alive, 0, last) {
            0int
        } else if cell_alive(alive, 1, last) {
            1int
        } else if cell_alive(alive, 2, last) {
            2int
        } else if cell_alive(alive, 3, last) {
            3int
        } else {
            4int
        };
        assert(alive[cell_index(row, last)]);
    }
    let low = last_occupied_row(alive, 4);
    if low >= 0 {
        assert(row_occupied(alive, low));
        let col = choose|col: int| cell_alive(alive, low, col);
        assert(alive[cell_index(low, col)]);
    }
}

/// The count of aliens alive never passes the number of cells counted, and is
/// positive exactly when one of them is alive.
pub proof fn lemma_count_alive(alive: Seq<bool>, n: int)
    requires
        0 <= n,
    ensures
        0 <= count_alive(alive, n) <= n,
        count_alive(alive, n) > 0 <==> exists|i: int| 0 <= i < n && alive[i],
    decreases n,
{
    if n > 0 {
        lemma_count_alive(alive, n - 1);
        if count_alive(alive, n) > 0 {
            if alive[n - 1] {
                assert(0 <= n - 1 < n && alive[n - 1]);
            } else {
                let i = choose|i: int| 0 <= i < n - 1 && alive[i];
                assert(0 <= i < n && alive[i]);
            }
        }
        if exists|i: int| 0 <= i < n && alive[i] {
            let i = choose|i: int| 0 <= i < n && alive[i];
            if i < n - 1 {
                assert(0 <= i < n - 1 && alive[i]);
            }
        }
    }
}

/// Killing an alien that is alive lowers the count by one.
pub proof fn lemma_count_alive_after_kill(alive: Seq<bool>, cell: int, n: int)
    requires
        0 <= cell < alive.len(),
        alive[cell],
        0 <= n <= alive.len(),
    ensures
        count_alive(alive.update(cell, false), n) == count_alive(alive, n) - if cell < n {
            1int
        } else {
            0int
        },
    decreases n,
{
    if n > 0 {
        lemma_count_alive_after_kill(alive, cell, n - 1);
    }
}

/// The `k`-th alien alive from `from` on exists when more than `k` are alive
/// there.
pub proof fn lemma_nth_alive(alive: Seq<bool>, k: int, from: int)
    requires
        0 <= from <= 45,
        0 <= k < count_alive(alive, 45) - count_alive(alive, from),
    ensures
        from <= nth_alive(alive, k, from) < 45,
        alive[nth_alive(alive, k, from)],
    decreases 45 - from,
{
    if from >= 45 {
    } else {
        lemma_count_step(alive, from);
        if alive[from] {
            if k > 0 {
                lemma_nth_alive(alive, k - 1, from + 1);
            }
        } else {
            lemma_nth_alive(alive, k, from + 1);
        }
    }
}

/// A swarm whose move is due and which touches the right wall moves left from
/// then on and has come down by exactly one row, whichever way it was moving.
pub proof fn lemma_swarm_turns_at_right_wall(aliens: AliensView, elapsed: u32)
    requires
        aliens.wf(),
        aliens.last_move < 0,
        aliens.at_right_wall(),
    ensures
        aliens.updated(elapsed).dir == -1,
        aliens.updated(elapsed).offset.y == aliens.offset.y + 1,
        aliens.updated(elapsed).offset.x == aliens.offset.x + aliens.dir,
{
    lemma_first_occupied_col(aliens.alive, 0);
    lemma_last_occupied_col(aliens.alive, 8);
}

/// A swarm whose move is due and which touches the left wall moves right from
/// then on and has come down by exactly one row.
pub proof fn lemma_swarm_turns_at_left_wall(aliens: AliensView, elapsed: u32)
    requires
        aliens.wf(),
        aliens.last_move < 0,
        aliens.at_left_wall(),
    ensures
        aliens.updated(elapsed).dir == 1,
        aliens.updated(elapsed).offset.y == aliens.offset.y + 1,
        aliens.updated(elapsed).offset.x == aliens.offset.x + aliens.dir,
{
    lemma_first_occupied_col(aliens.alive, 0);
    lemma_last_occupied_col(aliens.alive, 8);
}

/// Away from the walls a swarm whose move is due keeps its direction and its
/// height and moves one pixel sideways.
pub proof fn lemma_swarm_keeps_course(aliens: AliensView, elapsed: u32)
    requires
        aliens.wf(),
        aliens.moves_now(),
        !aliens.at_left_wall(),
        !aliens.at_right_wall(),
    ensures
        aliens.updated(elapsed).dir == aliens.dir,
        aliens.updated(elapsed).offset.y == aliens.offset.y,
        aliens.updated(elapsed).offset.x == aliens.offset.x + aliens.dir,
{
}

/// Stepping the swarm never changes which aliens are alive, and never makes
/// the time between its moves longer.
pub proof fn lemma_swarm_step_keeps_grid(aliens: AliensView, elapsed: u32)
    ensures
        aliens.updated(elapsed).alive == aliens.alive,
        aliens.updated(elapsed).move_rate == aliens.move_rate,
{
}

/// A shot at the swarm never raises the number of aliens alive nor the time
/// between the swarm's moves.
pub proof fn lemma_shot_only_kills(aliens: AliensView, xy: Coord)
    requires
        aliens.alive.len() == 45,
    ensures
        count_alive(aliens.shot_at(xy).alive, 45) <= count_alive(aliens.alive, 45),
        aliens.shot_at(xy).move_rate <= aliens.move_rate,
        aliens.is_hit_at(xy) ==> count_alive(aliens.shot_at(xy).alive, 45) == count_alive(
            aliens.alive,
            45,
        ) - 1,
{
    if aliens.is_hit_at(xy) {
        lemma_first_hit(aliens.alive, aliens.offset, xy, 0);
        lemma_count_alive_after_kill(aliens.alive, first_hit(aliens.alive, aliens.offset, xy, 0), 45);
    }
}

/// What `first_hit` finds: an alive cell at or after `from` whose hit box
/// holds the point, with no such cell between `from` and it.
pub proof fn lemma_first_hit(alive: Seq<bool>, offset: Coord, xy: Coord, from: int)
    requires
        0 <= from <= 45,
    ensures
        from <= first_hit(alive, offset, xy, from) <= 45,
        first_hit(alive, offset, xy, from) < 45 ==> alive[first_hit(alive, offset, xy, from)]
            && cell_box(
            offset,
            first_hit(alive, offset, xy, from) / 9,
            first_hit(alive, offset, xy, from) % 9,
        ).holds(xy),
        forall|k: int|
            from <= k < first_hit(alive, offset, xy, from) ==> !(alive[k] && cell_box(
                offset,
                k / 9,
                k % 9,
            ).holds(xy)),
    decreases 45 - from,
{
    if from < 45 && !(alive[from] && cell_box(offset, from / 9, from % 9).holds(xy)) {
        lemma_first_hit(alive, offset, xy, from + 1);
    }
}

/// Counting one cell further adds the cell's flag.
pub proof fn lemma_count_step(alive: Seq<bool>, n: int)
    requires
        0 <= n,
    ensures
        count_alive(alive, n + 1) == count_alive(alive, n) + if alive[n] { 1int } else { 0int },
{
}

} // verus!
