//! The descending-alien shooter.
//!
//! One step runs in a fixed order: sounds, the player's ship, the player's
//! fire, the player's shots, the bonus ship, the swarm, the swarm's shots, the
//! landing test, the swarm's fire, the hits of the player's shots, the clocks.

pub mod aliens;

use vstd::prelude::*;
use crate::chance::random_usize;
use crate::draw::{Anchor, Caption, DrawCommand, Font, Picture, Shade, Style};
use crate::geometry::{Coord, Rect};
use crate::input::Input;
use crate::invaders::aliens::{
    alien_commands, attack_in_range, count_alive, full_grid, lemma_count_alive, lemma_first_hit,
    lemma_last_occupied_row, lemma_occupied_iff_some_alive, lemma_shot_only_kills, Aliens,
    AliensView, EnemyAttack, ALIEN_ATTACK_RATE, ALIEN_ATTACK_SPEED, ALIEN_SPEED_START,
    ALIEN_START_X, ALIEN_START_Y, MAX_ALIENS_ATTACKS,
};
use crate::screen::{score_plus, GameUpdateResult, SCREEN_HEIGHT, SCREEN_WIDTH};
use crate::sound::{AudioCommand, SoundEffect, SoundId};
use crate::timer::{count_down, remaining_after, Timer};

verus! {

/// Where the ship's top left corner starts.
pub const PLAYER_X: isize = 70;

pub const PLAYER_Y: isize = 133;

/// Width and height of the ship's hit box.
pub const SHIP_WIDTH: isize = 20;

pub const SHIP_HEIGHT: isize = 11;

/// Microseconds between two moves of the ship.
pub const PLAYER_SPEED: i64 = 10_000;

/// Microseconds between two moves of a shot of the player.
pub const PLAYER_ATTACK_SPEED: i64 = 6_000;

/// Microseconds between two shots of the player.
pub const PLAYER_ATTACK_RATE: i64 = 1_000_000;

/// Most shots the player may have in flight.
pub const MAX_PLAYER_ATTACKS: usize = 2;

/// Microseconds between two moves of the bonus ship.
pub const UFO_SPEED: i64 = 70_000;

/// Microseconds the bonus ship stays away after it left the screen.
pub const UFO_RATE: i64 = 20_000_000;

/// Where the bonus ship waits while it is away.
pub const UFO_START_X: isize = -50;

pub const UFO_START_Y: isize = 50;

/// Where the bonus ship enters.
pub const UFO_ENTRY_X: isize = 170;

pub const UFO_ENTRY_Y: isize = 10;

/// The bonus ship leaves once it is left of this.
pub const UFO_EXIT_X: isize = -30;

pub const SCORE_UFO: usize = 1000;

pub const SCORE_INVADER: usize = 50;

/// The swarm fires once this little time is left on its clock.
pub const ALIEN_FIRE_THRESHOLD: i64 = 900_000;

/// A swarm whose lowest alien reaches this line has landed.
pub const LANDING_LINE: isize = 156;

/// A shot of the player leaves the screen above this line.
pub const PLAYER_ATTACK_EXIT_Y: isize = -3;

pub const START_LIVES: usize = 3;

/// Where the first shelter stands, and how far apart the shelters are.
pub const BASE_START_X: isize = 10;

pub const BASE_START_Y: isize = 100;

pub const BASE_SPACE: isize = 40;

/// A shot fired by the player, rising one pixel per move.
#[derive(Clone, Copy, Debug, PartialEq, Eq, Structural)]
pub struct PlayerAttack {
    pub xy: Coord,
    /// Microseconds until the shot moves again; due when below zero.
    pub next_move: i64,
}

impl PlayerAttack {
    /// The shot after one step.
    pub open spec fn advanced(self, elapsed: u32) -> PlayerAttack {
        let moved = if self.next_move < 0 {
            PlayerAttack {
                xy: Coord { x: self.xy.x, y: (self.xy.y - 1) as isize },
                next_move: PLAYER_ATTACK_SPEED,
            }
        } else {
            self
        };
        PlayerAttack { next_move: remaining_after(moved.next_move, elapsed), ..moved }
    }

    /// Whether the shot has left the screen.
    pub open spec fn is_gone(self) -> bool {
        self.xy.y < PLAYER_ATTACK_EXIT_Y
    }

    /// A shot at `xy` that moves on the next step but one.
    pub fn new(xy: Coord) -> (attack: PlayerAttack)
        ensures
            attack == (PlayerAttack { xy, next_move: 0 }),
    {
        PlayerAttack { xy, next_move: 0 }
    }
}

/// The swarm's shot `attack` after one step.
pub open spec fn enemy_attack_advanced(attack: EnemyAttack, elapsed: u32) -> EnemyAttack {
    let left = remaining_after(attack.next_move, elapsed);
    if left <= 0 {
        EnemyAttack {
            xy: Coord { x: attack.xy.x, y: (attack.xy.y + 1) as isize },
            next_move: ALIEN_ATTACK_SPEED,
        }
    } else {
        EnemyAttack { next_move: left, ..attack }
    }
}

/// The player's shots after one step each, without those that left the
/// screen, in their old order.
pub open spec fn player_attacks_advanced(attacks: Seq<PlayerAttack>, elapsed: u32) -> Seq<
    PlayerAttack,
>
    decreases attacks.len(),
{
    if attacks.len() == 0 {
        Seq::empty()
    } else {
        let rest = player_attacks_advanced(attacks.drop_last(), elapsed);
        let last = attacks.last().advanced(elapsed);
        if last.is_gone() {
            rest
        } else {
            rest.push(last)
        }
    }
}

/// The swarm's shots after one step each, without those that left the screen,
/// in their old order.
pub open spec fn enemy_attacks_advanced(attacks: Seq<EnemyAttack>, elapsed: u32) -> Seq<
    EnemyAttack,
>
    decreases attacks.len(),
{
    if attacks.len() == 0 {
        Seq::empty()
    } else {
        let rest = enemy_attacks_advanced(attacks.drop_last(), elapsed);
        let last = enemy_attack_advanced(attacks.last(), elapsed);
        if last.xy.y >= SCREEN_HEIGHT {
            rest
        } else {
            rest.push(last)
        }
    }
}

/// Whether one of the swarm's shots, after its step, meets `ship`.
pub open spec fn any_attack_meets(attacks: Seq<EnemyAttack>, elapsed: u32, ship: Rect) -> bool {
    exists|i: int|
        0 <= i < attacks.len() && (#[trigger] enemy_attack_advanced(
            attacks[i],
            elapsed,
        )).hit_box().meets(ship)
}

/// A shelter: a block of cells that are whole or shot away.
pub struct Base {
    /// Top left corner of the shelter.
    pub offset: Coord,
    /// Three rows of six cells; `true` while the cell is whole.
    pub blocks: Vec<Vec<bool>>,
}

impl Base {
    /// Whether the shelter is as built: three rows of six whole cells.
    pub open spec fn is_whole(&self) -> bool {
        &&& self.blocks@.len() == 3
        &&& forall|r: int|
            0 <= r < 3 ==> (#[trigger] self.blocks@[r])@ =~= Seq::new(6, |c: int| true)
    }

    /// The `idx`-th shelter from the left, whole.
    pub fn new(idx: isize) -> (base: Base)
        requires
            -1_000_000 <= idx <= 1_000_000,
        ensures
            base.offset == (Coord { x: (idx * 40 + 10) as isize, y: BASE_START_Y }),
            base.is_whole(),
    {
        let mut blocks: Vec<Vec<bool>> = Vec::new();
        let mut r: usize = 0;
        while r < 3
            invariant
                r <= 3,
                blocks@.len() == r,
                forall|k: int|
                    0 <= k < r ==> (#[trigger] blocks@[k])@ =~= Seq::new(6, |c: int| true),
            decreases 3 - r,
        {
            let mut row: Vec<bool> = Vec::new();
            let mut c: usize = 0;
            while c < 6
                invariant
                    c <= 6,
                    row@.len() == c,
                    forall|k: int| 0 <= k < c ==> row@[k],
                decreases 6 - c,
            {
                row.push(true);
                c = c + 1;
            }
            blocks.push(row);
            r = r + 1;
        }
        Base { offset: Coord { x: idx * BASE_SPACE + BASE_START_X, y: BASE_START_Y }, blocks }
    }
}

/// The bonus ship that crosses the top of the screen from time to time.
#[derive(Clone, Copy, Debug, PartialEq, Eq, Structural)]
pub struct Ufo {
    pub xy: Coord,
    /// Width and height of its hit box.
    pub width: u16,
    pub height: u16,
    /// Microseconds until it moves again; due when below zero.
    pub next_move: i64,
    /// Microseconds until it enters again; due when below zero.
    pub next_appearance: i64,
    pub is_visible: bool,
    pub active_sound: SoundEffect,
    pub death_sound: SoundEffect,
}

impl Ufo {
    /// The bonus ship's hit box.
    pub open spec fn hit_box(self) -> Rect {
        Rect {
            left: self.xy.x,
            top: self.xy.y,
            right: (self.xy.x + self.width) as isize,
            bottom: (self.xy.y + self.height) as isize,
        }
    }

    /// The ranges the bonus ship keeps to.
    pub open spec fn wf(self) -> bool {
        &&& UFO_START_X <= self.xy.x <= UFO_ENTRY_X
        &&& self.is_visible ==> self.xy.x >= UFO_EXIT_X
        &&& -1000 <= self.xy.y <= 1000
    }

    /// The bonus ship sent back to wait for `away` microseconds.
    pub open spec fn retired(self, away: i64) -> Ufo {
        Ufo {
            is_visible: false,
            next_appearance: away,
            active_sound: self.active_sound.stopped(),
            ..self
        }
    }

    /// The bonus ship after its part of a step: it enters when its time has
    /// come, moves one pixel left when its move is due, and leaves at the
    /// left edge.
    pub open spec fn stepped(self) -> Ufo {
        let entered = if !self.is_visible && self.next_appearance < 0 {
            Ufo {
                xy: Coord { x: UFO_ENTRY_X, y: UFO_ENTRY_Y },
                next_move: UFO_SPEED,
                is_visible: true,
                active_sound: self.active_sound.played(),
                ..self
            }
        } else {
            self
        };
        if entered.is_visible && entered.next_move < 0 {
            let moved = Ufo {
                xy: Coord { x: (entered.xy.x - 1) as isize, y: entered.xy.y },
                next_move: UFO_SPEED,
                ..entered
            };
            if moved.xy.x < UFO_EXIT_X {
                moved.retired(UFO_RATE)
            } else {
                moved
            }
        } else {
            entered
        }
    }

    /// The commands after the bonus ship's part of a step.
    pub open spec fn stepped_audio(self, audio: Seq<AudioCommand>) -> Seq<AudioCommand> {
        let enters = !self.is_visible && self.next_appearance < 0;
        let entered = if enters {
            self.active_sound.played_audio(audio)
        } else {
            audio
        };
        let visible = self.is_visible || enters;
        let next_move = if enters { UFO_SPEED } else { self.next_move };
        let x = if enters { UFO_ENTRY_X as int } else { self.xy.x as int };
        if visible && next_move < 0 && x - 1 < UFO_EXIT_X {
            entered.push(self.active_sound.stop_command())
        } else {
            entered
        }
    }

    /// Whether the bonus ship is as its functions expect it.
    pub fn is_valid(&self) -> (ok: bool)
        ensures
            ok == self.wf(),
    {
        UFO_START_X <= self.xy.x && self.xy.x <= UFO_ENTRY_X && (!self.is_visible || self.xy.x
            >= UFO_EXIT_X) && -1000 <= self.xy.y && self.xy.y <= 1000
    }

    /// A bonus ship with a hit box of the given size, waiting off screen.
    pub fn new(width: u16, height: u16, sound: SoundEffect, death_sound: SoundEffect) -> (ufo: Ufo)
        ensures
            ufo == (Ufo {
                xy: Coord { x: UFO_START_X, y: UFO_START_Y },
                width,
                height,
                next_move: 0,
                next_appearance: UFO_RATE,
                is_visible: false,
                active_sound: sound,
                death_sound,
            }),
            ufo.wf(),
    {
        Ufo {
            xy: Coord { x: UFO_START_X, y: UFO_START_Y },
            width,
            height,
            next_move: 0,
            next_appearance: UFO_RATE,
            is_visible: false,
            active_sound: sound,
            death_sound,
        }
    }

    /// The bonus ship's hit box.
    pub fn bounds(&self) -> (r: Rect)
        requires
            self.wf(),
        ensures
            r == self.hit_box(),
    {
        Rect {
            left: self.xy.x,
            top: self.xy.y,
            right: self.xy.x + self.width as isize,
            bottom: self.xy.y + self.height as isize,
        }
    }

    /// The bonus ship's part of a step.
    pub fn step(&mut self, audio: &mut Vec<AudioCommand>)
        requires
            old(self).wf(),
        ensures
            *final(self) == old(self).stepped(),
            final(audio)@ == old(self).stepped_audio(old(audio)@),
            final(self).wf(),
    {
        if !self.is_visible && self.next_appearance < 0 {
            self.xy = Coord { x: UFO_ENTRY_X, y: UFO_ENTRY_Y };
            self.next_move = UFO_SPEED;
            self.is_visible = true;
            self.active_sound.play(audio);
        }
        if self.is_visible && self.next_move < 0 {
            self.xy = Coord { x: self.xy.x - 1, y: self.xy.y };
            self.next_move = UFO_SPEED;
            if self.xy.x < UFO_EXIT_X {
                self.is_visible = false;
                self.next_appearance = UFO_RATE;
                self.active_sound.reset(audio);
            }
        }
    }
}

/// The player's ship as the contracts see it.
pub struct PlayerView {
    pub ship: Rect,
    pub attacks: Seq<PlayerAttack>,
    pub next_move: i64,
    pub next_attack: Timer,
    pub attack_sound: SoundEffect,
    pub death_sound: SoundEffect,
}

/// Whether a shot of the player is within the screen, with room to move.
pub open spec fn player_attack_in_range(attack: PlayerAttack) -> bool {
    -1000 <= attack.xy.x <= 1000 && PLAYER_ATTACK_EXIT_Y <= attack.xy.y <= 1000
}

impl PlayerView {
    /// The ranges the ship and its shots keep to.
    pub open spec fn wf(self) -> bool {
        &&& self.ship.is_inhabited()
        &&& -1000 <= self.ship.left && self.ship.right <= 1000
        &&& 0 <= self.ship.top && self.ship.bottom <= 1000
        &&& self.attacks.len() <= MAX_PLAYER_ATTACKS
        &&& forall|i: int|
            0 <= i < self.attacks.len() ==> player_attack_in_range(#[trigger] self.attacks[i])
    }

    /// The ship after the player's steering: one pixel towards the held side
    /// when its move is due and the wall is not reached. Left wins over right.
    pub open spec fn steered(self, input: Input) -> PlayerView {
        if self.next_move < 0 && input.left() && self.ship.left > 0 {
            PlayerView {
                ship: Rect {
                    left: (self.ship.left - 1) as isize,
                    right: (self.ship.right - 1) as isize,
                    ..self.ship
                },
                next_move: PLAYER_SPEED,
                ..self
            }
        } else if self.next_move < 0 && !input.left() && input.right() && self.ship.right
            < SCREEN_WIDTH {
            PlayerView {
                ship: Rect {
                    left: (self.ship.left + 1) as isize,
                    right: (self.ship.right + 1) as isize,
                    ..self.ship
                },
                next_move: PLAYER_SPEED,
                ..self
            }
        } else {
            self
        }
    }

    /// Whether the fire button reaches the gun: it is held and fewer shots
    /// than allowed are in flight.
    pub open spec fn gun_armed(self, input: Input) -> bool {
        input.action() && self.attacks.len() < MAX_PLAYER_ATTACKS
    }

    /// Whether the ship fires on this step.
    pub open spec fn fires(self, elapsed: u32, input: Input) -> bool {
        self.gun_armed(input) && self.next_attack.fires(elapsed)
    }

    /// The ship after the fire button was looked at.
    pub open spec fn fired(self, elapsed: u32, input: Input) -> PlayerView {
        if self.gun_armed(input) {
            let next_attack = self.next_attack.updated(elapsed);
            if self.next_attack.fires(elapsed) {
                let middle = self.ship.middle();
                PlayerView {
                    next_attack,
                    attacks: self.attacks.push(
                        PlayerAttack {
                            xy: Coord { x: middle.0 as isize, y: middle.1 as isize },
                            next_move: 0,
                        },
                    ),
                    attack_sound: self.attack_sound.played(),
                    ..self
                }
            } else {
                PlayerView { next_attack, ..self }
            }
        } else {
            self
        }
    }

    /// The ship after its shots moved: those that left the screen are gone,
    /// and with no shot in flight the gun is ready at once.
    pub open spec fn attacks_moved(self, elapsed: u32) -> PlayerView {
        let attacks = player_attacks_advanced(self.attacks, elapsed);
        PlayerView {
            attacks,
            next_attack: if attacks.len() == 0 {
                Timer { remaining: 0, ..self.next_attack }
            } else {
                self.next_attack
            },
            ..self
        }
    }
}

/// The player's ship and its shots.
pub struct Player {
    /// The ship's hit box.
    pub ship: Rect,
    /// Shots in flight.
    pub attacks: Vec<PlayerAttack>,
    /// Microseconds until the ship may move again; due when below zero.
    pub next_move: i64,
    /// Limits the rate of fire.
    pub next_attack: Timer,
    pub attack_sound: SoundEffect,
    pub death_sound: SoundEffect,
}

impl View for Player {
    type V = PlayerView;

    open spec fn view(&self) -> PlayerView {
        PlayerView {
            ship: self.ship,
            attacks: self.attacks@,
            next_move: self.next_move,
            next_attack: self.next_attack,
            attack_sound: self.attack_sound,
            death_sound: self.death_sound,
        }
    }
}

impl Player {
    /// Whether the ship and its shots are as their functions expect them.
    pub fn is_valid(&self) -> (ok: bool)
        ensures
            ok == self@.wf(),
    {
        if !(self.ship.left <= self.ship.right && self.ship.top <= self.ship.bottom) || self.ship.left
            < -1000 || self.ship.right > 1000 || self.ship.top < 0 || self.ship.bottom > 1000
            || self.attacks.len() > MAX_PLAYER_ATTACKS {
            return false;
        }
        let mut i: usize = 0;
        while i < self.attacks.len()
            invariant
                i <= self.attacks@.len(),
                forall|k: int| 0 <= k < i ==> player_attack_in_range(#[trigger] self.attacks@[k]),
            decreases self.attacks@.len() - i,
        {
            let xy = self.attacks[i].xy;
            if !(-1000 <= xy.x && xy.x <= 1000 && PLAYER_ATTACK_EXIT_Y <= xy.y && xy.y <= 1000) {
                assert(!player_attack_in_range(#[trigger] self.attacks@[i as int]));
                return false;
            }
            i = i + 1;
        }
        true
    }

    /// A ship at its starting place with no shot in flight.
    pub fn new(attack_sound: SoundEffect, death_sound: SoundEffect) -> (player: Player)
        ensures
            player@ == (PlayerView {
                ship: Rect { left: 70, top: 133, right: 90, bottom: 144 },
                attacks: Seq::empty(),
                next_move: 0,
                next_attack: Timer { remaining: 0, period: PLAYER_ATTACK_RATE, looping: true },
                attack_sound,
                death_sound,
            }),
            player@.wf(),
    {
        Player {
            ship: Rect {
                left: PLAYER_X,
                top: PLAYER_Y,
                right: PLAYER_X + SHIP_WIDTH,
                bottom: PLAYER_Y + SHIP_HEIGHT,
            },
            attacks: Vec::new(),
            next_move: 0,
            next_attack: Timer::new(PLAYER_ATTACK_RATE),
            attack_sound,
            death_sound,
        }
    }

    /// The ship's hit box.
    pub fn bounds(&self) -> (r: Rect)
        ensures
            r == self.ship,
    {
        self.ship
    }

    /// Moves the ship as the player steers.
    pub fn steer(&mut self, input: &Input)
        requires
            old(self)@.wf(),
        ensures
            final(self)@ == old(self)@.steered(*input),
            final(self)@.wf(),
    {
        if self.next_move < 0 {
            if input.wants_left() {
                if self.ship.left > 0 {
                    self.ship = self.ship.translated(-1, 0);
                    self.next_move = PLAYER_SPEED;
                }
            } else if input.wants_right() {
                if self.ship.right < SCREEN_WIDTH {
                    self.ship = self.ship.translated(1, 0);
                    self.next_move = PLAYER_SPEED;
                }
            }
        }
    }

    /// Fires a shot from the middle of the ship when the fire button is held,
    /// a shot is free and the gun's timer fires.
    pub fn fire(&mut self, elapsed: u32, input: &Input, audio: &mut Vec<AudioCommand>)
        requires
            old(self)@.wf(),
        ensures
            final(self)@ == old(self)@.fired(elapsed, *input),
            final(audio)@ == if old(self)@.fires(elapsed, *input) {
                old(self).attack_sound.played_audio(old(audio)@)
            } else {
                old(audio)@
            },
            final(self)@.wf(),
    {
        if input.wants_action() {
            if self.attacks.len() < MAX_PLAYER_ATTACKS {
                if self.next_attack.update(elapsed) {
                    let xy = self.ship.center();
                    self.attacks.push(PlayerAttack::new(xy));
                    self.attack_sound.play(audio);
                    proof {
                        let before = old(self)@.attacks;
                        assert forall|i: int| 0 <= i < self@.attacks.len() implies #[trigger] player_attack_in_range(
                            self@.attacks[i],
                        ) by {
                            if i < before.len() {
                                assert(self@.attacks[i] == before[i]);
                            }
                        }
                    }
                }
            }
        }
    }

    /// Moves the shots in flight, drops those that left the screen, and makes
    /// the gun ready when none is left.
    pub fn move_attacks(&mut self, elapsed: u32)
        requires
            old(self)@.wf(),
        ensures
            final(self)@ == old(self)@.attacks_moved(elapsed),
            final(self)@.wf(),
    {
        let mut kept: Vec<PlayerAttack> = Vec::new();
        let mut i: usize = 0;
        let n = self.attacks.len();
        while i < n
            invariant
                i <= n,
                n == self.attacks@.len(),
                self@ == old(self)@,
                self@.wf(),
                kept@ == player_attacks_advanced(self.attacks@.take(i as int), elapsed),
                kept@.len() <= i,
                forall|k: int| 0 <= k < kept@.len() ==> player_attack_in_range(#[trigger] kept@[k]),
            decreases n - i,
        {
            let mut attack = self.attacks[i];
            proof {
                assert(player_attack_in_range(self@.attacks[i as int]));
                assert(self.attacks@.take(i + 1).drop_last() =~= self.attacks@.take(i as int));
                assert(self.attacks@.take(i + 1).last() == self.attacks@[i as int]);
            }
            if attack.next_move < 0 {
                attack.next_move = PLAYER_ATTACK_SPEED;
                attack.xy = Coord { x: attack.xy.x, y: attack.xy.y - 1 };
            }
            attack.next_move = count_down(attack.next_move, elapsed);
            if !(attack.xy.y < PLAYER_ATTACK_EXIT_Y) {
                kept.push(attack);
            }
            i = i + 1;
        }
        proof {
            assert(self.attacks@.take(n as int) =~= self.attacks@);
        }
        self.attacks = kept;
        if self.attacks.len() == 0 {
            self.next_attack.trigger();
        }
    }
}

/// The game as the contracts see it.
pub struct InvadersView {
    pub player: PlayerView,
    pub aliens: AliensView,
    pub bases: Seq<Base>,
    pub ufo: Ufo,
    pub lives: usize,
    pub result: GameUpdateResult,
    pub score: usize,
    /// The audio commands of the latest step.
    pub audio: Seq<AudioCommand>,
}

impl InvadersView {
    /// Whether this is a game as it starts: three lives, no score, a whole
    /// swarm and three whole shelters, the ship in its place, the bonus ship
    /// away, its hit box `width` by `height`.
    pub open spec fn is_fresh(self, width: u16, height: u16) -> bool {
        &&& self.lives == START_LIVES
        &&& self.score == 0
        &&& self.result == GameUpdateResult::Nothing
        &&& self.audio == Seq::<AudioCommand>::empty()
        &&& self.bases.len() == 3
        &&& forall|i: int|
                0 <= i < 3 ==> (#[trigger] self.bases[i]).is_whole() && self.bases[i].offset == (
                Coord { x: (i * 40 + 10) as isize, y: BASE_START_Y })
        &&& self.player == (PlayerView {
                ship: Rect { left: 70, top: 133, right: 90, bottom: 144 },
                attacks: Seq::empty(),
                next_move: 0,
                next_attack: Timer { remaining: 0, period: PLAYER_ATTACK_RATE, looping: true },
                attack_sound: SoundEffect {
                    sound: SoundId::PlayerShoot,
                    is_playing: false,
                    duration: 500_000,
                    next_play_in: 0,
                    loops: false,
                },
                death_sound: SoundEffect {
                    sound: SoundId::PlayerDead,
                    is_playing: false,
                    duration: 1_000_000,
                    next_play_in: 0,
                    loops: false,
                },
            })
        &&& self.ufo == (Ufo {
                xy: Coord { x: UFO_START_X, y: UFO_START_Y },
                width,
                height,
                next_move: 0,
                next_appearance: UFO_RATE,
                is_visible: false,
                active_sound: SoundEffect {
                    sound: SoundId::Ufo,
                    is_playing: false,
                    duration: 1_700_000,
                    next_play_in: 0,
                    loops: true,
                },
                death_sound: SoundEffect {
                    sound: SoundId::UfoDead,
                    is_playing: false,
                    duration: 500_000,
                    next_play_in: 0,
                    loops: false,
                },
            })
        &&& self.aliens == (AliensView {
                alive: Seq::new(45, |i: int| true),
                offset: Coord { x: ALIEN_START_X, y: ALIEN_START_Y },
                last_move: 0,
                dir: 1,
                move_rate: ALIEN_SPEED_START,
                death_sound: SoundEffect {
                    sound: SoundId::InvaderDead,
                    is_playing: false,
                    duration: 500_000,
                    next_play_in: 0,
                    loops: false,
                },
                move_sound_low: SoundEffect {
                    sound: SoundId::InvaderMoveLow,
                    is_playing: false,
                    duration: 200_000,
                    next_play_in: 0,
                    loops: false,
                },
                move_sound_high: SoundEffect {
                    sound: SoundId::InvaderMoveHigh,
                    is_playing: false,
                    duration: 200_000,
                    next_play_in: 0,
                    loops: false,
                },
                next_move_sound: 0,
                attacks: Seq::empty(),
                next_attack: 10_000_000,
            })
    }

    /// The ranges the game keeps to between steps.
    pub open spec fn wf(self) -> bool {
        &&& self.player.wf()
        &&& self.aliens.wf()
        &&& self.aliens.above_ground()
        &&& self.ufo.wf()
        &&& self.lives <= START_LIVES
    }

    /// Whether the player has no life left.
    pub open spec fn is_over(self) -> bool {
        self.lives == 0
    }

    /// Every sound updated, in a fixed order.
    pub open spec fn sounds_updated(self, elapsed: u32) -> InvadersView {
        let a1 = self.ufo.active_sound.updated_audio(self.audio);
        let a2 = self.ufo.death_sound.updated_audio(a1);
        let a3 = self.player.attack_sound.updated_audio(a2);
        let a4 = self.player.death_sound.updated_audio(a3);
        let a5 = self.aliens.death_sound.updated_audio(a4);
        let a6 = self.aliens.move_sound_low.updated_audio(a5);
        let a7 = self.aliens.move_sound_high.updated_audio(a6);
        InvadersView {
            ufo: Ufo {
                active_sound: self.ufo.active_sound.updated(elapsed),
                death_sound: self.ufo.death_sound.updated(elapsed),
                ..self.ufo
            },
            player: PlayerView {
                attack_sound: self.player.attack_sound.updated(elapsed),
                death_sound: self.player.death_sound.updated(elapsed),
                ..self.player
            },
            aliens: AliensView {
                death_sound: self.aliens.death_sound.updated(elapsed),
                move_sound_low: self.aliens.move_sound_low.updated(elapsed),
                move_sound_high: self.aliens.move_sound_high.updated(elapsed),
                ..self.aliens
            },
            audio: a7,
            ..self
        }
    }

    /// The ship steered.
    pub open spec fn steered(self, input: Input) -> InvadersView {
        InvadersView { player: self.player.steered(input), ..self }
    }

    /// The buttons looked at: fire, or else leave.
    pub open spec fn buttons_read(self, elapsed: u32, input: Input) -> InvadersView {
        if input.action() {
            InvadersView {
                player: self.player.fired(elapsed, input),
                audio: if self.player.fires(elapsed, input) {
                    self.player.attack_sound.played_audio(self.audio)
                } else {
                    self.audio
                },
                ..self
            }
        } else if input.leave() {
            InvadersView { result: GameUpdateResult::Pop, ..self }
        } else {
            self
        }
    }

    /// The player's shots moved.
    pub open spec fn attacks_moved(self, elapsed: u32) -> InvadersView {
        InvadersView { player: self.player.attacks_moved(elapsed), ..self }
    }

    /// The bonus ship's part of the step.
    pub open spec fn ufo_stepped(self) -> InvadersView {
        InvadersView { ufo: self.ufo.stepped(), audio: self.ufo.stepped_audio(self.audio), ..self }
    }

    /// The swarm's part of the step.
    pub open spec fn swarm_stepped(self, elapsed: u32) -> InvadersView {
        InvadersView {
            aliens: self.aliens.updated(elapsed),
            audio: self.aliens.updated_audio(self.audio),
            ..self
        }
    }

    /// The game after the player was killed: a life is gone, the swarm is
    /// whole again and back at its start with its first speed, no shot is in
    /// flight, and the bonus ship is away.
    pub open spec fn killed(self) -> InvadersView {
        InvadersView {
            aliens: AliensView {
                alive: Seq::new(45, |i: int| true),
                attacks: Seq::empty(),
                offset: Coord { x: ALIEN_START_X, y: ALIEN_START_Y },
                move_rate: ALIEN_SPEED_START,
                next_attack: ALIEN_ATTACK_RATE,
                ..self.aliens
            },
            player: PlayerView { attacks: Seq::empty(), ..self.player },
            ufo: Ufo {
                xy: Coord { x: UFO_START_X, y: UFO_START_Y },
                ..self.ufo.retired(UFO_RATE)
            },
            lives: if self.lives > 0 { (self.lives - 1) as usize } else { 0 },
            audio: self.audio.push(self.ufo.active_sound.stop_command()),
            ..self
        }
    }

    /// Whether one of the swarm's shots reaches the ship on this step.
    pub open spec fn ship_is_hit(self, elapsed: u32) -> bool {
        any_attack_meets(self.aliens.attacks, elapsed, self.player.ship)
    }

    /// The swarm's shots moved; a shot that meets the ship kills the player.
    pub open spec fn enemy_attacks_moved(self, elapsed: u32) -> InvadersView {
        if self.ship_is_hit(elapsed) {
            self.killed()
        } else {
            InvadersView {
                aliens: AliensView {
                    attacks: enemy_attacks_advanced(self.aliens.attacks, elapsed),
                    ..self.aliens
                },
                ..self
            }
        }
    }

    /// Whether the swarm's lowest alien has reached the landing line.
    pub open spec fn has_landed(self) -> bool {
        match self.aliens.bottom_most_y() {
            Some(y) => y >= LANDING_LINE,
            None => false,
        }
    }

    /// A swarm that has landed kills the player.
    pub open spec fn landing_checked(self) -> InvadersView {
        if self.has_landed() {
            self.killed()
        } else {
            self
        }
    }

    /// Everything that happens in a step before the swarm fires.
    pub open spec fn before_fire(self, elapsed: u32, input: Input) -> InvadersView {
        InvadersView { audio: Seq::empty(), ..self }.sounds_updated(elapsed).steered(
            input,
        ).buttons_read(elapsed, input).attacks_moved(elapsed).ufo_stepped().swarm_stepped(
            elapsed,
        ).enemy_attacks_moved(elapsed).landing_checked()
    }

    /// Whether the swarm's fire is due: its clock has run down to the
    /// threshold and a shot is free.
    pub open spec fn fire_due(self) -> bool {
        self.aliens.next_attack <= ALIEN_FIRE_THRESHOLD && self.aliens.attacks.len()
            < MAX_ALIENS_ATTACKS
    }

    /// The swarm's fire. When it is due, the alien alive that `pick` names,
    /// counted row by row and round the grid, fires from its muzzle, and the
    /// swarm's clock starts again whether or not any alien was left to fire.
    pub open spec fn alien_fired(self, elapsed: u32, pick: int) -> InvadersView {
        let count = count_alive(self.aliens.alive, 45);
        if self.fire_due() {
            InvadersView {
                aliens: AliensView {
                    attacks: if count > 0 {
                        self.aliens.attacks.push(
                            EnemyAttack { xy: self.aliens.muzzle_of(pick % count), next_move: 0 },
                        )
                    } else {
                        self.aliens.attacks
                    },
                    next_attack: remaining_after(ALIEN_ATTACK_RATE, elapsed),
                    ..self.aliens
                },
                ..self
            }
        } else {
            InvadersView {
                aliens: AliensView {
                    next_attack: remaining_after(self.aliens.next_attack, elapsed),
                    ..self.aliens
                },
                ..self
            }
        }
    }

    /// Whether a shot of the player at `xy` hits the bonus ship.
    pub open spec fn shot_hits_ufo(self, xy: Coord) -> bool {
        self.ufo.hit_box().holds(xy)
    }

    /// Whether a shot of the player at `xy` hits anything.
    pub open spec fn shot_lands(self, xy: Coord) -> bool {
        self.shot_hits_ufo(xy) || self.aliens.is_hit_at(xy)
    }

    /// The game after a shot of the player at `xy` was tested: first against
    /// the bonus ship, which pays a bonus and stays away twice as long as
    /// usual, otherwise against the swarm.
    pub open spec fn shot_resolved(self, xy: Coord) -> InvadersView {
        if self.shot_hits_ufo(xy) {
            InvadersView {
                score: score_plus(self.score, SCORE_UFO),
                ufo: Ufo {
                    death_sound: self.ufo.death_sound.played(),
                    ..self.ufo.retired(40_000_000)
                },
                audio: self.ufo.death_sound.played_audio(self.audio).push(
                    self.ufo.active_sound.stop_command(),
                ),
                ..self
            }
        } else if self.aliens.is_hit_at(xy) {
            InvadersView {
                score: score_plus(self.score, SCORE_INVADER),
                aliens: AliensView {
                    death_sound: self.aliens.death_sound.played(),
                    ..self.aliens.shot_at(xy)
                },
                audio: self.aliens.death_sound.played_audio(self.audio),
                ..self
            }
        } else {
            self
        }
    }

    /// The game after the first `n` shots of the player were tested in turn;
    /// of those shots only the ones that hit nothing remain.
    pub open spec fn hits_resolved_upto(self, n: int) -> InvadersView
        decreases n,
    {
        if n <= 0 {
            InvadersView { player: PlayerView { attacks: Seq::empty(), ..self.player }, ..self }
        } else {
            let before = self.hits_resolved_upto(n - 1);
            let attack = self.player.attacks[n - 1];
            if before.shot_lands(attack.xy) {
                before.shot_resolved(attack.xy)
            } else {
                InvadersView {
                    player: PlayerView {
                        attacks: before.player.attacks.push(attack),
                        ..before.player
                    },
                    ..before
                }
            }
        }
    }

    /// The game after every shot of the player was tested.
    pub open spec fn hits_resolved(self) -> InvadersView {
        self.hits_resolved_upto(self.player.attacks.len() as int)
    }

    /// The clocks of the bonus ship and of the ship counted down.
    pub open spec fn clocks_run(self, elapsed: u32) -> InvadersView {
        InvadersView {
            ufo: Ufo {
                next_move: remaining_after(self.ufo.next_move, elapsed),
                next_appearance: remaining_after(self.ufo.next_appearance, elapsed),
                ..self.ufo
            },
            player: PlayerView {
                next_move: remaining_after(self.player.next_move, elapsed),
                ..self.player
            },
            ..self
        }
    }

    /// Everything that happens in a step after the swarm fired.
    pub open spec fn after_fire(self, elapsed: u32) -> InvadersView {
        self.hits_resolved().clocks_run(elapsed)
    }

    /// The game after a step in which only the way out is looked at.
    pub open spec fn idled(self, input: Input) -> InvadersView {
        InvadersView {
            audio: Seq::empty(),
            result: if input.leave() { GameUpdateResult::Pop } else { self.result },
            ..self
        }
    }

    /// The game after one step of `elapsed` microseconds under `input`, with
    /// `pick` deciding which alien fires. Once no life is left only the way
    /// out is looked at.
    pub open spec fn stepped(self, elapsed: u32, input: Input, pick: int) -> InvadersView {
        if self.is_over() {
            self.idled(input)
        } else {
            self.before_fire(elapsed, input).alien_fired(elapsed, pick).after_fire(elapsed)
        }
    }
}

/// Where the first heart stands, and how far apart the hearts are.
pub const HEART_X: isize = 1;

pub const HEART_Y: isize = 1;

pub const HEART_SPACE: isize = 11;

/// Where the score stands.
pub const SCORE_X: isize = 160;

pub const SCORE_Y: isize = 1;

impl InvadersView {
    /// A heart for every life left, from the left.
    pub open spec fn heart_commands(self) -> Seq<DrawCommand> {
        Seq::new(
            self.lives as nat,
            |i: int|
                DrawCommand::Picture {
                    picture: Picture::Heart,
                    pos: Coord { x: (HEART_X + HEART_SPACE * i) as isize, y: HEART_Y },
                },
        )
    }

    /// The score line.
    pub open spec fn score_command(self) -> DrawCommand {
        DrawCommand::Text {
            caption: Caption::Count { label: "Score ", value: self.score, width: 5 },
            pos: Coord { x: SCORE_X, y: SCORE_Y },
            font: Font::Normal,
            shade: Shade::Dark,
            anchor: Anchor::RightTop,
        }
    }

    /// The player's shots: bars two pixels wide and seven high.
    pub open spec fn player_attack_commands(self) -> Seq<DrawCommand> {
        Seq::new(
            self.player.attacks.len(),
            |i: int|
                DrawCommand::Rect {
                    rect: Rect {
                        left: self.player.attacks[i].xy.x,
                        top: self.player.attacks[i].xy.y,
                        right: (self.player.attacks[i].xy.x + 1) as isize,
                        bottom: (self.player.attacks[i].xy.y + 6) as isize,
                    },
                    style: Style::Fill,
                    shade: Shade::Darkest,
                },
        )
    }

    /// The swarm's shots.
    pub open spec fn enemy_attack_commands(self) -> Seq<DrawCommand> {
        Seq::new(
            self.aliens.attacks.len(),
            |i: int|
                DrawCommand::Picture {
                    picture: Picture::AlienAttack,
                    pos: self.aliens.attacks[i].xy,
                },
        )
    }

    /// The ship, and the bonus ship while it is on the screen.
    pub open spec fn ship_commands(self) -> Seq<DrawCommand> {
        let ship = DrawCommand::Picture {
            picture: Picture::Ship,
            pos: Coord { x: self.player.ship.left, y: self.player.ship.top },
        };
        if self.ufo.is_visible {
            seq![ship, DrawCommand::Picture { picture: Picture::Ufo, pos: self.ufo.xy }]
        } else {
            seq![ship]
        }
    }

    /// The draw commands for the game: the hearts, the score, the shots of
    /// both sides, the ship, the bonus ship and the aliens alive.
    pub open spec fn commands(self) -> Seq<DrawCommand> {
        self.heart_commands() + seq![self.score_command()] + self.player_attack_commands()
            + self.enemy_attack_commands() + self.ship_commands() + alien_commands(
            self.aliens.alive,
            self.aliens.offset,
            45,
        )
    }
}

/// The shooter game.
pub struct Invaders {
    pub player: Player,
    pub aliens: Aliens,
    pub bases: Vec<Base>,
    pub ufo: Ufo,
    /// Lives left; the game is over at zero.
    pub lives: usize,
    /// What the game asks of the scene stack.
    pub result: GameUpdateResult,
    pub score: usize,
    /// The audio commands of the latest step, in the order they were given.
    pub audio: Vec<AudioCommand>,
}

impl View for Invaders {
    type V = InvadersView;

    open spec fn view(&self) -> InvadersView {
        InvadersView {
            player: self.player@,
            aliens: self.aliens@,
            bases: self.bases@,
            ufo: self.ufo,
            lives: self.lives,
            result: self.result,
            score: self.score,
            audio: self.audio@,
        }
    }
}

/// The swarm's shot `attack` after one step.
fn advance_enemy_attack(attack: EnemyAttack, elapsed: u32) -> (moved: EnemyAttack)
    requires
        attack_in_range(attack),
    ensures
        moved == enemy_attack_advanced(attack, elapsed),
{
    let left = count_down(attack.next_move, elapsed);
    if left <= 0 {
        EnemyAttack {
            xy: Coord { x: attack.xy.x, y: attack.xy.y + 1 },
            next_move: ALIEN_ATTACK_SPEED,
        }
    } else {
        EnemyAttack { xy: attack.xy, next_move: left }
    }
}

impl Invaders {
    /// A new game with three lives, a full swarm and three whole shelters.
    /// `ufo_width` and `ufo_height` give the size of the bonus ship's picture,
    /// which is its hit box.
    pub fn new(ufo_width: u16, ufo_height: u16) -> (game: Invaders)
        ensures
            game@.is_fresh(ufo_width, ufo_height),
            game@.wf(),
    {
        let player_attack = SoundEffect::new(SoundId::PlayerShoot, 500_000);
        let player_death = SoundEffect::new(SoundId::PlayerDead, 1_000_000);
        let mut ufo = SoundEffect::new(SoundId::Ufo, 1_700_000);
        let ufo_dead = SoundEffect::new(SoundId::UfoDead, 500_000);
        let invader_dead = SoundEffect::new(SoundId::InvaderDead, 500_000);
        let invader_move1 = SoundEffect::new(SoundId::InvaderMoveLow, 200_000);
        let invader_move2 = SoundEffect::new(SoundId::InvaderMoveHigh, 200_000);
        ufo.set_loop(true);
        let mut bases: Vec<Base> = Vec::new();
        bases.push(Base::new(0));
        bases.push(Base::new(1));
        bases.push(Base::new(2));
        Invaders {
            score: 0,
            result: GameUpdateResult::Nothing,
            aliens: Aliens::new(invader_dead, invader_move1, invader_move2),
            player: Player::new(player_attack, player_death),
            ufo: Ufo::new(ufo_width, ufo_height, ufo, ufo_dead),
            bases,
            lives: START_LIVES,
            audio: Vec::new(),
        }
    }

    /// Whether the game is as its functions expect it.
    pub fn is_valid(&self) -> (ok: bool)
        ensures
            ok == self@.wf(),
    {
        self.player.is_valid() && self.aliens.is_valid() && self.aliens.is_above_ground()
            && self.ufo.is_valid() && self.lives <= START_LIVES
    }

    /// Whether the player has no life left. From then on a step only looks at
    /// the way out.
    pub fn is_over(&self) -> (over: bool)
        ensures
            over == self@.is_over(),
    {
        self.lives == 0
    }

    /// Takes a life and sets the field up again.
    pub fn player_killed(&mut self)
        requires
            old(self)@.player.wf(),
            old(self)@.aliens.wf(),
            old(self)@.ufo.wf(),
            old(self)@.lives <= START_LIVES,
        ensures
            final(self)@ == old(self)@.killed(),
            final(self)@.wf(),
    {
        self.aliens.alive = full_grid();
        self.aliens.attacks.clear();
        self.aliens.offset = Coord { x: ALIEN_START_X, y: ALIEN_START_Y };
        self.aliens.move_rate = ALIEN_SPEED_START;
        self.aliens.next_attack = ALIEN_ATTACK_RATE;
        self.player.attacks.clear();
        self.ufo.xy = Coord { x: UFO_START_X, y: UFO_START_Y };
        self.ufo.next_appearance = UFO_RATE;
        self.ufo.is_visible = false;
        self.ufo.active_sound.reset(&mut self.audio);
        if self.lives > 0 {
            self.lives = self.lives - 1;
        }
        assert(self@.aliens.alive =~= Seq::new(45, |i: int| true));
    }

    /// Whether one of the swarm's shots reaches the ship on this step. When
    /// none does, the shots are moved and those that left the screen are
    /// dropped; when one does, they are left as they are.
    pub fn detect_alien_attack_hit(&mut self, elapsed: u32) -> (hit: bool)
        requires
            old(self)@.player.wf(),
            old(self)@.aliens.wf(),
        ensures
            hit == old(self)@.ship_is_hit(elapsed),
            final(self)@ == if hit {
                old(self)@
            } else {
                old(self)@.enemy_attacks_moved(elapsed)
            },
            final(self)@.aliens.wf(),
    {
        let n = self.aliens.attacks.len();
        let ship = self.player.bounds();
        let mut i: usize = 0;
        while i < n
            invariant
                i <= n,
                n == self.aliens.attacks@.len(),
                self@ == old(self)@,
                self@.aliens.wf(),
                ship == self.player.ship,
                forall|j: int|
                    0 <= j < i ==> !(#[trigger] enemy_attack_advanced(
                        self.aliens.attacks@[j],
                        elapsed,
                    )).hit_box().meets(ship),
            decreases n - i,
        {
            assert(attack_in_range(self@.aliens.attacks[i as int]));
            let moved = advance_enemy_attack(self.aliens.attacks[i], elapsed);
            if moved.bounds().intersects_rect(&ship) {
                return true;
            }
            i = i + 1;
        }
        let mut kept: Vec<EnemyAttack> = Vec::new();
        let mut i: usize = 0;
        while i < n
            invariant
                i <= n,
                n == self.aliens.attacks@.len(),
                self@ == old(self)@,
                self@.aliens.wf(),
                kept@ == enemy_attacks_advanced(self.aliens.attacks@.take(i as int), elapsed),
                kept@.len() <= i,
                forall|k: int| 0 <= k < kept@.len() ==> attack_in_range(#[trigger] kept@[k]),
            decreases n - i,
        {
            proof {
                assert(attack_in_range(self@.aliens.attacks[i as int]));
                assert(self.aliens.attacks@.take(i + 1).drop_last() =~= self.aliens.attacks@.take(
                    i as int,
                ));
                assert(self.aliens.attacks@.take(i + 1).last() == self.aliens.attacks@[i as int]);
            }
            let moved = advance_enemy_attack(self.aliens.attacks[i], elapsed);
            if !(moved.xy.y >= SCREEN_HEIGHT) {
                kept.push(moved);
            }
            i = i + 1;
        }
        proof {
            assert(self.aliens.attacks@.take(n as int) =~= self.aliens.attacks@);
        }
        self.aliens.attacks = kept;
        false
    }

    /// Updates every sound.
    fn update_sounds(&mut self, elapsed: u32)
        ensures
            final(self)@ == old(self)@.sounds_updated(elapsed),
    {
        self.ufo.active_sound.update(elapsed, &mut self.audio);
        self.ufo.death_sound.update(elapsed, &mut self.audio);
        self.player.attack_sound.update(elapsed, &mut self.audio);
        self.player.death_sound.update(elapsed, &mut self.audio);
        self.aliens.death_sound.update(elapsed, &mut self.audio);
        self.aliens.move_sound_low.update(elapsed, &mut self.audio);
        self.aliens.move_sound_high.update(elapsed, &mut self.audio);
    }

    /// Looks at the fire button and at the way out.
    fn read_buttons(&mut self, elapsed: u32, input: &Input)
        requires
            old(self)@.player.wf(),
        ensures
            final(self)@ == old(self)@.buttons_read(elapsed, *input),
            final(self)@.player.wf(),
    {
        if input.wants_action() {
            self.player.fire(elapsed, input, &mut self.audio);
        } else if input.wants_leave() {
            self.result = GameUpdateResult::Pop;
        }
    }

    /// Kills the player when the swarm has landed.
    fn check_landing(&mut self)
        requires
            old(self)@.player.wf(),
            old(self)@.aliens.wf(),
            old(self)@.ufo.wf(),
            old(self)@.lives <= START_LIVES,
            old(self)@.aliens.above_ground() || old(self)@.aliens.any_alive(),
        ensures
            final(self)@ == old(self)@.landing_checked(),
            final(self)@.wf(),
    {
        proof {
            lemma_occupied_iff_some_alive(self@.aliens.alive);
            lemma_last_occupied_row(self@.aliens.alive, 4);
        }
        if let Some(y) = self.aliens.bottom_most_y() {
            if y >= LANDING_LINE {
                self.player_killed();
            }
        }
    }

    /// Everything that happens in a step before the swarm fires.
    fn advance_to_fire(&mut self, elapsed: u32, input: &Input)
        requires
            old(self)@.wf(),
        ensures
            final(self)@ == old(self)@.before_fire(elapsed, *input),
            final(self)@.wf(),
    {
        self.audio.clear();
        self.update_sounds(elapsed);
        self.player.steer(input);
        self.read_buttons(elapsed, input);
        self.player.move_attacks(elapsed);
        self.ufo.step(&mut self.audio);
        self.aliens.update(elapsed, &mut self.audio);
        if self.detect_alien_attack_hit(elapsed) {
            self.player_killed();
        }
        self.check_landing();
    }

    /// Draws which alien fires, when one is to fire now.
    fn draw_shooter(&self) -> (pick: usize)
        requires
            self@.wf(),
        ensures
            pick < 45,
            count_alive(self@.aliens.alive, 45) > 0 ==> pick < count_alive(self@.aliens.alive, 45),
    {
        if self.aliens.next_attack <= ALIEN_FIRE_THRESHOLD && self.aliens.attacks.len()
            < MAX_ALIENS_ATTACKS {
            let count = self.aliens.alive_count();
            if count > 0 {
                return random_usize(0, count);
            }
        }
        proof {
            lemma_count_alive(self@.aliens.alive, 45);
        }
        0
    }

    /// The swarm's fire.
    fn alien_fire(&mut self, elapsed: u32, pick: usize)
        requires
            old(self)@.wf(),
        ensures
            final(self)@ == old(self)@.alien_fired(elapsed, pick as int),
            final(self)@.wf(),
    {
        if self.aliens.next_attack <= ALIEN_FIRE_THRESHOLD && self.aliens.attacks.len()
            < MAX_ALIENS_ATTACKS {
            let count = self.aliens.alive_count();
            if count > 0 {
                let xy = self.aliens.attack_position(pick % count);
                self.aliens.attacks.push(EnemyAttack { xy, next_move: 0 });
                proof {
                    let before = old(self)@.aliens.attacks;
                    assert forall|i: int| 0 <= i < self@.aliens.attacks.len() implies #[trigger] attack_in_range(
                        self@.aliens.attacks[i],
                    ) by {
                        if i < before.len() {
                            assert(self@.aliens.attacks[i] == before[i]);
                        }
                    }
                }
            }
            self.aliens.next_attack = ALIEN_ATTACK_RATE;
        }
        self.aliens.next_attack = count_down(self.aliens.next_attack, elapsed);
    }

    /// Tests every shot of the player against the bonus ship and the swarm,
    /// and then drops the shots that hit.
    fn resolve_hits(&mut self)
        requires
            old(self)@.wf(),
        ensures
            final(self)@ == old(self)@.hits_resolved(),
            final(self)@.wf(),
    {
        let ghost start = self@;
        let mut kept: Vec<PlayerAttack> = Vec::new();
        let n = self.player.attacks.len();
        let mut i: usize = 0;
        while i < n
            invariant
                i <= n,
                n == start.player.attacks.len(),
                start.wf(),
                self@.wf(),
                self.player.attacks@ == start.player.attacks,
                kept@.len() <= i,
                forall|k: int| 0 <= k < kept@.len() ==> player_attack_in_range(#[trigger] kept@[k]),
                (InvadersView {
                    player: PlayerView { attacks: kept@, ..self@.player },
                    ..self@
                }) == start.hits_resolved_upto(i as int),
            decreases n - i,
        {
            let attack = self.player.attacks[i];
            assert(player_attack_in_range(start.player.attacks[i as int]));
            if self.ufo.bounds().contains(attack.xy) {
                self.score = self.score.saturating_add(SCORE_UFO);
                self.ufo.death_sound.play(&mut self.audio);
                self.ufo.is_visible = false;
                self.ufo.next_appearance = 2 * UFO_RATE;
                self.ufo.active_sound.reset(&mut self.audio);
            } else if self.aliens.detect_player_attack_hit(attack.xy) {
                self.aliens.death_sound.play(&mut self.audio);
                self.score = self.score.saturating_add(SCORE_INVADER);
            } else {
                kept.push(attack);
            }
            i = i + 1;
        }
        self.player.attacks = kept;
    }

    /// Counts down the clocks of the bonus ship and of the ship.
    fn run_clocks(&mut self, elapsed: u32)
        ensures
            final(self)@ == old(self)@.clocks_run(elapsed),
    {
        self.ufo.next_move = count_down(self.ufo.next_move, elapsed);
        self.ufo.next_appearance = count_down(self.ufo.next_appearance, elapsed);
        self.player.next_move = count_down(self.player.next_move, elapsed);
    }

    /// One step of the game in which `pick` decides which alien fires: when
    /// the swarm's fire is due, the shooter is the alien alive number `pick`,
    /// counted row by row from 0 and round the grid.
    pub fn update_with(&mut self, elapsed: u32, input: &Input, pick: usize) -> (result:
        GameUpdateResult)
        requires
            old(self)@.wf(),
        ensures
            final(self)@ == old(self)@.stepped(elapsed, *input, pick as int),
            result == final(self)@.result,
            final(self)@.wf(),
    {
        if self.lives == 0 {
            self.audio.clear();
            if input.wants_leave() {
                self.result = GameUpdateResult::Pop;
            }
            return self.result;
        }
        self.advance_to_fire(elapsed, input);
        self.alien_fire(elapsed, pick);
        self.resolve_hits();
        self.run_clocks(elapsed);
        self.result
    }

    /// One step of the game. Which alien fires, when the swarm's fire is due,
    /// is drawn at random among the aliens alive.
    pub fn update(&mut self, elapsed: u32, input: &Input) -> (result: GameUpdateResult)
        requires
            old(self)@.wf(),
        ensures
            exists|pick: int|
                0 <= pick < 45 && final(self)@ == #[trigger] old(self)@.stepped(
                    elapsed,
                    *input,
                    pick,
                ),
            result == final(self)@.result,
            final(self)@.wf(),
    {
        if self.lives == 0 {
            self.audio.clear();
            if input.wants_leave() {
                self.result = GameUpdateResult::Pop;
            }
            assert(self@ == old(self)@.stepped(elapsed, *input, 0));
            return self.result;
        }
        self.advance_to_fire(elapsed, input);
        let pick = self.draw_shooter();
        self.alien_fire(elapsed, pick);
        self.resolve_hits();
        self.run_clocks(elapsed);
        assert(self@ == old(self)@.stepped(elapsed, *input, pick as int));
        self.result
    }

    /// The draw commands for the game.
    pub fn render(&self) -> (out: Vec<DrawCommand>)
        requires
            self@.wf(),
        ensures
            out@ == self@.commands(),
    {
        let mut out: Vec<DrawCommand> = Vec::new();
        let mut i: usize = 0;
        while i < self.lives
            invariant
                i <= self.lives,
                self@.wf(),
                out@ =~= self@.heart_commands().subrange(0, i as int),
            decreases self.lives - i,
        {
            out.push(
                DrawCommand::Picture {
                    picture: Picture::Heart,
                    pos: Coord { x: HEART_X + HEART_SPACE * (i as isize), y: HEART_Y },
                },
            );
            i = i + 1;
        }
        assert(self@.heart_commands().subrange(0, self.lives as int) =~= self@.heart_commands());
        out.push(
            DrawCommand::Text {
                caption: Caption::Count { label: "Score ", value: self.score, width: 5 },
                pos: Coord { x: SCORE_X, y: SCORE_Y },
                font: Font::Normal,
                shade: Shade::Dark,
                anchor: Anchor::RightTop,
            },
        );
        let ghost scored = out@;
        let n = self.player.attacks.len();
        let mut i: usize = 0;
        while i < n
            invariant
                i <= n,
                n == self.player.attacks@.len(),
                self@.wf(),
                out@ =~= scored + self@.player_attack_commands().subrange(0, i as int),
            decreases n - i,
        {
            let attack = self.player.attacks[i];
            assert(player_attack_in_range(self@.player.attacks[i as int]));
            out.push(
                DrawCommand::Rect {
                    rect: Rect {
                        left: attack.xy.x,
                        top: attack.xy.y,
                        right: attack.xy.x + 1,
                        bottom: attack.xy.y + 6,
                    },
                    style: Style::Fill,
                    shade: Shade::Darkest,
                },
            );
            i = i + 1;
        }
        assert(self@.player_attack_commands().subrange(0, n as int)
            =~= self@.player_attack_commands());
        let ghost shot = out@;
        let m = self.aliens.attacks.len();
        let mut i: usize = 0;
        while i < m
            invariant
                i <= m,
                m == self.aliens.attacks@.len(),
                out@ =~= shot + self@.enemy_attack_commands().subrange(0, i as int),
            decreases m - i,
        {
            out.push(
                DrawCommand::Picture {
                    picture: Picture::AlienAttack,
                    pos: self.aliens.attacks[i].xy,
                },
            );
            i = i + 1;
        }
        assert(self@.enemy_attack_commands().subrange(0, m as int)
            =~= self@.enemy_attack_commands());
        out.push(
            DrawCommand::Picture {
                picture: Picture::Ship,
                pos: Coord { x: self.player.ship.left, y: self.player.ship.top },
            },
        );
        if self.ufo.is_visible {
            out.push(DrawCommand::Picture { picture: Picture::Ufo, pos: self.ufo.xy });
        }
        let ghost shipped = out@;
        assert(shipped =~= self@.heart_commands() + seq![self@.score_command()]
            + self@.player_attack_commands() + self@.enemy_attack_commands()
            + self@.ship_commands());
        let mut i: usize = 0;
        while i < 45
            invariant
                i <= 45,
                self@.wf(),
                out@ =~= shipped + alien_commands(self@.aliens.alive, self@.aliens.offset, i as int),
            decreases 45 - i,
        {
            if self.aliens.alive[i] {
                let y = i / 9;
                let xy = self.aliens.coord_for_ship(y, i % 9);
                let picture = if y == 0 {
                    Picture::InvaderTop
                } else if y <= 2 {
                    Picture::InvaderMiddle
                } else {
                    Picture::InvaderBottom
                };
                out.push(DrawCommand::Picture { picture, pos: xy });
            }
            i = i + 1;
        }
        out
    }

    /// Key releases mean nothing to this game.
    pub fn on_key_press(&mut self)
        ensures
            *final(self) == *old(self),
    {
    }

    /// Nothing is reset when the game becomes the live scene again.
    pub fn resuming(&mut self)
        ensures
            *final(self) == *old(self),
    {
    }
}

/// The player's shots after a step are their old selves moved, each by its
/// own clock, with those left out that have gone off the screen.
pub proof fn lemma_player_attacks_are_moved_and_sifted(attacks: Seq<PlayerAttack>, elapsed: u32)
    ensures
        player_attacks_advanced(attacks, elapsed) == attacks.map_values(
            |a: PlayerAttack| a.advanced(elapsed),
        ).filter(|a: PlayerAttack| !a.is_gone()),
    decreases attacks.len(),
{
    let moved = |a: PlayerAttack| a.advanced(elapsed);
    reveal(Seq::filter);
    if attacks.len() > 0 {
        lemma_player_attacks_are_moved_and_sifted(attacks.drop_last(), elapsed);
        assert(attacks.map_values(moved).drop_last() =~= attacks.drop_last().map_values(moved));
    } else {
        assert(attacks.map_values(moved) =~= Seq::<PlayerAttack>::empty());
    }
}

/// The swarm's shots after a step are their old selves moved, each by its own
/// clock, with those left out that have fallen off the screen.
pub proof fn lemma_enemy_attacks_are_moved_and_sifted(attacks: Seq<EnemyAttack>, elapsed: u32)
    ensures
        enemy_attacks_advanced(attacks, elapsed) == attacks.map_values(
            |a: EnemyAttack| enemy_attack_advanced(a, elapsed),
        ).filter(|a: EnemyAttack| a.xy.y < SCREEN_HEIGHT),
    decreases attacks.len(),
{
    let moved = |a: EnemyAttack| enemy_attack_advanced(a, elapsed);
    reveal(Seq::filter);
    if attacks.len() > 0 {
        lemma_enemy_attacks_are_moved_and_sifted(attacks.drop_last(), elapsed);
        assert(attacks.map_values(moved).drop_last() =~= attacks.drop_last().map_values(moved));
    } else {
        assert(attacks.map_values(moved) =~= Seq::<EnemyAttack>::empty());
    }
}

/// Testing the player's shots never brings an alien back, never slows the
/// swarm down, never lowers the score and costs no life.
pub proof fn lemma_hits_only_thin_swarm(game: InvadersView, n: int)
    requires
        game.aliens.alive.len() == 45,
        0 <= n <= game.player.attacks.len(),
    ensures
        ({
            let after = game.hits_resolved_upto(n);
            &&& after.aliens.alive.len() == 45
            &&& count_alive(after.aliens.alive, 45) <= count_alive(game.aliens.alive, 45)
            &&& after.aliens.move_rate <= game.aliens.move_rate
            &&& after.aliens.offset == game.aliens.offset
            &&& after.aliens.dir == game.aliens.dir
            &&& after.lives == game.lives
            &&& after.score >= game.score
            &&& after.player.attacks.len() <= n
        }),
    decreases n,
{
    if n > 0 {
        lemma_hits_only_thin_swarm(game, n - 1);
        let before = game.hits_resolved_upto(n - 1);
        let attack = game.player.attacks[n - 1];
        lemma_shot_only_kills(before.aliens, attack.xy);
        lemma_first_hit(before.aliens.alive, before.aliens.offset, attack.xy, 0);
    }
}

/// In a step that costs the player no life, no alien comes back to life and
/// the time between the swarm's moves does not grow.
pub proof fn lemma_swarm_only_thins_between_kills(
    game: InvadersView,
    elapsed: u32,
    input: Input,
    pick: int,
)
    requires
        game.wf(),
        game.stepped(elapsed, input, pick).lives == game.lives,
    ensures
        count_alive(game.stepped(elapsed, input, pick).aliens.alive, 45) <= count_alive(
            game.aliens.alive,
            45,
        ),
        game.stepped(elapsed, input, pick).aliens.move_rate <= game.aliens.move_rate,
{
    if !game.is_over() {
        let moved = (InvadersView { audio: Seq::empty(), ..game }).sounds_updated(elapsed).steered(
            input,
        ).buttons_read(elapsed, input).attacks_moved(elapsed).ufo_stepped().swarm_stepped(elapsed);
        let shot_at = moved.enemy_attacks_moved(elapsed);
        let checked = shot_at.landing_checked();
        assert(checked == game.before_fire(elapsed, input));
        let fired = checked.alien_fired(elapsed, pick);
        assert(moved.lives == game.lives);
        assert(moved.aliens.alive == game.aliens.alive);
        assert(moved.aliens.move_rate == game.aliens.move_rate);
        assert(shot_at.lives <= moved.lives);
        assert(checked.lives <= shot_at.lives);
        assert(fired.aliens.alive == checked.aliens.alive);
        assert(fired.aliens.alive.len() == 45);
        lemma_hits_only_thin_swarm(fired, fired.player.attacks.len() as int);
        assert(fired.hits_resolved().lives == fired.lives);
        assert(checked.lives == game.lives);
        assert(!moved.ship_is_hit(elapsed));
        assert(!shot_at.has_landed());
    }
}

/// A step never raises the number of lives and costs one at most: after a
/// shot has met the ship the swarm is back at its start, far from landing.
pub proof fn lemma_step_costs_one_life_at_most(
    game: InvadersView,
    elapsed: u32,
    input: Input,
    pick: int,
)
    requires
        game.wf(),
    ensures
        game.stepped(elapsed, input, pick).lives <= game.lives,
        game.stepped(elapsed, input, pick).lives + 1 >= game.lives,
{
    if !game.is_over() {
        let moved = (InvadersView { audio: Seq::empty(), ..game }).sounds_updated(elapsed).steered(
            input,
        ).buttons_read(elapsed, input).attacks_moved(elapsed).ufo_stepped().swarm_stepped(elapsed);
        let shot_at = moved.enemy_attacks_moved(elapsed);
        let checked = shot_at.landing_checked();
        assert(checked == game.before_fire(elapsed, input));
        let fired = checked.alien_fired(elapsed, pick);
        assert(moved.lives == game.lives);
        assert(fired.aliens.alive.len() == 45);
        lemma_hits_only_thin_swarm(fired, fired.player.attacks.len() as int);
        if moved.ship_is_hit(elapsed) {
            lemma_last_occupied_row(shot_at.aliens.alive, 4);
            assert(!shot_at.has_landed());
        }
    }
}

} // verus!
