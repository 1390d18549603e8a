use retro_games::draw::{Anchor, Caption, DrawCommand, Font, Picture, Shade, Style};
use retro_games::geometry::{Coord, Rect};
use retro_games::input::Input;
use retro_games::invaders::aliens::{Aliens, EnemyAttack};
use retro_games::invaders::{Base, Invaders, Player, PlayerAttack, Ufo};
use retro_games::screen::GameUpdateResult;
use retro_games::sound::{AudioAction, AudioCommand, SoundEffect, SoundId};

const TICK: u32 = 16_667;

fn swarm() -> Aliens {
    Aliens::new(
        SoundEffect::new(SoundId::InvaderDead, 500_000),
        SoundEffect::new(SoundId::InvaderMoveLow, 200_000),
        SoundEffect::new(SoundId::InvaderMoveHigh, 200_000),
    )
}

fn play(sound: SoundId) -> AudioCommand {
    AudioCommand { sound, action: AudioAction::Play }
}

fn stop(sound: SoundId) -> AudioCommand {
    AudioCommand { sound, action: AudioAction::Stop }
}

#[test]
fn new_swarm_is_whole_and_moves_right() {
    let aliens = swarm();
    assert_eq!(aliens.alive, vec![true; 45]);
    assert_eq!(aliens.alive_count(), 45);
    assert_eq!(aliens.offset, Coord::new(3, 18));
    assert_eq!(aliens.dir, 1);
    assert_eq!(aliens.move_rate, 1_000_000);
    assert_eq!(aliens.next_attack, 10_000_000);
    assert!(aliens.is_alive(4, 8));
    assert!(!aliens.is_alive(5, 0));
    assert!(!aliens.is_alive(0, 9));
}

#[test]
fn alien_cells_are_spaced_fifteen_by_twelve() {
    let aliens = swarm();
    assert_eq!(aliens.coord_for_ship(0, 0), Coord::new(3, 18));
    assert_eq!(aliens.coord_for_ship(2, 3), Coord::new(48, 42));
    assert_eq!(aliens.rect_for_ship(4, 8), Rect { left: 123, top: 66, right: 134, bottom: 74 });
}

#[test]
fn swarm_edges_follow_the_aliens_alive() {
    let mut aliens = swarm();
    assert_eq!(aliens.left_most_x(), Some(1));
    assert_eq!(aliens.right_most_x(), Some(136));
    assert_eq!(aliens.bottom_most_y(), Some(74));
    for row in 0..5 {
        aliens.alive[row * 9] = false;
        aliens.alive[row * 9 + 8] = false;
        aliens.alive[row * 9 + 7] = false;
    }
    for col in 0..9 {
        aliens.alive[4 * 9 + col] = false;
    }
    assert_eq!(aliens.left_most_x(), Some(3 + 15 - 2));
    assert_eq!(aliens.right_most_x(), Some(3 + 6 * 15 + 13));
    assert_eq!(aliens.bottom_most_y(), Some(18 + 3 * 12 + 8));
    assert_eq!(aliens.alive_count(), 45 - 15 - 6);
    aliens.alive = vec![false; 45];
    assert_eq!(aliens.left_most_x(), None);
    assert_eq!(aliens.right_most_x(), None);
    assert_eq!(aliens.bottom_most_y(), None);
    assert_eq!(aliens.alive_count(), 0);
}

#[test]
fn swarm_turns_and_descends_at_the_right_wall() {
    let mut audio = Vec::new();
    let mut aliens = swarm();
    aliens.offset = Coord::new(27, 18);
    aliens.last_move = -1;
    assert_eq!(aliens.right_most_x(), Some(160));
    aliens.update(TICK, &mut audio);
    assert_eq!(aliens.dir, -1);
    assert_eq!(aliens.offset, Coord::new(28, 19));
    assert_eq!(aliens.last_move, 1_000_000 - 16_667);
}

#[test]
fn swarm_keeps_its_course_short_of_the_wall() {
    let mut audio = Vec::new();
    let mut aliens = swarm();
    aliens.offset = Coord::new(26, 18);
    aliens.last_move = -1;
    aliens.update(TICK, &mut audio);
    assert_eq!(aliens.dir, 1);
    assert_eq!(aliens.offset, Coord::new(27, 18));
}

#[test]
fn swarm_reaches_the_right_wall_after_twenty_four_moves() {
    let mut audio = Vec::new();
    let mut aliens = swarm();
    aliens.update(1_000_001, &mut audio);
    assert_eq!(aliens.offset, Coord::new(3, 18));
    for moved in 1..=24 {
        aliens.update(1_000_001, &mut audio);
        assert_eq!(aliens.offset, Coord::new(3 + moved, 18));
        assert_eq!(aliens.dir, 1);
    }
    aliens.update(1_000_001, &mut audio);
    assert_eq!(aliens.offset, Coord::new(28, 19));
    assert_eq!(aliens.dir, -1);
    aliens.update(1_000_001, &mut audio);
    assert_eq!(aliens.offset, Coord::new(27, 20));
    aliens.update(1_000_001, &mut audio);
    assert_eq!(aliens.offset, Coord::new(26, 21));
    aliens.update(1_000_001, &mut audio);
    assert_eq!(aliens.offset, Coord::new(25, 21));
    assert_eq!(aliens.dir, -1);
}

#[test]
fn swarm_turns_and_descends_at_the_left_wall() {
    let mut audio = Vec::new();
    let mut aliens = swarm();
    aliens.offset = Coord::new(2, 30);
    aliens.dir = -1;
    aliens.last_move = -1;
    aliens.update(TICK, &mut audio);
    assert_eq!(aliens.dir, 1);
    assert_eq!(aliens.offset, Coord::new(1, 31));
}

#[test]
fn empty_swarm_stands_still() {
    let mut audio = Vec::new();
    let mut aliens = swarm();
    aliens.alive = vec![false; 45];
    aliens.last_move = -1;
    aliens.update(TICK, &mut audio);
    assert_eq!(aliens.offset, Coord::new(3, 18));
    assert_eq!(aliens.last_move, -1);
}

#[test]
fn swarm_move_sounds_alternate() {
    let mut audio = Vec::new();
    let mut aliens = swarm();
    aliens.move_sound_low.next_play_in = -1;
    aliens.move_sound_high.next_play_in = -1;
    aliens.last_move = -1;
    aliens.update(TICK, &mut audio);
    assert_eq!(aliens.next_move_sound, 1);
    aliens.last_move = -1;
    aliens.update(TICK, &mut audio);
    assert_eq!(aliens.next_move_sound, 0);
    aliens.last_move = -1;
    aliens.update(TICK, &mut audio);
    assert_eq!(aliens.next_move_sound, 0);
    assert_eq!(audio, vec![play(SoundId::InvaderMoveLow), play(SoundId::InvaderMoveHigh)]);
}

#[test]
fn player_shot_kills_the_alien_it_hits_and_speeds_the_swarm_up() {
    let mut aliens = swarm();
    assert!(!aliens.detect_player_attack_hit(Coord::new(15, 18)));
    assert_eq!(aliens.alive_count(), 45);
    assert!(aliens.detect_player_attack_hit(Coord::new(14, 26)));
    assert!(!aliens.alive[0]);
    assert_eq!(aliens.alive_count(), 44);
    assert_eq!(aliens.move_rate, 960_000);
    assert!(!aliens.detect_player_attack_hit(Coord::new(14, 26)));
    assert!(aliens.detect_player_attack_hit(Coord::new(18 + 15, 18 + 12)));
    assert!(!aliens.alive[9 + 2]);
    assert_eq!(aliens.move_rate, 920_000);
}

#[test]
fn attack_position_is_the_muzzle_of_the_alien_picked() {
    let mut aliens = swarm();
    assert_eq!(aliens.attack_position(0), Coord::new(8, 26));
    assert_eq!(aliens.attack_position(44), Coord::new(128, 74));
    aliens.alive[0] = false;
    aliens.alive[1] = false;
    assert_eq!(aliens.attack_position(0), Coord::new(3 + 30 + 5, 26));
    assert_eq!(aliens.attack_position(7), Coord::new(8, 38));
}

#[test]
fn random_attack_position_is_the_muzzle_of_an_alien_alive() {
    let mut aliens = swarm();
    for i in 0..45 {
        aliens.alive[i] = i == 12 || i == 30;
    }
    for _ in 0..50 {
        let xy = aliens.random_attack_position().unwrap();
        assert!(xy == Coord::new(3 + 3 * 15 + 5, 18 + 12 + 8) || xy == Coord::new(3 + 3 * 15 + 5, 18 + 3 * 12 + 8));
    }
    aliens.alive = vec![false; 45];
    assert_eq!(aliens.random_attack_position(), None);
}

#[test]
fn enemy_attack_bounds() {
    let attack = EnemyAttack { xy: Coord::new(10, 20), next_move: 0 };
    assert_eq!(attack.bounds(), Rect { left: 10, top: 20, right: 15, bottom: 28 });
}

#[test]
fn new_game_of_invaders() {
    let game = Invaders::new(16, 7);
    assert_eq!(game.lives, 3);
    assert_eq!(game.score, 0);
    assert_eq!(game.result, GameUpdateResult::Nothing);
    assert!(!game.is_over());
    assert_eq!(game.player.ship, Rect { left: 70, top: 133, right: 90, bottom: 144 });
    assert_eq!(game.player.bounds(), Rect { left: 70, top: 133, right: 90, bottom: 144 });
    assert_eq!(game.ufo.xy, Coord::new(-50, 50));
    assert!(!game.ufo.is_visible);
    assert!(game.ufo.active_sound.loops);
    assert_eq!(game.ufo.bounds(), Rect { left: -50, top: 50, right: -34, bottom: 57 });
    assert_eq!(game.bases.len(), 3);
    assert_eq!(game.bases[0].offset, Coord::new(10, 100));
    assert_eq!(game.bases[2].offset, Coord::new(90, 100));
    assert_eq!(game.bases[1].blocks, vec![vec![true; 6]; 3]);
    assert_eq!(game.aliens.alive_count(), 45);
}

#[test]
fn new_base_is_whole() {
    let base = Base::new(1);
    assert_eq!(base.offset, Coord::new(50, 100));
    assert_eq!(base.blocks, vec![vec![true; 6]; 3]);
}

#[test]
fn ship_moves_one_pixel_when_its_move_is_due() {
    let mut game = Invaders::new(16, 7);
    let mut left = Input::idle();
    left.keys.left = true;
    game.update_with(TICK, &left, 0);
    assert_eq!(game.player.ship.left, 70);
    game.update_with(TICK, &left, 0);
    assert_eq!(game.player.ship, Rect { left: 69, top: 133, right: 89, bottom: 144 });
    assert_eq!(game.player.next_move, 10_000 - 16_667);
    let mut right = Input::idle();
    right.pad.right = true;
    game.update_with(TICK, &right, 0);
    assert_eq!(game.player.ship.left, 70);
}

#[test]
fn ship_stops_at_the_walls() {
    let mut game = Invaders::new(16, 7);
    game.player.ship = Rect { left: 0, top: 133, right: 20, bottom: 144 };
    game.player.next_move = -1;
    let mut left = Input::idle();
    left.keys.left = true;
    game.update_with(TICK, &left, 0);
    assert_eq!(game.player.ship.left, 0);
    game.player.ship = Rect { left: 140, top: 133, right: 160, bottom: 144 };
    let mut right = Input::idle();
    right.keys.right = true;
    game.update_with(TICK, &right, 0);
    assert_eq!(game.player.ship.right, 160);
}

#[test]
fn player_fires_from_the_middle_of_the_ship() {
    let mut game = Invaders::new(16, 7);
    let mut fire = Input::idle();
    fire.keys.space = true;
    game.update_with(TICK, &fire, 0);
    assert_eq!(game.player.attacks, vec![PlayerAttack { xy: Coord::new(80, 138), next_move: -16_667 }]);
    assert_eq!(game.audio, vec![play(SoundId::PlayerShoot)]);
    game.update_with(TICK, &fire, 0);
    assert_eq!(game.player.attacks.len(), 1);
    assert_eq!(game.player.attacks[0].xy, Coord::new(80, 137));
    assert_eq!(game.player.attacks[0].next_move, 6_000 - 16_667);
    assert_eq!(game.player.next_attack.remaining, 1_000_000 - 16_667);
}

#[test]
fn player_has_at_most_two_shots_in_flight() {
    let mut game = Invaders::new(16, 7);
    let mut fire = Input::idle();
    fire.keys.space = true;
    for _ in 0..5 {
        game.update_with(1_000_000, &fire, 0);
    }
    assert_eq!(game.player.attacks.len(), 2);
}

#[test]
fn player_shot_leaves_at_the_top() {
    let mut game = Invaders::new(16, 7);
    game.player.attacks = vec![
        PlayerAttack { xy: Coord::new(80, -3), next_move: -1 },
        PlayerAttack { xy: Coord::new(40, 120), next_move: 5 },
    ];
    game.player.next_attack.reset();
    game.update_with(1, &Input::idle(), 0);
    assert_eq!(game.player.attacks, vec![PlayerAttack { xy: Coord::new(40, 120), next_move: 4 }]);
    assert_eq!(game.player.next_attack.remaining, 1_000_000);
    game.player.attacks = vec![PlayerAttack { xy: Coord::new(80, -3), next_move: -1 }];
    game.update_with(1, &Input::idle(), 0);
    assert!(game.player.attacks.is_empty());
    assert_eq!(game.player.next_attack.remaining, 0);
}

#[test]
fn swarm_fires_from_the_alien_picked() {
    let mut game = Invaders::new(16, 7);
    game.aliens.next_attack = 900_000;
    game.update_with(TICK, &Input::idle(), 44);
    assert_eq!(game.aliens.attacks, vec![EnemyAttack { xy: Coord::new(128, 74), next_move: 0 }]);
    assert_eq!(game.aliens.next_attack, 5_000_000 - 16_667);
    game.aliens.next_attack = 900_000;
    game.update_with(TICK, &Input::idle(), 45);
    assert_eq!(game.aliens.attacks.len(), 2);
    assert_eq!(game.aliens.attacks[0], EnemyAttack { xy: Coord::new(128, 75), next_move: 100_000 });
    assert_eq!(game.aliens.offset, Coord::new(4, 18));
    assert_eq!(game.aliens.attacks[1], EnemyAttack { xy: Coord::new(9, 26), next_move: 0 });
}

#[test]
fn swarm_does_not_fire_before_its_clock_has_run_down() {
    let mut game = Invaders::new(16, 7);
    game.aliens.next_attack = 900_001;
    game.update_with(1, &Input::idle(), 0);
    assert!(game.aliens.attacks.is_empty());
    assert_eq!(game.aliens.next_attack, 900_000);
    game.update_with(1, &Input::idle(), 0);
    assert_eq!(game.aliens.attacks.len(), 1);
}

#[test]
fn swarm_has_at_most_four_shots_in_flight() {
    let mut game = Invaders::new(16, 7);
    for i in 0..6 {
        game.aliens.next_attack = 0;
        game.update_with(1, &Input::idle(), i);
    }
    assert_eq!(game.aliens.attacks.len(), 4);
    assert_eq!(game.aliens.next_attack, -1);
}

#[test]
fn empty_swarm_restarts_its_clock_without_firing() {
    let mut game = Invaders::new(16, 7);
    game.aliens.alive = vec![false; 45];
    game.aliens.next_attack = 0;
    game.update_with(1, &Input::idle(), 3);
    assert!(game.aliens.attacks.is_empty());
    assert_eq!(game.aliens.next_attack, 4_999_999);
}

#[test]
fn swarm_shot_falls_and_leaves_at_the_bottom() {
    let mut game = Invaders::new(16, 7);
    game.aliens.attacks = vec![
        EnemyAttack { xy: Coord::new(10, 165), next_move: 1 },
        EnemyAttack { xy: Coord::new(20, 100), next_move: 50_000 },
        EnemyAttack { xy: Coord::new(30, 100), next_move: 10 },
    ];
    game.update_with(10, &Input::idle(), 0);
    assert_eq!(
        game.aliens.attacks,
        vec![
            EnemyAttack { xy: Coord::new(20, 100), next_move: 49_990 },
            EnemyAttack { xy: Coord::new(30, 101), next_move: 100_000 },
        ]
    );
    assert_eq!(game.lives, 3);
}

#[test]
fn swarm_shot_that_meets_the_ship_kills_the_player() {
    let mut game = Invaders::new(16, 7);
    game.aliens.attacks = vec![EnemyAttack { xy: Coord::new(66, 125), next_move: 0 }];
    game.aliens.alive[3] = false;
    game.aliens.offset = Coord::new(40, 30);
    game.aliens.move_rate = 500_000;
    game.player.attacks = vec![PlayerAttack { xy: Coord::new(80, 100), next_move: 5 }];
    game.ufo.is_visible = true;
    game.ufo.xy = Coord::new(100, 10);
    game.score = 150;
    game.update_with(1, &Input::idle(), 0);
    assert_eq!(game.lives, 2);
    assert_eq!(game.aliens.alive, vec![true; 45]);
    assert!(game.aliens.attacks.is_empty());
    assert!(game.player.attacks.is_empty());
    assert_eq!(game.aliens.offset, Coord::new(3, 18));
    assert_eq!(game.aliens.move_rate, 1_000_000);
    assert_eq!(game.aliens.next_attack, 5_000_000 - 1);
    assert_eq!(game.ufo.xy, Coord::new(-50, 50));
    assert!(!game.ufo.is_visible);
    assert_eq!(game.ufo.next_appearance, 20_000_000 - 1);
    assert_eq!(game.score, 150);
    assert_eq!(game.audio, vec![stop(SoundId::Ufo)]);
}

#[test]
fn swarm_shot_beside_the_ship_does_no_harm() {
    let mut game = Invaders::new(16, 7);
    game.aliens.attacks = vec![EnemyAttack { xy: Coord::new(64, 125), next_move: 0 }];
    game.update_with(1, &Input::idle(), 0);
    assert_eq!(game.lives, 3);
    assert_eq!(game.aliens.attacks, vec![EnemyAttack { xy: Coord::new(64, 126), next_move: 100_000 }]);
}

#[test]
fn swarm_that_lands_kills_the_player() {
    let mut game = Invaders::new(16, 7);
    game.aliens.offset = Coord::new(3, 99);
    game.update_with(1, &Input::idle(), 0);
    assert_eq!(game.lives, 3);
    assert_eq!(game.aliens.offset, Coord::new(3, 99));
    game.aliens.offset = Coord::new(3, 100);
    game.update_with(1, &Input::idle(), 0);
    assert_eq!(game.lives, 2);
    assert_eq!(game.aliens.offset, Coord::new(3, 18));
}

#[test]
fn game_is_over_when_the_lives_are_gone() {
    let mut game = Invaders::new(16, 7);
    game.player_killed();
    game.player_killed();
    assert!(!game.is_over());
    game.player_killed();
    assert_eq!(game.lives, 0);
    assert!(game.is_over());
    game.player_killed();
    assert_eq!(game.lives, 0);
    let mut fire = Input::idle();
    fire.keys.space = true;
    fire.keys.left = true;
    assert_eq!(game.update_with(1_000_000, &fire, 0), GameUpdateResult::Nothing);
    assert_eq!(game.update(1_000_000, &fire), GameUpdateResult::Nothing);
    assert!(game.player.attacks.is_empty());
    assert_eq!(game.player.ship.left, 70);
    assert!(game.audio.is_empty());
    let mut leave = Input::idle();
    leave.keys.escape = true;
    assert_eq!(game.update_with(1, &leave, 0), GameUpdateResult::Pop);
}

#[test]
fn escape_asks_to_leave_invaders_unless_fire_is_held() {
    let mut game = Invaders::new(16, 7);
    let mut both = Input::idle();
    both.keys.escape = true;
    both.keys.space = true;
    assert_eq!(game.update_with(1, &both, 0), GameUpdateResult::Nothing);
    let mut leave = Input::idle();
    leave.pad.east = true;
    assert_eq!(game.update_with(1, &leave, 0), GameUpdateResult::Pop);
    assert_eq!(game.update(1, &Input::idle()), GameUpdateResult::Pop);
}

#[test]
fn bonus_ship_enters_crosses_and_leaves() {
    let mut game = Invaders::new(16, 7);
    game.ufo.next_appearance = -1;
    game.update_with(TICK, &Input::idle(), 0);
    assert!(game.ufo.is_visible);
    assert_eq!(game.ufo.xy, Coord::new(170, 10));
    assert_eq!(game.ufo.next_move, 70_000 - 16_667);
    assert_eq!(game.audio, vec![AudioCommand { sound: SoundId::Ufo, action: AudioAction::PlayLooping }]);
    game.ufo.next_move = -1;
    game.update_with(TICK, &Input::idle(), 0);
    assert_eq!(game.ufo.xy, Coord::new(169, 10));
    game.ufo.xy = Coord::new(-30, 10);
    game.ufo.next_move = -1;
    game.update_with(TICK, &Input::idle(), 0);
    assert!(!game.ufo.is_visible);
    assert_eq!(game.ufo.xy, Coord::new(-31, 10));
    assert_eq!(game.ufo.next_appearance, 20_000_000 - 16_667);
    assert_eq!(game.audio, vec![stop(SoundId::Ufo)]);
}

#[test]
fn bonus_ship_steps_on_its_own() {
    let mut audio = Vec::new();
    let mut ufo = Ufo::new(
        16,
        7,
        SoundEffect::new(SoundId::Ufo, 1_700_000),
        SoundEffect::new(SoundId::UfoDead, 500_000),
    );
    ufo.step(&mut audio);
    assert!(!ufo.is_visible);
    assert!(audio.is_empty());
    ufo.next_appearance = -1;
    ufo.next_move = -1;
    ufo.step(&mut audio);
    assert!(ufo.is_visible);
    assert_eq!(ufo.xy, Coord::new(170, 10));
    assert_eq!(ufo.next_move, 70_000);
}

#[test]
fn shot_that_hits_the_bonus_ship_scores_a_thousand() {
    let mut game = Invaders::new(16, 7);
    game.ufo.is_visible = true;
    game.ufo.xy = Coord::new(100, 10);
    game.ufo.next_move = 50_000;
    game.player.attacks = vec![
        PlayerAttack { xy: Coord::new(116, 17), next_move: 5_000 },
        PlayerAttack { xy: Coord::new(117, 17), next_move: 5_000 },
    ];
    game.update_with(1, &Input::idle(), 0);
    assert_eq!(game.score, 1000);
    assert!(!game.ufo.is_visible);
    assert_eq!(game.ufo.next_appearance, 40_000_000 - 1);
    assert_eq!(game.player.attacks, vec![PlayerAttack { xy: Coord::new(117, 17), next_move: 4_999 }]);
    assert_eq!(game.audio, vec![play(SoundId::UfoDead), stop(SoundId::Ufo)]);
}

#[test]
fn shot_that_hits_an_alien_scores_fifty() {
    let mut game = Invaders::new(16, 7);
    game.player.attacks = vec![
        PlayerAttack { xy: Coord::new(10, 20), next_move: 5_000 },
        PlayerAttack { xy: Coord::new(25, 50), next_move: 5_000 },
    ];
    game.update_with(1, &Input::idle(), 0);
    assert_eq!(game.score, 100);
    assert!(!game.aliens.alive[0]);
    assert!(!game.aliens.alive[2 * 9 + 1]);
    assert_eq!(game.aliens.alive_count(), 43);
    assert_eq!(game.aliens.move_rate, 920_000);
    assert!(game.player.attacks.is_empty());
    assert_eq!(game.audio, vec![play(SoundId::InvaderDead)]);
}

#[test]
fn random_update_fires_from_an_alien_alive() {
    let mut game = Invaders::new(16, 7);
    for i in 0..45 {
        game.aliens.alive[i] = i == 20;
    }
    game.aliens.next_attack = 0;
    game.update(1, &Input::idle());
    assert_eq!(
        game.aliens.attacks,
        vec![EnemyAttack { xy: Coord::new(3 + 2 * 15 + 5, 18 + 2 * 12 + 8), next_move: 0 }]
    );
}

#[test]
fn new_player_and_shot() {
    let player = Player::new(
        SoundEffect::new(SoundId::PlayerShoot, 500_000),
        SoundEffect::new(SoundId::PlayerDead, 1_000_000),
    );
    assert_eq!(player.ship, Rect { left: 70, top: 133, right: 90, bottom: 144 });
    assert_eq!(player.next_attack.period, 1_000_000);
    assert_eq!(PlayerAttack::new(Coord::new(1, 2)), PlayerAttack { xy: Coord::new(1, 2), next_move: 0 });
}

#[test]
fn invaders_render_lists_everything_in_order() {
    let mut game = Invaders::new(16, 7);
    game.lives = 2;
    game.score = 150;
    game.player.attacks = vec![PlayerAttack { xy: Coord::new(80, 100), next_move: 0 }];
    game.aliens.attacks = vec![EnemyAttack { xy: Coord::new(8, 26), next_move: 0 }];
    game.ufo.is_visible = true;
    game.ufo.xy = Coord::new(100, 10);
    for i in 0..45 {
        game.aliens.alive[i] = i == 0 || i == 10 || i == 44;
    }
    let out = game.render();
    assert_eq!(
        out,
        vec![
            DrawCommand::Picture { picture: Picture::Heart, pos: Coord::new(1, 1) },
            DrawCommand::Picture { picture: Picture::Heart, pos: Coord::new(12, 1) },
            DrawCommand::Text {
                caption: Caption::Count { label: "Score ", value: 150, width: 5 },
                pos: Coord::new(160, 1),
                font: Font::Normal,
                shade: Shade::Dark,
                anchor: Anchor::RightTop,
            },
            DrawCommand::Rect {
                rect: Rect { left: 80, top: 100, right: 81, bottom: 106 },
                style: Style::Fill,
                shade: Shade::Darkest,
            },
            DrawCommand::Picture { picture: Picture::AlienAttack, pos: Coord::new(8, 26) },
            DrawCommand::Picture { picture: Picture::Ship, pos: Coord::new(70, 133) },
            DrawCommand::Picture { picture: Picture::Ufo, pos: Coord::new(100, 10) },
            DrawCommand::Picture { picture: Picture::InvaderTop, pos: Coord::new(3, 18) },
            DrawCommand::Picture { picture: Picture::InvaderMiddle, pos: Coord::new(18, 30) },
            DrawCommand::Picture { picture: Picture::InvaderBottom, pos: Coord::new(123, 66) },
        ]
    );
}
