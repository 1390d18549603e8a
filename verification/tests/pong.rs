use retro_games::draw::{Anchor, Caption, DrawCommand, Font, Shade, Style};
use retro_games::geometry::{Coord, Rect};
use retro_games::input::Input;
use retro_games::pong::{Ball, Direction, Player, Pong, Rolls};
use retro_games::screen::GameUpdateResult;
use retro_games::sound::{AudioAction, AudioCommand, SoundId};

const TICK: u32 = 10_000;

fn rolls() -> Rolls {
    Rolls { cpu_moves: false, serve_y: 64, serve_heading: 135 }
}

fn in_play() -> Pong {
    let mut game = Pong::new();
    game.serving = false;
    game.human.paddle = Rect { left: 0, top: 83, right: 6, bottom: 113 };
    game.cpu.paddle = Rect { left: 154, top: 83, right: 160, bottom: 113 };
    game
}

#[test]
fn new_pong_waits_for_the_serve() {
    let mut game = Pong::new();
    assert!(game.serving);
    assert_eq!(game.ball.center, Coord::new(40, 40));
    assert_eq!(game.ball.direction, 135);
    assert_eq!(game.ball.last_bounce_side, Direction::Left);
    assert_eq!(game.human.paddle, Rect { left: 0, top: 0, right: 6, bottom: 30 });
    assert_eq!(game.cpu.paddle, Rect { left: 154, top: 0, right: 160, bottom: 30 });
    game.update_with(TICK, &Input::idle(), &rolls());
    assert!(game.serving);
    assert_eq!(game.ball.center, Coord::new(40, 40));
    let mut input = Input::idle();
    input.keys.space = true;
    game.update_with(TICK, &input, &rolls());
    assert!(!game.serving);
    assert_eq!(game.ball.center, Coord::new(41, 41));
}

#[test]
fn ball_moves_one_pixel_along_each_compass_heading() {
    let steps = [
        (0, (0, -1)),
        (45, (1, -1)),
        (90, (1, 0)),
        (135, (1, 1)),
        (180, (0, 1)),
        (225, (-1, 1)),
        (270, (-1, 0)),
        (315, (-1, -1)),
    ];
    for (heading, (dx, dy)) in steps {
        let mut ball = Ball::new();
        ball.center = Coord::new(80, 80);
        ball.direction = heading;
        ball.push();
        assert_eq!(ball.center, Coord::new(80 + dx, 80 + dy));
        assert_eq!(ball.next_move, 10_000);
        assert_eq!(ball.direction, heading);
    }
}

#[test]
fn ball_stays_inside_the_field() {
    let mut ball = Ball::new();
    ball.center = Coord::new(1_000_000, 5);
    ball.direction = 90;
    ball.push();
    assert_eq!(ball.center, Coord::new(1_000_000, 5));
    ball.direction = 270;
    ball.push();
    assert_eq!(ball.center, Coord::new(999_999, 5));
}

#[test]
fn ball_on_the_top_line_bounces_once() {
    let mut game = in_play();
    game.ball.center = Coord::new(50, 0);
    game.ball.direction = 45;
    game.ball.last_bounce_side = Direction::Left;
    game.update_with(TICK, &Input::idle(), &rolls());
    assert_eq!(game.ball.direction, 135);
    assert_eq!(game.ball.last_bounce_side, Direction::Top);
    assert_eq!(game.ball.center, Coord::new(51, -1));
    assert_eq!(game.audio, vec![AudioCommand { sound: SoundId::Wall, action: AudioAction::Play }]);
    game.update_with(TICK, &Input::idle(), &rolls());
    assert_eq!(game.ball.center, Coord::new(52, 0));
    assert_eq!(game.ball.direction, 135);
    game.update_with(TICK, &Input::idle(), &rolls());
    assert_eq!(game.ball.center, Coord::new(53, 1));
    assert_eq!(game.ball.direction, 135);
    assert_eq!(game.ball.last_bounce_side, Direction::Top);
    assert!(game.audio.is_empty());
}

#[test]
fn latched_side_lets_the_ball_pass() {
    let mut game = in_play();
    game.ball.center = Coord::new(50, 0);
    game.ball.direction = 135;
    game.ball.last_bounce_side = Direction::Top;
    game.update_with(TICK, &Input::idle(), &rolls());
    assert_eq!(game.ball.direction, 135);
    assert_eq!(game.ball.center, Coord::new(51, 1));
    assert!(game.audio.is_empty());
}

#[test]
fn reflection_table() {
    let walls = [(45, 135), (315, 225), (135, 45), (225, 315), (0, 180), (90, 90)];
    for (before, after) in walls {
        let mut ball = Ball::new();
        ball.direction = before;
        ball.last_bounce_side = Direction::Left;
        assert!(ball.bounce(Direction::Top));
        assert_eq!(ball.direction, after);
        let mut ball = Ball::new();
        ball.direction = before;
        assert!(ball.bounce(Direction::Bottom));
        assert_eq!(ball.direction, after);
    }
    let paddles = [(315, 45), (225, 135), (45, 315), (135, 225), (90, 270), (0, 0)];
    for (before, after) in paddles {
        let mut ball = Ball::new();
        ball.direction = before;
        ball.last_bounce_side = Direction::Top;
        assert!(ball.bounce(Direction::Left));
        assert_eq!(ball.direction, after);
        let mut ball = Ball::new();
        ball.direction = before;
        assert!(ball.bounce(Direction::Right));
        assert_eq!(ball.direction, after);
        assert!(!ball.bounce(Direction::Right));
        assert_eq!(ball.direction, after);
    }
}

#[test]
fn ball_bounces_off_the_bottom_line() {
    let mut game = in_play();
    game.ball.center = Coord::new(50, 166);
    game.ball.direction = 135;
    game.update_with(TICK, &Input::idle(), &rolls());
    assert_eq!(game.ball.direction, 45);
    assert_eq!(game.ball.last_bounce_side, Direction::Bottom);
}

#[test]
fn ball_bounces_off_the_paddles() {
    let mut game = in_play();
    game.ball.center = Coord::new(6, 113);
    game.ball.direction = 315;
    game.ball.last_bounce_side = Direction::Right;
    game.update_with(TICK, &Input::idle(), &rolls());
    assert_eq!(game.ball.direction, 45);
    assert_eq!(game.ball.last_bounce_side, Direction::Left);
    assert_eq!(
        game.audio,
        vec![AudioCommand { sound: SoundId::Paddle, action: AudioAction::Play }]
    );
    let mut game = in_play();
    game.ball.center = Coord::new(154, 83);
    game.ball.direction = 135;
    game.update_with(TICK, &Input::idle(), &rolls());
    assert_eq!(game.ball.direction, 225);
    assert_eq!(game.ball.last_bounce_side, Direction::Right);
}

#[test]
fn ball_past_the_human_scores_for_the_computer() {
    let mut game = in_play();
    game.ball.center = Coord::new(0, 20);
    game.ball.direction = 225;
    game.ball.last_bounce_side = Direction::Right;
    game.human.paddle = Rect { left: 0, top: 50, right: 6, bottom: 80 };
    let draws = Rolls { cpu_moves: false, serve_y: 77, serve_heading: 45 };
    game.update_with(TICK, &Input::idle(), &draws);
    assert_eq!(game.cpu.score, 1);
    assert_eq!(game.human.score, 0);
    assert!(game.serving);
    assert_eq!(game.ball.center, Coord::new(40, 77));
    assert_eq!(game.ball.direction, 45);
    assert_eq!(game.ball.last_bounce_side, Direction::Left);
    assert_eq!(game.human.paddle, Rect { left: 0, top: 83, right: 6, bottom: 113 });
    assert_eq!(game.cpu.paddle, Rect { left: 154, top: 83, right: 160, bottom: 113 });
    assert_eq!(game.audio, vec![AudioCommand { sound: SoundId::Miss, action: AudioAction::Play }]);
    assert_eq!(game.ball.next_move, 0);
}

#[test]
fn ball_past_the_computer_scores_for_the_human() {
    let mut game = in_play();
    game.ball.center = Coord::new(160, 20);
    game.ball.direction = 135;
    game.update_with(TICK, &Input::idle(), &rolls());
    assert_eq!(game.human.score, 1);
    assert_eq!(game.cpu.score, 0);
    assert!(game.serving);
    assert_eq!(game.ball.center, Coord::new(40, 64));
    assert_eq!(game.ball.direction, 135);
}

#[test]
fn human_paddle_moves_two_pixels_within_the_walls() {
    let mut game = Pong::new();
    let mut up = Input::idle();
    up.keys.up = true;
    game.update_with(TICK, &up, &rolls());
    assert_eq!(game.human.paddle.top, 0);
    let mut down = Input::idle();
    down.pad.down = true;
    game.update_with(TICK, &down, &rolls());
    assert_eq!(game.human.paddle, Rect { left: 0, top: 2, right: 6, bottom: 32 });
    assert_eq!(game.human.next_move.remaining, 100);
    game.update_with(TICK, &up, &rolls());
    assert_eq!(game.human.paddle, Rect { left: 0, top: 0, right: 6, bottom: 30 });
    game.human.paddle = Rect { left: 0, top: 135, right: 6, bottom: 165 };
    game.update_with(TICK, &down, &rolls());
    assert_eq!(game.human.paddle.bottom, 167);
    game.update_with(TICK, &down, &rolls());
    assert_eq!(game.human.paddle.bottom, 167);
}

#[test]
fn computer_paddle_follows_the_ball_when_the_draw_lets_it() {
    let mut game = in_play();
    game.ball.center = Coord::new(80, 20);
    game.ball.direction = 90;
    let follow = Rolls { cpu_moves: true, serve_y: 64, serve_heading: 135 };
    game.update_with(TICK, &Input::idle(), &follow);
    assert_eq!(game.cpu.paddle, Rect { left: 154, top: 81, right: 160, bottom: 111 });
    game.update_with(TICK, &Input::idle(), &rolls());
    assert_eq!(game.cpu.paddle, Rect { left: 154, top: 81, right: 160, bottom: 111 });
    game.ball.center = Coord::new(80, 150);
    game.update_with(TICK, &Input::idle(), &follow);
    assert_eq!(game.cpu.paddle, Rect { left: 154, top: 83, right: 160, bottom: 113 });
    game.ball.center = Coord::new(80, 98);
    game.update_with(TICK, &Input::idle(), &follow);
    assert_eq!(game.cpu.paddle, Rect { left: 154, top: 83, right: 160, bottom: 113 });
}

#[test]
fn computer_paddle_rests_while_serving() {
    let mut game = Pong::new();
    let follow = Rolls { cpu_moves: true, serve_y: 64, serve_heading: 135 };
    game.update_with(TICK, &Input::idle(), &follow);
    assert_eq!(game.cpu.paddle, Rect { left: 154, top: 0, right: 160, bottom: 30 });
    assert_eq!(game.cpu.next_move.remaining, 100);
}

#[test]
fn escape_asks_to_leave_pong() {
    let mut game = Pong::new();
    let mut input = Input::idle();
    input.keys.escape = true;
    assert_eq!(game.update_with(TICK, &input, &rolls()), GameUpdateResult::Pop);
    let mut game = Pong::new();
    assert_eq!(game.update(TICK, &Input::idle()), GameUpdateResult::Nothing);
}

#[test]
fn random_serve_is_within_its_range() {
    for _ in 0..50 {
        let mut game = in_play();
        game.ball.center = Coord::new(160, 20);
        game.ball.direction = 135;
        game.update(TICK, &Input::idle());
        assert!(game.serving);
        assert_eq!(game.ball.center.x, 40);
        assert!(40 <= game.ball.center.y && game.ball.center.y < 100);
        assert!(game.ball.direction == 45 || game.ball.direction == 135);
        assert_eq!(game.human.score, 1);
    }
}

#[test]
fn reset_play_lines_everything_up() {
    let mut game = in_play();
    game.human.paddle = Rect { left: 0, top: 10, right: 6, bottom: 40 };
    game.ball.last_bounce_side = Direction::Top;
    game.reset_play(99, 45);
    assert!(game.serving);
    assert_eq!(game.ball.center, Coord::new(40, 99));
    assert_eq!(game.ball.direction, 45);
    assert_eq!(game.ball.last_bounce_side, Direction::Left);
    assert_eq!(game.human.paddle, Rect { left: 0, top: 83, right: 6, bottom: 113 });
}

#[test]
fn contact_looks_at_walls_before_paddles() {
    let mut game = in_play();
    game.human.paddle = Rect { left: 0, top: -1, right: 6, bottom: 29 };
    assert_eq!(game.contact(Coord::new(3, 0)), Some(Direction::Top));
    assert_eq!(game.contact(Coord::new(3, -1)), Some(Direction::Left));
    assert_eq!(game.contact(Coord::new(80, 166)), Some(Direction::Bottom));
    assert_eq!(game.contact(Coord::new(157, 100)), Some(Direction::Right));
    assert_eq!(game.contact(Coord::new(80, 80)), None);
}

#[test]
fn new_player_paddle() {
    let player = Player::new(154);
    assert_eq!(player.paddle, Rect { left: 154, top: 0, right: 160, bottom: 30 });
    assert_eq!(player.score, 0);
    assert_eq!(player.next_move.remaining, 100);
    assert!(!player.next_move.looping);
}

#[test]
fn pong_render_lists_line_scores_paddles_and_ball() {
    let mut game = Pong::new();
    game.human.score = 3;
    game.cpu.score = 11;
    let out = game.render();
    assert_eq!(
        out,
        vec![
            DrawCommand::Rect {
                rect: Rect { left: 79, top: 0, right: 81, bottom: 166 },
                style: Style::Fill,
                shade: Shade::Dark,
            },
            DrawCommand::Text {
                caption: Caption::Count { label: "", value: 3, width: 0 },
                pos: Coord::new(40, 6),
                font: Font::Large,
                shade: Shade::Dark,
                anchor: Anchor::CenterTop,
            },
            DrawCommand::Text {
                caption: Caption::Count { label: "", value: 11, width: 0 },
                pos: Coord::new(120, 6),
                font: Font::Large,
                shade: Shade::Dark,
                anchor: Anchor::CenterTop,
            },
            DrawCommand::Rect {
                rect: Rect { left: 0, top: 0, right: 6, bottom: 30 },
                style: Style::Fill,
                shade: Shade::Darkest,
            },
            DrawCommand::Rect {
                rect: Rect { left: 154, top: 0, right: 160, bottom: 30 },
                style: Style::Fill,
                shade: Shade::Darkest,
            },
            DrawCommand::Circle { center: Coord::new(40, 40), radius: 5, shade: Shade::Darkest },
        ]
    );
}
