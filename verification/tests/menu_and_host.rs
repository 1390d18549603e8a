use retro_games::draw::{Anchor, Caption, Controller, DrawCommand, Font, Icon, Picture, Shade};
use retro_games::geometry::Coord;
use retro_games::host::{GameHost, Scene};
use retro_games::input::Input;
use retro_games::menu::GameMenu;
use retro_games::screen::{GameName, GameUpdateResult};

const TICK: u32 = 16_667;

fn held_down() -> Input {
    let mut input = Input::idle();
    input.keys.down = true;
    input
}

fn held_up() -> Input {
    let mut input = Input::idle();
    input.keys.up = true;
    input
}

fn held_action() -> Input {
    let mut input = Input::idle();
    input.keys.space = true;
    input
}

fn held_escape() -> Input {
    let mut input = Input::idle();
    input.keys.escape = true;
    input
}

#[test]
fn new_menu_has_its_cursor_on_the_first_entry() {
    let menu = GameMenu::new();
    assert_eq!(menu.cursor_idx, 0);
    assert_eq!(menu.cursor, Coord::new(8, 30));
    assert_eq!(menu.step, 14);
    assert_eq!(menu.result, GameUpdateResult::Nothing);
    assert_eq!(menu.button_bar.buttons.len(), 3);
    assert_eq!(menu.button_bar.buttons[0].pos, Coord::new(7, 0));
    assert_eq!(menu.button_bar.buttons[1].pos, Coord::new(55, 0));
    assert_eq!(menu.button_bar.buttons[2].pos, Coord::new(113, 0));
}

#[test]
fn menu_cursor_goes_round_the_list() {
    let mut menu = GameMenu::new();
    menu.update(TICK, &held_down());
    assert_eq!(menu.cursor_idx, 1);
    assert_eq!(menu.cursor, Coord::new(8, 31));
    assert_eq!(menu.input_timer.remaining, 200_000);
    menu.update(TICK, &held_down());
    assert_eq!(menu.cursor_idx, 1);
    assert_eq!(menu.cursor, Coord::new(8, 45));
    menu.input_timer.trigger();
    menu.update(TICK, &held_down());
    assert_eq!(menu.cursor_idx, 2);
    menu.input_timer.trigger();
    menu.update(TICK, &held_down());
    assert_eq!(menu.cursor_idx, 0);
    assert_eq!(menu.cursor, Coord::new(8, 59));
    menu.input_timer.trigger();
    menu.update(TICK, &held_up());
    assert_eq!(menu.cursor_idx, 2);
    menu.input_timer.trigger();
    menu.update(TICK, &held_up());
    assert_eq!(menu.cursor_idx, 1);
}

#[test]
fn menu_repeats_a_held_key_every_fifth_of_a_second() {
    let mut menu = GameMenu::new();
    let mut moves = Vec::new();
    for tick in 1..=30 {
        let before = menu.cursor_idx;
        menu.update(TICK, &held_down());
        if menu.cursor_idx != before {
            moves.push(tick);
        }
    }
    assert_eq!(moves, vec![1, 13, 25]);
}

#[test]
fn menu_starts_the_game_under_the_cursor() {
    let mut menu = GameMenu::new();
    assert_eq!(menu.update(TICK, &held_action()), GameUpdateResult::Push(GameName::Pong));
    let mut menu = GameMenu::new();
    menu.cursor_idx = 1;
    assert_eq!(menu.update(TICK, &held_action()), GameUpdateResult::Push(GameName::Snake));
    let mut menu = GameMenu::new();
    menu.cursor_idx = 2;
    let mut pad = Input::idle();
    pad.pad.south = true;
    assert_eq!(menu.update(TICK, &pad), GameUpdateResult::Push(GameName::Invaders));
}

#[test]
fn menu_is_left_on_escape() {
    let mut menu = GameMenu::new();
    assert_eq!(menu.update(TICK, &held_escape()), GameUpdateResult::Pop);
}

#[test]
fn menu_acts_only_when_its_timer_fires() {
    let mut menu = GameMenu::new();
    menu.input_timer.reset();
    assert_eq!(menu.update(TICK, &held_action()), GameUpdateResult::Nothing);
    assert_eq!(menu.update(TICK, &held_escape()), GameUpdateResult::Nothing);
    assert_eq!(menu.cursor_idx, 0);
}

#[test]
fn resuming_clears_the_pending_result_and_rearms_the_timer() {
    let mut menu = GameMenu::new();
    menu.update(TICK, &held_action());
    assert_eq!(menu.result, GameUpdateResult::Push(GameName::Pong));
    menu.input_timer.trigger();
    menu.resuming();
    assert_eq!(menu.result, GameUpdateResult::Nothing);
    assert_eq!(menu.input_timer.remaining, 200_000);
    assert_eq!(menu.update(TICK, &held_action()), GameUpdateResult::Nothing);
}

#[test]
fn menu_render_lists_title_cursor_entries_and_bar() {
    let mut menu = GameMenu::new();
    menu.cursor_idx = 1;
    let out = menu.render(Some(Controller::Xbox));
    assert_eq!(out.len(), 5 + 6);
    assert_eq!(
        out[0],
        DrawCommand::Text {
            caption: Caption::Words("Games"),
            pos: Coord::new(8, 8),
            font: Font::Large,
            shade: Shade::Darkest,
            anchor: Anchor::LeftTop,
        }
    );
    assert_eq!(out[1], DrawCommand::Picture { picture: Picture::Cursor, pos: Coord::new(8, 30) });
    assert_eq!(
        out[2],
        DrawCommand::Text {
            caption: Caption::Words("Pong"),
            pos: Coord::new(20, 30),
            font: Font::Large,
            shade: Shade::Dark,
            anchor: Anchor::LeftTop,
        }
    );
    assert_eq!(
        out[3],
        DrawCommand::Text {
            caption: Caption::Words("Snake"),
            pos: Coord::new(20, 44),
            font: Font::Large,
            shade: Shade::Darkest,
            anchor: Anchor::LeftTop,
        }
    );
    assert_eq!(
        out[4],
        DrawCommand::Text {
            caption: Caption::Words("Invaders"),
            pos: Coord::new(20, 58),
            font: Font::Large,
            shade: Shade::Dark,
            anchor: Anchor::LeftTop,
        }
    );
    assert_eq!(
        out[5],
        DrawCommand::Picture { picture: Picture::Icon(Icon::ControllerB), pos: Coord::new(7, 148) }
    );
    assert_eq!(
        out[9],
        DrawCommand::Picture {
            picture: Picture::Icon(Icon::ControllerA),
            pos: Coord::new(113, 148),
        }
    );
    assert_eq!(
        out[10],
        DrawCommand::Text {
            caption: Caption::Words("Play"),
            pos: Coord::new(132, 154),
            font: Font::Small,
            shade: Shade::Darkest,
            anchor: Anchor::LeftTop,
        }
    );
}

#[test]
fn new_host_shows_the_menu() {
    let host = GameHost::new(16, 7);
    assert_eq!(host.game_stack.len(), 1);
    assert!(matches!(host.game_stack[0], Scene::Menu(_)));
    assert!(!host.should_exit());
    assert!(!host.keyboard);
}

#[test]
fn pushing_then_popping_resumes_the_scene_below_once() {
    let mut host = GameHost::new(16, 7);
    host.update(TICK, &held_action());
    assert_eq!(host.game_stack.len(), 2);
    assert!(matches!(host.game_stack[1], Scene::Pong(_)));
    match &host.game_stack[0] {
        Scene::Menu(menu) => assert_eq!(menu.result, GameUpdateResult::Push(GameName::Pong)),
        _ => panic!("the menu is gone"),
    }
    host.update(TICK, &held_escape());
    assert_eq!(host.game_stack.len(), 1);
    match &host.game_stack[0] {
        Scene::Menu(menu) => {
            assert_eq!(menu.result, GameUpdateResult::Nothing);
            assert_eq!(menu.input_timer.remaining, 200_000);
            assert_eq!(menu.cursor_idx, 0);
        }
        _ => panic!("the menu is gone"),
    }
    assert!(!host.should_exit());
    host.update(TICK, &held_action());
    assert_eq!(host.game_stack.len(), 1);
}

#[test]
fn push_and_pop_by_hand() {
    let mut host = GameHost::new(16, 7);
    host.push(GameName::Snake);
    host.push(GameName::Invaders);
    assert_eq!(host.game_stack.len(), 3);
    assert!(matches!(host.game_stack[1], Scene::Snake(_)));
    match &host.game_stack[2] {
        Scene::Invaders(game) => {
            assert_eq!(game.ufo.width, 16);
            assert_eq!(game.ufo.height, 7);
        }
        _ => panic!("not the shooter"),
    }
    host.pop();
    assert_eq!(host.game_stack.len(), 2);
    assert!(matches!(host.game_stack[1], Scene::Snake(_)));
    host.pop();
    host.pop();
    assert!(host.should_exit());
    host.pop();
    assert!(host.should_exit());
}

#[test]
fn popping_the_last_scene_ends_the_host() {
    let mut host = GameHost::new(16, 7);
    host.update(TICK, &held_escape());
    assert!(host.game_stack.is_empty());
    assert!(host.should_exit());
    host.update(TICK, &Input::idle());
    assert!(host.should_exit());
    assert_eq!(host.render(None), vec![DrawCommand::Clear { shade: Shade::Lightest }]);
    assert!(host.audio().is_empty());
}

#[test]
fn only_the_top_scene_is_stepped() {
    let mut host = GameHost::new(16, 7);
    host.push(GameName::Snake);
    for _ in 0..10 {
        host.update(TICK, &held_down());
    }
    match &host.game_stack[0] {
        Scene::Menu(menu) => {
            assert_eq!(menu.cursor_idx, 0);
            assert_eq!(menu.input_timer.remaining, 0);
        }
        _ => panic!("the menu is gone"),
    }
}

#[test]
fn menu_starts_each_game() {
    let mut host = GameHost::new(16, 7);
    host.update(TICK, &held_down());
    match &mut host.game_stack[0] {
        Scene::Menu(menu) => menu.input_timer.trigger(),
        _ => panic!("the menu is gone"),
    }
    host.update(TICK, &held_action());
    assert!(matches!(host.game_stack[1], Scene::Snake(_)));
    host.pop();
    match &mut host.game_stack[0] {
        Scene::Menu(menu) => {
            menu.cursor_idx = 2;
            menu.input_timer.trigger();
        }
        _ => panic!("the menu is gone"),
    }
    host.update(TICK, &held_action());
    assert!(matches!(host.game_stack[1], Scene::Invaders(_)));
}

#[test]
fn host_remembers_whether_the_keyboard_was_used_last() {
    let mut host = GameHost::new(16, 7);
    host.on_key_down();
    assert!(host.keyboard);
    let with_keys = host.render(Some(Controller::Playstation));
    assert_eq!(with_keys[0], DrawCommand::Clear { shade: Shade::Lightest });
    assert_eq!(
        with_keys[6],
        DrawCommand::Picture { picture: Picture::Icon(Icon::KeyEscape), pos: Coord::new(7, 148) }
    );
    host.on_key_up();
    assert!(host.keyboard);
    let mut pad = Input::idle();
    pad.pad.other = true;
    host.update(TICK, &pad);
    assert!(!host.keyboard);
    let with_pad = host.render(Some(Controller::Playstation));
    assert_eq!(
        with_pad[6],
        DrawCommand::Picture { picture: Picture::Icon(Icon::ControllerO), pos: Coord::new(7, 148) }
    );
}

#[test]
fn host_hands_out_the_audio_of_the_live_scene() {
    let mut host = GameHost::new(16, 7);
    assert!(host.audio().is_empty());
    host.push(GameName::Invaders);
    let mut fire = Input::idle();
    fire.keys.space = true;
    host.update(TICK, &fire);
    let audio = host.audio();
    assert_eq!(audio.len(), 1);
    assert_eq!(audio[0].sound, retro_games::sound::SoundId::PlayerShoot);
}

#[test]
fn scene_starts_fresh_games() {
    let mut scene = Scene::start(GameName::Pong, 16, 7);
    assert!(matches!(scene, Scene::Pong(_)));
    assert_eq!(scene.update(TICK, &Input::idle()), GameUpdateResult::Nothing);
    scene.resuming();
    scene.on_key_press();
    assert!(scene.audio().is_empty());
    assert_eq!(scene.render(None).len(), 6);
}
