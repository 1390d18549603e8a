use retro_games::button_bar::ButtonDef;
use retro_games::draw::{Anchor, Caption, DrawCommand, Font, Icon, Picture, Shade, Style};
use retro_games::geometry::{Coord, Rect};
use retro_games::input::Input;
use retro_games::screen::GameUpdateResult;
use retro_games::snake::{Direction, Snake, State};
use retro_games::sound::{AudioAction, AudioCommand, SoundId};

const SECOND: u32 = 1_000_000;

fn tiles(list: &[(isize, isize)]) -> Vec<Coord> {
    list.iter().map(|(x, y)| Coord::new(*x, *y)).collect()
}

#[test]
fn new_snake_starts_in_the_middle_heading_right() {
    let game = Snake::new();
    assert_eq!(game.body, tiles(&[(9, 7), (8, 7), (7, 7)]));
    assert!(game.fruits.is_empty());
    assert_eq!(game.state, State::Playing);
    assert_eq!(game.direction, Direction::Right);
    assert_eq!(game.move_speed, 400_000);
    assert_eq!(game.score, 0);
    assert_eq!(game.result, GameUpdateResult::Nothing);
}

#[test]
fn direction_deltas() {
    assert_eq!(Direction::Up.delta(), Coord::new(0, -1));
    assert_eq!(Direction::Left.delta(), Coord::new(-1, 0));
    assert_eq!(Direction::Right.delta(), Coord::new(1, 0));
    assert_eq!(Direction::Down.delta(), Coord::new(0, 1));
}

#[test]
fn snake_does_not_move_before_its_move_is_due() {
    let mut game = Snake::new();
    game.update_with(16_667, &Input::idle(), None);
    assert_eq!(game.body, tiles(&[(9, 7), (8, 7), (7, 7)]));
    assert_eq!(game.next_move, -16_667);
    game.update_with(16_667, &Input::idle(), None);
    assert_eq!(game.body, tiles(&[(10, 7), (9, 7), (8, 7)]));
    assert_eq!(game.next_move, 400_000 - 16_667);
    assert_eq!(game.move_speed, 399_000);
    assert_eq!(game.score, 1);
}

#[test]
fn snake_keeps_its_length_without_fruit() {
    let mut game = Snake::new();
    for _ in 0..5 {
        game.update_with(SECOND, &Input::idle(), None);
        assert_eq!(game.body.len(), 3);
    }
    assert_eq!(game.body[0], Coord::new(13, 7));
}

#[test]
fn snake_grows_by_one_on_fruit() {
    let mut game = Snake::new();
    game.next_move = -1;
    game.fruits = tiles(&[(3, 3), (10, 7)]);
    game.update_with(16_667, &Input::idle(), None);
    assert_eq!(game.body, tiles(&[(10, 7), (9, 7), (8, 7), (7, 7)]));
    assert_eq!(game.fruits, tiles(&[(3, 3)]));
    assert_eq!(game.score, 100);
    assert_eq!(game.move_speed, 395_000);
    assert_eq!(game.next_move, 400_000 - 16_667);
    assert_eq!(
        game.audio,
        vec![AudioCommand { sound: SoundId::Apple, action: AudioAction::Play }]
    );
}

#[test]
fn eating_the_last_fruit_brings_the_next_one_soon() {
    let mut game = Snake::new();
    game.next_move = -1;
    game.next_fruit_spawn.reset();
    game.fruits = tiles(&[(10, 7)]);
    game.update_with(1_000, &Input::idle(), None);
    assert!(game.fruits.is_empty());
    assert_eq!(game.next_fruit_spawn.remaining, 200_000);
}

#[test]
fn snake_dies_on_the_tick_it_reaches_the_right_wall() {
    let mut game = Snake::new();
    game.update_with(SECOND, &Input::idle(), None);
    for step in 1..=9 {
        game.update_with(SECOND, &Input::idle(), None);
        assert_eq!(game.state, State::Playing);
        assert_eq!(game.body[0], Coord::new(9 + step, 7));
    }
    assert_eq!(game.body[0], Coord::new(18, 7));
    game.update_with(SECOND, &Input::idle(), None);
    assert_eq!(game.state, State::Dying);
    assert_eq!(game.body, tiles(&[(18, 7), (17, 7), (16, 7)]));
    assert_eq!(
        game.audio,
        vec![AudioCommand { sound: SoundId::SnakeDeath, action: AudioAction::Play }]
    );
}

#[test]
fn snake_dies_when_it_runs_into_itself() {
    let mut game = Snake::new();
    game.body = tiles(&[(5, 5), (5, 6), (6, 6), (6, 5), (6, 4)]);
    game.direction = Direction::Right;
    game.next_move = -1;
    game.update_with(1_000, &Input::idle(), None);
    assert_eq!(game.state, State::Dying);
    assert_eq!(game.body.len(), 5);
}

#[test]
fn dying_snake_shrinks_and_then_is_dead() {
    let mut game = Snake::new();
    game.state = State::Dying;
    game.fruits = tiles(&[(3, 3)]);
    game.update_with(1_000, &Input::idle(), None);
    assert!(game.fruits.is_empty());
    assert_eq!(game.body.len(), 2);
    game.update_with(100_000, &Input::idle(), None);
    assert_eq!(game.body.len(), 1);
    game.update_with(50_000, &Input::idle(), None);
    assert_eq!(game.body.len(), 1);
    game.update_with(50_000, &Input::idle(), None);
    assert_eq!(game.body.len(), 0);
    assert_eq!(game.state, State::Dying);
    game.update_with(100_000, &Input::idle(), None);
    assert_eq!(game.state, State::Dead);
    let score = game.score;
    game.update_with(SECOND, &Input::idle(), None);
    assert_eq!(game.state, State::Dead);
    assert_eq!(game.score, score);
}

#[test]
fn snake_wins_at_half_the_arena() {
    let mut game = Snake::new();
    let mut body = Vec::new();
    for y in 1..=7 {
        for x in 1..=18 {
            body.push(Coord::new(if y % 2 == 1 { x } else { 19 - x }, y));
        }
    }
    body.reverse();
    assert_eq!(body.len(), 126);
    game.body = body.clone();
    game.score = 5;
    game.update_with(SECOND, &Input::idle(), None);
    assert_eq!(game.state, State::Won);
    assert_eq!(game.score, 1005);
    assert_eq!(game.body, body);
    game.update_with(SECOND, &Input::idle(), None);
    assert_eq!(game.state, State::Won);
    assert_eq!(game.score, 1005);
}

#[test]
fn snake_turns_on_input_but_never_straight_back() {
    let mut game = Snake::new();
    let mut input = Input::idle();
    input.keys.left = true;
    game.update_with(1, &input, None);
    assert_eq!(game.direction, Direction::Right);
    let mut game = Snake::new();
    let mut input = Input::idle();
    input.pad.up = true;
    game.update_with(1, &input, None);
    assert_eq!(game.direction, Direction::Up);
    assert_eq!(game.input_timer.remaining, 200_000);
    let mut input = Input::idle();
    input.keys.down = true;
    game.update_with(1, &input, None);
    assert_eq!(game.direction, Direction::Up);
    assert_eq!(game.body[0], Coord::new(9, 6));
    game.input_timer.trigger();
    game.update_with(1, &input, None);
    assert_eq!(game.direction, Direction::Up);
    let mut input = Input::idle();
    input.keys.left = true;
    game.input_timer.trigger();
    game.update_with(1, &input, None);
    assert_eq!(game.direction, Direction::Left);
}

#[test]
fn up_wins_over_the_other_directions() {
    let mut game = Snake::new();
    let mut input = Input::idle();
    input.keys.up = true;
    input.keys.down = true;
    input.keys.right = true;
    game.update_with(1, &input, None);
    assert_eq!(game.direction, Direction::Up);
}

#[test]
fn escape_asks_to_leave_the_snake_game() {
    let mut game = Snake::new();
    let mut input = Input::idle();
    input.keys.escape = true;
    assert_eq!(game.update_with(1, &input, None), GameUpdateResult::Pop);
    assert_eq!(game.update_with(1, &Input::idle(), None), GameUpdateResult::Pop);
    let mut game = Snake::new();
    let mut input = Input::idle();
    input.pad.east = true;
    assert_eq!(game.update(1, &input), GameUpdateResult::Pop);
}

#[test]
fn fruit_is_placed_only_when_due_and_on_a_free_tile() {
    let mut game = Snake::new();
    game.update_with(1, &Input::idle(), Some(Coord::new(4, 4)));
    assert_eq!(game.fruits, tiles(&[(4, 4)]));
    assert_eq!(game.next_fruit_spawn.remaining, 1_666_667);
    game.update_with(1, &Input::idle(), Some(Coord::new(5, 5)));
    assert_eq!(game.fruits, tiles(&[(4, 4)]));
    game.next_fruit_spawn.trigger();
    game.update_with(1, &Input::idle(), Some(Coord::new(4, 4)));
    assert_eq!(game.fruits, tiles(&[(4, 4)]));
    game.next_fruit_spawn.trigger();
    game.update_with(1, &Input::idle(), Some(Coord::new(9, 7)));
    assert_eq!(game.fruits, tiles(&[(4, 4)]));
    game.next_fruit_spawn.trigger();
    game.update_with(1, &Input::idle(), Some(Coord::new(18, 4)));
    assert_eq!(game.fruits, tiles(&[(4, 4)]));
    game.next_fruit_spawn.trigger();
    game.update_with(1, &Input::idle(), Some(Coord::new(17, 13)));
    assert_eq!(game.fruits, tiles(&[(4, 4), (17, 13)]));
}

#[test]
fn no_more_than_three_fruits() {
    let mut game = Snake::new();
    game.fruits = tiles(&[(1, 1), (2, 2), (3, 3)]);
    game.update_with(1, &Input::idle(), Some(Coord::new(4, 4)));
    assert_eq!(game.fruits.len(), 3);
    assert_eq!(game.next_fruit_spawn.remaining, 0);
    assert!(!game.fruit_due(1));
}

#[test]
fn find_empty_slot_gives_a_free_tile_of_the_orchard() {
    let mut game = Snake::new();
    game.fruits = tiles(&[(1, 1), (2, 2)]);
    for _ in 0..200 {
        match game.find_empty_slot() {
            Some(tile) => {
                assert!(1 <= tile.x && tile.x <= 17);
                assert!(1 <= tile.y && tile.y <= 13);
                assert!(!game.fruits.contains(&tile));
                assert!(!game.body.contains(&tile));
                assert!(game.is_free(tile));
            }
            None => {}
        }
    }
}

#[test]
fn random_update_places_a_free_fruit_when_one_is_due() {
    let mut game = Snake::new();
    assert!(game.fruit_due(1));
    game.update(1, &Input::idle());
    assert!(game.fruits.len() <= 1);
    for fruit in &game.fruits {
        assert!(1 <= fruit.x && fruit.x <= 17 && 1 <= fruit.y && fruit.y <= 13);
        assert!(!game.body.contains(fruit));
    }
}

#[test]
fn speed_never_drops_below_the_floor() {
    let mut game = Snake::new();
    game.move_speed = 70_500;
    game.body = tiles(&[(2, 2), (2, 3), (2, 4)]);
    game.direction = Direction::Right;
    game.next_move = -1;
    game.update_with(1, &Input::idle(), None);
    assert_eq!(game.move_speed, 70_000);
    game.next_move = -1;
    game.update_with(1, &Input::idle(), None);
    assert_eq!(game.move_speed, 70_000);
    assert_eq!(game.next_move, 70_000 - 1);
}

#[test]
fn snake_button_bar_is_laid_out_by_measured_labels() {
    let game = Snake::new();
    assert_eq!(game.button_bar.width, 160);
    assert_eq!(game.button_bar.position, Coord::new(0, 148));
    assert_eq!(game.button_bar.buttons.len(), 2);
    assert_eq!(game.button_bar.buttons[0].label, "EXIT");
    assert_eq!(game.button_bar.buttons[0].def, ButtonDef::Escape);
    assert_eq!(game.button_bar.buttons[0].pos, Coord::new(20, 0));
    assert_eq!(game.button_bar.buttons[1].label, "SNAKE");
    assert_eq!(game.button_bar.buttons[1].def, ButtonDef::Cursor);
    assert_eq!(game.button_bar.buttons[1].pos, Coord::new(98, 0));
}

#[test]
fn snake_render_lists_bar_wall_body_fruit_and_score() {
    let mut game = Snake::new();
    game.fruits = tiles(&[(2, 3)]);
    game.score = 42;
    let out = game.render(None);
    assert_eq!(out.len(), 4 + 40 + 32 + 3 + 1 + 1);
    assert_eq!(
        out[0],
        DrawCommand::Picture { picture: Picture::Icon(Icon::KeyEscape), pos: Coord::new(20, 148) }
    );
    assert_eq!(
        out[1],
        DrawCommand::Text {
            caption: Caption::Words("EXIT"),
            pos: Coord::new(39, 154),
            font: Font::Small,
            shade: Shade::Darkest,
            anchor: Anchor::LeftTop,
        }
    );
    assert_eq!(
        out[4],
        DrawCommand::Rect {
            rect: Rect { left: 1, top: 16, right: 7, bottom: 22 },
            style: Style::Fill,
            shade: Shade::Light,
        }
    );
    assert_eq!(
        out[5],
        DrawCommand::Rect {
            rect: Rect { left: 1, top: 136, right: 7, bottom: 142 },
            style: Style::Fill,
            shade: Shade::Light,
        }
    );
    assert_eq!(
        out[4 + 40 + 1],
        DrawCommand::Rect {
            rect: Rect { left: 153, top: 16, right: 159, bottom: 22 },
            style: Style::Fill,
            shade: Shade::Light,
        }
    );
    assert_eq!(
        out[4 + 72],
        DrawCommand::Rect {
            rect: Rect { left: 73, top: 72, right: 79, bottom: 78 },
            style: Style::Fill,
            shade: Shade::Darkest,
        }
    );
    assert_eq!(
        out[4 + 72 + 3],
        DrawCommand::Circle { center: Coord::new(21, 44), radius: 3, shade: Shade::Darkest }
    );
    assert_eq!(
        out[4 + 72 + 4],
        DrawCommand::Text {
            caption: Caption::Count { label: "SCORE: ", value: 42, width: 8 },
            pos: Coord::new(3, 3),
            font: Font::Standard8x10,
            shade: Shade::Dark,
            anchor: Anchor::LeftTop,
        }
    );
}

#[test]
fn snake_render_shows_the_banner_at_the_end() {
    let mut game = Snake::new();
    game.state = State::Dead;
    game.body.clear();
    let out = game.render(None);
    assert_eq!(out.len(), 4 + 72 + 1 + 5);
    assert_eq!(
        out[4 + 72 + 1],
        DrawCommand::Rect {
            rect: Rect { left: 15, top: 67, right: 140, bottom: 90 },
            style: Style::Fill,
            shade: Shade::Lightest,
        }
    );
    assert_eq!(
        out[4 + 72 + 5],
        DrawCommand::Text {
            caption: Caption::Words("YOU'RE DEAD!"),
            pos: Coord::new(80, 80),
            font: Font::Standard8x10,
            shade: Shade::Darkest,
            anchor: Anchor::Center,
        }
    );
    game.state = State::Won;
    let out = game.render(None);
    assert_eq!(
        out[4 + 72 + 4],
        DrawCommand::Rect {
            rect: Rect { left: 37, top: 69, right: 118, bottom: 88 },
            style: Style::Stroke,
            shade: Shade::Light,
        }
    );
    assert_eq!(
        out[4 + 72 + 5],
        DrawCommand::Text {
            caption: Caption::Words("YOU WIN!"),
            pos: Coord::new(80, 80),
            font: Font::Standard8x10,
            shade: Shade::Darkest,
            anchor: Anchor::Center,
        }
    );
}

#[test]
fn arena_mid_point() {
    assert_eq!(retro_games::snake::mid_point(), Coord::new(80, 80));
}

#[test]
fn search_always_finds_a_tile_in_a_free_orchard() {
    let mut game = Snake::new();
    game.body = tiles(&[(18, 1), (18, 2), (18, 3)]);
    for _ in 0..100 {
        let tile = game.find_empty_slot().unwrap();
        assert!(1 <= tile.x && tile.x <= 17 && 1 <= tile.y && tile.y <= 13);
    }
}

#[test]
fn search_gives_up_when_the_orchard_is_full() {
    let mut game = Snake::new();
    game.fruits.clear();
    for x in 1..18 {
        for y in 1..14 {
            game.fruits.push(Coord::new(x, y));
        }
    }
    assert_eq!(game.find_empty_slot(), None);
    let free = game.fruits.pop().unwrap();
    for _ in 0..20 {
        match game.find_empty_slot() {
            Some(tile) => assert_eq!(tile, free),
            None => {}
        }
    }
}
