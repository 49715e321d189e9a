use snake::game::{game_state_transition, Game, GameState};
use snake::geometry::{Direction, ScreenExtent};
use snake::keys::{key_to_direction, Key};
use snake::render::{border_text, draw_border, DrawCommand};
use snake::snake::Snake;

fn draw(x: u16, y: u16, text: &str) -> DrawCommand {
    DrawCommand::Draw((x, y), text.to_string())
}

#[test]
fn arrow_keys_steer() {
    assert_eq!(key_to_direction(Some(Key::Up)), Some(Direction::Up));
    assert_eq!(key_to_direction(Some(Key::Down)), Some(Direction::Down));
    assert_eq!(key_to_direction(Some(Key::Left)), Some(Direction::Left));
    assert_eq!(key_to_direction(Some(Key::Right)), Some(Direction::Right));
    assert_eq!(key_to_direction(Some(Key::Char('w'))), None);
    assert_eq!(key_to_direction(Some(Key::Esc)), None);
    assert_eq!(key_to_direction(None), None);
}

#[test]
fn transition_table() {
    let q = Some(Key::Char('q'));
    let b = Some(Key::Char('b'));
    let x = Some(Key::Char('x'));
    assert_eq!(game_state_transition(&GameState::Begin, None), GameState::InGame(None));
    assert_eq!(game_state_transition(&GameState::Begin, q), GameState::InGame(q));
    assert_eq!(game_state_transition(&GameState::InGame(None), q), GameState::Quit);
    assert_eq!(game_state_transition(&GameState::InGame(x), b), GameState::InGame(b));
    assert_eq!(
        game_state_transition(&GameState::InGame(None), Some(Key::Up)),
        GameState::InGame(Some(Key::Up))
    );
    assert_eq!(game_state_transition(&GameState::InGame(q), None), GameState::InGame(None));
    assert_eq!(game_state_transition(&GameState::GameOver, b), GameState::Begin);
    assert_eq!(game_state_transition(&GameState::GameOver, q), GameState::Quit);
    assert_eq!(game_state_transition(&GameState::GameOver, x), GameState::GameOver);
    assert_eq!(game_state_transition(&GameState::GameOver, None), GameState::GameOver);
    assert_eq!(
        game_state_transition(&GameState::GameOver, Some(Key::Alt('q'))),
        GameState::GameOver
    );
    assert_eq!(game_state_transition(&GameState::Quit, b), GameState::Quit);
    assert_eq!(game_state_transition(&GameState::Quit, None), GameState::Quit);
}

#[test]
fn border_of_small_field() {
    let screen = ScreenExtent::new(4, 3);
    let text = border_text(&screen);
    assert_eq!(text, "\u{250C}\u{2500}\u{2500}\u{2510}\n\r\u{2502}  \u{2502}\n\r\u{2514}\u{2500}\u{2500}\u{2518}");
    let mut out = Vec::new();
    draw_border(&mut out, &screen);
    assert_eq!(out, vec![DrawCommand::Draw((1, 1), text), DrawCommand::Update]);
}

#[test]
fn border_of_smallest_field() {
    let screen = ScreenExtent::new(2, 2);
    assert_eq!(border_text(&screen), "\u{250C}\u{2510}\n\r\u{2514}\u{2518}");
}

#[test]
fn border_has_one_line_per_row() {
    let screen = ScreenExtent::new(70, 30);
    let text = border_text(&screen);
    let lines: Vec<&str> = text.split("\n\r").collect();
    assert_eq!(lines.len(), 30);
    for line in &lines {
        assert_eq!(line.chars().count(), 70);
    }
}

#[test]
fn new_game_starts_in_the_middle() {
    let game = Game::new(ScreenExtent::new(70, 30));
    assert_eq!(game.state, GameState::Begin);
    assert_eq!(game.snake.body.iter().copied().collect::<Vec<_>>(), vec![(35, 15)]);
    assert_eq!(game.snake.direction, Direction::Up);
    assert_eq!(game.food, (17, 10));
}

#[test]
fn begin_tick_draws_the_frame() {
    let screen = ScreenExtent::new(6, 4);
    let mut game = Game::new(ScreenExtent::new(6, 4));
    let out = game.tick();
    assert_eq!(
        out,
        vec![DrawCommand::Clear, DrawCommand::Draw((1, 1), border_text(&screen)), DrawCommand::Update]
    );
    assert_eq!(game.state, GameState::Begin);
    assert_eq!(game.snake.head(), (3, 2));
}

#[test]
fn play_tick_moves_and_redraws() {
    let mut game = Game::new(ScreenExtent::new(70, 30));
    game.state = GameState::InGame(None);
    let out = game.tick();
    assert_eq!(
        out,
        vec![draw(35, 15, " "), draw(35, 14, "@"), draw(17, 10, "\u{25A1}"), DrawCommand::Update]
    );
    assert_eq!(game.snake.head(), (35, 14));
    assert_eq!(game.state, GameState::InGame(None));
}

#[test]
fn play_tick_follows_arrow_key() {
    let mut game = Game::new(ScreenExtent::new(70, 30));
    game.state = GameState::InGame(Some(Key::Left));
    game.tick();
    assert_eq!(game.snake.direction, Direction::Left);
    assert_eq!(game.snake.head(), (34, 15));
    game.state = GameState::InGame(Some(Key::Right));
    game.tick();
    assert_eq!(game.snake.direction, Direction::Left);
    assert_eq!(game.snake.head(), (33, 15));
}

#[test]
fn eating_grows_and_swaps_food() {
    let mut game = Game::new(ScreenExtent::new(70, 30));
    game.state = GameState::InGame(None);
    game.food = (35, 14);
    let out = game.tick();
    assert_eq!(game.snake.body.iter().copied().collect::<Vec<_>>(), vec![(35, 14), (35, 14)]);
    assert_eq!(game.food, (14, 35));
    assert_eq!(
        out,
        vec![
            draw(35, 15, " "),
            draw(35, 14, "@"),
            draw(35, 14, "@"),
            draw(14, 35, "\u{25A1}"),
            DrawCommand::Update,
        ]
    );
    game.tick();
    assert_eq!(game.snake.body.iter().copied().collect::<Vec<_>>(), vec![(35, 14), (35, 13)]);
}

#[test]
fn wall_collision_ends_play() {
    let mut game = Game::new(ScreenExtent::new(5, 5));
    game.snake = Snake::new((2, 2), Direction::Up);
    game.state = GameState::InGame(None);
    let out = game.tick();
    assert_eq!(game.state, GameState::GameOver);
    assert_eq!(game.snake.head(), (2, 2));
    assert_eq!(out, vec![draw(2, 2, " ")]);
}

#[test]
fn self_collision_ends_play() {
    let mut game = Game::new(ScreenExtent::new(20, 20));
    let mut s = Snake::new((6, 5), Direction::Right);
    s.body = vec![(7, 4), (6, 4), (5, 4), (5, 5), (6, 5)].into_iter().collect();
    game.snake = s;
    game.state = GameState::InGame(Some(Key::Up));
    game.tick();
    assert_eq!(game.state, GameState::GameOver);
    assert_eq!(game.snake.head(), (6, 5));
}

#[test]
fn game_over_tick_shows_message() {
    let mut game = Game::new(ScreenExtent::new(70, 30));
    game.state = GameState::GameOver;
    let out = game.tick();
    assert_eq!(out, vec![DrawCommand::Clear, draw(31, 15, "Game Over"), DrawCommand::Update]);
    let mut narrow = Game::new(ScreenExtent::new(6, 4));
    narrow.state = GameState::GameOver;
    assert_eq!(narrow.tick(), vec![DrawCommand::Clear, draw(1, 2, "Game Over"), DrawCommand::Update]);
}

#[test]
fn quit_tick_clears() {
    let mut game = Game::new(ScreenExtent::new(70, 30));
    game.state = GameState::Quit;
    assert_eq!(game.tick(), vec![DrawCommand::Clear]);
    assert_eq!(game.state, GameState::Quit);
}

#[test]
fn quit_key_wins_over_collision() {
    let mut game = Game::new(ScreenExtent::new(5, 5));
    game.snake = Snake::new((2, 2), Direction::Up);
    game.state = GameState::InGame(None);
    game.tick();
    assert_eq!(game.state, GameState::GameOver);
    assert_eq!(game_state_transition(&game.state, Some(Key::Char('q'))), GameState::Quit);

    let mut calm = Game::new(ScreenExtent::new(70, 30));
    calm.state = GameState::InGame(None);
    calm.tick();
    assert_eq!(game_state_transition(&calm.state, Some(Key::Char('q'))), GameState::Quit);
}

#[test]
fn run_into_the_top_wall() {
    let mut game = Game::new(ScreenExtent::new(70, 30));
    game.tick();
    game.state = game_state_transition(&game.state, Some(Key::Char('x')));
    assert_eq!(game.state, GameState::InGame(Some(Key::Char('x'))));
    let mut ticks = 0;
    while game.state != GameState::GameOver && ticks < 100 {
        game.tick();
        ticks += 1;
        game.state = game_state_transition(&game.state, None);
    }
    assert_eq!(game.state, GameState::GameOver);
    assert_eq!(ticks, 14);
    assert_eq!(game.snake.head(), (35, 2));
}
