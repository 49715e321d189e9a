//! The game: its phases, the key-driven table between them, and the work of
//! one tick in each phase.

use vstd::prelude::*;

use crate::geometry::{Coordinate, Direction, Point, ScreenExtent};
use crate::keys::{key_direction_spec, key_to_direction, Key};
use crate::render::{border_spec, draw_border, drawings, DrawCommand, Drawing};
use crate::snake::{
    blank_glyph,
    body_glyph,
    cells_drawn,
    lemma_eat_grows_by_one,
    lemma_moves_keep_length,
    Snake,
    SnakeModel,
};

verus! {

/// The phase the game is in.
#[derive(Clone, Copy, Debug, PartialEq, Eq, Structural)]
pub enum GameState {
    /// The frame is drawn; play starts on the next tick.
    Begin,
    /// Play, steered by the last key read.
    InGame(Option<Key>),
    /// The snake hit a wall or itself.
    GameOver,
    /// The game is over for good.
    Quit,
}

/// Whether `key` is the character `c`.
pub open spec fn is_char(key: Option<Key>, c: char) -> bool {
    key == Some(Key::Char(c))
}

/// The phase after `state` once `key` has been read: `q` quits from play and
/// from the end screen, `b` starts over from the end screen, and the first
/// key after the start, whatever it is, starts play.
pub open spec fn transition_spec(state: GameState, key: Option<Key>) -> GameState {
    match state {
        GameState::Begin => GameState::InGame(key),
        GameState::InGame(_) => if is_char(key, 'q') {
            GameState::Quit
        } else {
            GameState::InGame(key)
        },
        GameState::GameOver => if is_char(key, 'b') {
            GameState::Begin
        } else if is_char(key, 'q') {
            GameState::Quit
        } else {
            GameState::GameOver
        },
        GameState::Quit => GameState::Quit,
    }
}

/// The phase after `state` once `key` has been read.
pub fn game_state_transition(state: &GameState, key: Option<Key>) -> (r: GameState)
    ensures
        r == transition_spec(*state, key),
{
    match state {
        GameState::Begin => GameState::InGame(key),
        GameState::InGame(_) => match key {
            Some(Key::Char('q')) => GameState::Quit,
            _ => GameState::InGame(key),
        },
        GameState::GameOver => match key {
            Some(Key::Char('b')) => GameState::Begin,
            Some(Key::Char('q')) => GameState::Quit,
            _ => GameState::GameOver,
        },
        GameState::Quit => GameState::Quit,
    }
}

/// The text the food is drawn with.
pub open spec fn food_glyph() -> Seq<char> {
    seq!['\u{25A1}']
}

/// The message of the end screen.
pub open spec fn game_over_text() -> Seq<char> {
    seq!['G', 'a', 'm', 'e', ' ', 'O', 'v', 'e', 'r']
}

/// Where the end screen's message starts so that it sits in the middle of
/// the field.
pub open spec fn game_over_position(screen: ScreenExtent) -> Point {
    let x = if screen.width >= 9 {
        (screen.width - 9) / 2 + 1
    } else {
        1
    };
    (x as Coordinate, screen.height / 2)
}

/// Where eaten food goes next: its coordinates swapped.
pub open spec fn relocate_spec(food: Point) -> Point {
    (food.1, food.0)
}

/// What a game is: its field, phase, snake and food.
pub struct GameModel {
    pub screen: ScreenExtent,
    pub state: GameState,
    pub snake: SnakeModel,
    pub food: Point,
}

impl GameModel {
    /// The field is well formed and the snake has a head.
    pub open spec fn wf(self) -> bool {
        self.screen.wf() && self.snake.wf()
    }

    /// The snake a tick of play would move to, before it is checked.
    pub open spec fn candidate(self) -> SnakeModel {
        self.snake.update(key_direction_spec(self.state->InGame_0))
    }

    /// Whether the candidate snake leaves the field or crosses itself.
    pub open spec fn collides(self) -> bool {
        !self.screen.contains_spec(self.candidate().head()) || self.candidate().self_cross()
    }

    /// The game after the work of one tick in its phase. In play the
    /// candidate snake is checked first: on a collision the phase becomes
    /// `GameOver` and the snake stays; else the candidate is taken, and
    /// where its head is on the food it grows and the food moves.
    pub open spec fn frame(self) -> GameModel {
        if self.state is InGame {
            if self.collides() {
                GameModel { state: GameState::GameOver, ..self }
            } else {
                match self.candidate().eat(self.food) {
                    Some(grown) => GameModel {
                        snake: grown,
                        food: relocate_spec(self.food),
                        ..self
                    },
                    None => GameModel { snake: self.candidate(), ..self },
                }
            }
        } else {
            self
        }
    }

    /// What the work of one tick in its phase draws.
    pub open spec fn frame_drawings(self) -> Seq<Drawing> {
        match self.state {
            GameState::Begin => seq![
                Drawing::Clear,
                Drawing::Draw(
                    self.screen.top_left,
                    border_spec(self.screen.width as nat, self.screen.height as nat),
                ),
                Drawing::Update,
            ],
            GameState::InGame(_) => {
                let erase = cells_drawn(self.snake.body, blank_glyph());
                if self.collides() {
                    erase
                } else {
                    let next = self.frame();
                    erase + cells_drawn(next.snake.body, body_glyph()) + seq![
                        Drawing::Draw(next.food, food_glyph()),
                        Drawing::Update,
                    ]
                }
            },
            GameState::GameOver => seq![
                Drawing::Clear,
                Drawing::Draw(game_over_position(self.screen), game_over_text()),
                Drawing::Update,
            ],
            GameState::Quit => seq![Drawing::Clear],
        }
    }

    /// A whole tick: the work of the phase, then the table with `key`.
    pub open spec fn step(self, key: Option<Key>) -> GameModel {
        let after = self.frame();
        GameModel { state: transition_spec(after.state, key), ..after }
    }

    /// The game after `n` ticks in which no key is pressed.
    pub open spec fn run_untouched(self, n: nat) -> GameModel
        decreases n,
    {
        if n == 0 {
            self
        } else {
            self.step(None).run_untouched((n - 1) as nat)
        }
    }

    /// How many cells the head is from the wall it is heading for.
    pub open spec fn wall_distance(self) -> nat {
        let head = self.snake.head();
        match self.snake.direction {
            Direction::Up => head.1 as nat,
            Direction::Left => head.0 as nat,
            Direction::Down => if head.1 <= self.screen.height {
                (self.screen.height - head.1) as nat
            } else {
                0
            },
            Direction::Right => if head.0 <= self.screen.width {
                (self.screen.width - head.0) as nat
            } else {
                0
            },
        }
    }
}

/// The game: field, phase, snake and food.
pub struct Game {
    pub screen: ScreenExtent,
    pub state: GameState,
    pub snake: Snake,
    pub food: Point,
}

impl View for Game {
    type V = GameModel;

    open spec fn view(&self) -> GameModel {
        GameModel {
            screen: self.screen,
            state: self.state,
            snake: self.snake@,
            food: self.food,
        }
    }
}

/// A tick keeps a game well formed.
pub proof fn lemma_frame_keeps_wf(g: GameModel)
    requires
        g.wf(),
    ensures
        g.frame().wf(),
        g.frame().screen == g.screen,
{
    if g.state is InGame && !g.collides() {
        lemma_moves_keep_length(g.snake, key_direction_spec(g.state->InGame_0));
        if g.candidate().head() == g.food {
            lemma_eat_grows_by_one(g.candidate(), g.food);
        }
    }
}

/// The keys of the phase table: `q` leaves play and the end screen for
/// good, `b` leaves the end screen for a new start, and any other key keeps
/// play in play and the end screen on the end screen; the start gives way
/// to play on any key, and quitting is final.
pub proof fn lemma_control_keys(key: Option<Key>, last: Option<Key>)
    ensures
        transition_spec(GameState::InGame(last), key) == GameState::Quit <==> is_char(key, 'q'),
        !is_char(key, 'q') ==> transition_spec(GameState::InGame(last), key) == GameState::InGame(
            key,
        ),
        transition_spec(GameState::GameOver, key) == GameState::Begin <==> is_char(key, 'b'),
        transition_spec(GameState::GameOver, key) == GameState::Quit <==> is_char(key, 'q'),
        !is_char(key, 'b') && !is_char(key, 'q') ==> transition_spec(GameState::GameOver, key)
            == GameState::GameOver,
        transition_spec(GameState::Begin, key) == GameState::InGame(key),
        transition_spec(GameState::Quit, key) == GameState::Quit,
{
}

/// In play, `q` ends the game at the end of the tick whether or not the
/// snake collides during it.
pub proof fn lemma_quit_from_play(g: GameModel)
    requires
        g.state is InGame,
    ensures
        g.step(Some(Key::Char('q'))).state == GameState::Quit,
{
}

/// A tick at the start draws the frame and changes nothing else, and play
/// starts after it whatever key was read.
pub proof fn lemma_begin_starts_play(g: GameModel, key: Option<Key>)
    requires
        g.state == GameState::Begin,
    ensures
        g.frame() == g,
        g.step(key) == (GameModel { state: GameState::InGame(key), ..g }),
{
}

/// A tick of play whose candidate snake leaves the field or crosses itself
/// ends play before the key is looked at, and keeps the snake as it was.
pub proof fn lemma_collision_ends_play(g: GameModel)
    requires
        g.state is InGame,
        g.collides(),
    ensures
        g.frame().state == GameState::GameOver,
        g.frame().snake == g.snake,
{
}

/// With no key pressed, the end screen stays.
pub proof fn lemma_game_over_stays(g: GameModel, n: nat)
    requires
        g.state == GameState::GameOver,
    ensures
        g.run_untouched(n).state == GameState::GameOver,
    decreases n,
{
    if n > 0 {
        lemma_game_over_stays(g.step(None), (n - 1) as nat);
    }
}

/// In play with no key pressed, a snake that does not collide moves its head
/// one cell nearer the wall ahead, keeps its direction and stays in play.
proof fn lemma_untouched_step_nears_wall(g: GameModel)
    requires
        g.wf(),
        g.state == GameState::InGame(None),
        !g.collides(),
    ensures
        g.step(None).state == GameState::InGame(None),
        g.step(None).wf(),
        g.step(None).snake.direction == g.snake.direction,
        g.step(None).screen == g.screen,
        g.wall_distance() >= 1,
        g.step(None).wall_distance() == g.wall_distance() - 1,
{
    lemma_frame_keeps_wf(g);
    let c = g.candidate();
    lemma_moves_keep_length(g.snake, None);
    assert(c == g.snake.crawl());
    if c.head() == g.food {
        lemma_eat_grows_by_one(c, g.food);
    }
    assert(g.step(None).snake.head() == c.head());
}

/// In play with no key pressed, the snake runs straight on and the game
/// ends within one tick more than the head's distance from the wall ahead.
pub proof fn lemma_straight_run_hits_wall(g: GameModel)
    requires
        g.wf(),
        g.state == GameState::InGame(None),
    ensures
        g.run_untouched(g.wall_distance() + 1).state == GameState::GameOver,
    decreases g.wall_distance(),
{
    let next = g.step(None);
    assert(g.run_untouched(g.wall_distance() + 1) == next.run_untouched(g.wall_distance()));
    if g.collides() {
        lemma_game_over_stays(next, g.wall_distance());
    } else {
        lemma_untouched_step_nears_wall(g);
        lemma_straight_run_hits_wall(next);
    }
}

impl Game {
    /// A game on `screen` at its start: a one-cell snake heading up from the
    /// middle of the field, and food a quarter across and a third down.
    pub fn new(screen: ScreenExtent) -> (r: Game)
        requires
            screen.wf(),
        ensures
            r@ == (GameModel {
                screen,
                state: GameState::Begin,
                snake: SnakeModel {
                    body: seq![(screen.width / 2, screen.height / 2)],
                    direction: Direction::Up,
                },
                food: (screen.width / 4, screen.height / 3),
            }),
            r@.wf(),
    {
        let snake = Snake::new((screen.width / 2, screen.height / 2), Direction::Up);
        let food = (screen.width / 4, screen.height / 3);
        Game { screen, state: GameState::Begin, snake, food }
    }

    /// Does the work of one tick in the current phase and says what to draw.
    /// The phase for the next tick is left to `game_state_transition`.
    pub fn tick(&mut self) -> (r: Vec<DrawCommand>)
        requires
            old(self)@.wf(),
        ensures
            final(self)@ == old(self)@.frame(),
            final(self)@.wf(),
            drawings(r@) == old(self)@.frame_drawings(),
    {
        proof {
            lemma_frame_keeps_wf(self@);
        }
        let mut out: Vec<DrawCommand> = Vec::new();
        match self.state {
            GameState::Begin => {
                out.push(DrawCommand::Clear);
                draw_border(&mut out, &self.screen);
                assert(drawings(out@) =~= self@.frame_drawings());
            },
            GameState::InGame(key) => {
                self.snake.clear(&mut out);
                let candidate = self.snake.update(key_to_direction(key));
                if !self.screen.contains(&candidate.head()) || candidate.self_cross() {
                    self.state = GameState::GameOver;
                } else {
                    match candidate.eat(&self.food) {
                        Some(grown) => {
                            self.snake = grown;
                            self.food = (self.food.1, self.food.0);
                        },
                        None => {
                            self.snake = candidate;
                        },
                    }
                    self.snake.draw(&mut out);
                    proof {
                        reveal_strlit("\u{25A1}");
                        assert("\u{25A1}"@ =~= food_glyph());
                    }
                    out.push(DrawCommand::Draw(self.food, String::from_str("\u{25A1}")));
                    out.push(DrawCommand::Update);
                }
                assert(drawings(out@) =~= old(self)@.frame_drawings());
            },
            GameState::GameOver => {
                let x = if self.screen.width >= 9 {
                    (self.screen.width - 9) / 2 + 1
                } else {
                    1
                };
                proof {
                    reveal_strlit("Game Over");
                    assert("Game Over"@ =~= game_over_text());
                }
                out.push(DrawCommand::Clear);
                out.push(DrawCommand::Draw((x, self.screen.height / 2), String::from_str("Game Over")));
                out.push(DrawCommand::Update);
                assert(drawings(out@) =~= self@.frame_drawings());
            },
            GameState::Quit => {
                out.push(DrawCommand::Clear);
                assert(drawings(out@) =~= self@.frame_drawings());
            },
        }
        out
    }
}

} // verus!
