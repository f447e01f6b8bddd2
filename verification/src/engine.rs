//! The game itself: the snake, the fruit, and what one tick does to them.

use crate::geometry::{
    all_distinct, initial_snake, initialize_snake, perimeter, Point, SnakeDirection,
};
use crate::input::{char_direction, Key};
use crate::model::{lemma_tick_in_play, reads_before, GameView, Tick};
use crate::random::gen_range;
use crate::render::{
    draw_all, draws_of, score_line, score_text, Draw, BORDER_CHAR, FRUIT_CHAR, SNAKE_CHAR,
};
use std::collections::VecDeque;
use vstd::prelude::*;

verus! {

/// What can go wrong inside the game, as opposed to around it.
#[derive(Clone, Copy, Debug, PartialEq, Eq, Structural)]
pub enum GameError {
    /// The snake has no cell left, so it has no head to move.
    EmptySnake,
}

/// How many cells are tried at random for a new fruit before the board is
/// searched cell by cell.
pub const FRUIT_SAMPLES: u32 = 1048576;

/// A game of snake: the board's size, the body, the fruit, the direction of
/// travel and the score.
#[derive(Debug)]
pub struct SnakeGame {
    snake: VecDeque<Point>,
    fruit: Point,
    width: u16,
    height: u16,
    direction: SnakeDirection,
    score: u64,
}

impl View for SnakeGame {
    type V = GameView;

    closed spec fn view(&self) -> GameView {
        GameView {
            snake: self.snake@,
            fruit: self.fruit,
            width: self.width,
            height: self.height,
            direction: self.direction,
            score: self.score as nat,
        }
    }
}

impl SnakeGame {
    /// Whether the game is one in play.
    pub open spec fn wf(&self) -> bool {
        self@.wf()
    }

    /// A fresh game for a terminal of `width` columns and `rows` rows. The last
    /// row is kept for the score, so the board is one row lower. The snake
    /// stands in the middle, heading up; the fruit is not placed yet.
    pub fn new(width: u16, rows: u16) -> (game: Self)
        requires
            rows >= 1,
        ensures
            game@ == (GameView {
                snake: initial_snake(width, (rows - 1) as u16),
                fruit: Point { x: 0, y: 0 },
                width: width,
                height: (rows - 1) as u16,
                direction: SnakeDirection::Up,
                score: 0,
            }),
            game.wf(),
    {
        let height: u16 = rows - 1;
        Self {
            snake: initialize_snake(width, height),
            fruit: Point { x: 0, y: 0 },
            width,
            height,
            direction: SnakeDirection::Up,
            score: 0,
        }
    }

    /// A game made of the given parts, whatever they are: `is_valid` tells
    /// whether it is one in play.
    pub fn from_parts(
        snake: Vec<Point>,
        fruit: Point,
        width: u16,
        height: u16,
        direction: SnakeDirection,
        score: u64,
    ) -> (game: Self)
        ensures
            game@ == (GameView {
                snake: snake@,
                fruit,
                width,
                height,
                direction,
                score: score as nat,
            }),
    {
        let mut body: VecDeque<Point> = VecDeque::new();
        let mut i: usize = 0;
        while i < snake.len()
            invariant
                i <= snake.len(),
                body@ == snake@.take(i as int),
            decreases snake.len() - i,
        {
            body.push_back(snake[i]);
            i = i + 1;
        }
        assert(snake@.take(i as int) =~= snake@);
        Self { snake: body, fruit, width, height, direction, score }
    }

    /// The snake's cells, head first.
    pub fn snake(&self) -> (cells: Vec<Point>)
        ensures
            cells@ == self@.snake,
    {
        let mut cells: Vec<Point> = Vec::new();
        let mut i: usize = 0;
        while i < self.snake.len()
            invariant
                i <= self.snake@.len(),
                cells@ == self.snake@.take(i as int),
            decreases self.snake@.len() - i,
        {
            cells.push(self.snake[i]);
            i = i + 1;
        }
        cells
    }

    /// Where the fruit lies.
    pub fn fruit(&self) -> (fruit: Point)
        ensures
            fruit == self@.fruit,
    {
        self.fruit
    }

    /// The board's width, in cells.
    pub fn width(&self) -> (width: u16)
        ensures
            width == self@.width,
    {
        self.width
    }

    /// The board's height, in cells.
    pub fn height(&self) -> (height: u16)
        ensures
            height == self@.height,
    {
        self.height
    }

    /// The direction in which the snake travels.
    pub fn direction(&self) -> (direction: SnakeDirection)
        ensures
            direction == self@.direction,
    {
        self.direction
    }

    /// The score: the cells that the snake has gained.
    pub fn score(&self) -> (score: u64)
        ensures
            score == self@.score,
    {
        self.score
    }

    /// Tells whether the game is one in play.
    pub fn is_valid(&self) -> (valid: bool)
        ensures
            valid == self.wf(),
    {
        let cells = self.snake();
        cells.len() >= 3 && all_distinct(&cells) && self.score == (cells.len() - 3) as u64
    }

    /// The cell where the line with the score begins: the first of the row
    /// below the board.
    pub fn score_position(&self) -> (at: Point)
        ensures
            at == (Point { x: 0, y: self@.height }),
    {
        Point { x: 0, y: self.height }
    }

    /// The line that shows the score.
    pub fn write_score(&self) -> (text: String)
        ensures
            text@ == score_text(self@.score),
    {
        score_line(self.score)
    }

    /// The cell that the head enters with the next move: one step from the
    /// head in the direction of travel. Fails where the snake has no head.
    pub fn get_next_snake_position(&self) -> (next: Result<Point, GameError>)
        ensures
            match next {
                Ok(cell) => self@.snake.len() > 0 && cell == self@.next_head(),
                Err(error) => self@.snake.len() == 0 && error == GameError::EmptySnake,
            },
    {
        if self.snake.len() == 0 {
            return Err(GameError::EmptySnake);
        }
        let head: Point = self.snake[0];
        Ok(head.step(self.direction))
    }

    /// Takes the direction that the player asked for, unless it would turn the
    /// snake back on itself.
    pub fn change_direction(&mut self, new_direction: SnakeDirection)
        ensures
            final(self)@ == old(self)@.turned(new_direction),
    {
        if !self.direction.is_opposite(new_direction) {
            self.direction = new_direction;
        }
    }

    /// Steers by a letter: `w`, `s`, `d` and `a` ask for up, down, right and
    /// left; any other letter changes nothing.
    pub fn process_char(&mut self, c: char)
        ensures
            final(self)@ == match char_direction(c) {
                Some(direction) => old(self)@.turned(direction),
                None => old(self)@,
            },
    {
        match c {
            'w' => self.change_direction(SnakeDirection::Up),
            's' => self.change_direction(SnakeDirection::Down),
            'd' => self.change_direction(SnakeDirection::Right),
            'a' => self.change_direction(SnakeDirection::Left),
            _ => (),
        }
    }

    /// Acts on the key of this tick, if there is one, and says whether the
    /// player asked to leave. The arrows and the letters steer; the quit key
    /// and every other key leave the game as it is.
    pub fn process_command(&mut self, command: Option<Key>) -> (quit: bool)
        ensures
            quit == (command == Some(Key::Esc)),
            final(self)@ == old(self)@.steered(command),
    {
        if let Some(k) = command {
            match k {
                Key::Up => self.change_direction(SnakeDirection::Up),
                Key::Down => self.change_direction(SnakeDirection::Down),
                Key::Right => self.change_direction(SnakeDirection::Right),
                Key::Left => self.change_direction(SnakeDirection::Left),
                Key::Char(c) => self.process_char(c),
                Key::Esc => return true,
                Key::Other => (),
            }
        }
        false
    }

    /// Moves the snake by one cell. A head that would enter the border or the
    /// snake's own body ends the game and moves nothing. Otherwise the head
    /// enters the next cell; on the fruit the snake keeps its tail and a new
    /// fruit is placed, elsewhere the tail leaves its cell.
    pub fn process_game(&mut self) -> (tick: Tick)
        requires
            old(self).wf(),
        ensures
            old(self)@.advances(tick, final(self)@),
            final(self).wf(),
            final(self)@.snake.no_duplicates(),
            tick is Grow ==> final(self)@.snake.len() == old(self)@.snake.len() + 1,
            tick is Grow ==> final(self)@.score == old(self)@.score + 1,
            !(tick is Grow) ==> final(self)@.snake.len() == old(self)@.snake.len(),
            !(tick is Grow) ==> final(self)@.score == old(self)@.score,
    {
        let head: Point = self.snake[0].step(self.direction);
        if let Some(c) = self.check_crash(&head) {
            return Tick::Crash { at: head, glyph: c };
        }
        let tail: Point = self.snake[self.snake.len() - 1];
        let tick;
        self.snake.push_front(head);
        if head == self.fruit {
            self.score = (self.snake.len() - 3) as u64;
            let fruit = if self.position_fruit() {
                Some(self.fruit)
            } else {
                None
            };
            tick = Tick::Grow { head, fruit };
        } else {
            self.snake.pop_back();
            self.score = (self.snake.len() - 3) as u64;
            assert(self@.snake == old(self)@.moved().snake);
            tick = Tick::Step { head, erased: tail };
        }
        proof {
            lemma_tick_in_play(old(self)@, tick, self@);
        }
        tick
    }

    /// Whether `point` is a cell of the board's outermost ring.
    pub fn is_border(&self, point: &Point) -> (border: bool)
        ensures
            border == self@.is_border(*point),
    {
        if point.x == 0 || (self.width > 0 && point.x == self.width - 1) {
            return true;
        }
        if point.y == 0 || (self.height > 0 && point.y == self.height - 1) {
            return true;
        }
        false
    }

    /// Whether `point` is a cell of the snake's body.
    pub fn occupies(&self, point: &Point) -> (found: bool)
        ensures
            found == self@.snake.contains(*point),
    {
        let mut i: usize = 0;
        while i < self.snake.len()
            invariant
                i <= self.snake@.len(),
                forall|j: int| 0 <= j < i ==> self.snake@[j] != *point,
            decreases self.snake@.len() - i,
        {
            if self.snake[i] == *point {
                return true;
            }
            i = i + 1;
        }
        false
    }

    /// The glyph that a head entering `point` crashes into, if it crashes: the
    /// border is looked for first, the snake's own body second.
    pub fn check_crash(&self, point: &Point) -> (crash: Option<char>)
        ensures
            crash == self@.crash_glyph(*point),
    {
        if self.is_border(point) {
            return Some(BORDER_CHAR);
        } else if self.occupies(point) {
            return Some(SNAKE_CHAR);
        }
        None
    }

    /// One tick of the game. The quit key ends it at once and changes
    /// nothing. Any other key steers first, if it is one that steers; then
    /// the snake moves as `process_game` says.
    pub fn tick(&mut self, command: Option<Key>) -> (tick: Tick)
        requires
            old(self).wf(),
        ensures
            final(self).wf(),
            command == Some(Key::Esc) ==> tick is Quit && final(self)@ == old(self)@,
            command != Some(Key::Esc) ==> old(self)@.steered(command).advances(
                tick,
                final(self)@,
            ),
    {
        if self.process_command(command) {
            return Tick::Quit;
        }
        self.process_game()
    }

    /// The border as it is traced: the top row from left to right, the right
    /// column downwards, the bottom row from right to left and the left
    /// column upwards.
    pub fn box_points(&self) -> (points: Vec<Point>)
        ensures
            points@ == perimeter(self@.width, self@.height),
    {
        let mut points: Vec<Point> = Vec::new();
        if self.width == 0 || self.height == 0 {
            return points;
        }
        let ghost ring = perimeter(self.width, self.height);
        let right: u16 = self.width - 1;
        let bottom: u16 = self.height - 1;
        let mut x: u16 = 0;
        while x < self.width
            invariant
                self.width > 0 && self.height > 0,
                ring == perimeter(self.width, self.height),
                x <= self.width,
                points@ == ring.take(x as int),
            decreases self.width - x,
        {
            points.push(Point { x, y: 0 });
            x = x + 1;
        }
        let mut y: u16 = 0;
        while y < self.height
            invariant
                self.width > 0 && self.height > 0,
                ring == perimeter(self.width, self.height),
                right == self.width - 1,
                y <= self.height,
                points@ == ring.take(self.width + y),
            decreases self.height - y,
        {
            points.push(Point { x: right, y });
            y = y + 1;
        }
        let mut i: u16 = 0;
        while i < self.width
            invariant
                self.width > 0 && self.height > 0,
                ring == perimeter(self.width, self.height),
                right == self.width - 1,
                bottom == self.height - 1,
                i <= self.width,
                points@ == ring.take(self.width + self.height + i),
            decreases self.width - i,
        {
            points.push(Point { x: right - i, y: bottom });
            i = i + 1;
        }
        let mut j: u16 = 0;
        while j < self.height
            invariant
                self.width > 0 && self.height > 0,
                ring == perimeter(self.width, self.height),
                bottom == self.height - 1,
                j <= self.height,
                points@ == ring.take(2 * self.width + self.height + j),
            decreases self.height - j,
        {
            points.push(Point { x: 0, y: bottom - j });
            j = j + 1;
        }
        points
    }

    /// The border, glyph by glyph, as it is to be drawn.
    pub fn draw_box(&self) -> (draws: Vec<Draw>)
        ensures
            draws@ == draws_of(perimeter(self@.width, self@.height), BORDER_CHAR),
    {
        let points = self.box_points();
        draw_all(&points, BORDER_CHAR)
    }

    /// Sets the game up and lists what is to be drawn first: the border, the
    /// fruit, which is placed now, and the snake. The fruit is placed as
    /// `position_fruit` does it; nothing else changes.
    pub fn init(&mut self) -> (frame: Vec<Draw>)
        ensures
            old(self)@.has_room() ==> old(self)@.is_free_interior(final(self)@.fruit),
            !old(self)@.has_room() ==> final(self)@ == old(self)@,
            final(self)@ == old(self)@.with_fruit(final(self)@.fruit),
            frame@ == final(self)@.first_frame(old(self)@.has_room()),
    {
        let mut frame = self.draw_box();
        if self.position_fruit() {
            frame.push(Draw { at: self.fruit, glyph: FRUIT_CHAR });
        }
        let cells = self.snake();
        let mut body = draw_all(&cells, SNAKE_CHAR);
        frame.append(&mut body);
        frame
    }

    /// Puts the fruit at `candidate` if fruit may lie there, and says whether
    /// it did. Otherwise nothing changes.
    pub fn place_fruit(&mut self, candidate: Point) -> (placed: bool)
        ensures
            placed == old(self)@.is_free_interior(candidate),
            final(self)@ == if placed {
                old(self)@.with_fruit(candidate)
            } else {
                old(self)@
            },
    {
        if candidate.x >= self.width || candidate.y >= self.height {
            return false;
        }
        if self.is_border(&candidate) {
            return false;
        }
        if self.occupies(&candidate) {
            return false;
        }
        self.fruit = candidate;
        true
    }

    /// The first cell, reading the board row by row, where fruit may lie; none
    /// where the board has no such cell.
    pub fn first_free_cell(&self) -> (cell: Option<Point>)
        ensures
            match cell {
                Some(p) => {
                    &&& self@.is_free_interior(p)
                    &&& forall|q: Point| #[trigger]
                        self@.is_free_interior(q) ==> !reads_before(q, p)
                },
                None => !self@.has_room(),
            },
    {
        if self.width < 3 || self.height < 3 {
            return None;
        }
        let mut y: u16 = 1;
        while y < self.height - 1
            invariant
                self.width >= 3,
                self.height >= 3,
                1 <= y <= self.height - 1,
                forall|q: Point| #[trigger] self@.is_free_interior(q) ==> q.y >= y,
            decreases self.height - y,
        {
            let mut x: u16 = 1;
            while x < self.width - 1
                invariant
                    self.width >= 3,
                    self.height >= 3,
                    1 <= y < self.height - 1,
                    1 <= x <= self.width - 1,
                    forall|q: Point| #[trigger]
                        self@.is_free_interior(q) ==> q.y > y || (q.y == y && q.x >= x),
                decreases self.width - x,
            {
                let p = Point { x, y };
                if !self.occupies(&p) {
                    return Some(p);
                }
                x = x + 1;
            }
            y = y + 1;
        }
        None
    }

    /// Moves the fruit to a cell where fruit may lie, and says whether it did:
    /// it does so whenever the board has such a cell, and else changes
    /// nothing. Cells off the border are tried at random until one is free of
    /// the snake; should `FRUIT_SAMPLES` of them in a row be taken, the first
    /// free cell of the board is used.
    pub fn position_fruit(&mut self) -> (placed: bool)
        ensures
            placed == old(self)@.has_room(),
            placed ==> old(self)@.is_free_interior(final(self)@.fruit),
            final(self)@ == old(self)@.with_fruit(final(self)@.fruit),
            !placed ==> final(self)@ == old(self)@,
    {
        if self.width < 3 || self.height < 3 {
            return false;
        }
        let mut rng = rand::thread_rng();
        let mut left: u32 = FRUIT_SAMPLES;
        while left > 0
            invariant
                self.width >= 3,
                self.height >= 3,
                self@ == old(self)@,
            decreases left,
        {
            let point = Point {
                x: gen_range(&mut rng, 1, self.width - 1),
                y: gen_range(&mut rng, 1, self.height - 1),
            };
            if self.place_fruit(point) {
                return true;
            }
            left = left - 1;
        }
        match self.first_free_cell() {
            Some(point) => {
                self.fruit = point;
                true
            },
            None => false,
        }
    }
}

} // verus!
