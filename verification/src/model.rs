//! The game as the contracts see it: what a game is made of, what a tick may
//! do to it, and what holds of every game in play.

use crate::geometry::{perimeter, Point, SnakeDirection};
use crate::input::{key_direction, Key};
use crate::render::{draws_of, Draw, BLANK_CHAR, BORDER_CHAR, FRUIT_CHAR, SNAKE_CHAR};
use vstd::prelude::*;

verus! {

/// A game as the contracts see it.
pub struct GameView {
    /// The body, head first.
    pub snake: Seq<Point>,
    pub fruit: Point,
    pub width: u16,
    pub height: u16,
    pub direction: SnakeDirection,
    pub score: nat,
}

/// What one tick did to the game.
#[derive(Clone, Copy, Debug, PartialEq, Eq)]
pub enum Tick {
    /// The player asked to leave; the game did not move.
    Quit,
    /// The head would have entered `at`, where `glyph` stands: the game is
    /// over and did not move.
    Crash { at: Point, glyph: char },
    /// The snake moved: its head entered `head` and its tail left `erased`.
    Step { head: Point, erased: Point },
    /// The snake ate the fruit at `head` and grew by that cell. The new fruit
    /// lies at `fruit`; there is none where the board had no cell left for it.
    Grow { head: Point, fruit: Option<Point> },
}

impl Tick {
    /// The cells of the screen that the tick changed, with their new glyphs:
    /// the new head, and then the cell that the tail left or the new fruit.
    /// Nothing else is drawn again.
    pub open spec fn redraw(self) -> Seq<Draw> {
        match self {
            Tick::Quit => Seq::empty(),
            Tick::Crash { .. } => Seq::empty(),
            Tick::Step { head, erased } => seq![
                Draw { at: head, glyph: SNAKE_CHAR },
                Draw { at: erased, glyph: BLANK_CHAR },
            ],
            Tick::Grow { head, fruit } => match fruit {
                Some(p) => seq![
                    Draw { at: head, glyph: SNAKE_CHAR },
                    Draw { at: p, glyph: FRUIT_CHAR },
                ],
                None => seq![Draw { at: head, glyph: SNAKE_CHAR }],
            },
        }
    }

    /// Lists what is to be drawn after the tick.
    pub fn draws(&self) -> (draws: Vec<Draw>)
        ensures
            draws@ == self.redraw(),
    {
        let mut draws: Vec<Draw> = Vec::new();
        match *self {
            Tick::Quit => {},
            Tick::Crash { .. } => {},
            Tick::Step { head, erased } => {
                draws.push(Draw { at: head, glyph: SNAKE_CHAR });
                draws.push(Draw { at: erased, glyph: BLANK_CHAR });
            },
            Tick::Grow { head, fruit } => {
                draws.push(Draw { at: head, glyph: SNAKE_CHAR });
                if let Some(p) = fruit {
                    draws.push(Draw { at: p, glyph: FRUIT_CHAR });
                }
            },
        }
        draws
    }
}

/// Whether `a` comes before `b` when the board is read row by row from the
/// top, each row from the left.
pub open spec fn reads_before(a: Point, b: Point) -> bool {
    a.y < b.y || (a.y == b.y && a.x < b.x)
}

impl GameView {
    /// What every game in play satisfies: the body has at least its three
    /// starting cells, no cell occurs in it twice, and the score counts the
    /// cells it has gained.
    pub open spec fn wf(self) -> bool {
        &&& self.snake.len() >= 3
        &&& self.snake.no_duplicates()
        &&& self.score == self.snake.len() - 3
    }

    /// Whether `p` is a cell of the board's outermost ring.
    pub open spec fn is_border(self, p: Point) -> bool {
        p.on_border(self.width, self.height)
    }

    /// The glyph that the head would crash into at `p`, if any: the border
    /// where `p` is on it, else the snake where `p` is part of the body.
    pub open spec fn crash_glyph(self, p: Point) -> Option<char> {
        if self.is_border(p) {
            Some(BORDER_CHAR)
        } else if self.snake.contains(p) {
            Some(SNAKE_CHAR)
        } else {
            None
        }
    }

    /// The cell that the head enters with the next move.
    pub open spec fn next_head(self) -> Point
        recommends
            self.snake.len() > 0,
    {
        self.snake[0].stepped(self.direction)
    }

    /// Whether fruit may lie at `p`: off the border, on the board, and on no
    /// cell of the snake.
    pub open spec fn is_free_interior(self, p: Point) -> bool {
        p.inside(self.width, self.height) && !self.snake.contains(p)
    }

    /// Whether the board has a cell left where fruit may lie.
    pub open spec fn has_room(self) -> bool {
        exists|p: Point| #[trigger] self.is_free_interior(p)
    }

    /// The same game with the fruit at `p`.
    pub open spec fn with_fruit(self, p: Point) -> GameView {
        GameView { fruit: p, ..self }
    }

    /// What a game draws when it starts: the border as it is traced, the
    /// fruit if one was placed, and the snake from head to tail.
    pub open spec fn first_frame(self, with_fruit: bool) -> Seq<Draw> {
        draws_of(perimeter(self.width, self.height), BORDER_CHAR) + (if with_fruit {
            seq![Draw { at: self.fruit, glyph: FRUIT_CHAR }]
        } else {
            Seq::empty()
        }) + draws_of(self.snake, SNAKE_CHAR)
    }

    /// The game after the player asked for `direction`: the snake takes it,
    /// unless that would turn it back on itself.
    pub open spec fn turned(self, direction: SnakeDirection) -> GameView {
        GameView {
            direction: if self.direction.opposes(direction) {
                self.direction
            } else {
                direction
            },
            ..self
        }
    }

    /// The game after the player pressed `command`, if any key was pressed.
    pub open spec fn steered(self, command: Option<Key>) -> GameView {
        match command {
            Some(key) => match key_direction(key) {
                Some(direction) => self.turned(direction),
                None => self,
            },
            None => self,
        }
    }

    /// The game after a move that found no fruit: the head enters the next
    /// cell and the tail leaves its own.
    pub open spec fn moved(self) -> GameView
        recommends
            self.snake.len() > 0,
    {
        GameView { snake: seq![self.next_head()] + self.snake.drop_last(), ..self }
    }

    /// The game after a move onto the fruit, before a new fruit is placed: the
    /// head enters the next cell, the tail stays, and the score goes up by one.
    pub open spec fn grown(self) -> GameView
        recommends
            self.snake.len() > 0,
    {
        GameView { snake: seq![self.next_head()] + self.snake, score: self.score + 1, ..self }
    }

    /// Whether a tick that starts from `self` may report `tick` and leave the
    /// game as `after`. All is fixed by `self` but the cell of a new fruit.
    pub open spec fn advances(self, tick: Tick, after: GameView) -> bool
        recommends
            self.snake.len() > 0,
    {
        match tick {
            Tick::Quit => false,
            Tick::Crash { at, glyph } => {
                &&& at == self.next_head()
                &&& self.crash_glyph(at) == Some(glyph)
                &&& after == self
            },
            Tick::Step { head, erased } => {
                &&& head == self.next_head()
                &&& self.crash_glyph(head) is None
                &&& head != self.fruit
                &&& erased == self.snake.last()
                &&& after == self.moved()
            },
            Tick::Grow { head, fruit } => {
                &&& head == self.next_head()
                &&& self.crash_glyph(head) is None
                &&& head == self.fruit
                &&& match fruit {
                    Some(p) => self.grown().is_free_interior(p) && after == self.grown().with_fruit(
                        p,
                    ),
                    None => !self.grown().has_room() && after == self.grown(),
                }
            },
        }
    }
}

/// A move that is no crash and finds no fruit keeps the game in play, and the
/// snake as long and the score as high as they were.
pub proof fn lemma_moved_in_play(s: GameView)
    requires
        s.wf(),
        s.crash_glyph(s.next_head()) is None,
    ensures
        s.moved().wf(),
        s.moved().snake.len() == s.snake.len(),
        s.moved().score == s.score,
        s.moved().snake[0] == s.next_head(),
{
}

/// A move onto the fruit that is no crash keeps the game in play, makes the
/// snake longer by exactly one cell and raises the score by exactly one,
/// wherever the new fruit is put.
pub proof fn lemma_grown_in_play(s: GameView, fruit: Point)
    requires
        s.wf(),
        s.crash_glyph(s.next_head()) is None,
    ensures
        s.grown().wf(),
        s.grown().with_fruit(fruit).wf(),
        s.grown().snake.len() == s.snake.len() + 1,
        s.grown().score == s.score + 1,
        s.grown().snake[0] == s.next_head(),
{
}

/// Whatever a tick reports, a game that was in play before it is in play after
/// it: no cell occurs twice in the snake. The snake and the score grow by
/// exactly one where the tick reports growth, and stay as they were otherwise.
/// The tick reports a crash exactly where the next cell is one to crash into,
/// and growth exactly where it is the fruit's and no crash.
pub proof fn lemma_tick_in_play(s: GameView, tick: Tick, after: GameView)
    requires
        s.wf(),
        s.advances(tick, after),
    ensures
        after.wf(),
        after.snake.no_duplicates(),
        tick is Grow ==> after.snake.len() == s.snake.len() + 1 && after.score == s.score + 1,
        !(tick is Grow) ==> after.snake.len() == s.snake.len() && after.score == s.score,
        tick is Crash <==> s.crash_glyph(s.next_head()) is Some,
        tick is Grow <==> s.crash_glyph(s.next_head()) is None && s.next_head() == s.fruit,
{
    match tick {
        Tick::Quit => {},
        Tick::Crash { .. } => {},
        Tick::Step { .. } => {
            lemma_moved_in_play(s);
        },
        Tick::Grow { .. } => {
            lemma_grown_in_play(s, s.fruit);
        },
    }
}

/// Fruit never lies on the border nor on the snake: a cell where fruit may lie
/// is off the outermost ring, within the board, and no cell of the body, so a
/// head that enters it does not crash.
pub proof fn lemma_fruit_cell_is_clear(s: GameView, p: Point)
    requires
        s.is_free_interior(p),
    ensures
        0 < p.x < s.width - 1,
        0 < p.y < s.height - 1,
        !s.is_border(p),
        !s.snake.contains(p),
        s.crash_glyph(p) is None,
{
}

/// A fruit that lies where fruit may lie still does so after the tick, unless
/// the snake ate it and the board had no cell left for a new one.
pub proof fn lemma_tick_keeps_fruit_clear(s: GameView, tick: Tick, after: GameView)
    requires
        s.wf(),
        s.is_free_interior(s.fruit),
        s.advances(tick, after),
        !(tick matches Tick::Grow { fruit: None, .. }),
    ensures
        after.is_free_interior(after.fruit),
{
}

/// A head that cannot step any further, because its coordinate is at the end
/// of its range, never moves on unnoticed: the tick is a crash.
pub proof fn lemma_stuck_head_crashes(s: GameView)
    requires
        s.snake.len() > 0,
        s.next_head() == s.snake[0],
    ensures
        s.crash_glyph(s.next_head()) is Some,
{
}

} // verus!
