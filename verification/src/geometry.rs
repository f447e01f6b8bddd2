//! Grid cells, the four directions of travel, and the shapes built from them.

use std::collections::VecDeque;
use vstd::prelude::*;

verus! {

/// A cell of the grid. Columns and rows count from zero at the top-left corner.
#[derive(Clone, Copy, Debug, Hash, PartialEq, Eq, Structural)]
pub struct Point {
    pub x: u16,
    pub y: u16,
}

/// The direction in which the snake travels.
#[derive(Debug, Clone, Copy, Hash, PartialEq, Eq, Structural)]
pub enum SnakeDirection {
    Up,
    Down,
    Right,
    Left,
}

impl SnakeDirection {
    /// The direction that points the other way.
    pub open spec fn opposite(self) -> SnakeDirection {
        match self {
            SnakeDirection::Up => SnakeDirection::Down,
            SnakeDirection::Down => SnakeDirection::Up,
            SnakeDirection::Right => SnakeDirection::Left,
            SnakeDirection::Left => SnakeDirection::Right,
        }
    }

    /// Whether `self` and `other` form one of the pairs up/down and left/right,
    /// in either order.
    pub open spec fn opposes(&self, other: SnakeDirection) -> bool {
        ||| *self == SnakeDirection::Up && other == SnakeDirection::Down
        ||| *self == SnakeDirection::Down && other == SnakeDirection::Up
        ||| *self == SnakeDirection::Left && other == SnakeDirection::Right
        ||| *self == SnakeDirection::Right && other == SnakeDirection::Left
    }

    /// Tells whether turning from `self` to `other` would be a reversal.
    #[verifier::when_used_as_spec(opposes)]
    pub fn is_opposite(&self, other: SnakeDirection) -> (reversal: bool)
        ensures
            reversal == self.opposes(other),
    {
        if (*self == SnakeDirection::Up && other == SnakeDirection::Down)
            || (*self == SnakeDirection::Down && other == SnakeDirection::Up)
            || (*self == SnakeDirection::Left && other == SnakeDirection::Right)
            || (*self == SnakeDirection::Right && other == SnakeDirection::Left)
        {
            return true;
        }
        false
    }
}

/// No direction opposes itself, every direction opposes its opposite, and
/// nothing else opposes it: of the sixteen ordered pairs exactly four oppose.
pub proof fn lemma_opposite_pairs(a: SnakeDirection, b: SnakeDirection)
    ensures
        !a.opposes(a),
        a.opposes(a.opposite()),
        a.opposes(b) <==> b == a.opposite(),
        a.opposes(b) <==> b.opposes(a),
        a.opposite().opposite() == a,
{
}

impl Point {
    /// The cell one step from `self` in the given direction. A step that would
    /// leave the range of the coordinates stays where it is.
    pub open spec fn stepped(self, direction: SnakeDirection) -> Point {
        match direction {
            SnakeDirection::Up => Point {
                x: self.x,
                y: if self.y > 0 { (self.y - 1) as u16 } else { self.y },
            },
            SnakeDirection::Down => Point {
                x: self.x,
                y: if self.y < u16::MAX { (self.y + 1) as u16 } else { self.y },
            },
            SnakeDirection::Right => Point {
                x: if self.x < u16::MAX { (self.x + 1) as u16 } else { self.x },
                y: self.y,
            },
            SnakeDirection::Left => Point {
                x: if self.x > 0 { (self.x - 1) as u16 } else { self.x },
                y: self.y,
            },
        }
    }

    /// Takes one step from `self` in the given direction, stopping at the ends
    /// of the coordinates' range rather than wrapping round.
    pub fn step(&self, direction: SnakeDirection) -> (next: Point)
        ensures
            next == self.stepped(direction),
    {
        match direction {
            SnakeDirection::Up => Point { x: self.x, y: self.y.saturating_sub(1) },
            SnakeDirection::Down => Point { x: self.x, y: self.y.saturating_add(1) },
            SnakeDirection::Right => Point { x: self.x.saturating_add(1), y: self.y },
            SnakeDirection::Left => Point { x: self.x.saturating_sub(1), y: self.y },
        }
    }

    /// Whether `self` lies on the outermost ring of a board of the given size.
    pub open spec fn on_border(self, width: u16, height: u16) -> bool {
        ||| self.x == 0
        ||| self.x == width - 1
        ||| self.y == 0
        ||| self.y == height - 1
    }

    /// Whether `self` lies on a board of the given size and off its border.
    pub open spec fn inside(self, width: u16, height: u16) -> bool {
        &&& 0 < self.x < width - 1
        &&& 0 < self.y < height - 1
    }
}

/// A cell inside the board is on the board and not on its border.
pub proof fn lemma_inside_is_off_border(p: Point, width: u16, height: u16)
    ensures
        p.inside(width, height) <==> p.x < width && p.y < height && !p.on_border(width, height),
{
}

/// The border of a board as it is traced: the top row from left to right, the
/// right column downwards, the bottom row from right to left and the left
/// column upwards. Each corner is met twice. A board without cells has none.
pub open spec fn perimeter(width: u16, height: u16) -> Seq<Point> {
    if width == 0 || height == 0 {
        Seq::empty()
    } else {
        let right = (width - 1) as u16;
        let bottom = (height - 1) as u16;
        Seq::new(width as nat, |i: int| Point { x: i as u16, y: 0 })
            + Seq::new(height as nat, |i: int| Point { x: right, y: i as u16 })
            + Seq::new(width as nat, |i: int| Point { x: (right - i) as u16, y: bottom })
            + Seq::new(height as nat, |i: int| Point { x: 0, y: (bottom - i) as u16 })
    }
}

/// The traced border holds border cells of the board only, and every border
/// cell of the board is on it.
pub proof fn lemma_perimeter_is_border(width: u16, height: u16, p: Point)
    ensures
        width > 0 && height > 0 ==> perimeter(width, height).len() == 2 * width + 2 * height,
        width == 0 || height == 0 ==> perimeter(width, height).len() == 0,
        perimeter(width, height).contains(p) <==> {
            &&& p.x < width
            &&& p.y < height
            &&& p.on_border(width, height)
        },
{
    let ring = perimeter(width, height);
    if width > 0 && height > 0 {
        let w: int = width as int;
        let h: int = height as int;
        if p.x < width && p.y < height && p.on_border(width, height) {
            let i: int = if p.y == 0 {
                p.x as int
            } else if p.x == w - 1 {
                w + p.y
            } else if p.y == h - 1 {
                w + h + (w - 1 - p.x)
            } else {
                w + h + w + (h - 1 - p.y)
            };
            assert(ring[i] == p);
        }
    }
}

/// Tells whether no cell occurs twice in `cells`.
pub fn all_distinct(cells: &Vec<Point>) -> (distinct: bool)
    ensures
        distinct == cells@.no_duplicates(),
{
    let mut i: usize = 0;
    while i < cells.len()
        invariant
            i <= cells.len(),
            forall|a: int, b: int| 0 <= a < b < i ==> cells@[a] != cells@[b],
        decreases cells.len() - i,
    {
        let mut j: usize = 0;
        while j < i
            invariant
                j <= i < cells.len(),
                forall|a: int| 0 <= a < j ==> cells@[a] != cells@[i as int],
            decreases i - j,
        {
            if cells[j] == cells[i] {
                return false;
            }
            j = j + 1;
        }
        i = i + 1;
    }
    true
}

/// The body a snake starts with on a board of the given size: three cells
/// stacked in the middle column, from the middle row downwards, head first.
pub open spec fn initial_snake(width: u16, height: u16) -> Seq<Point> {
    seq![
        Point { x: width / 2, y: height / 2 },
        Point { x: width / 2, y: (height / 2 + 1) as u16 },
        Point { x: width / 2, y: (height / 2 + 2) as u16 },
    ]
}

/// Builds the starting body for a board of the given size.
pub fn initialize_snake(width: u16, height: u16) -> (snake: VecDeque<Point>)
    ensures
        snake@ == initial_snake(width, height),
{
    let middle_height: u16 = height / 2;
    let middle_width: u16 = width / 2;
    let mut snake: VecDeque<Point> = VecDeque::new();
    let mut y: u16 = middle_height;
    while y < middle_height + 3
        invariant
            middle_height == height / 2,
            middle_width == width / 2,
            middle_height <= y <= middle_height + 3,
            snake@ == initial_snake(width, height).take(y - middle_height),
        decreases middle_height + 3 - y,
    {
        snake.push_back(Point { x: middle_width, y });
        y = y + 1;
    }
    snake
}

} // verus!
