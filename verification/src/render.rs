//! What the game shows: one glyph per cell, and a line of text for the score.

use crate::geometry::Point;
use vstd::prelude::*;

verus! {

/// The glyph of the fruit.
pub const FRUIT_CHAR: char = 'o';

/// The glyph of a cell of the snake.
pub const SNAKE_CHAR: char = '*';

/// The glyph of a cell of the border.
pub const BORDER_CHAR: char = '#';

/// The glyph that wipes a cell.
pub const BLANK_CHAR: char = ' ';

/// What is written behind the score once the game is over.
pub const GAME_OVER_TEXT: &'static str = " GAME OVER!";

/// One glyph to be written at one cell of the screen.
#[derive(Clone, Copy, Debug, PartialEq, Eq, Structural)]
pub struct Draw {
    pub at: Point,
    pub glyph: char,
}

/// The glyph `glyph` at every cell of `cells`, in their order.
pub open spec fn draws_of(cells: Seq<Point>, glyph: char) -> Seq<Draw> {
    cells.map_values(|p: Point| Draw { at: p, glyph })
}

/// Builds the draws that put `glyph` at every cell of `cells`.
pub fn draw_all(cells: &Vec<Point>, glyph: char) -> (draws: Vec<Draw>)
    ensures
        draws@ == draws_of(cells@, glyph),
{
    let mut draws: Vec<Draw> = Vec::new();
    let mut i: usize = 0;
    while i < cells.len()
        invariant
            i <= cells.len(),
            draws@ == draws_of(cells@.take(i as int), glyph),
        decreases cells.len() - i,
    {
        draws.push(Draw { at: cells[i], glyph });
        i = i + 1;
    }
    draws
}

/// `String::push` appends one character to the end of the string and leaves
/// the rest as it was.
pub assume_specification[ String::push ](text: &mut String, ch: char)
    ensures
        final(text)@ == old(text)@.push(ch),
;

/// The glyph of a decimal digit.
pub open spec fn digit_glyph(digit: nat) -> char
    recommends
        digit < 10,
{
    if digit == 0 {
        '0'
    } else if digit == 1 {
        '1'
    } else if digit == 2 {
        '2'
    } else if digit == 3 {
        '3'
    } else if digit == 4 {
        '4'
    } else if digit == 5 {
        '5'
    } else if digit == 6 {
        '6'
    } else if digit == 7 {
        '7'
    } else if digit == 8 {
        '8'
    } else {
        '9'
    }
}

/// A number written in decimal digits, without leading zeros.
pub open spec fn decimal(n: nat) -> Seq<char>
    decreases n,
{
    if n < 10 {
        seq![digit_glyph(n)]
    } else {
        decimal(n / 10).push(digit_glyph(n % 10))
    }
}

/// The line that shows the score: the word, a colon, a blank and the number.
pub open spec fn score_text(score: nat) -> Seq<char> {
    "Score: "@ + decimal(score)
}

fn digit_char(digit: u64) -> (glyph: char)
    requires
        digit < 10,
    ensures
        glyph == digit_glyph(digit as nat),
{
    if digit == 0 {
        '0'
    } else if digit == 1 {
        '1'
    } else if digit == 2 {
        '2'
    } else if digit == 3 {
        '3'
    } else if digit == 4 {
        '4'
    } else if digit == 5 {
        '5'
    } else if digit == 6 {
        '6'
    } else if digit == 7 {
        '7'
    } else if digit == 8 {
        '8'
    } else {
        '9'
    }
}

/// Appends `n` in decimal digits to `text`.
fn push_decimal(text: &mut String, n: u64)
    ensures
        final(text)@ == old(text)@ + decimal(n as nat),
    decreases n,
{
    if n >= 10 {
        push_decimal(text, n / 10);
    }
    text.push(digit_char(n % 10));
}

/// Writes the line that shows `score`.
pub fn score_line(score: u64) -> (text: String)
    ensures
        text@ == score_text(score as nat),
{
    let mut text = "Score: ".to_owned();
    push_decimal(&mut text, score);
    text
}

} // verus!
