//! What the screen shows once the game is over.

use crate::geometry::Point;
use crate::input::Key;
use crate::render::{Draw, BLANK_CHAR};
use vstd::prelude::*;

verus! {

/// The blinking that marks the place of a crash until the player leaves.
#[derive(Clone, Copy, Debug, PartialEq, Eq, Structural)]
pub struct Blink {
    /// Where the head crashed.
    pub at: Point,
    /// What it crashed into.
    pub glyph: char,
    /// What is drawn there next.
    pub next: char,
}

impl Blink {
    /// The glyph that follows `shown` at the place of the crash: the glyph
    /// that was hit after a blank, a blank after anything else.
    pub open spec fn after(self, shown: char) -> char {
        if shown == BLANK_CHAR {
            self.glyph
        } else {
            BLANK_CHAR
        }
    }

    /// Starts the blinking at `at`, where the head hit `glyph`. A blank is
    /// drawn first.
    pub fn new(at: Point, glyph: char) -> (blink: Self)
        ensures
            blink == (Blink { at, glyph, next: BLANK_CHAR }),
    {
        Blink { at, glyph, next: BLANK_CHAR }
    }

    /// One tick of the blinking. The quit key ends it: nothing is drawn and
    /// nothing changes. On any other tick the glyph that is due is drawn at
    /// the place of the crash, and the other one is due next.
    pub fn step(&mut self, command: Option<Key>) -> (draw: Option<Draw>)
        ensures
            command == Some(Key::Esc) ==> draw is None && *final(self) == *old(self),
            command != Some(Key::Esc) ==> draw == Some(
                Draw { at: old(self).at, glyph: old(self).next },
            ) && *final(self) == (Blink { next: old(self).after(old(self).next), ..*old(self) }),
    {
        if let Some(key) = command {
            if key == Key::Esc {
                return None;
            }
        }
        let draw = Draw { at: self.at, glyph: self.next };
        if self.next == BLANK_CHAR {
            self.next = self.glyph;
        } else {
            self.next = BLANK_CHAR;
        }
        Some(draw)
    }
}

} // verus!
