//! The eight basic terminal colours and their ANSI codes.

use vstd::prelude::*;
use crate::text::{number_text, write_number};

verus! {

/// A basic terminal colour, in ANSI order.
#[derive(Debug, Clone, Copy, PartialEq, Eq, Structural)]
pub enum Color {
    Black,
    Red,
    Green,
    Brown,
    Blue,
    Purple,
    Cyan,
    LightGray,
}

impl Color {
    /// The position of the colour in the ANSI palette, from 0 (black) to 7 (light gray).
    pub open spec fn index(self) -> int {
        match self {
            Color::Black => 0,
            Color::Red => 1,
            Color::Green => 2,
            Color::Brown => 3,
            Color::Blue => 4,
            Color::Purple => 5,
            Color::Cyan => 6,
            Color::LightGray => 7,
        }
    }

    /// The palette position as a machine integer.
    fn ordinal(&self) -> (n: u8)
        ensures
            n == self.index(),
    {
        match self {
            Color::Black => 0,
            Color::Red => 1,
            Color::Green => 2,
            Color::Brown => 3,
            Color::Blue => 4,
            Color::Purple => 5,
            Color::Cyan => 6,
            Color::LightGray => 7,
        }
    }

    /// The SGR code that selects this colour for the foreground: 30 to 37.
    pub fn fg_code(&self) -> (code: u8)
        ensures
            code == 30 + self.index(),
    {
        self.ordinal() + 30
    }

    /// The SGR code that selects this colour for the background: 40 to 47.
    pub fn bg_code(&self) -> (code: u8)
        ensures
            code == 40 + self.index(),
    {
        self.ordinal() + 40
    }
}

/// A text between the escape sequence that selects the display attribute
/// `code` and the one that resets all attributes.
pub open spec fn colored_text(code: u8, text: Seq<char>) -> Seq<char> {
    "\x1b["@ + number_text(code as nat) + "m"@ + text + "\x1b[0m"@
}

/// Wraps a text in the escape sequences that show it with the display
/// attribute `code`.
pub fn colored(code: u8, text: &str) -> (wrapped: String)
    ensures
        wrapped@ == colored_text(code, text@),
{
    let mut wrapped = String::from_str("\x1b[");
    let number = write_number(code as usize);
    wrapped.append(number.as_str());
    wrapped.append("m");
    wrapped.append(text);
    wrapped.append("\x1b[0m");
    wrapped
}

} // verus!
