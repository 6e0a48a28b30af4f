//! The capacity of the terminal and of the content area inside it.

use vstd::prelude::*;

verus! {

/// Lines at the top of the screen that never show results: the prompt line
/// and the status line.
pub const NON_CONTENT_LINES: u16 = 2;

/// A capacity in character cells.
#[derive(Clone, Copy, Debug, PartialEq, Eq, Structural)]
pub struct Dimension {
    pub width: u16,
    pub height: u16,
}

/// What is left of `height` lines once `lines` of them are taken away; never
/// below zero.
pub open spec fn height_without(height: u16, lines: u16) -> u16 {
    if height >= lines {
        (height - lines) as u16
    } else {
        0
    }
}

/// The height of the content area of a terminal that is `height` lines tall.
pub open spec fn content_height(height: u16) -> u16 {
    height_without(height, NON_CONTENT_LINES)
}

impl Dimension {
    /// The same width with `lines` fewer lines of height.
    pub fn loose_heigth(self, lines: u16) -> (rest: Dimension)
        ensures
            rest.width == self.width,
            rest.height == height_without(self.height, lines),
    {
        let height: u16 = if self.height >= lines {
            self.height - lines
        } else {
            0
        };
        Dimension { width: self.width, height }
    }
}

/// The content area of a terminal of the given size: everything below the
/// prompt line and the status line.
pub fn dimension(terminal: Dimension) -> (content: Dimension)
    ensures
        content.width == terminal.width,
        content.height == content_height(terminal.height),
{
    terminal.loose_heigth(NON_CONTENT_LINES)
}

} // verus!
