//! A snapshot of the terminal's geometry.
use vstd::prelude::*;

verus! {

/// The terminal's size and the cursor's position, with a count of lines
/// written since the snapshot was taken.
#[derive(Clone, Copy, Debug, PartialEq, Eq, Structural)]
pub struct TermStat {
    pub line_count: usize,
    pub width: usize,
    pub height: usize,
    pub xpos: usize,
    pub ypos: usize,
}

impl TermStat {
    /// A snapshot of a terminal of `size` (columns, rows) with the cursor at
    /// `pos` (column, row), before any line was written.
    pub fn new(size: (usize, usize), pos: (usize, usize)) -> (r: TermStat)
        ensures
            r.line_count == 0,
            r.width == size.0,
            r.height == size.1,
            r.xpos == pos.0,
            r.ypos == pos.1,
    {
        TermStat { line_count: 0, width: size.0, height: size.1, xpos: pos.0, ypos: pos.1 }
    }
}

} // verus!
