//! The terminal-size record that resize frames carry.

use vstd::prelude::*;

verus! {

/// The size of a pseudo-terminal: a grid of character cells, plus advisory
/// pixel dimensions (zero when unknown).
#[derive(Clone, Copy, PartialEq, Eq, Structural, Debug)]
pub struct PtySize {
    pub rows: u16,
    pub cols: u16,
    pub pixel_width: u16,
    pub pixel_height: u16,
}

/// The fixed size a session's terminal starts with: 80 columns by 24 rows,
/// pixel dimensions unset.
pub fn initial_size() -> (r: PtySize)
    ensures
        r == (PtySize { rows: 24, cols: 80, pixel_width: 0, pixel_height: 0 }),
{
    PtySize { rows: 24, cols: 80, pixel_width: 0, pixel_height: 0 }
}

} // verus!
