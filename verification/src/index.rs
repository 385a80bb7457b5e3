//! Addressing types.
//!
//! Two distinct coordinate systems are used throughout the crate, with one
//! point type per system so they cannot be confused:
//!
//! * [`Point`] is viewport-relative: `line` counts down from the top visible
//!   row (`0` = top), bounded by the screen height.
//! * [`BufferPoint`] is absolute: `line` counts up from the bottom of the
//!   whole buffer (`0` = newest row), independent of scrolling.

use vstd::prelude::*;

verus! {

/// A viewport-relative position: `line` 0 is the top visible row.
#[derive(Debug, Clone, Copy, PartialEq, Eq, Structural)]
pub struct Point {
    pub line: usize,
    pub col: usize,
}

impl Default for Point {
    fn default() -> (p: Self)
        ensures
            p == (Point { line: 0usize, col: 0usize }),
    {
        Point { line: 0, col: 0 }
    }
}

/// An absolute buffer position: `line` 0 is the bottom (newest) row of the
/// whole buffer, including scrollback.
#[derive(Debug, Clone, Copy, PartialEq, Eq, Structural)]
pub struct BufferPoint {
    pub line: usize,
    pub col: usize,
}

} // verus!
