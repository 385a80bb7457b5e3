//! The mathematical model of a grid.
//!
//! [`GridSpec`] is the ghost state every contract speaks about: the logical
//! row sequence (absolute order, index 0 = bottom/newest row), the fixed
//! viewport shape, the display offset, the history cap and the cursor's
//! template cell. Each mutating grid operation has a matching spec
//! function here that maps a model to the model after the call.

use crate::cell::GridCell;
use crate::grid::Scroll;
use crate::row::reset_row;
use vstd::math::{max, min};
use vstd::prelude::*;

verus! {

/// Ghost model of a grid: rows in absolute order plus the scalar state.
#[verifier::ext_equal]
pub struct GridSpec<T> {
    /// All rows, absolute order: index 0 is the bottom (newest) row; the
    /// viewport occupies indices `[0, lines)`, history the rest.
    pub rows: Seq<Seq<T>>,
    /// Height of the viewport.
    pub lines: int,
    /// Number of columns.
    pub cols: int,
    /// How many rows back from the bottom the viewport is scrolled.
    pub display_offset: int,
    /// Maximum number of history rows.
    pub max_scroll_limit: int,
    /// The cursor's template cell, used to stamp newly exposed rows.
    pub template: T,
}

impl<T: GridCell> GridSpec<T> {
    /// Number of rows currently kept in history.
    pub open spec fn history_size(self) -> int {
        self.rows.len() - self.lines
    }

    /// The invariant every reachable grid satisfies: the buffer holds the
    /// screen plus at most `max_scroll_limit` history rows, the display
    /// offset never points past the history, and every row has exactly
    /// `cols` cells.
    pub open spec fn wf(self) -> bool {
        &&& 1 <= self.lines
        &&& 1 <= self.cols
        &&& self.rows.len() >= self.lines
        &&& self.history_size() <= self.max_scroll_limit
        &&& 0 <= self.display_offset <= self.history_size()
        &&& forall|i: int| 0 <= i < self.rows.len() ==> (#[trigger] self.rows[i]).len() == self.cols
        &&& self.lines + self.max_scroll_limit <= usize::MAX
        &&& self.cols <= usize::MAX
    }

    /// A row as produced by resetting from the cursor template.
    pub open spec fn blank_row(self) -> Seq<T> {
        reset_row::<T>(self.cols, self.template)
    }

    /// The row at viewport line `l` of the active area (0 = top visible
    /// line when the display is not scrolled back).
    pub open spec fn line(self, l: int) -> Seq<T> {
        self.rows[self.lines - 1 - l]
    }

    /// Both scroll directions leave rows at the viewport lines of the
    /// region reset, when the whole region rotates out.
    pub open spec fn reset_region_spec(self, rs: int, re: int) -> GridSpec<T> {
        GridSpec {
            rows: Seq::new(
                self.rows.len(),
                |i: int|
                    if self.lines - re <= i && i < self.lines - rs {
                        self.blank_row()
                    } else {
                        self.rows[i]
                    },
            ),
            ..self
        }
    }

    /// The model after `scroll_up(rs..re, p)`: region content moves `p`
    /// lines toward the top, the `p` rows leaving the region's top enter
    /// history (up to the cap), `p` blank rows appear at the region's
    /// bottom, and fixed lines outside the region keep their places. When
    /// the viewport is scrolled back, the display offset tracks the new
    /// history.
    pub open spec fn scroll_up_spec(self, rs: int, re: int, p: int) -> GridSpec<T> {
        if p >= re - rs && rs != 0 {
            self.reset_region_spec(rs, re)
        } else {
            let grown = min(p, self.max_scroll_limit - self.history_size());
            let total2 = self.rows.len() + grown;
            let d2 = if self.display_offset == 0 {
                0
            } else {
                min(self.display_offset + p, self.max_scroll_limit)
            };
            GridSpec {
                rows: Seq::new(
                    total2 as nat,
                    |i: int|
                        if i < self.lines - re {
                            self.rows[i]
                        } else if i < self.lines - re + p {
                            self.blank_row()
                        } else if i < self.lines - rs {
                            self.rows[i - p]
                        } else if i < self.lines {
                            self.rows[i]
                        } else if i < self.lines + p {
                            // The p rows that left the region's top, in the
                            // order the fixed-line swap chain leaves them:
                            // rotated left by rs modulo p.
                            self.rows[self.lines - rs - p + ((i - self.lines + rs) % p)]
                        } else {
                            self.rows[i - p]
                        },
                ),
                display_offset: d2,
                ..self
            }
        }
    }

    /// The model after `scroll_down(rs..re, p)`: region content moves `p`
    /// lines toward the bottom, the `p` rows leaving the region's bottom
    /// are discarded, `p` blank rows appear at the region's top, and
    /// everything else — fixed lines and all of history — is unchanged.
    pub open spec fn scroll_down_spec(self, rs: int, re: int, p: int) -> GridSpec<T> {
        if p >= re - rs {
            self.reset_region_spec(rs, re)
        } else {
            GridSpec {
                rows: Seq::new(
                    self.rows.len(),
                    |i: int|
                        if i < self.lines - re {
                            self.rows[i]
                        } else if i < self.lines - rs - p {
                            self.rows[i + p]
                        } else if i < self.lines - rs {
                            self.blank_row()
                        } else {
                            self.rows[i]
                        },
                ),
                ..self
            }
        }
    }

    /// The display offset after `scroll_display`.
    pub open spec fn scroll_display_spec(self, scroll: Scroll) -> int {
        match scroll {
            Scroll::Delta(count) => min(
                max(self.display_offset + count as int, 0),
                self.history_size(),
            ),
            Scroll::PageUp => min(self.display_offset + self.lines, self.history_size()),
            Scroll::PageDown => max(self.display_offset - self.lines, 0),
            Scroll::Top => self.history_size(),
            Scroll::Bottom => 0,
        }
    }

    /// Whether every cell of absolute row `i` is empty.
    pub open spec fn row_empty(self, i: int) -> bool {
        forall|j: int| 0 <= j < self.rows[i].len() ==> (#[trigger] self.rows[i][j]).empty_spec()
    }

    /// The lowest absolute index in `[from, lines]` whose row is not fully
    /// empty, or `lines` if all of them are.
    pub open spec fn blank_from(self, from: int) -> int
        decreases self.lines - from,
    {
        if from >= self.lines {
            self.lines
        } else if self.row_empty(from) {
            self.blank_from(from + 1)
        } else {
            from
        }
    }

    /// How many lines `clear_viewport` scrolls up by: the height of the
    /// block from the bottom-most non-empty row to the top of the screen.
    /// When the whole viewport is empty, the backward cell walk stops at
    /// the first history row if there is one (no scroll), and otherwise at
    /// the screen's top-left corner (scroll of one line).
    pub open spec fn clear_positions(self) -> int {
        let b = self.blank_from(0);
        if b < self.lines {
            self.lines - b
        } else if self.rows.len() > self.lines {
            0
        } else {
            1
        }
    }

    /// The model after `clear_viewport`: the display snaps to the bottom,
    /// the viewport is scrolled up over the full screen by
    /// `clear_positions`, and every viewport row left over from before the
    /// rotation is reset.
    pub open spec fn clear_viewport_spec(self) -> GridSpec<T> {
        let p = self.clear_positions();
        let mid = GridSpec { display_offset: 0, ..self }.scroll_up_spec(0, self.lines, p);
        GridSpec {
            rows: Seq::new(
                mid.rows.len(),
                |i: int|
                    if p <= i && i < self.lines {
                        self.blank_row()
                    } else {
                        mid.rows[i]
                    },
            ),
            ..mid
        }
    }
}


impl<T: GridCell> GridSpec<T> {
    /// Where the viewport-relative point a buffer point clamps to lies:
    /// below the visible window it clamps to the bottom-right visible
    /// cell, above it to the top-left, and inside it converts exactly as
    /// `visible_to_buffer` inverts.
    pub open spec fn clamp_to_visible(self, line: int, col: int) -> (int, int) {
        if line < self.display_offset {
            (self.lines - 1, self.cols - 1)
        } else if line >= self.display_offset + self.lines {
            (0, 0)
        } else {
            (self.lines + self.display_offset - line - 1, col)
        }
    }

    /// The scan for the lowest non-empty row never leaves `[from, lines]`.
    pub proof fn lemma_blank_from_bounds(self, from: int)
        requires
            0 <= from <= self.lines,
        ensures
            from <= self.blank_from(from) <= self.lines,
        decreases self.lines - from,
    {
        if from < self.lines && self.row_empty(from) {
            self.lemma_blank_from_bounds(from + 1);
        }
    }

    /// `blank_from` is pinned down by any witness scan: if the rows below
    /// `b` are all empty and `b` is the screen top or a non-empty row,
    /// then `b` is where the scan stops.
    pub proof fn lemma_blank_from(self, from: int, b: int)
        requires
            0 <= from <= b <= self.lines,
            forall|j: int| from <= j < b ==> self.row_empty(j),
            b == self.lines || !self.row_empty(b),
        ensures
            self.blank_from(from) == b,
        decreases b - from,
    {
        if from < b {
            self.lemma_blank_from(from + 1, b);
        }
    }
}

} // verus!
