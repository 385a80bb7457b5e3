//! Iterators over the buffer and over the visible display.

use crate::cell::GridCell;
use crate::grid::{Dimensions, Grid};
use crate::index::{BufferPoint, Point};
use crate::model::GridSpec;
use vstd::prelude::*;

verus! {

/// An item in the grid along with its viewport line and column.
pub struct Indexed<T> {
    pub inner: T,
    pub line: usize,
    pub column: usize,
}

/// An iterator that can also step backward.
pub trait BidirectionalIterator: Sized {
    type Item;

    /// Whether the iterator is in a state `prev` may be called from.
    spec fn prev_enabled(&self) -> bool;

    /// How one backward step relates the new state and the item returned
    /// to the state stepped from.
    spec fn prev_post(&self, from: Self, item: Option<Self::Item>) -> bool;

    fn prev(&mut self) -> (r: Option<Self::Item>)
        requires
            old(self).prev_enabled(),
        ensures
            final(self).prev_post(*old(self), r),
    ;
}

/// Walks the whole buffer row-major by absolute position, wrapping
/// column to row at the boundaries in both directions: forward steps move
/// toward the bottom-right (newest) cell, backward steps toward the
/// top-left (oldest) one.
pub struct GridIterator<'a, T> {
    /// Immutable grid reference.
    grid: &'a Grid<T>,

    /// Current position of the iterator within the grid.
    cur: BufferPoint,
}

impl<'a, T: GridCell> GridIterator<'a, T> {
    /// The model of the underlying grid.
    pub closed spec fn gm(&self) -> GridSpec<T> {
        self.grid.model()
    }

    /// The current position.
    pub closed spec fn pos(&self) -> BufferPoint {
        self.cur
    }

    pub closed spec fn wf(&self) -> bool {
        self.grid.wf()
    }

    pub fn point(&self) -> (p: BufferPoint)
        ensures
            p == self.pos(),
    {
        self.cur
    }

    pub fn cell(&self) -> (c: &'a T)
        requires
            self.wf(),
            self.pos().line < self.gm().rows.len(),
            self.pos().col < self.gm().cols,
        ensures
            *c == self.gm().rows[self.pos().line as int][self.pos().col as int],
    {
        self.grid.buffer_cell(self.cur)
    }

    /// Step toward the bottom-right (newest) cell; the step wraps from
    /// column 0 of one row to the last column of the row below, and ends
    /// at the buffer's newest cell.
    pub fn next(&mut self) -> (r: Option<&'a T>)
        requires
            old(self).wf(),
            old(self).pos().line < old(self).gm().rows.len(),
            old(self).pos().col < old(self).gm().cols,
        ensures
            final(self).wf(),
            final(self).gm() == old(self).gm(),
            ({
                let cur = old(self).pos();
                let cols = old(self).gm().cols;
                if cur.line == 0 && cur.col == cols - 1 {
                    r is None && final(self).pos() == cur
                } else if cur.col == cols - 1 {
                    &&& final(self).pos() == (BufferPoint { line: (cur.line - 1) as usize, col: 0 })
                    &&& (r matches Some(c) && *c == old(self).gm().rows[cur.line - 1][0])
                } else {
                    &&& final(self).pos() == (BufferPoint {
                        line: cur.line,
                        col: (cur.col + 1) as usize,
                    })
                    &&& (r matches Some(c) && *c == old(self).gm().rows[cur.line as int][cur.col
                        + 1])
                }
            }),
    {
        proof {
            self.grid.lemma_wf();
        }
        let last_col = self.grid.cols() - 1;
        if self.cur.line == 0 && self.cur.col == last_col {
            return None;
        }
        if self.cur.col == last_col {
            self.cur.line = self.cur.line - 1;
            self.cur.col = 0;
        } else {
            self.cur.col = self.cur.col + 1;
        }
        Some(self.grid.buffer_cell(self.cur))
    }
}

impl<'a, T: GridCell> BidirectionalIterator for GridIterator<'a, T> {
    type Item = &'a T;

    open spec fn prev_enabled(&self) -> bool {
        &&& self.wf()
        &&& self.pos().line < self.gm().rows.len()
        &&& self.pos().col <= self.gm().cols
    }

    /// Step toward the top-left (oldest) cell; the step wraps from the
    /// last column of one row to column 0 of the row above, and ends at
    /// the buffer's oldest cell.
    open spec fn prev_post(&self, from: Self, item: Option<&'a T>) -> bool {
        let cur = from.pos();
        let cols = from.gm().cols;
        let total = from.gm().rows.len();
        &&& self.wf()
        &&& self.gm() == from.gm()
        &&& if cur.col == 0 && cur.line == total - 1 {
            item is None && self.pos() == cur
        } else if cur.col == 0 {
            &&& self.pos() == (BufferPoint {
                line: (cur.line + 1) as usize,
                col: (cols - 1) as usize,
            })
            &&& (item matches Some(c) && *c == from.gm().rows[cur.line + 1][cols - 1])
        } else {
            &&& self.pos() == (BufferPoint { line: cur.line, col: (cur.col - 1) as usize })
            &&& (item matches Some(c) && *c == from.gm().rows[cur.line as int][cur.col - 1])
        }
    }

    fn prev(&mut self) -> (r: Option<&'a T>) {
        proof {
            self.grid.lemma_wf();
        }
        let last_col = self.grid.cols() - 1;
        if self.cur.col == 0 {
            if self.cur.line == self.grid.total_lines() - 1 {
                return None;
            }
            self.cur.line = self.cur.line + 1;
            self.cur.col = last_col;
        } else {
            self.cur.col = self.cur.col - 1;
        }
        Some(self.grid.buffer_cell(self.cur))
    }
}

/// Iterates over exactly the visible area, top-to-bottom and
/// left-to-right, honoring the display offset.
pub struct DisplayIter<'a, T> {
    grid: &'a Grid<T>,
    offset: usize,
    limit: usize,
    col: usize,
    line: usize,
}

impl<'a, T: GridCell> DisplayIter<'a, T> {
    /// The model of the underlying grid.
    pub closed spec fn gm(&self) -> GridSpec<T> {
        self.grid.model()
    }

    /// The absolute row the iterator currently reads.
    pub closed spec fn offset_spec(&self) -> int {
        self.offset as int
    }

    /// The absolute row of the bottom visible line, where iteration ends.
    pub closed spec fn limit_spec(&self) -> int {
        self.limit as int
    }

    /// The viewport column of the next item.
    pub closed spec fn col_spec(&self) -> int {
        self.col as int
    }

    /// The viewport line of the next item.
    pub closed spec fn line_spec(&self) -> int {
        self.line as int
    }

    pub closed spec fn wf(&self) -> bool {
        &&& self.grid.wf()
        &&& self.limit == self.gm().display_offset
        &&& self.limit <= self.offset < self.limit + self.gm().lines
        &&& self.line as int == self.gm().lines - 1 - (self.offset - self.limit)
        &&& self.col <= self.gm().cols
        &&& (self.col == self.gm().cols ==> self.offset == self.limit)
    }

    /// An iterator over the visible frame of `grid`, positioned at the
    /// top-left visible cell.
    pub fn new(grid: &'a Grid<T>) -> (it: DisplayIter<'a, T>)
        requires
            grid.wf(),
        ensures
            it.wf(),
            it.gm() == grid.model(),
            it.offset_spec() == grid.model().display_offset + grid.model().lines - 1,
            it.limit_spec() == grid.model().display_offset,
            it.col_spec() == 0,
            it.line_spec() == 0,
    {
        proof {
            grid.lemma_wf();
        }
        let offset = grid.display_offset() + grid.screen_lines() - 1;
        let limit = grid.display_offset();
        DisplayIter { grid, offset, limit, col: 0, line: 0 }
    }

    /// The absolute row the iterator currently reads.
    pub fn offset(&self) -> (o: usize)
        ensures
            o == self.offset_spec(),
    {
        self.offset
    }

    /// The viewport position of the next item.
    pub fn point(&self) -> (p: Point)
        ensures
            p.line == self.line_spec(),
            p.col == self.col_spec(),
    {
        Point { line: self.line, col: self.col }
    }

    /// Yield the next visible cell with its viewport position: exactly
    /// `screen_lines * cols` items in paint order, then `None`.
    pub fn next(&mut self) -> (r: Option<Indexed<&'a T>>)
        requires
            old(self).wf(),
        ensures
            final(self).wf(),
            final(self).gm() == old(self).gm(),
            final(self).limit_spec() == old(self).limit_spec(),
            ({
                let o = *old(self);
                if o.offset_spec() == o.limit_spec() && o.col_spec() == o.gm().cols {
                    r is None && *final(self) == o
                } else {
                    &&& (r matches Some(item) ==> {
                        &&& item.line == o.line_spec()
                        &&& item.column == o.col_spec()
                        &&& *item.inner == o.gm().rows[o.offset_spec()][o.col_spec()]
                    })
                    &&& r is Some
                    &&& if o.col_spec() + 1 == o.gm().cols && o.offset_spec() != o.limit_spec() {
                        &&& final(self).offset_spec() == o.offset_spec() - 1
                        &&& final(self).col_spec() == 0
                        &&& final(self).line_spec() == o.line_spec() + 1
                    } else {
                        &&& final(self).offset_spec() == o.offset_spec()
                        &&& final(self).col_spec() == o.col_spec() + 1
                        &&& final(self).line_spec() == o.line_spec()
                    }
                }
            }),
    {
        proof {
            self.grid.lemma_wf();
        }
        let cols_now = self.grid.cols();
        // Return None if the whole frame has been produced.
        if self.offset == self.limit && self.col == cols_now {
            return None;
        }
        proof {
            assert(self.col < self.gm().cols);
        }
        let item = Indexed {
            inner: self.grid.buffer_cell(BufferPoint { line: self.offset, col: self.col }),
            line: self.line,
            column: self.col,
        };
        // Update the position to point at the next item.
        self.col = self.col + 1;
        if self.col == cols_now && self.offset != self.limit {
            self.offset = self.offset - 1;
            self.col = 0;
            self.line = self.line + 1;
        }
        Some(item)
    }
}

impl<T: GridCell> Grid<T> {
    /// An iterator over the whole buffer starting at `point`.
    pub fn iter_from(&self, point: BufferPoint) -> (it: GridIterator<'_, T>)
        requires
            self.wf(),
        ensures
            it.gm() == self.model(),
            it.pos() == point,
            it.wf(),
    {
        GridIterator { grid: self, cur: point }
    }

    /// An iterator over exactly one visible frame in paint order.
    pub fn display_iter(&self) -> (it: DisplayIter<'_, T>)
        requires
            self.wf(),
        ensures
            it.wf(),
            it.gm() == self.model(),
            it.offset_spec() == self.model().display_offset + self.model().lines - 1,
            it.limit_spec() == self.model().display_offset,
            it.col_spec() == 0,
            it.line_spec() == 0,
    {
        DisplayIter::new(self)
    }
}

} // verus!
