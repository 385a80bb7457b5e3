//! Bound-checked subsets of the viewport lines.

use crate::cell::GridCell;
use crate::grid::{Dimensions, Grid};
use crate::model::GridSpec;
use crate::row::Row;
use vstd::prelude::*;

verus! {

/// A subset of the viewport lines of a grid, for reading.
pub struct Region<'a, T> {
    grid: &'a Grid<T>,
    start: usize,
    end: usize,
}

/// A subset of the viewport lines of a grid, for bulk mutation. The
/// bounds are checked when the handle is made, and the handle is spent by
/// the one bulk operation it supports.
pub struct RegionMut {
    start: usize,
    end: usize,
}

impl<'a, T: GridCell> Region<'a, T> {
    /// The model of the underlying grid.
    pub closed spec fn gm(&self) -> GridSpec<T> {
        self.grid.model()
    }

    pub closed spec fn start_spec(&self) -> int {
        self.start as int
    }

    pub closed spec fn end_spec(&self) -> int {
        self.end as int
    }

    pub closed spec fn wf(&self) -> bool {
        &&& self.grid.wf()
        &&& self.start <= self.end <= self.gm().lines
    }

    /// Iterate the region's rows from its top line downward.
    pub fn iter(self) -> (it: RegionIter<'a, T>)
        requires
            self.wf(),
        ensures
            it.wf(),
            it.gm() == self.gm(),
            it.cur_spec() == self.start_spec(),
            it.end_spec() == self.end_spec(),
    {
        RegionIter { grid: self.grid, cur: self.start, end: self.end }
    }
}

/// Forward iteration over the rows of a region.
pub struct RegionIter<'a, T> {
    grid: &'a Grid<T>,
    cur: usize,
    end: usize,
}

impl<'a, T: GridCell> RegionIter<'a, T> {
    pub closed spec fn gm(&self) -> GridSpec<T> {
        self.grid.model()
    }

    pub closed spec fn cur_spec(&self) -> int {
        self.cur as int
    }

    pub closed spec fn end_spec(&self) -> int {
        self.end as int
    }

    pub closed spec fn wf(&self) -> bool {
        &&& self.grid.wf()
        &&& self.cur <= self.end <= self.gm().lines
    }

    /// The row at the current viewport line, stepping downward; `None`
    /// once the region's end is reached.
    pub fn next(&mut self) -> (r: Option<&'a Row<T>>)
        requires
            old(self).wf(),
        ensures
            final(self).wf(),
            final(self).gm() == old(self).gm(),
            final(self).end_spec() == old(self).end_spec(),
            old(self).cur_spec() == old(self).end_spec() ==> r is None && final(self).cur_spec()
                == old(self).cur_spec(),
            old(self).cur_spec() < old(self).end_spec() ==> final(self).cur_spec() == old(
                self,
            ).cur_spec() + 1 && (r matches Some(row) && row@ == old(self).gm().line(
                old(self).cur_spec(),
            )),
    {
        if self.cur < self.end {
            let index = self.cur;
            self.cur = self.cur + 1;
            Some(self.grid.line_row(index))
        } else {
            None
        }
    }
}

impl RegionMut {
    pub closed spec fn start_spec(&self) -> int {
        self.start as int
    }

    pub closed spec fn end_spec(&self) -> int {
        self.end as int
    }

    /// Apply `func` to every cell in this region, one cell at a time,
    /// top to bottom and left to right.
    pub fn each<T: GridCell, F: Fn(T) -> T>(self, grid: &mut Grid<T>, func: F)
        requires
            old(grid).wf(),
            self.start_spec() <= self.end_spec() <= old(grid).model().lines,
            forall|c: T| #[trigger] func.requires((c,)),
        ensures
            final(grid).wf(),
            final(grid).model().lines == old(grid).model().lines,
            final(grid).model().cols == old(grid).model().cols,
            final(grid).model().display_offset == old(grid).model().display_offset,
            final(grid).model().max_scroll_limit == old(grid).model().max_scroll_limit,
            final(grid).model().rows.len() == old(grid).model().rows.len(),
            final(grid).cursor_state() == old(grid).cursor_state(),
            final(grid).saved_cursor_state() == old(grid).saved_cursor_state(),
            forall|l: int|
                0 <= l < old(grid).model().lines && !(self.start_spec() <= l < self.end_spec())
                    ==> final(grid).model().line(l) == old(grid).model().line(l),
            forall|i: int|
                old(grid).model().lines <= i < old(grid).model().rows.len()
                    ==> final(grid).model().rows[i] == old(grid).model().rows[i],
            forall|l: int, c: int|
                self.start_spec() <= l < self.end_spec() && 0 <= c < old(grid).model().cols
                    ==> func.ensures(
                    (old(grid).model().line(l)[c],),
                    #[trigger] final(grid).model().line(l)[c],
                ),
    {
        proof {
            grid.lemma_wf();
        }
        let ghost m0 = grid.model();
        let cols = grid.cols();
        let mut l = self.start;
        while l < self.end
            invariant
                old(grid).wf(),
                m0 == old(grid).model(),
                m0.wf(),
                cols as int == m0.cols,
                self.start <= l <= self.end,
                self.end <= m0.lines,
                forall|c: T| #[trigger] func.requires((c,)),
                grid.wf(),
                grid.model().lines == m0.lines,
                grid.model().cols == m0.cols,
                grid.model().display_offset == m0.display_offset,
                grid.model().max_scroll_limit == m0.max_scroll_limit,
                grid.model().rows.len() == m0.rows.len(),
                grid.cursor_state() == old(grid).cursor_state(),
                grid.saved_cursor_state() == old(grid).saved_cursor_state(),
                forall|l2: int|
                    0 <= l2 < m0.lines && !(self.start <= l2 < l) ==> grid.model().line(l2)
                        == m0.line(l2),
                forall|i: int|
                    m0.lines <= i < m0.rows.len() ==> grid.model().rows[i] == m0.rows[i],
                forall|l2: int, c: int|
                    self.start <= l2 < l && 0 <= c < m0.cols ==> func.ensures(
                        (m0.line(l2)[c],),
                        #[trigger] grid.model().line(l2)[c],
                    ),
            decreases self.end - l,
        {
            let mut c: usize = 0;
            while c < cols
                invariant
                    old(grid).wf(),
                    m0 == old(grid).model(),
                    m0.wf(),
                    cols as int == m0.cols,
                    self.start <= l < self.end,
                    self.end <= m0.lines,
                    c <= cols,
                    forall|cc: T| #[trigger] func.requires((cc,)),
                    grid.wf(),
                    grid.model().lines == m0.lines,
                    grid.model().cols == m0.cols,
                    grid.model().display_offset == m0.display_offset,
                    grid.model().max_scroll_limit == m0.max_scroll_limit,
                    grid.model().rows.len() == m0.rows.len(),
                    grid.cursor_state() == old(grid).cursor_state(),
                    grid.saved_cursor_state() == old(grid).saved_cursor_state(),
                    forall|l2: int|
                        0 <= l2 < m0.lines && !(self.start <= l2 <= l) ==> grid.model().line(l2)
                            == m0.line(l2),
                    forall|i: int|
                        m0.lines <= i < m0.rows.len() ==> grid.model().rows[i] == m0.rows[i],
                    forall|l2: int, cc: int|
                        self.start <= l2 < l && 0 <= cc < m0.cols ==> func.ensures(
                            (m0.line(l2)[cc],),
                            #[trigger] grid.model().line(l2)[cc],
                        ),
                    forall|cc: int|
                        0 <= cc < c ==> func.ensures(
                            (m0.line(l as int)[cc],),
                            #[trigger] grid.model().line(l as int)[cc],
                        ),
                    forall|cc: int|
                        c <= cc < m0.cols ==> grid.model().line(l as int)[cc] == m0.line(
                            l as int,
                        )[cc],
                decreases cols - c,
            {
                proof {
                    grid.lemma_wf();
                }
                let ghost gpre = grid.model();
                let ghost abs = gpre.lines - 1 - l;
                let prev = grid.replace_cell(l, c, T::default_cell());
                let ghost gmid = grid.model();
                let next = func(prev);
                grid.set_cell(l, c, next);
                proof {
                    assert(gmid.rows =~= gpre.rows.update(
                        abs,
                        gpre.rows[abs].update(c as int, T::default_spec()),
                    ));
                    assert(grid.model().rows =~= gmid.rows.update(
                        abs,
                        gmid.rows[abs].update(c as int, next),
                    ));
                    assert forall|l2: int|
                        0 <= l2 < m0.lines && !(self.start <= l2 <= l) implies grid.model().line(
                        l2,
                    ) == m0.line(l2) by {
                        assert(gpre.lines - 1 - l2 != abs);
                        assert(0 <= gpre.lines - 1 - l2 < gpre.rows.len());
                        assert(gmid.rows[gpre.lines - 1 - l2] == gpre.rows[gpre.lines - 1 - l2]);
                        assert(grid.model().rows[gpre.lines - 1 - l2] == gmid.rows[gpre.lines - 1
                            - l2]);
                    }
                    assert forall|l2: int, cc: int|
                        self.start <= l2 < l && 0 <= cc < m0.cols implies func.ensures(
                        (m0.line(l2)[cc],),
                        #[trigger] grid.model().line(l2)[cc],
                    ) by {
                        assert(gpre.lines - 1 - l2 != abs);
                        assert(0 <= gpre.lines - 1 - l2 < gpre.rows.len());
                        assert(gmid.rows[gpre.lines - 1 - l2] == gpre.rows[gpre.lines - 1 - l2]);
                        assert(grid.model().rows[gpre.lines - 1 - l2] == gmid.rows[gpre.lines - 1
                            - l2]);
                        assert(grid.model().line(l2) == gpre.line(l2));
                        assert(func.ensures((m0.line(l2)[cc],), gpre.line(l2)[cc]));
                    }
                    assert forall|i: int|
                        m0.lines <= i < m0.rows.len() implies grid.model().rows[i]
                        == m0.rows[i] by {
                        assert(i != abs);
                    }
                    assert(grid.model().line(l as int) =~= gpre.line(l as int).update(
                        c as int,
                        next,
                    ));
                }
                c += 1;
            }
            l += 1;
        }
    }
}

impl<T: GridCell> Grid<T> {
    /// A read-only view of the viewport lines `[start, end)`.
    pub fn region(&self, start: usize, end: usize) -> (r: Region<'_, T>)
        requires
            self.wf(),
            start <= end,
            end <= self.model().lines,
        ensures
            r.wf(),
            r.gm() == self.model(),
            r.start_spec() == start,
            r.end_spec() == end,
    {
        Region { grid: self, start, end }
    }

    /// A handle for bulk mutation of the viewport lines `[start, end)`.
    pub fn region_mut(&mut self, start: usize, end: usize) -> (r: RegionMut)
        requires
            old(self).wf(),
            start <= end,
            end <= old(self).model().lines,
        ensures
            *final(self) == *old(self),
            r.start_spec() == start,
            r.end_spec() == end,
    {
        RegionMut { start, end }
    }
}

} // verus!
