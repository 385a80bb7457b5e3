//! Grid-based terminal content storage.
//!
//! A [`Grid`] owns one circular [`Storage`], a primary and a saved cursor,
//! the fixed viewport shape, the scroll limit and the display offset. Every
//! mutating operation's contract pins the result down as a function of the
//! grid's [`GridSpec`] model.

use crate::cell::{Cursor, GridCell};
use crate::index::{BufferPoint, Point};
use crate::model::GridSpec;
use crate::row::Row;
use crate::storage::Storage;
use core::ops::Range;
use vstd::arithmetic::div_mod::{lemma_mod_add_multiples_vanish, lemma_small_mod};
use vstd::std_specs::cmp::PartialEqSpec;
use vstd::prelude::*;

verus! {

/// Grid-based terminal content storage: the visible screen plus bounded
/// scrollback history over one circular row buffer.
#[derive(Debug, Clone)]
pub struct Grid<T> {
    /// Current cursor for writing data.
    pub cursor: Cursor<T>,

    /// Last saved cursor.
    pub saved_cursor: Cursor<T>,

    /// Rows of the grid, visible screen and history together.
    raw: Storage<T>,

    /// Number of columns.
    cols: usize,

    /// Number of visible lines.
    lines: usize,

    /// Offset of the displayed area: how many rows back from the bottom
    /// the viewport is scrolled.
    display_offset: usize,

    /// Maximum number of lines in history.
    max_scroll_limit: usize,
}

/// How to move the displayed area.
#[derive(Debug, Copy, Clone)]
pub enum Scroll {
    Delta(isize),
    PageUp,
    PageDown,
    Top,
    Bottom,
}

impl<T: GridCell> Grid<T> {
    /// The mathematical model of this grid.
    pub closed spec fn model(&self) -> GridSpec<T> {
        GridSpec {
            rows: self.raw@,
            lines: self.lines as int,
            cols: self.cols as int,
            display_offset: self.display_offset as int,
            max_scroll_limit: self.max_scroll_limit as int,
            template: self.cursor.template,
        }
    }

    /// The primary cursor, as contracts see it.
    pub closed spec fn cursor_state(&self) -> Cursor<T> {
        self.cursor
    }

    /// The saved cursor, as contracts see it.
    pub closed spec fn saved_cursor_state(&self) -> Cursor<T> {
        self.saved_cursor
    }

    /// Well-formedness: the model invariant plus the ring's own sanity.
    pub closed spec fn wf(&self) -> bool {
        &&& self.model().wf()
        &&& self.raw.ring_wf()
    }

    /// The model's template cell is the primary cursor's template.
    pub proof fn lemma_template(&self)
        ensures
            self.model().template == self.cursor_state().template,
    {
    }

    /// Well-formedness gives the model invariant.
    pub proof fn lemma_wf(&self)
        requires
            self.wf(),
        ensures
            self.model().wf(),
    {
    }

    /// A grid of `lines` x `cols` default cells with no history realized,
    /// the display pinned to the bottom, and both cursors default.
    pub fn new(lines: usize, cols: usize, max_scroll_limit: usize) -> (g: Grid<T>)
        requires
            1 <= lines,
            1 <= cols,
            lines + max_scroll_limit <= usize::MAX,
        ensures
            g.wf(),
            g.model().lines == lines,
            g.model().cols == cols,
            g.model().max_scroll_limit == max_scroll_limit,
            g.model().display_offset == 0,
            g.model().template == T::default_spec(),
            g.model().rows =~= Seq::new(
                lines as nat,
                |i: int| crate::row::default_row::<T>(cols as int),
            ),
            g.cursor_state() == Cursor::<T>::default_spec(),
            g.saved_cursor_state() == Cursor::<T>::default_spec(),
    {
        Grid {
            raw: Storage::with_capacity(lines, cols),
            max_scroll_limit,
            display_offset: 0,
            saved_cursor: Cursor::default(),
            cursor: Cursor::default(),
            lines,
            cols,
        }
    }

    /// Overwrite the single absolute row `i` with a row reset from the
    /// cursor template.
    fn reset_abs_row(&mut self, i: usize)
        requires
            old(self).raw.ring_wf(),
            i < old(self).model().rows.len(),
        ensures
            final(self).raw.ring_wf(),
            final(self).model().rows =~= old(self).model().rows.update(
                i as int,
                old(self).model().blank_row(),
            ),
            final(self).model() == (GridSpec { rows: final(self).model().rows, ..old(self).model() }),
            final(self).cursor_state() == old(self).cursor_state(),
            final(self).saved_cursor_state() == old(self).saved_cursor_state(),
            final(self).raw.full() == old(self).raw.full(),
            final(self).raw.phys() == old(self).raw.phys(),
    {
        let blank = Row::filled(self.cols, &self.cursor.template);
        let r = self.raw.row_mut(i);
        *r = blank;
    }

    /// Update the size of the scrollback history: shrink at once if the new
    /// cap is below the current history, reclamp the display offset, and
    /// set the new cap. Growth is realized lazily by later scrolling.
    pub fn update_history(&mut self, history_size: usize)
        requires
            old(self).wf(),
            old(self).model().lines + history_size <= usize::MAX,
        ensures
            final(self).wf(),
            final(self).model().max_scroll_limit == history_size,
            final(self).model().rows =~= old(self).model().rows.take(
                old(self).model().lines + vstd::math::min(
                    old(self).model().history_size(),
                    history_size as int,
                ),
            ),
            final(self).model().display_offset == vstd::math::min(
                old(self).model().display_offset,
                history_size as int,
            ),
            final(self).model().lines == old(self).model().lines,
            final(self).model().cols == old(self).model().cols,
            final(self).cursor_state() == old(self).cursor_state(),
            final(self).saved_cursor_state() == old(self).saved_cursor_state(),
    {
        let current = self.raw.len() - self.lines;
        if current > history_size {
            self.raw.shrink_lines(current - history_size);
        }
        if self.display_offset > history_size {
            self.display_offset = history_size;
        }
        self.max_scroll_limit = history_size;
    }

    /// Move the displayed area as `scroll` asks, clamping to the available
    /// history: `Delta` adds (saturating at both ends), the page variants
    /// add or subtract a screen height, `Top` shows the oldest row and
    /// `Bottom` pins the display back to the live screen.
    pub fn scroll_display(&mut self, scroll: Scroll)
        requires
            old(self).wf(),
        ensures
            final(self).wf(),
            final(self).model() == (GridSpec {
                display_offset: old(self).model().scroll_display_spec(scroll),
                ..old(self).model()
            }),
            final(self).cursor_state() == old(self).cursor_state(),
            final(self).saved_cursor_state() == old(self).saved_cursor_state(),
    {
        let history = self.raw.len() - self.lines;
        let new_offset: usize = match scroll {
            Scroll::Delta(count) => {
                if count >= 0 {
                    let step = count as usize;
                    if step >= history - self.display_offset {
                        history
                    } else {
                        self.display_offset + step
                    }
                } else {
                    let step: usize = if count == isize::MIN {
                        (isize::MAX as usize) + 1
                    } else {
                        (-count) as usize
                    };
                    if step >= self.display_offset {
                        0
                    } else {
                        self.display_offset - step
                    }
                }
            },
            Scroll::PageUp => {
                if self.lines >= history - self.display_offset {
                    history
                } else {
                    self.display_offset + self.lines
                }
            },
            Scroll::PageDown => {
                if self.lines >= self.display_offset {
                    0
                } else {
                    self.display_offset - self.lines
                }
            },
            Scroll::Top => history,
            Scroll::Bottom => 0,
        };
        self.display_offset = new_offset;
    }

    /// Realize up to `count` new history rows, never exceeding the cap.
    pub fn increase_scroll_limit(&mut self, count: usize)
        requires
            old(self).wf(),
        ensures
            final(self).wf(),
            final(self).model().rows =~= old(self).model().rows + Seq::new(
                vstd::math::min(
                    count as int,
                    old(self).model().max_scroll_limit - old(self).model().history_size(),
                ) as nat,
                |i: int| crate::row::default_row::<T>(old(self).model().cols),
            ),
            final(self).model().display_offset == old(self).model().display_offset,
            final(self).model().lines == old(self).model().lines,
            final(self).model().cols == old(self).model().cols,
            final(self).model().max_scroll_limit == old(self).model().max_scroll_limit,
            final(self).cursor_state() == old(self).cursor_state(),
            final(self).saved_cursor_state() == old(self).saved_cursor_state(),
    {
        let history = self.raw.len() - self.lines;
        let room = self.max_scroll_limit - history;
        let count = if count < room {
            count
        } else {
            room
        };
        if count != 0 {
            self.raw.initialize(count, self.cols);
        }
    }

    /// Drop up to `count` of the oldest history rows and reclamp the
    /// display offset.
    pub fn decrease_scroll_limit(&mut self, count: usize)
        requires
            old(self).wf(),
        ensures
            final(self).wf(),
            final(self).model().rows =~= old(self).model().rows.take(
                old(self).model().rows.len() - vstd::math::min(
                    count as int,
                    old(self).model().history_size(),
                ),
            ),
            final(self).model().display_offset == vstd::math::min(
                old(self).model().display_offset,
                old(self).model().history_size() - vstd::math::min(
                    count as int,
                    old(self).model().history_size(),
                ),
            ),
            final(self).model().lines == old(self).model().lines,
            final(self).model().cols == old(self).model().cols,
            final(self).model().max_scroll_limit == old(self).model().max_scroll_limit,
            final(self).cursor_state() == old(self).cursor_state(),
            final(self).saved_cursor_state() == old(self).saved_cursor_state(),
    {
        let history = self.raw.len() - self.lines;
        let count = if count < history {
            count
        } else {
            history
        };
        if count != 0 {
            self.raw.shrink_lines(count);
            let new_history = self.raw.len() - self.lines;
            if self.display_offset > new_history {
                self.display_offset = new_history;
            }
        }
    }
}


impl<T: GridCell> Grid<T> {
    /// Equality of everything but the rows and the display offset.
    spec fn same_shape(&self, other: &Grid<T>) -> bool {
        &&& self.lines == other.lines
        &&& self.cols == other.cols
        &&& self.max_scroll_limit == other.max_scroll_limit
        &&& self.cursor == other.cursor
        &&& self.saved_cursor == other.saved_cursor
    }

    /// Move lines at the bottom of the region toward its top by
    /// `positions`; the rows leaving the region's top are preserved into
    /// history (up to the cap), newly exposed rows at the region's bottom
    /// are reset to the cursor template, and lines outside the region stay
    /// exactly where they were. This is the performance-sensitive part of
    /// scrolling: the whole buffer is rotated in O(1) and only the fixed
    /// lines outside the region are swapped back into place.
    #[verifier::rlimit(100)]
    #[verifier::spinoff_prover]
    pub fn scroll_up(&mut self, region: &Range<usize>, positions: usize)
        requires
            old(self).wf(),
            region.start <= region.end,
            region.end <= old(self).model().lines,
            region.start > 0 || positions <= region.end - region.start,
        ensures
            final(self).wf(),
            final(self).model() == old(self).model().scroll_up_spec(
                region.start as int,
                region.end as int,
                positions as int,
            ),
            final(self).cursor_state() == old(self).cursor_state(),
            final(self).saved_cursor_state() == old(self).saved_cursor_state(),
    {
        let rs = region.start;
        let re = region.end;
        let p = positions;
        let screen_lines = self.lines;
        let ghost m0 = self.model();
        let ghost ll = m0.lines;

        // When rotating the entire region with fixed lines at the top,
        // just reset everything.
        if p >= re - rs && rs != 0 {
            let mut i = rs;
            while i < re
                invariant
                    old(self).wf(),
                    rs <= i <= re <= old(self).lines,
                    ll == old(self).lines,
                    m0 == old(self).model(),
                    self.same_shape(old(self)),
                    screen_lines == self.lines,
                    self.display_offset == old(self).display_offset,
                    self.raw.ring_wf(),
                    self.raw@.len() == m0.rows.len(),
                    forall|j: int|
                        ll - i <= j < ll - rs ==> self.raw@[j] == m0.blank_row(),
                    forall|j: int|
                        0 <= j < m0.rows.len() && !(ll - i <= j < ll - rs) ==> self.raw@[j]
                            == m0.rows[j],
                decreases re - i,
            {
                let index = screen_lines - i - 1;
                self.reset_abs_row(index);
                i += 1;
            }
            proof {
                assert(self.model() =~~= m0.scroll_up_spec(rs as int, re as int, p as int));
            }
            return ;
        }
        let ghost d1: int = if m0.display_offset == 0 {
            0
        } else {
            vstd::math::min(m0.display_offset + p, m0.max_scroll_limit)
        };
        // Create scrollback for the new lines.
        self.increase_scroll_limit(p);
        // Update display offset when not pinned to the active area, so the
        // scroll-back position tracks the new history being created.
        if self.display_offset != 0 {
            let nd = self.display_offset + p;
            self.display_offset = if nd > self.max_scroll_limit {
                self.max_scroll_limit
            } else {
                nd
            };
        }
        let ghost grown = vstd::math::min(p as int, m0.max_scroll_limit - m0.history_size());
        let ghost mid = self.raw@;
        let ghost total1 = m0.rows.len() + grown;

        // Swap the lines fixed at the top into their target positions
        // after rotation, walking upward so the fixed lines are never
        // swapped with each other. The p displaced region rows collect just
        // below them, rotated within their block once per swap.
        let mut q = screen_lines - rs;
        proof {
            if p > 0 {
                assert forall|j: int|
                    ll - rs - p <= j < ll - rs implies self.raw@[j] == mid[ll - rs - p + (j + p
                    + rs - ll) % (p as int)] by {
                    lemma_small_mod((j - (ll - rs - p)) as nat, p as nat);
                }
            }
        }
        while q < screen_lines
            invariant
                old(self).wf(),
                m0 == old(self).model(),
                ll == m0.lines,
                rs <= re <= ll,
                rs > 0 ==> p < re - rs,
                rs == 0 ==> p <= re,
                self.same_shape(old(self)),
                self.raw.ring_wf(),
                ll - rs <= q <= ll,
                self.lines == ll,
                screen_lines == self.lines,
                self.display_offset as int == d1,
                self.raw@.len() == total1,
                total1 == mid.len(),
                total1 >= ll,
                forall|j: int| 0 <= j < ll - rs - p ==> self.raw@[j] == mid[j],
                forall|j: int| ll - rs - p <= j < q - p ==> self.raw@[j] == mid[j + p],
                forall|j: int|
                    q - p <= j < q ==> self.raw@[j] == mid[ll - rs - p + (j + p + rs - ll) % (
                    p as int)],
                forall|j: int| q <= j < total1 ==> self.raw@[j] == mid[j],
            decreases screen_lines - q,
        {
            let ghost sk = self.raw@;
            self.raw.swap(q, q - p);
            proof {
                if p > 0 {
                    assert forall|j: int|
                        (q + 1) - p <= j < q + 1 implies self.raw@[j] == mid[ll - rs - p + (j + p
                        + rs - ll) % (p as int)] by {
                        if j == q {
                            assert(self.raw@[j] == sk[q - p]);
                            assert(sk[q - p] == mid[ll - rs - p + ((q - p) + p + rs - ll) % (
                            p as int)]);
                            lemma_mod_add_multiples_vanish(q + rs - ll, p as int);
                        } else {
                            assert(self.raw@[j] == sk[j]);
                        }
                    }
                }
            }
            q += 1;
        }
        // Rotate the entire line buffer upward in one offset update.
        let ghost swapped = self.raw@;
        self.raw.rotate_up(p);
        let ghost rot = self.raw@;

        // Ensure all newly exposed lines are fully cleared.
        let mut k: usize = 0;
        while k < p
            invariant
                old(self).wf(),
                m0 == old(self).model(),
                self.same_shape(old(self)),
                self.raw.ring_wf(),
                screen_lines == self.lines,
                0 <= k <= p,
                p as int <= rot.len(),
                self.display_offset as int == d1,
                self.raw@.len() == rot.len(),
                forall|j: int| 0 <= j < k ==> self.raw@[j] == m0.blank_row(),
                forall|j: int| k <= j < rot.len() ==> self.raw@[j] == rot[j],
            decreases p - k,
        {
            self.reset_abs_row(k);
            k += 1;
        }
        // Swap the lines fixed at the bottom back into position.
        let fixed = screen_lines - re;
        let len_now = self.raw.len();
        let ghost pre = self.raw@;
        proof {
            assert(ll - re + p <= ll - rs);
            assert forall|j: int| p <= j < fixed + p implies pre[j] == mid[j - p] by {
                assert(pre[j] == rot[j]);
                assert(rot[j] == swapped[j - p]);
            }
        }
        let mut b: usize = 0;
        while b < fixed
            invariant
                old(self).wf(),
                m0 == old(self).model(),
                ll == m0.lines,
                self.same_shape(old(self)),
                self.raw.ring_wf(),
                0 <= b <= fixed,
                screen_lines == self.lines,
                self.lines == ll,
                fixed == ll - re,
                fixed + p <= pre.len(),
                pre.len() == len_now,
                self.display_offset as int == d1,
                self.raw@.len() == pre.len(),
                forall|j: int| 0 <= j < b ==> self.raw@[j] == pre[j + p],
                forall|j: int| b <= j < b + p ==> self.raw@[j] == m0.blank_row(),
                forall|j: int| b + p <= j < fixed + p ==> self.raw@[j] == pre[j],
                forall|j: int| fixed + p <= j < pre.len() ==> self.raw@[j] == pre[j],
                forall|j: int| 0 <= j < p ==> pre[j] == m0.blank_row(),
                forall|j: int| p <= j < fixed + p ==> pre[j] == mid[j - p],
            decreases fixed - b,
        {
            self.raw.swap(b, b + p);
            b += 1;
        }
        proof {
            let rsi = rs as int;
            let rei = re as int;
            let pi = p as int;
            let target = m0.scroll_up_spec(rsi, rei, pi);
            assert(self.raw@.len() == total1);
            assert(target.rows.len() == total1);
            assert forall|i: int| 0 <= i < total1 implies self.raw@[i] == target.rows[i] by {
                if i < ll - rei {
                    assert(self.raw@[i] == pre[i + pi]);
                    assert(pre[i + pi] == mid[i]);
                } else if i < ll - rei + pi {
                    if i < fixed + pi {
                        assert(self.raw@[i] == m0.blank_row());
                    }
                } else {
                    assert(self.raw@[i] == pre[i]);
                    assert(pre[i] == rot[i]);
                    assert(rot[i] == swapped[i - pi]);
                    if i < ll - rsi {
                        assert(swapped[i - pi] == mid[i - pi]);
                    } else if i < ll {
                        assert(swapped[i - pi] == mid[i]);
                    } else if i < ll + pi {
                        assert(swapped[i - pi] == mid[ll - rsi - pi + ((i - pi) + pi + rsi - ll)
                            % pi]);
                        assert(0 <= (i - ll + rsi) % pi < pi) by {
                            vstd::arithmetic::div_mod::lemma_mod_bound(i - ll + rsi, pi);
                        }
                    } else {
                        assert(swapped[i - pi] == mid[i - pi]);
                    }
                }
            }
            assert(self.model() =~~= target);
        }
    }
}


impl<T: GridCell> Grid<T> {
    /// Move lines at the top of the region toward its bottom by
    /// `positions`; rows rotated past the region's bottom are discarded
    /// (scrolling down never creates history), rows rotated in at the
    /// region's top are reset to the cursor template, and everything
    /// outside the region — fixed lines and all of history — is unchanged.
    /// With no history configured the whole ring is rotated in O(1) and
    /// the fixed lines swapped back; with history present the rotation is
    /// confined to the region by row swaps so historical content is never
    /// disturbed.
    #[verifier::rlimit(100)]
    #[verifier::spinoff_prover]
    pub fn scroll_down(&mut self, region: &Range<usize>, positions: usize)
        requires
            old(self).wf(),
            region.start <= region.end,
            region.end <= old(self).model().lines,
        ensures
            final(self).wf(),
            final(self).model() == old(self).model().scroll_down_spec(
                region.start as int,
                region.end as int,
                positions as int,
            ),
            final(self).cursor_state() == old(self).cursor_state(),
            final(self).saved_cursor_state() == old(self).saved_cursor_state(),
    {
        let rs = region.start;
        let re = region.end;
        let p = positions;
        let screen_lines = self.lines;
        let ghost m0 = self.model();
        let ghost ll = m0.lines;

        // When rotating the entire region, just reset everything.
        if p >= re - rs {
            let mut i = rs;
            while i < re
                invariant
                    old(self).wf(),
                    rs <= i <= re <= old(self).lines,
                    ll == old(self).lines,
                    m0 == old(self).model(),
                    self.same_shape(old(self)),
                    screen_lines == self.lines,
                    self.display_offset == old(self).display_offset,
                    self.raw.ring_wf(),
                    self.raw@.len() == m0.rows.len(),
                    forall|j: int|
                        ll - i <= j < ll - rs ==> self.raw@[j] == m0.blank_row(),
                    forall|j: int|
                        0 <= j < m0.rows.len() && !(ll - i <= j < ll - rs) ==> self.raw@[j]
                            == m0.rows[j],
                decreases re - i,
            {
                let index = screen_lines - i - 1;
                self.reset_abs_row(index);
                i += 1;
            }
            proof {
                assert(self.model() =~~= m0.scroll_down_spec(rs as int, re as int, p as int));
            }
            return ;
        }
        // Which strategy applies depends on the existence of a scrollback
        // history: a whole-ring rotation implicitly moves every row, which
        // is only safe when there is no history below the screen to keep.
        if self.max_scroll_limit == 0 {
            // Swap the lines fixed at the bottom to their target positions
            // after rotation, from the top down so they are never swapped
            // with each other.
            let fixed = screen_lines - re;
            let len_now = self.raw.len();
            let mut i = fixed;
            while i > 0
                invariant
                    old(self).wf(),
                    m0 == old(self).model(),
                    ll == m0.lines,
                    rs <= re <= ll,
                    p < re - rs,
                    fixed == ll - re,
                    0 <= i <= fixed,
                    self.same_shape(old(self)),
                    screen_lines == self.lines,
                    self.lines == ll,
                    self.display_offset == old(self).display_offset,
                    self.raw.ring_wf(),
                    self.raw@.len() == m0.rows.len(),
                    m0.rows.len() == len_now,
                    forall|j: int| 0 <= j < i ==> self.raw@[j] == m0.rows[j],
                    forall|j: int|
                        i + p <= j < fixed + p ==> self.raw@[j] == m0.rows[j - p],
                    forall|j: int|
                        fixed + p <= j < m0.rows.len() ==> self.raw@[j] == m0.rows[j],
                decreases i,
            {
                i -= 1;
                self.raw.swap(i, i + p);
            }
            // Rotate the entire line buffer downward in one offset update.
            let ghost swapped = self.raw@;
            self.raw.rotate_down(p);
            let ghost rot = self.raw@;
            // Ensure all newly exposed lines are fully cleared.
            let mut k: usize = 0;
            while k < p
                invariant
                    old(self).wf(),
                    m0 == old(self).model(),
                    ll == m0.lines,
                    p < re - rs,
                    re <= ll,
                    0 <= k <= p,
                    self.same_shape(old(self)),
                    screen_lines == self.lines,
                    self.lines == ll,
                    self.display_offset == old(self).display_offset,
                    self.raw.ring_wf(),
                    self.raw@.len() == rot.len(),
                    rot.len() == m0.rows.len(),
                    m0.rows.len() == ll,
                    forall|j: int|
                        ll - k <= j < ll ==> self.raw@[j] == m0.blank_row(),
                    forall|j: int| 0 <= j < ll - k ==> self.raw@[j] == rot[j],
                decreases p - k,
            {
                let index = screen_lines - k - 1;
                self.reset_abs_row(index);
                k += 1;
            }
            // Swap the fixed lines at the top back into position.
            let ghost pre = self.raw@;
            proof {
                assert forall|j: int| 0 <= j < ll - p implies pre[j] == swapped[j + p] by {
                    assert(pre[j] == rot[j]);
                }
            }
            let mut x = screen_lines;
            while x > screen_lines - rs
                invariant
                    old(self).wf(),
                    m0 == old(self).model(),
                    ll == m0.lines,
                    rs <= re <= ll,
                    p < re - rs,
                    ll - rs <= x <= ll,
                    self.same_shape(old(self)),
                    screen_lines == self.lines,
                    self.lines == ll,
                    self.display_offset == old(self).display_offset,
                    self.raw.ring_wf(),
                    self.raw@.len() == pre.len(),
                    pre.len() == ll,
                    forall|j: int| x <= j < ll ==> self.raw@[j] == pre[j - p],
                    forall|j: int| x - p <= j < x ==> self.raw@[j] == m0.blank_row(),
                    forall|j: int| 0 <= j < x - p ==> self.raw@[j] == pre[j],
                    forall|j: int| ll - p <= j < ll ==> pre[j] == m0.blank_row(),
                    forall|j: int|
                        0 <= j < ll - p ==> pre[j] == swapped[j + p],
                decreases x,
            {
                x -= 1;
                self.raw.swap(x, x - p);
            }
            proof {
                let target = m0.scroll_down_spec(rs as int, re as int, p as int);
                assert forall|j: int| 0 <= j < ll implies self.raw@[j] == target.rows[j] by {
                    if j < ll - rs - p {
                        assert(self.raw@[j] == pre[j]);
                        assert(pre[j] == swapped[j + p]);
                    } else if j < ll - rs {
                        assert(self.raw@[j] == m0.blank_row());
                    } else {
                        assert(self.raw@[j] == pre[j - p]);
                        assert(pre[j - p] == swapped[j]);
                    }
                }
                assert(self.model() =~~= target);
            }
        } else {
            // Subregion rotation: swap rows downward inside the region
            // only, walking the target lines from the region's bottom end
            // upward so no row is overwritten before it is read.
            let len_now = self.raw.len();
            let start_a = screen_lines - re;
            let end_a = screen_lines - rs - p;
            let mut a = start_a;
            while a < end_a
                invariant
                    old(self).wf(),
                    m0 == old(self).model(),
                    ll == m0.lines,
                    rs <= re <= ll,
                    p < re - rs,
                    start_a == ll - re,
                    end_a == ll - rs - p,
                    start_a <= a <= end_a,
                    self.same_shape(old(self)),
                    screen_lines == self.lines,
                    self.lines == ll,
                    self.display_offset == old(self).display_offset,
                    self.raw.ring_wf(),
                    self.raw@.len() == m0.rows.len(),
                    m0.rows.len() == len_now,
                    forall|j: int| 0 <= j < start_a ==> self.raw@[j] == m0.rows[j],
                    forall|j: int| start_a <= j < a ==> self.raw@[j] == m0.rows[j + p],
                    forall|j: int|
                        a + p <= j < m0.rows.len() ==> self.raw@[j] == m0.rows[j],
                decreases end_a - a,
            {
                self.raw.swap(a, a + p);
                a += 1;
            }
            // Reset the rows rotated in at the region's top.
            let mut k: usize = 0;
            while k < p
                invariant
                    old(self).wf(),
                    m0 == old(self).model(),
                    ll == m0.lines,
                    rs <= re <= ll,
                    p < re - rs,
                    0 <= k <= p,
                    self.same_shape(old(self)),
                    screen_lines == self.lines,
                    self.lines == ll,
                    self.display_offset == old(self).display_offset,
                    self.raw.ring_wf(),
                    self.raw@.len() == m0.rows.len(),
                    forall|j: int| 0 <= j < ll - re ==> self.raw@[j] == m0.rows[j],
                    forall|j: int|
                        ll - re <= j < ll - rs - p ==> self.raw@[j] == m0.rows[j + p],
                    forall|j: int|
                        ll - rs - k <= j < ll - rs ==> self.raw@[j] == m0.blank_row(),
                    forall|j: int|
                        ll - rs <= j < m0.rows.len() ==> self.raw@[j] == m0.rows[j],
                decreases p - k,
            {
                let index = screen_lines - rs - 1 - k;
                self.reset_abs_row(index);
                k += 1;
            }
            proof {
                assert(self.model() =~~= m0.scroll_down_spec(rs as int, re as int, p as int));
            }
        }
    }
}


impl<T: GridCell> Grid<T> {
    /// Scroll the viewport so the cursor's content sits at the bottom and
    /// the screen is otherwise blank: the block from the bottom-most
    /// non-empty row up to the screen top is pushed into history (up to
    /// the cap), the display snaps to the bottom, and every remaining
    /// viewport row is reset.
    pub fn clear_viewport(&mut self)
        requires
            old(self).wf(),
        ensures
            final(self).wf(),
            final(self).model() == old(self).model().clear_viewport_spec(),
            final(self).cursor_state() == old(self).cursor_state(),
            final(self).saved_cursor_state() == old(self).saved_cursor_state(),
    {
        let ghost m0 = self.model();
        let n = self.lines;
        // Determine how many lines to scroll up by: walk upward from the
        // bottom row until a row with content is found.
        let mut b: usize = 0;
        while b < n
            invariant
                n == self.lines,
                self.wf(),
                m0 == self.model(),
                b <= n,
                forall|j: int| 0 <= j < b ==> m0.row_empty(j),
            ensures
                b <= n,
                forall|j: int| 0 <= j < b ==> m0.row_empty(j),
                b == n || !m0.row_empty(b as int),
            decreases n - b,
        {
            let r = self.raw.row(b);
            if !r.is_blank() {
                break ;
            }
            b += 1;
        }
        proof {
            m0.lemma_blank_from(0, b as int);
        }
        let positions: usize = if b < n {
            n - b
        } else if self.raw.len() > n {
            0
        } else {
            1
        };
        // Reset display offset.
        self.display_offset = 0;
        // Clear the viewport.
        self.scroll_up(&(0..n), positions);
        let ghost mid = self.model();
        // Reset rotated lines.
        let mut i = positions;
        while i < n
            invariant
                old(self).wf(),
                m0 == old(self).model(),
                mid == (GridSpec { display_offset: 0, ..m0 }).scroll_up_spec(
                    0,
                    m0.lines,
                    positions as int,
                ),
                positions <= i <= n,
                n == self.lines,
                n as int == m0.lines,
                positions as int == m0.clear_positions(),
                n <= mid.rows.len(),
                self.same_shape(old(self)),
                self.display_offset == 0,
                self.raw.ring_wf(),
                self.raw@.len() == mid.rows.len(),
                forall|j: int| positions <= j < i ==> self.raw@[j] == m0.blank_row(),
                forall|j: int|
                    0 <= j < mid.rows.len() && !(positions <= j < i) ==> self.raw@[j]
                        == mid.rows[j],
            decreases n - i,
        {
            self.reset_abs_row(i);
            i += 1;
        }
        proof {
            assert(self.model() =~~= m0.clear_viewport_spec());
        }
    }

    /// Completely reset the grid state: all history dropped, both cursors
    /// default, the display pinned to the bottom, and every row reset in
    /// place to the default template.
    pub fn reset(&mut self)
        requires
            old(self).wf(),
        ensures
            final(self).wf(),
            final(self).model().rows =~= Seq::new(
                old(self).model().lines as nat,
                |i: int| crate::row::reset_row::<T>(old(self).model().cols, T::default_spec()),
            ),
            final(self).model().lines == old(self).model().lines,
            final(self).model().cols == old(self).model().cols,
            final(self).model().max_scroll_limit == old(self).model().max_scroll_limit,
            final(self).model().display_offset == 0,
            final(self).model().history_size() == 0,
            final(self).cursor_state() == Cursor::<T>::default_spec(),
            final(self).saved_cursor_state() == Cursor::<T>::default_spec(),
    {
        self.clear_history();
        self.saved_cursor = Cursor::default();
        self.cursor = Cursor::default();
        self.display_offset = 0;
        let ghost m1 = self.model();
        // Reset all visible lines.
        let n = self.raw.len();
        let mut i: usize = 0;
        while i < n
            invariant
                m1.wf(),
                m1 == (GridSpec { template: T::default_spec(), ..m1 }),
                i <= n,
                n == m1.rows.len(),
                n as int == m1.lines,
                self.model().lines == m1.lines,
                self.model().cols == m1.cols,
                self.model().display_offset == 0,
                self.model().max_scroll_limit == m1.max_scroll_limit,
                self.model().template == m1.template,
                self.cursor == Cursor::<T>::default_spec(),
                self.saved_cursor == Cursor::<T>::default_spec(),
                self.raw.ring_wf(),
                self.raw@.len() == n,
                forall|j: int| 0 <= j < i ==> self.raw@[j] == m1.blank_row(),
                forall|j: int| i <= j < n ==> self.raw@[j] == m1.rows[j],
            decreases n - i,
        {
            self.reset_abs_row(i);
            i += 1;
        }
    }

    /// Drop every line of the scrollback history. The display snaps to
    /// the bottom, since no history remains to scroll into.
    pub fn clear_history(&mut self)
        requires
            old(self).wf(),
        ensures
            final(self).wf(),
            final(self).model().rows =~= old(self).model().rows.take(old(self).model().lines),
            final(self).model().display_offset == 0,
            final(self).model().history_size() == 0,
            final(self).model().lines == old(self).model().lines,
            final(self).model().cols == old(self).model().cols,
            final(self).model().max_scroll_limit == old(self).model().max_scroll_limit,
            final(self).cursor_state() == old(self).cursor_state(),
            final(self).saved_cursor_state() == old(self).saved_cursor_state(),
    {
        let history = self.raw.len() - self.lines;
        self.raw.shrink_lines(history);
        self.display_offset = 0;
    }

    /// Whether the storage holds exactly the logically addressable rows,
    /// with no spare physical slot beyond them.
    pub closed spec fn storage_exact(&self) -> bool {
        self.raw.full()
    }

    /// Repack the storage so it holds exactly the logically addressable
    /// rows. Used only around snapshot save, never on the hot path.
    pub fn truncate(&mut self)
        requires
            old(self).wf(),
        ensures
            final(self).wf(),
            final(self).storage_exact(),
            final(self).model() == old(self).model(),
            final(self).cursor_state() == old(self).cursor_state(),
            final(self).saved_cursor_state() == old(self).saved_cursor_state(),
    {
        self.raw.truncate();
        proof {
            assert(self.model() =~~= old(self).model());
        }
    }

    /// Realize the whole configured history as rows of default cells.
    /// Used only when initializing from a loaded snapshot.
    pub fn initialize_all(&mut self)
        requires
            old(self).wf(),
        ensures
            final(self).wf(),
            final(self).model().rows =~= old(self).model().rows + Seq::new(
                (old(self).model().max_scroll_limit - old(self).model().history_size()) as nat,
                |i: int| crate::row::default_row::<T>(old(self).model().cols),
            ),
            final(self).model().display_offset == old(self).model().display_offset,
            final(self).model().lines == old(self).model().lines,
            final(self).model().cols == old(self).model().cols,
            final(self).model().max_scroll_limit == old(self).model().max_scroll_limit,
            final(self).cursor_state() == old(self).cursor_state(),
            final(self).saved_cursor_state() == old(self).saved_cursor_state(),
    {
        // Remove all cached lines, then grow the buffer out to the cap
        // with fresh empty rows.
        self.truncate();
        let history = self.raw.len() - self.lines;
        let grow = self.max_scroll_limit - history;
        self.raw.initialize(grow, self.cols);
        proof {
            assert(final(self).model().rows =~= old(self).model().rows + Seq::new(
                (old(self).model().max_scroll_limit - old(self).model().history_size()) as nat,
                |i: int| crate::row::default_row::<T>(old(self).model().cols),
            ));
        }
    }

    /// How many rows back from the bottom the viewport is scrolled.
    pub fn display_offset(&self) -> (d: usize)
        ensures
            d == self.model().display_offset,
    {
        self.display_offset
    }

    /// Convert a viewport-relative point to absolute buffer indexing.
    pub fn visible_to_buffer(&self, point: Point) -> (r: BufferPoint)
        requires
            self.wf(),
            point.line < self.model().lines,
        ensures
            r.line == self.model().lines + self.model().display_offset - point.line - 1,
            r.col == point.col,
    {
        BufferPoint { line: self.lines + self.display_offset - point.line - 1, col: point.col }
    }

    /// Clamp a buffer point to the visible region: points below the
    /// window clamp to the bottom-right visible cell, points above it to
    /// the top-left, and points inside convert exactly.
    pub fn clamp_buffer_to_visible(&self, point: BufferPoint) -> (r: Point)
        requires
            self.wf(),
        ensures
            (r.line as int, r.col as int) == self.model().clamp_to_visible(
                point.line as int,
                point.col as int,
            ),
    {
        if point.line < self.display_offset {
            Point { line: self.lines - 1, col: self.cols - 1 }
        } else if point.line >= self.display_offset + self.lines {
            Point { line: 0, col: 0 }
        } else {
            Point { line: self.lines + self.display_offset - point.line - 1, col: point.col }
        }
    }

    /// Clamp an inclusive buffer-point range to the viewport: `None` when
    /// the whole range lies outside the visible window, otherwise both
    /// endpoints clamped independently. The offscreen test compares
    /// against the oldest visible absolute row (`display_offset + lines
    /// - 1`, the window's top) and the newest (`display_offset`, its
    /// bottom).
    pub fn clamp_buffer_range_to_visible(&self, start: BufferPoint, end: BufferPoint) -> (r:
        Option<(Point, Point)>)
        requires
            self.wf(),
        ensures
            r is Some <==> !(end.line > self.model().display_offset + self.model().lines - 1
                || (start.line as int) < self.model().display_offset),
            (r matches Some(pr) ==> {
                &&& (pr.0.line as int, pr.0.col as int) == self.model().clamp_to_visible(
                    start.line as int,
                    start.col as int,
                )
                &&& (pr.1.line as int, pr.1.col as int) == self.model().clamp_to_visible(
                    end.line as int,
                    end.col as int,
                )
            }),
    {
        // Check if the range is completely offscreen.
        let viewport_end = self.display_offset;
        let viewport_start = viewport_end + self.lines - 1;
        if end.line > viewport_start || start.line < viewport_end {
            return None;
        }
        let cs = self.clamp_buffer_to_visible(start);
        let ce = self.clamp_buffer_to_visible(end);
        Some((cs, ce))
    }

    /// Mutable access to the cell under the cursor.
    pub fn cursor_cell(&mut self) -> (cell: &mut T)
        requires
            old(self).wf(),
            old(self).cursor_state().point.line < old(self).model().lines,
            old(self).cursor_state().point.col < old(self).model().cols,
        ensures
            *cell == old(self).model().line(old(self).cursor_state().point.line as int)[old(
                self,
            ).cursor_state().point.col as int],
            final(self).wf(),
            final(self).model().rows =~= old(self).model().rows.update(
                old(self).model().lines - 1 - old(self).cursor_state().point.line,
                old(self).model().rows[old(self).model().lines - 1 - old(
                    self,
                ).cursor_state().point.line].update(
                    old(self).cursor_state().point.col as int,
                    *final(cell),
                ),
            ),
            final(self).model().lines == old(self).model().lines,
            final(self).model().cols == old(self).model().cols,
            final(self).model().display_offset == old(self).model().display_offset,
            final(self).model().max_scroll_limit == old(self).model().max_scroll_limit,
            final(self).cursor_state() == old(self).cursor_state(),
            final(self).saved_cursor_state() == old(self).saved_cursor_state(),
    {
        let line = self.cursor.point.line;
        let col = self.cursor.point.col;
        let abs = self.lines - 1 - line;
        let r = self.raw.row_mut(abs);
        r.cell_mut(col)
    }

    /// The cell at one viewport-relative position of the active area.
    pub fn cell_at(&self, line: usize, col: usize) -> (c: &T)
        requires
            self.wf(),
            line < self.model().lines,
            col < self.model().cols,
        ensures
            *c == self.model().line(line as int)[col as int],
    {
        self.raw.row(self.lines - 1 - line).get(col)
    }

    /// Overwrite the cell at one viewport-relative position of the active
    /// area.
    pub fn set_cell(&mut self, line: usize, col: usize, cell: T)
        requires
            old(self).wf(),
            line < old(self).model().lines,
            col < old(self).model().cols,
        ensures
            final(self).wf(),
            final(self).model().rows =~= old(self).model().rows.update(
                old(self).model().lines - 1 - line,
                old(self).model().rows[old(self).model().lines - 1 - line].update(
                    col as int,
                    cell,
                ),
            ),
            final(self).model().lines == old(self).model().lines,
            final(self).model().cols == old(self).model().cols,
            final(self).model().display_offset == old(self).model().display_offset,
            final(self).model().max_scroll_limit == old(self).model().max_scroll_limit,
            final(self).cursor_state() == old(self).cursor_state(),
            final(self).saved_cursor_state() == old(self).saved_cursor_state(),
    {
        let abs = self.lines - 1 - line;
        let r = self.raw.row_mut(abs);
        r.put(col, cell);
    }

    /// Swap in a new cell at one viewport-relative position of the
    /// active area, handing the previous cell back.
    pub fn replace_cell(&mut self, line: usize, col: usize, cell: T) -> (prev: T)
        requires
            old(self).wf(),
            line < old(self).model().lines,
            col < old(self).model().cols,
        ensures
            prev == old(self).model().line(line as int)[col as int],
            final(self).wf(),
            final(self).model().rows =~= old(self).model().rows.update(
                old(self).model().lines - 1 - line,
                old(self).model().rows[old(self).model().lines - 1 - line].update(
                    col as int,
                    cell,
                ),
            ),
            final(self).model().lines == old(self).model().lines,
            final(self).model().cols == old(self).model().cols,
            final(self).model().display_offset == old(self).model().display_offset,
            final(self).model().max_scroll_limit == old(self).model().max_scroll_limit,
            final(self).cursor_state() == old(self).cursor_state(),
            final(self).saved_cursor_state() == old(self).saved_cursor_state(),
    {
        let mut cell = cell;
        let abs = self.lines - 1 - line;
        let r = self.raw.row_mut(abs);
        let cr = r.cell_mut(col);
        core::mem::swap(cr, &mut cell);
        cell
    }

    /// The row at one viewport line of the active area.
    pub fn line_row(&self, line: usize) -> (r: &Row<T>)
        requires
            self.wf(),
            line < self.model().lines,
        ensures
            r@ == self.model().line(line as int),
    {
        self.raw.row(self.lines - 1 - line)
    }

    /// The row at one absolute buffer offset.
    pub fn buffer_row(&self, i: usize) -> (r: &Row<T>)
        requires
            self.wf(),
            i < self.model().rows.len(),
        ensures
            r@ == self.model().rows[i as int],
    {
        self.raw.row(i)
    }

    /// The configured maximum number of history lines.
    pub fn max_scroll_limit(&self) -> (n: usize)
        ensures
            n == self.model().max_scroll_limit,
    {
        self.max_scroll_limit
    }

    /// Overwrite the cell at one absolute buffer position.
    pub fn set_buffer_cell(&mut self, point: BufferPoint, cell: T)
        requires
            old(self).wf(),
            point.line < old(self).model().rows.len(),
            point.col < old(self).model().cols,
        ensures
            final(self).wf(),
            final(self).model().rows =~= old(self).model().rows.update(
                point.line as int,
                old(self).model().rows[point.line as int].update(point.col as int, cell),
            ),
            final(self).model().lines == old(self).model().lines,
            final(self).model().cols == old(self).model().cols,
            final(self).model().display_offset == old(self).model().display_offset,
            final(self).model().max_scroll_limit == old(self).model().max_scroll_limit,
            final(self).cursor_state() == old(self).cursor_state(),
            final(self).saved_cursor_state() == old(self).saved_cursor_state(),
    {
        let r = self.raw.row_mut(point.line);
        r.put(point.col, cell);
    }

    /// The cell at one absolute buffer position.
    pub fn buffer_cell(&self, point: BufferPoint) -> (c: &T)
        requires
            self.wf(),
            point.line < self.model().rows.len(),
            point.col < self.model().cols,
        ensures
            *c == self.model().rows[point.line as int][point.col as int],
    {
        self.raw.row(point.line).get(point.col)
    }
}

/// Grid dimensions, as seen by layout and rendering.
pub trait Dimensions {
    /// Total number of lines in the buffer, scrollback included.
    spec fn total_lines_spec(&self) -> int;

    /// Height of the viewport in lines.
    spec fn screen_lines_spec(&self) -> int;

    /// Width of the terminal in columns.
    spec fn cols_spec(&self) -> int;

    /// Total number of lines in the buffer, scrollback and visible lines.
    fn total_lines(&self) -> (n: usize)
        ensures
            n == self.total_lines_spec(),
    ;

    /// Height of the viewport in lines.
    fn screen_lines(&self) -> (n: usize)
        ensures
            n == self.screen_lines_spec(),
    ;

    /// Width of the terminal in columns.
    fn cols(&self) -> (n: usize)
        ensures
            n == self.cols_spec(),
    ;

    /// Number of invisible lines part of the scrollback history.
    fn history_size(&self) -> (n: usize)
        requires
            0 <= self.screen_lines_spec() <= self.total_lines_spec(),
        ensures
            n == self.total_lines_spec() - self.screen_lines_spec(),
    {
        self.total_lines() - self.screen_lines()
    }
}

impl<T: GridCell> Dimensions for Grid<T> {
    open spec fn total_lines_spec(&self) -> int {
        self.model().rows.len() as int
    }

    open spec fn screen_lines_spec(&self) -> int {
        self.model().lines
    }

    open spec fn cols_spec(&self) -> int {
        self.model().cols
    }

    fn total_lines(&self) -> (n: usize) {
        self.raw.len()
    }

    fn screen_lines(&self) -> (n: usize) {
        self.lines
    }

    fn cols(&self) -> (n: usize) {
        self.cols
    }
}


impl<T: GridCell + PartialEq> PartialEq for Grid<T> {
    /// Grids are equal when their logical content and addressing state
    /// match: the buffer rows (by the cell type's own equality,
    /// independent of either ring's rotation), the shape, and the display
    /// offset. Cursor state does not take part in equality.
    fn eq(&self, other: &Self) -> (r: bool) {
        self.raw.content_eq(&other.raw) && self.cols == other.cols && self.lines == other.lines
            && self.display_offset == other.display_offset
    }
}

impl<T: GridCell + PartialEq> vstd::std_specs::cmp::PartialEqSpecImpl for Grid<T> {
    open spec fn obeys_eq_spec() -> bool {
        <T as PartialEqSpec>::obeys_eq_spec()
    }

    closed spec fn eq_spec(&self, other: &Self) -> bool {
        &&& self.raw.content_eq_spec(&other.raw)
        &&& self.cols == other.cols
        &&& self.lines == other.lines
        &&& self.display_offset == other.display_offset
    }
}

impl<T: GridCell + PartialEq> Grid<T> {
    /// What `==` means on two well-formed grids: equal shape, equal
    /// display offset, and every buffer cell equal by the cell type's own
    /// equality. Cursors take no part.
    pub proof fn lemma_eq_spec_meaning(&self, other: &Grid<T>)
        requires
            self.wf(),
            other.wf(),
        ensures
            self.eq_spec(other) <==> {
                &&& self.model().rows.len() == other.model().rows.len()
                &&& forall|i: int|
                    0 <= i < self.model().rows.len() ==> (#[trigger] self.model().rows[i]).len()
                        == other.model().rows[i].len()
                &&& forall|i: int, j: int|
                    0 <= i < self.model().rows.len() && 0 <= j < self.model().rows[i].len() ==> (
                    #[trigger] self.model().rows[i][j]).eq_spec(&other.model().rows[i][j])
                &&& self.model().lines == other.model().lines
                &&& self.model().cols == other.model().cols
                &&& self.model().display_offset == other.model().display_offset
            },
    {
        self.raw.lemma_content_eq_spec(&other.raw);
    }
}

} // verus!
