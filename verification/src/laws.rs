//! Global laws of the grid, stated over the model.
//!
//! The per-operation contracts in `grid` pin each call down as a model
//! transition; the lemmas here state the properties that relate several
//! operations or hold of every transition.

use crate::cell::GridCell;
use crate::model::GridSpec;
use vstd::prelude::*;

verus! {

/// Region isolation for scrolling up: a `scroll_up(rs..re, p)` call leaves
/// every viewport line outside `[rs, re)` bit-identical.
pub proof fn lemma_scroll_up_region_isolation<T: GridCell>(
    m: GridSpec<T>,
    rs: int,
    re: int,
    p: int,
    l: int,
)
    requires
        m.wf(),
        0 <= rs <= re <= m.lines,
        0 <= p,
        rs > 0 || p <= re - rs,
        0 <= l < m.lines,
        !(rs <= l < re),
    ensures
        m.scroll_up_spec(rs, re, p).line(l) == m.line(l),
{
}

/// Region isolation for scrolling down: a `scroll_down(rs..re, p)` call
/// leaves every viewport line outside `[rs, re)` bit-identical, and all of
/// history too.
pub proof fn lemma_scroll_down_region_isolation<T: GridCell>(
    m: GridSpec<T>,
    rs: int,
    re: int,
    p: int,
    l: int,
)
    requires
        m.wf(),
        0 <= rs <= re <= m.lines,
        0 <= p,
        0 <= l < m.lines,
        !(rs <= l < re),
    ensures
        m.scroll_down_spec(rs, re, p).line(l) == m.line(l),
        forall|i: int|
            m.lines <= i < m.rows.len() ==> m.scroll_down_spec(rs, re, p).rows[i] == m.rows[i],
{
}

/// Round trip: on a grid with no history configured, scrolling a region up
/// and then down by the same amount restores the grid exactly — provided
/// the top `p` lines of the region were blank. Those lines are rotated out
/// by the upward scroll, and with `max_scroll_limit == 0` no history can
/// preserve them: on a grid whose region top holds content, the round trip
/// returns blank lines there instead.
pub proof fn lemma_scroll_round_trip<T: GridCell>(m: GridSpec<T>, rs: int, re: int, p: int)
    requires
        m.wf(),
        m.max_scroll_limit == 0,
        0 <= rs <= re <= m.lines,
        0 <= p <= re - rs,
        forall|l: int| rs <= l < rs + p ==> m.line(l) == m.blank_row(),
    ensures
        m.scroll_up_spec(rs, re, p).scroll_down_spec(rs, re, p) == m,
{
    let m1 = m.scroll_up_spec(rs, re, p);
    let m2 = m1.scroll_down_spec(rs, re, p);
    assert(m.rows.len() == m.lines);
    assert forall|i: int| 0 <= i < m.rows.len() implies m2.rows[i] == m.rows[i] by {
        let l = m.lines - 1 - i;
        if m.lines - rs - p <= i < m.lines - rs {
            assert(rs <= l < rs + p);
            assert(m.line(l) == m.blank_row());
        }
    }
    assert(m2 =~~= m);
}

/// Clearing the viewport is idempotent: with no mutation in between, the
/// second `clear_viewport` changes nothing. Holds whenever the cursor
/// template resets to an empty cell, so that freshly reset lines count as
/// blank for the trailing-content scan.
pub proof fn lemma_clear_viewport_idempotent<T: GridCell>(m: GridSpec<T>)
    requires
        m.wf(),
        T::reset_spec(&m.template).empty_spec(),
    ensures
        m.clear_viewport_spec().clear_viewport_spec() == m.clear_viewport_spec(),
{
    let m1 = m.clear_viewport_spec();
    let p = m.clear_positions();
    m.lemma_blank_from_bounds(0);
    assert(0 <= p <= m.lines);
    assert forall|i: int| 0 <= i < m1.lines implies m1.row_empty(i) by {
        assert(m1.rows[i] == m.blank_row());
        assert forall|j: int| 0 <= j < m1.rows[i].len() implies (
        #[trigger] m1.rows[i][j]).empty_spec() by {
            assert(m1.rows[i][j] == T::reset_spec(&m.template));
        }
    }
    m1.lemma_blank_from(0, m1.lines);
    let p2 = m1.clear_positions();
    let m2 = m1.clear_viewport_spec();
    if m1.rows.len() > m1.lines {
        assert(p2 == 0);
        assert forall|i: int| 0 <= i < m2.rows.len() implies m2.rows[i] == m1.rows[i] by {}
        assert(m2 =~~= m1);
    } else {
        // The whole buffer is the viewport, so the backward walk stops at
        // the screen's top-left corner and one line is scrolled; with no
        // history to be had (the cap must be zero here), that line is
        // simply reset again.
        assert(m1.rows.len() == m1.lines);
        if m.max_scroll_limit > 0 {
            if m.history_size() > 0 {
                assert(m1.rows.len() > m1.lines);
            } else {
                assert(p >= 1);
                assert(vstd::math::min(p, m.max_scroll_limit - m.history_size()) >= 1);
                assert(m1.rows.len() > m1.lines);
            }
            assert(false);
        }
        assert(p2 == 1);
        assert forall|i: int| 0 <= i < m2.rows.len() implies m2.rows[i] == m1.rows[i] by {
            assert(m1.rows[i] == m.blank_row());
        }
        assert(m2 =~~= m1);
    }
}

} // verus!
