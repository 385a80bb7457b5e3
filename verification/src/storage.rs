//! The circular row storage.
//!
//! A growable ring of rows: absolute index `i` resolves to the physical
//! slot `zero + i`, wrapped once past the end of the backing vector, so
//! rotating the whole buffer is a single offset update and no row is ever
//! copied to scroll. The view is the logical sequence of rows: index 0 is
//! the bottom (newest) row.

use crate::cell::GridCell;
use crate::row::{default_row, Row};
use vstd::prelude::*;
use vstd::pervasive::VecAdditionalExecFns;
use vstd::std_specs::cmp::PartialEqSpec;

verus! {

/// A growable ring buffer of rows with O(1) logical rotation.
#[derive(Debug, Clone)]
pub struct Storage<T> {
    /// Physical slots; may hold spare rows past the logical length.
    inner: Vec<Row<T>>,
    /// Physical slot of absolute index 0.
    zero: usize,
    /// Logical number of rows.
    len: usize,
}

impl<T> View for Storage<T> {
    type V = Seq<Seq<T>>;

    closed spec fn view(&self) -> Seq<Seq<T>> {
        Seq::new(self.len as nat, |i: int| self.inner@[self.slot(i)]@)
    }
}

impl<T> Storage<T> {
    /// Number of physical slots.
    pub closed spec fn phys(&self) -> int {
        self.inner@.len() as int
    }

    /// The physical slot that absolute index `i` resolves to.
    pub closed spec fn slot(&self, i: int) -> int {
        if self.zero + i < self.phys() {
            self.zero + i
        } else {
            self.zero + i - self.phys()
        }
    }

    /// Basic ring sanity: the logical window fits the physical slots.
    pub closed spec fn ring_wf(&self) -> bool {
        &&& self.len <= self.inner@.len()
        &&& self.zero < self.inner@.len()
    }

    /// Whether the logical length fills every physical slot.
    pub closed spec fn full(&self) -> bool {
        self.len == self.inner@.len()
    }

    /// Current total row count.
    pub fn len(&self) -> (n: usize)
        ensures
            n == self@.len(),
    {
        self.len
    }

    /// The physical slot of absolute index `i`.
    fn slot_of(&self, i: usize) -> (s: usize)
        requires
            self.zero < self.inner@.len(),
            i < self.inner@.len(),
        ensures
            s == self.slot(i as int),
            s < self.inner@.len(),
    {
        let space = self.inner.len() - self.zero;
        if i < space {
            self.zero + i
        } else {
            i - space
        }
    }

    /// The row at absolute index `i`.
    pub fn row(&self, i: usize) -> (r: &Row<T>)
        requires
            self.ring_wf(),
            i < self@.len(),
        ensures
            r@ == self@[i as int],
    {
        let s = self.slot_of(i);
        &self.inner[s]
    }

    /// Mutable access to the row at absolute index `i`.
    pub fn row_mut(&mut self, i: usize) -> (r: &mut Row<T>)
        requires
            old(self).ring_wf(),
            i < old(self)@.len(),
        ensures
            (*r)@ == old(self)@[i as int],
            final(self).ring_wf(),
            final(self)@ =~= old(self)@.update(i as int, (*final(r))@),
            final(self).full() == old(self).full(),
            final(self).phys() == old(self).phys(),
    {
        proof {
            self.lemma_slot_injective();
        }
        let s = self.slot_of(i);
        &mut self.inner[s]
    }

    /// Distinct absolute indices resolve to distinct physical slots.
    proof fn lemma_slot_injective(&self)
        requires
            self.ring_wf(),
        ensures
            forall|i: int, j: int|
                0 <= i < self.phys() && 0 <= j < self.phys() && i != j ==> self.slot(i)
                    != self.slot(j),
            forall|i: int| 0 <= i < self.phys() ==> 0 <= #[trigger] self.slot(i) < self.phys(),
    {
    }

    /// Exchange the rows at two absolute indices in O(1).
    pub fn swap(&mut self, i: usize, j: usize)
        requires
            old(self).ring_wf(),
            i < old(self)@.len(),
            j < old(self)@.len(),
        ensures
            final(self).ring_wf(),
            final(self)@ =~= old(self)@.update(i as int, old(self)@[j as int]).update(
                j as int,
                old(self)@[i as int],
            ),
            final(self).full() == old(self).full(),
            final(self).phys() == old(self).phys(),
    {
        proof {
            self.lemma_slot_injective();
        }
        if i == j {
            return ;
        }
        let si = self.slot_of(i);
        let sj = self.slot_of(j);
        let mut tmp: Row<T> = Row::empty();
        self.inner.set_and_swap(si, &mut tmp);
        self.inner.set_and_swap(sj, &mut tmp);
        self.inner.set_and_swap(si, &mut tmp);
    }

    /// Shift the ring's logical zero so that every row moves `p` positions
    /// toward the top: afterwards absolute index `i` holds what index
    /// `i - p` held. No row is moved or copied. When the ring is full the
    /// bottom `p` indices wrap around from the old top.
    pub fn rotate_up(&mut self, p: usize)
        requires
            old(self).ring_wf(),
            p <= old(self)@.len(),
        ensures
            final(self).ring_wf(),
            final(self)@.len() == old(self)@.len(),
            forall|i: int|
                p <= i < old(self)@.len() ==> final(self)@[i] == old(self)@[i - p],
            old(self).full() ==> forall|i: int|
                0 <= i < p ==> final(self)@[i] == old(self)@[i - p + old(self)@.len()],
            final(self).full() == old(self).full(),
            final(self).phys() == old(self).phys(),
    {
        if p <= self.zero {
            self.zero = self.zero - p;
        } else {
            self.zero = self.inner.len() - (p - self.zero);
        }
    }

    /// Shift the ring's logical zero the other way: afterwards absolute
    /// index `i` holds what index `i + p` held. The top `p` indices take
    /// whatever the slots rotated in from the spare region hold; callers
    /// reset them.
    pub fn rotate_down(&mut self, p: usize)
        requires
            old(self).ring_wf(),
            p <= old(self)@.len(),
        ensures
            final(self).ring_wf(),
            final(self)@.len() == old(self)@.len(),
            forall|i: int|
                0 <= i < old(self)@.len() - p ==> final(self)@[i] == old(self)@[i + p],
            final(self).full() == old(self).full(),
            final(self).phys() == old(self).phys(),
    {
        let space = self.inner.len() - self.zero;
        if p < space {
            self.zero = self.zero + p;
        } else {
            self.zero = p - space;
        }
    }

    /// Drop the `n` oldest rows (the logical tail); their slots become
    /// spare. O(1).
    pub fn shrink_lines(&mut self, n: usize)
        requires
            old(self).ring_wf(),
            n <= old(self)@.len(),
        ensures
            final(self).ring_wf(),
            final(self)@.len() == old(self)@.len() - n,
            forall|i: int| 0 <= i < final(self)@.len() ==> final(self)@[i] == old(self)@[i],
            final(self).phys() == old(self).phys(),
            n == 0 ==> *final(self) == *old(self),
    {
        self.len = self.len - n;
    }
}

impl<T: GridCell> Storage<T> {
    /// A buffer of exactly `lines` rows, each holding `cols` default cells.
    pub fn with_capacity(lines: usize, cols: usize) -> (s: Storage<T>)
        requires
            1 <= lines,
        ensures
            s.ring_wf(),
            s.full(),
            s@.len() == lines,
            forall|i: int| 0 <= i < lines ==> s@[i] == default_row::<T>(cols as int),
    {
        let mut inner: Vec<Row<T>> = Vec::new();
        let mut i: usize = 0;
        while i < lines
            invariant
                i <= lines,
                inner@.len() == i,
                forall|k: int| 0 <= k < i ==> inner@[k]@ == default_row::<T>(cols as int),
            decreases lines - i,
        {
            inner.push(Row::new(cols));
            i += 1;
        }
        Storage { inner, zero: 0, len: lines }
    }

    /// Grow the buffer by `n` freshly-constructed rows of `cols` default
    /// cells at the logical tail. Spare slots left by earlier shrinks are
    /// reused; only when none are left are new physical slots made, at the
    /// ring's wrap point so that no logical index moves.
    pub fn initialize(&mut self, n: usize, cols: usize)
        requires
            old(self).ring_wf(),
            old(self)@.len() + n <= usize::MAX,
        ensures
            final(self).ring_wf(),
            final(self)@.len() == old(self)@.len() + n,
            forall|i: int| 0 <= i < old(self)@.len() ==> final(self)@[i] == old(self)@[i],
            forall|i: int|
                old(self)@.len() <= i < final(self)@.len() ==> final(self)@[i] == default_row::<
                    T,
                >(cols as int),
            n == 0 ==> *final(self) == *old(self),
    {
        if n == 0 {
            return ;
        }
        let ghost orig = *self;
        // Make room: insert fresh slots at the ring's wrap point (physical
        // index `zero`), which leaves every logical index in place and adds
        // the slot as a spare.
        while self.len + n > self.inner.len()
            invariant
                self.ring_wf(),
                self.len == orig.len,
                self.zero >= orig.zero,
                self@ =~= orig@,
                orig.len + n <= usize::MAX,
            decreases orig.len + n - self.inner@.len(),
        {
            let ghost before = *self;
            let z = self.zero;
            self.inner.insert(z, Row::new(cols));
            self.zero = z + 1;
            proof {
                assert forall|i: int| 0 <= i < self.len as int implies self@[i] == before@[i] by {
                    if before.zero + i < before.phys() {
                        assert(self.slot(i) == before.slot(i) + 1);
                    } else {
                        assert(self.slot(i) == before.slot(i));
                    }
                }
                assert(self@ =~= before@);
            }
        }
        // Fill `n` spare slots at the logical tail with fresh rows.
        let cap = self.inner.len();
        let mut j: usize = 0;
        while j < n
            invariant
                self.ring_wf(),
                j <= n,
                self.inner@.len() == cap,
                self.len == orig.len + j,
                self.len + (n - j) <= cap,
                forall|i: int| 0 <= i < orig.len ==> self@[i] == orig@[i],
                forall|i: int|
                    orig.len <= i < self.len ==> self@[i] == default_row::<T>(cols as int),
            decreases n - j,
        {
            let ghost before = *self;
            let idx = self.slot_of(self.len);
            self.inner.set(idx, Row::new(cols));
            self.len = self.len + 1;
            proof {
                before.lemma_slot_injective();
                assert forall|i: int| 0 <= i < before.len as int implies self@[i] == before@[i] by {
                    assert(self.slot(i) == before.slot(i));
                    assert(before.slot(i) != before.slot(before.len as int));
                }
                assert(self@[before.len as int] == default_row::<T>(cols as int));
                assert forall|i: int|
                    orig.len <= i < self.len implies self@[i] == default_row::<T>(
                    cols as int,
                ) by {
                    if i < before.len {
                        assert(self@[i] == before@[i]);
                        assert(before@[i] == default_row::<T>(cols as int));
                    } else {
                        assert(i == before.len);
                    }
                }
            }
            j += 1;
        }
    }

    /// Drop every physical slot beyond the logically addressable rows,
    /// repacking the ring so it is exactly full. Used only around snapshot
    /// save and load, never on the hot path.
    pub fn truncate(&mut self)
        requires
            old(self).ring_wf(),
            old(self)@.len() >= 1,
        ensures
            final(self).ring_wf(),
            final(self).full(),
            final(self)@ =~= old(self)@,
    {
        proof {
            self.lemma_slot_injective();
        }
        let n = self.len;
        let mut out: Vec<Row<T>> = Vec::with_capacity(n);
        let mut i: usize = 0;
        while i < n
            invariant
                self.ring_wf(),
                n == self.len,
                i <= n,
                out@.len() == i,
                forall|k: int| 0 <= k < i ==> out@[k]@ == old(self)@[k],
                forall|k: int| i <= k < n ==> self@[k] == old(self)@[k],
            decreases n - i,
        {
            let ghost before = *self;
            let idx = self.slot_of(i);
            let mut tmp: Row<T> = Row::empty();
            self.inner.set_and_swap(idx, &mut tmp);
            out.push(tmp);
            proof {
                before.lemma_slot_injective();
                assert forall|k: int| i + 1 <= k < n implies self@[k] == before@[k] by {
                    assert(before.slot(k) != before.slot(i as int));
                }
            }
            i += 1;
        }
        self.inner = out;
        self.zero = 0;
        self.len = n;
        proof {
            assert(self@ =~= old(self)@);
        }
    }
}


impl<T: PartialEq> Storage<T> {
    /// Whether two buffers hold the same logical rows, cell for cell by
    /// the cell type's own equality — independent of how either ring is
    /// rotated. Degenerate (never constructed) ring states compare
    /// unequal.
    pub closed spec fn content_eq_spec(&self, other: &Storage<T>) -> bool {
        &&& self.ring_wf()
        &&& other.ring_wf()
        &&& self@.len() == other@.len()
        &&& forall|i: int|
            0 <= i < self@.len() ==> (#[trigger] self@[i]).len() == other@[i].len()
        &&& forall|i: int, j: int|
            0 <= i < self@.len() && 0 <= j < self@[i].len() ==> (#[trigger] self@[i][j]).eq_spec(
                &other@[i][j],
            )
    }

    /// What logical equality unfolds to once both rings are sane.
    pub proof fn lemma_content_eq_spec(&self, other: &Storage<T>)
        requires
            self.ring_wf(),
            other.ring_wf(),
        ensures
            self.content_eq_spec(other) <==> {
                &&& self@.len() == other@.len()
                &&& forall|i: int|
                    0 <= i < self@.len() ==> (#[trigger] self@[i]).len() == other@[i].len()
                &&& forall|i: int, j: int|
                    0 <= i < self@.len() && 0 <= j < self@[i].len() ==> (
                    #[trigger] self@[i][j]).eq_spec(&other@[i][j])
            },
    {
    }

    /// Compare logical contents, row by row and cell by cell.
    pub fn content_eq(&self, other: &Storage<T>) -> (r: bool)
        ensures
            T::obeys_eq_spec() ==> r == self.content_eq_spec(other),
    {
        let self_ok = self.zero < self.inner.len() && self.len <= self.inner.len();
        let other_ok = other.zero < other.inner.len() && other.len <= other.inner.len();
        if !self_ok || !other_ok {
            return false;
        }
        if self.len != other.len {
            return false;
        }
        let n = self.len;
        let mut i: usize = 0;
        while i < n
            invariant
                self.ring_wf(),
                other.ring_wf(),
                n == self@.len(),
                self@.len() == other@.len(),
                i <= n,
                T::obeys_eq_spec() ==> forall|k: int|
                    0 <= k < i ==> (#[trigger] self@[k]).len() == other@[k].len(),
                T::obeys_eq_spec() ==> forall|k: int, j: int|
                    0 <= k < i && 0 <= j < self@[k].len() ==> (#[trigger] self@[k][j]).eq_spec(
                        &other@[k][j],
                    ),
            decreases n - i,
        {
            let a = self.row(i);
            let b = other.row(i);
            let cols = a.len();
            if cols != b.len() {
                proof {
                    assert(self@[i as int].len() != other@[i as int].len());
                }
                return false;
            }
            let mut j: usize = 0;
            while j < cols
                invariant
                    i < self@.len(),
                    self@.len() == other@.len(),
                    a@ == self@[i as int],
                    b@ == other@[i as int],
                    cols == a@.len(),
                    cols == b@.len(),
                    j <= cols,
                    T::obeys_eq_spec() ==> forall|jj: int|
                        0 <= jj < j ==> (#[trigger] a@[jj]).eq_spec(&b@[jj]),
                decreases cols - j,
            {
                let ca = a.get(j);
                let cb = b.get(j);
                let same = *ca == *cb;
                proof {
                    if T::obeys_eq_spec() {
                        assert(*ca == a@[j as int]);
                        assert(same == a@[j as int].eq_spec(&b@[j as int]));
                    }
                }
                if !same {
                    proof {
                        if T::obeys_eq_spec() {
                            assert(a@[j as int] == self@[i as int][j as int]);
                            assert(b@[j as int] == other@[i as int][j as int]);
                            assert(!self@[i as int][j as int].eq_spec(&other@[i as int][j as int]));
                        }
                    }
                    return false;
                }
                j += 1;
            }
            i += 1;
        }
        true
    }
}

} // verus!
