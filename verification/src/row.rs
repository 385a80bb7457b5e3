//! A fixed-length sequence of cells: one row of the grid.

use crate::cell::GridCell;
use vstd::prelude::*;

verus! {

/// An ordered, fixed-length sequence of cells. Its view is the sequence of
/// its cells, left to right.
#[derive(Debug, Clone, PartialEq, Eq)]
pub struct Row<T> {
    cells: Vec<T>,
}

impl<T> View for Row<T> {
    type V = Seq<T>;

    closed spec fn view(&self) -> Seq<T> {
        self.cells@
    }
}

impl<T> Row<T> {
    /// A row with no cells at all, used only as a placeholder while two rows
    /// are being exchanged.
    pub fn empty() -> (r: Row<T>)
        ensures
            r@ == Seq::<T>::empty(),
    {
        Row { cells: Vec::new() }
    }

    /// Number of cells (columns) in the row.
    pub fn len(&self) -> (n: usize)
        ensures
            n == self@.len(),
    {
        self.cells.len()
    }

    /// The cell at one column.
    pub fn get(&self, col: usize) -> (c: &T)
        requires
            col < self@.len(),
        ensures
            *c == self@[col as int],
    {
        &self.cells[col]
    }

    /// Overwrite the cell at one column.
    pub fn put(&mut self, col: usize, cell: T)
        requires
            col < old(self)@.len(),
        ensures
            final(self)@ == old(self)@.update(col as int, cell),
    {
        self.cells.set(col, cell);
    }

    /// Mutable access to the cell at one column.
    pub fn cell_mut(&mut self, col: usize) -> (c: &mut T)
        requires
            col < old(self)@.len(),
        ensures
            *c == old(self)@[col as int],
            final(self)@ == old(self)@.update(col as int, *final(c)),
    {
        &mut self.cells[col]
    }
}

/// The sequence a row holds right after every cell was reset from
/// `template`.
pub open spec fn reset_row<T: GridCell>(cols: int, template: T) -> Seq<T> {
    Seq::new(cols as nat, |j: int| T::reset_spec(&template))
}

/// The sequence a freshly constructed row of default cells holds.
pub open spec fn default_row<T: GridCell>(cols: int) -> Seq<T> {
    Seq::new(cols as nat, |j: int| T::default_spec())
}

impl<T: GridCell> Row<T> {
    /// A new row of `cols` default (blank) cells.
    pub fn new(cols: usize) -> (r: Row<T>)
        ensures
            r@ =~= default_row::<T>(cols as int),
    {
        let mut cells: Vec<T> = Vec::new();
        let mut i: usize = 0;
        while i < cols
            invariant
                i <= cols,
                cells@.len() == i,
                forall|j: int| 0 <= j < i ==> cells@[j] == T::default_spec(),
            decreases cols - i,
        {
            cells.push(T::default_cell());
            i += 1;
        }
        Row { cells }
    }

    /// A new row of `cols` cells, each reset from the template.
    pub fn filled(cols: usize, template: &T) -> (r: Row<T>)
        ensures
            r@ =~= reset_row::<T>(cols as int, *template),
    {
        let mut cells: Vec<T> = Vec::new();
        let mut i: usize = 0;
        while i < cols
            invariant
                i <= cols,
                cells@.len() == i,
                forall|j: int| 0 <= j < i ==> cells@[j] == T::reset_spec(template),
            decreases cols - i,
        {
            let mut c = T::default_cell();
            c.reset(template);
            cells.push(c);
            i += 1;
        }
        Row { cells }
    }

    /// Reset every cell of the row from the template.
    pub fn reset(&mut self, template: &T)
        ensures
            final(self)@ =~= reset_row::<T>(old(self)@.len() as int, *template),
    {
        let n = self.cells.len();
        let mut i: usize = 0;
        while i < n
            invariant
                i <= n,
                self.cells@.len() == n,
                forall|j: int| 0 <= j < i ==> self.cells@[j] == T::reset_spec(template),
                forall|j: int| i <= j < n ==> self.cells@[j] == old(self).cells@[j],
            decreases n - i,
        {
            let mut c = T::default_cell();
            c.reset(template);
            self.cells.set(i, c);
            i += 1;
        }
    }

    /// Whether every cell of the row is empty.
    pub fn is_blank(&self) -> (r: bool)
        ensures
            r == forall|j: int| 0 <= j < self@.len() ==> self@[j].empty_spec(),
    {
        let n = self.cells.len();
        let mut i: usize = 0;
        while i < n
            invariant
                i <= n,
                n == self@.len(),
                forall|j: int| 0 <= j < i ==> self@[j].empty_spec(),
            decreases n - i,
        {
            if !self.cells[i].is_empty() {
                return false;
            }
            i += 1;
        }
        true
    }
}

} // verus!
