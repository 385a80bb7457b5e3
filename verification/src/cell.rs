//! The cell capability and cursor state.
//!
//! The buffer is generic over any cell type that can say whether it holds
//! content and can be reset from a template cell; the capability is the
//! [`GridCell`] trait. A minimal concrete cell, [`Cell`], is provided for
//! users that need nothing more than a character with flags.

use crate::index::Point;
use vstd::prelude::*;

verus! {

/// A plain set of per-cell flag bits.
#[derive(Debug, Clone, Copy, PartialEq, Eq, Structural)]
pub struct Flags(pub u16);

impl Default for Flags {
    fn default() -> (f: Self)
        ensures
            f == Flags(0u16),
    {
        Flags(0)
    }
}

/// A graphic character set a charset slot can be configured to.
#[derive(Debug, Clone, Copy, PartialEq, Eq, Structural)]
pub enum StandardCharset {
    Ascii,
    SpecialCharacterAndLineDrawing,
}

impl Default for StandardCharset {
    fn default() -> (c: Self)
        ensures
            c == StandardCharset::Ascii,
    {
        StandardCharset::Ascii
    }
}

/// One of the four configurable charset slots, G0 through G3.
#[derive(Debug, Clone, Copy, PartialEq, Eq, Structural)]
pub enum CharsetIndex {
    G0,
    G1,
    G2,
    G3,
}

/// The four active graphic character sets of a cursor.
#[derive(Debug, Clone, Copy, PartialEq, Eq, Structural)]
pub struct Charsets {
    pub g0: StandardCharset,
    pub g1: StandardCharset,
    pub g2: StandardCharset,
    pub g3: StandardCharset,
}

impl Charsets {
    /// The charsets a fresh cursor starts with: all slots ASCII.
    pub open spec fn default_spec() -> Charsets {
        Charsets {
            g0: StandardCharset::Ascii,
            g1: StandardCharset::Ascii,
            g2: StandardCharset::Ascii,
            g3: StandardCharset::Ascii,
        }
    }

    pub open spec fn charset_spec(&self, index: CharsetIndex) -> StandardCharset {
        match index {
            CharsetIndex::G0 => self.g0,
            CharsetIndex::G1 => self.g1,
            CharsetIndex::G2 => self.g2,
            CharsetIndex::G3 => self.g3,
        }
    }

    /// Read the charset configured in one slot.
    pub fn charset(&self, index: CharsetIndex) -> (r: StandardCharset)
        ensures
            r == self.charset_spec(index),
    {
        match index {
            CharsetIndex::G0 => self.g0,
            CharsetIndex::G1 => self.g1,
            CharsetIndex::G2 => self.g2,
            CharsetIndex::G3 => self.g3,
        }
    }

    /// Configure one slot.
    pub fn set_charset(&mut self, index: CharsetIndex, charset: StandardCharset)
        ensures
            final(self).charset_spec(index) == charset,
            forall|other: CharsetIndex|
                other != index ==> final(self).charset_spec(other) == old(self).charset_spec(other),
    {
        match index {
            CharsetIndex::G0 => self.g0 = charset,
            CharsetIndex::G1 => self.g1 = charset,
            CharsetIndex::G2 => self.g2 = charset,
            CharsetIndex::G3 => self.g3 = charset,
        }
    }
}

impl Default for Charsets {
    fn default() -> (c: Self)
        ensures
            c == Charsets::default_spec(),
    {
        Charsets {
            g0: StandardCharset::Ascii,
            g1: StandardCharset::Ascii,
            g2: StandardCharset::Ascii,
            g3: StandardCharset::Ascii,
        }
    }
}

/// The capability a cell type must provide for the buffer to manage it:
/// an emptiness test, a reset from a template cell, a default (blank)
/// value, and access to its flag set. Each executable method is pinned to a
/// specification function, so the buffer's contracts can speak about cell
/// contents for any implementation.
pub trait GridCell: Sized {
    /// Whether the cell holds any content.
    spec fn empty_spec(&self) -> bool;

    /// The value a cell takes when reset from `template`.
    spec fn reset_spec(template: &Self) -> Self;

    /// The default (blank) cell value.
    spec fn default_spec() -> Self;

    /// Check if the cell contains any content.
    fn is_empty(&self) -> (r: bool)
        ensures
            r == self.empty_spec(),
    ;

    /// Reset the cell based on a template cell.
    fn reset(&mut self, template: &Self)
        ensures
            *final(self) == Self::reset_spec(template),
    ;

    /// Construct the default (blank) cell.
    fn default_cell() -> (r: Self)
        ensures
            r == Self::default_spec(),
    ;

    fn flags(&self) -> &Flags;

    fn flags_mut(&mut self) -> &mut Flags;
}

/// A minimal concrete cell: one character plus flags. Blank is a space.
#[derive(Debug, Clone, Copy, PartialEq, Eq, Structural)]
pub struct Cell {
    pub c: char,
    pub flags: Flags,
}

impl GridCell for Cell {
    open spec fn empty_spec(&self) -> bool {
        self.c == ' '
    }

    /// Resetting keeps the template's flags and blanks the character.
    open spec fn reset_spec(template: &Self) -> Self {
        Cell { c: ' ', flags: template.flags }
    }

    open spec fn default_spec() -> Self {
        Cell { c: ' ', flags: Flags(0u16) }
    }

    fn is_empty(&self) -> (r: bool) {
        self.c == ' '
    }

    fn reset(&mut self, template: &Self) {
        *self = Cell { c: ' ', flags: template.flags };
    }

    fn default_cell() -> (r: Self) {
        Cell { c: ' ', flags: Flags(0) }
    }

    fn flags(&self) -> &Flags {
        &self.flags
    }

    fn flags_mut(&mut self) -> &mut Flags {
        &mut self.flags
    }
}

/// The writing position, the template cell used to stamp newly exposed
/// rows, the active charsets, and the pending-wrap flag.
#[derive(Debug, Clone, PartialEq, Eq)]
pub struct Cursor<T> {
    /// The location of this cursor, viewport-relative.
    pub point: Point,

    /// Template cell when using this cursor.
    pub template: T,

    /// Currently configured graphic character sets.
    pub charsets: Charsets,

    /// Tracks if the next input needs to wrap to the following line first.
    /// It is set only right after a write fills the last column, and any
    /// operation that explicitly repositions the cursor clears it.
    pub input_needs_wrap: bool,
}

impl<T: GridCell> Cursor<T> {
    /// The state of a freshly constructed cursor.
    pub open spec fn default_spec() -> Cursor<T> {
        Cursor {
            point: Point { line: 0, col: 0 },
            template: T::default_spec(),
            charsets: Charsets::default_spec(),
            input_needs_wrap: false,
        }
    }
}

impl<T: GridCell> Default for Cursor<T> {
    fn default() -> (c: Self)
        ensures
            c == Cursor::<T>::default_spec(),
    {
        Cursor {
            point: Point { line: 0, col: 0 },
            template: T::default_cell(),
            charsets: Charsets::default(),
            input_needs_wrap: false,
        }
    }
}

} // verus!
