//! Screen-content buffer for a terminal emulator: a fixed-width grid of cells
//! holding the visible screen plus a bounded scrollback history, with
//! region-confined scrolling built on an O(1) ring rotation.

mod cell;
mod grid;
mod index;
mod iter;
mod laws;
mod model;
mod region;
mod row;
mod storage;

pub use cell::{Cell, CharsetIndex, Charsets, Cursor, Flags, GridCell, StandardCharset};
pub use grid::{Dimensions, Grid, Scroll};
pub use index::{BufferPoint, Point};
pub use iter::{BidirectionalIterator, DisplayIter, GridIterator, Indexed};
pub use laws::{
    lemma_clear_viewport_idempotent, lemma_scroll_down_region_isolation, lemma_scroll_round_trip,
    lemma_scroll_up_region_isolation,
};
pub use model::GridSpec;
pub use region::{Region, RegionIter, RegionMut};
pub use row::Row;
pub use storage::Storage;
