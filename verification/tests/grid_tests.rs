use term_grid::{
    BidirectionalIterator, BufferPoint, Cell, CharsetIndex, Charsets, Cursor, Dimensions, Flags,
    Grid, GridCell, Point, Scroll, StandardCharset,
};

fn cell(c: char) -> Cell {
    Cell { c, flags: Flags(0) }
}

fn put_row(grid: &mut Grid<Cell>, line: usize, text: &str) {
    for (col, ch) in text.chars().enumerate() {
        grid.set_cell(line, col, cell(ch));
    }
}

fn row_text(grid: &Grid<Cell>, line: usize) -> String {
    (0..grid.cols()).map(|c| grid.cell_at(line, c).c).collect()
}

fn buffer_row_text(grid: &Grid<Cell>, i: usize) -> String {
    let r = grid.buffer_row(i);
    (0..r.len()).map(|c| r.get(c).c).collect()
}

/// The 3x2 grid with rows "ab", "cd", "ef" top to bottom and a history
/// cap of 5.
fn sample_grid() -> Grid<Cell> {
    let mut grid: Grid<Cell> = Grid::new(3, 2, 5);
    put_row(&mut grid, 0, "ab");
    put_row(&mut grid, 1, "cd");
    put_row(&mut grid, 2, "ef");
    grid
}

#[test]
fn new_grid_shape_and_blankness() {
    let grid: Grid<Cell> = Grid::new(4, 7, 10);
    assert_eq!(grid.screen_lines(), 4);
    assert_eq!(grid.cols(), 7);
    assert_eq!(grid.total_lines(), 4);
    assert_eq!(grid.history_size(), 0);
    assert_eq!(grid.display_offset(), 0);
    for l in 0..4 {
        assert_eq!(row_text(&grid, l), "       ");
    }
}

#[test]
fn scroll_up_full_screen_creates_history() {
    let mut grid = sample_grid();
    grid.scroll_up(&(0..3), 1);
    assert_eq!(grid.history_size(), 1);
    assert_eq!(row_text(&grid, 0), "cd");
    assert_eq!(row_text(&grid, 1), "ef");
    assert_eq!(row_text(&grid, 2), "  ");
    assert_eq!(buffer_row_text(&grid, 3), "ab");
}

#[test]
fn scroll_display_delta_reveals_history() {
    let mut grid = sample_grid();
    grid.scroll_up(&(0..3), 1);
    grid.scroll_display(Scroll::Delta(1));
    assert_eq!(grid.display_offset(), 1);
    let mut it = grid.display_iter();
    let first = it.next().unwrap();
    assert_eq!(first.inner.c, 'a');
    assert_eq!(first.line, 0);
    assert_eq!(first.column, 0);
    let second = it.next().unwrap();
    assert_eq!(second.inner.c, 'b');
    assert_eq!(second.line, 0);
    assert_eq!(second.column, 1);
    let third = it.next().unwrap();
    assert_eq!(third.inner.c, 'c');
    assert_eq!(third.line, 1);
    assert_eq!(third.column, 0);
}

#[test]
fn display_iter_yields_exactly_one_frame() {
    let grid = sample_grid();
    let mut it = grid.display_iter();
    let mut seen = String::new();
    while let Some(item) = it.next() {
        seen.push(item.inner.c);
    }
    assert_eq!(seen, "abcdef");
    assert!(it.next().is_none());
}

#[test]
fn clamp_buffer_range_offscreen_and_straddling() {
    let mut grid = sample_grid();
    grid.scroll_up(&(0..3), 1);
    grid.scroll_up(&(0..3), 1);
    assert_eq!(grid.history_size(), 2);
    assert_eq!(grid.display_offset(), 0);
    // Entirely above the viewport (both endpoints in history).
    let above = grid.clamp_buffer_range_to_visible(
        BufferPoint { line: 4, col: 0 },
        BufferPoint { line: 3, col: 1 },
    );
    assert!(above.is_none());
    // Straddling the viewport's top boundary: the start endpoint clamps
    // to the top-left visible cell, the end endpoint converts exactly.
    let straddle = grid.clamp_buffer_range_to_visible(
        BufferPoint { line: 4, col: 0 },
        BufferPoint { line: 1, col: 1 },
    );
    let (s, e) = straddle.unwrap();
    assert_eq!(s, Point { line: 0, col: 0 });
    assert_eq!(e, Point { line: 1, col: 1 });
}

#[test]
fn clamp_buffer_to_visible_three_cases() {
    let mut grid = sample_grid();
    grid.scroll_up(&(0..3), 1);
    grid.scroll_display(Scroll::Delta(1));
    assert_eq!(grid.display_offset(), 1);
    // Below the window: clamps to the bottom-right visible cell.
    let below = grid.clamp_buffer_to_visible(BufferPoint { line: 0, col: 0 });
    assert_eq!(below, Point { line: 2, col: 1 });
    // Above the window: clamps to the top-left.
    let above = grid.clamp_buffer_to_visible(BufferPoint { line: 7, col: 1 });
    assert_eq!(above, Point { line: 0, col: 0 });
    // Inside: exact conversion.
    let inside = grid.clamp_buffer_to_visible(BufferPoint { line: 2, col: 1 });
    assert_eq!(inside, Point { line: 1, col: 1 });
}

#[test]
fn visible_to_buffer_inverts_display_addressing() {
    let mut grid = sample_grid();
    grid.scroll_up(&(0..3), 1);
    grid.scroll_display(Scroll::Delta(1));
    let b = grid.visible_to_buffer(Point { line: 0, col: 1 });
    assert_eq!(b, BufferPoint { line: 3, col: 1 });
    assert_eq!(grid.buffer_cell(b).c, 'b');
}

#[test]
fn scroll_display_top_and_bottom() {
    let mut grid = sample_grid();
    grid.scroll_up(&(0..3), 1);
    grid.scroll_up(&(0..3), 1);
    grid.scroll_display(Scroll::Top);
    assert_eq!(grid.display_offset(), grid.history_size());
    grid.scroll_display(Scroll::Bottom);
    assert_eq!(grid.display_offset(), 0);
}

#[test]
fn scroll_display_pages_and_saturation() {
    let mut grid: Grid<Cell> = Grid::new(3, 2, 10);
    for _ in 0..7 {
        grid.scroll_up(&(0..3), 1);
    }
    assert_eq!(grid.history_size(), 7);
    grid.scroll_display(Scroll::PageUp);
    assert_eq!(grid.display_offset(), 3);
    grid.scroll_display(Scroll::PageUp);
    assert_eq!(grid.display_offset(), 6);
    grid.scroll_display(Scroll::PageUp);
    assert_eq!(grid.display_offset(), 7);
    grid.scroll_display(Scroll::PageDown);
    assert_eq!(grid.display_offset(), 4);
    grid.scroll_display(Scroll::Delta(-100));
    assert_eq!(grid.display_offset(), 0);
    grid.scroll_display(Scroll::Delta(100));
    assert_eq!(grid.display_offset(), 7);
}

#[test]
fn scroll_up_region_with_fixed_top_line() {
    let mut grid = sample_grid();
    grid.scroll_up(&(1..3), 1);
    assert_eq!(row_text(&grid, 0), "ab");
    assert_eq!(row_text(&grid, 1), "ef");
    assert_eq!(row_text(&grid, 2), "  ");
    // The row leaving the region's top is preserved into history.
    assert_eq!(grid.history_size(), 1);
    assert_eq!(buffer_row_text(&grid, 3), "cd");
}

#[test]
fn scroll_down_with_history_is_confined() {
    let mut grid = sample_grid();
    grid.scroll_up(&(0..3), 1);
    assert_eq!(buffer_row_text(&grid, 3), "ab");
    grid.scroll_down(&(0..3), 1);
    assert_eq!(row_text(&grid, 0), "  ");
    assert_eq!(row_text(&grid, 1), "cd");
    assert_eq!(row_text(&grid, 2), "ef");
    // History is untouched by scrolling down.
    assert_eq!(grid.history_size(), 1);
    assert_eq!(buffer_row_text(&grid, 3), "ab");
}

#[test]
fn scroll_down_region_without_history() {
    let mut grid: Grid<Cell> = Grid::new(3, 2, 0);
    put_row(&mut grid, 0, "ab");
    put_row(&mut grid, 1, "cd");
    put_row(&mut grid, 2, "ef");
    grid.scroll_down(&(1..3), 1);
    assert_eq!(row_text(&grid, 0), "ab");
    assert_eq!(row_text(&grid, 1), "  ");
    assert_eq!(row_text(&grid, 2), "cd");
    assert_eq!(grid.history_size(), 0);
}

#[test]
fn scroll_round_trip_restores_region_with_blank_top() {
    let mut grid: Grid<Cell> = Grid::new(3, 2, 0);
    // The top line stays blank: the round trip then restores everything.
    put_row(&mut grid, 1, "cd");
    put_row(&mut grid, 2, "ef");
    grid.scroll_up(&(0..3), 1);
    assert_eq!(row_text(&grid, 0), "cd");
    grid.scroll_down(&(0..3), 1);
    assert_eq!(row_text(&grid, 0), "  ");
    assert_eq!(row_text(&grid, 1), "cd");
    assert_eq!(row_text(&grid, 2), "ef");
}

#[test]
fn scroll_round_trip_loses_content_rotated_out() {
    let mut grid: Grid<Cell> = Grid::new(3, 2, 0);
    put_row(&mut grid, 0, "ab");
    put_row(&mut grid, 1, "cd");
    put_row(&mut grid, 2, "ef");
    grid.scroll_up(&(0..3), 1);
    grid.scroll_down(&(0..3), 1);
    // With no history, the top line's content cannot come back.
    assert_eq!(row_text(&grid, 0), "  ");
    assert_eq!(row_text(&grid, 1), "cd");
    assert_eq!(row_text(&grid, 2), "ef");
}

#[test]
fn whole_region_scroll_resets_region_only() {
    let mut grid = sample_grid();
    grid.scroll_down(&(1..3), 5);
    assert_eq!(row_text(&grid, 0), "ab");
    assert_eq!(row_text(&grid, 1), "  ");
    assert_eq!(row_text(&grid, 2), "  ");
    assert_eq!(grid.history_size(), 0);
}

#[test]
fn clear_viewport_pushes_content_into_history() {
    let mut grid = sample_grid();
    grid.clear_viewport();
    for l in 0..3 {
        assert_eq!(row_text(&grid, l), "  ");
    }
    assert_eq!(grid.display_offset(), 0);
    assert_eq!(grid.history_size(), 3);
    assert_eq!(buffer_row_text(&grid, 5), "ab");
    assert_eq!(buffer_row_text(&grid, 4), "cd");
    assert_eq!(buffer_row_text(&grid, 3), "ef");
}

#[test]
fn clear_viewport_twice_is_idempotent() {
    let mut grid = sample_grid();
    grid.clear_viewport();
    let history = grid.history_size();
    let frame: Vec<String> = (0..3).map(|l| row_text(&grid, l)).collect();
    grid.clear_viewport();
    assert_eq!(grid.history_size(), history);
    assert_eq!(grid.display_offset(), 0);
    let frame2: Vec<String> = (0..3).map(|l| row_text(&grid, l)).collect();
    assert_eq!(frame, frame2);
}

#[test]
fn reset_restores_pristine_state() {
    let mut grid = sample_grid();
    grid.scroll_up(&(0..3), 2);
    grid.scroll_display(Scroll::Top);
    grid.cursor.point = Point { line: 1, col: 1 };
    grid.reset();
    assert_eq!(grid.history_size(), 0);
    assert_eq!(grid.display_offset(), 0);
    assert_eq!(grid.total_lines(), 3);
    for l in 0..3 {
        assert_eq!(row_text(&grid, l), "  ");
    }
    assert_eq!(grid.cursor, Cursor::default());
    assert_eq!(grid.saved_cursor, Cursor::default());
}

#[test]
fn update_history_shrinks_and_reclamps() {
    let mut grid: Grid<Cell> = Grid::new(3, 2, 10);
    for _ in 0..5 {
        grid.scroll_up(&(0..3), 1);
    }
    grid.scroll_display(Scroll::Top);
    assert_eq!(grid.display_offset(), 5);
    grid.update_history(2);
    assert_eq!(grid.history_size(), 2);
    assert_eq!(grid.display_offset(), 2);
    grid.update_history(8);
    // Growth is lazy: nothing realized until scrolling needs it.
    assert_eq!(grid.history_size(), 2);
}

#[test]
fn history_cap_drops_oldest() {
    let mut grid: Grid<Cell> = Grid::new(3, 2, 2);
    put_row(&mut grid, 0, "ab");
    for _ in 0..4 {
        grid.scroll_up(&(0..3), 1);
    }
    assert_eq!(grid.history_size(), 2);
    assert_eq!(grid.total_lines(), 5);
}

#[test]
fn clear_history_keeps_screen() {
    let mut grid = sample_grid();
    grid.scroll_up(&(0..3), 1);
    grid.scroll_display(Scroll::Top);
    grid.clear_history();
    assert_eq!(grid.history_size(), 0);
    assert_eq!(grid.display_offset(), 0);
    assert_eq!(row_text(&grid, 0), "cd");
}

#[test]
fn initialize_all_realizes_the_cap_and_truncate_keeps_content() {
    let mut grid = sample_grid();
    grid.scroll_up(&(0..3), 1);
    grid.truncate();
    assert_eq!(row_text(&grid, 0), "cd");
    assert_eq!(buffer_row_text(&grid, 3), "ab");
    grid.initialize_all();
    assert_eq!(grid.total_lines(), 3 + 5);
    assert_eq!(buffer_row_text(&grid, 3), "ab");
    assert_eq!(buffer_row_text(&grid, 5), "  ");
}

#[test]
fn cursor_cell_writes_through_the_cursor() {
    let mut grid: Grid<Cell> = Grid::new(3, 2, 0);
    grid.cursor.point = Point { line: 1, col: 1 };
    *grid.cursor_cell() = cell('x');
    assert_eq!(row_text(&grid, 1), " x");
    assert_eq!(grid.cursor_cell().c, 'x');
}

#[test]
fn grid_iterator_walks_both_ways() {
    let mut grid = sample_grid();
    grid.scroll_up(&(0..3), 1);
    // Forward from the oldest cell down to the newest.
    let mut it = grid.iter_from(BufferPoint { line: 3, col: 0 });
    let mut forward = String::new();
    while let Some(c) = it.next() {
        forward.push(c.c);
    }
    assert_eq!(forward, "bcdef  ");
    assert_eq!(it.point(), BufferPoint { line: 0, col: 1 });
    // Backward from the newest cell up to the oldest.
    let mut back = String::new();
    while let Some(c) = it.prev() {
        back.push(c.c);
    }
    assert_eq!(back, " fedcba");
    assert!(it.prev().is_none());
    assert_eq!(it.cell().c, 'a');
}

#[test]
fn charsets_index_roundtrip() {
    let mut cs = Charsets::default();
    assert_eq!(cs.charset(CharsetIndex::G0), StandardCharset::Ascii);
    cs.set_charset(CharsetIndex::G2, StandardCharset::SpecialCharacterAndLineDrawing);
    assert_eq!(cs.charset(CharsetIndex::G2), StandardCharset::SpecialCharacterAndLineDrawing);
    assert_eq!(cs.charset(CharsetIndex::G1), StandardCharset::Ascii);
}

#[test]
fn cell_capability_basics() {
    let blank = Cell::default_cell();
    assert!(blank.is_empty());
    let mut c = cell('q');
    c.flags = Flags(3);
    assert!(!c.is_empty());
    let template = Cell { c: 'z', flags: Flags(5) };
    c.reset(&template);
    assert!(c.is_empty());
    assert_eq!(c.flags, Flags(5));
    let cursor: Cursor<Cell> = Cursor::default();
    assert_eq!(cursor.point, Point { line: 0, col: 0 });
    assert!(!cursor.input_needs_wrap);
}

#[test]
fn region_iteration_and_bulk_each() {
    let mut grid = sample_grid();
    let mut it = grid.region(1, 3).iter();
    let r1 = it.next().unwrap();
    assert_eq!(r1.get(0).c, 'c');
    let r2 = it.next().unwrap();
    assert_eq!(r2.get(1).c, 'f');
    assert!(it.next().is_none());
    let handle = grid.region_mut(0, 2);
    handle.each(&mut grid, |c: Cell| Cell { c: c.c.to_ascii_uppercase(), flags: c.flags });
    assert_eq!(row_text(&grid, 0), "AB");
    assert_eq!(row_text(&grid, 1), "CD");
    assert_eq!(row_text(&grid, 2), "ef");
}

#[test]
fn scroll_limit_changes_realize_and_drop_rows() {
    let mut grid = sample_grid();
    grid.increase_scroll_limit(2);
    assert_eq!(grid.total_lines(), 5);
    assert_eq!(grid.history_size(), 2);
    grid.increase_scroll_limit(10);
    // Never exceeds the cap.
    assert_eq!(grid.history_size(), 5);
    grid.scroll_display(Scroll::Top);
    grid.decrease_scroll_limit(3);
    assert_eq!(grid.history_size(), 2);
    assert_eq!(grid.display_offset(), 2);
}

#[test]
fn scroll_display_extreme_delta_saturates() {
    let mut grid = sample_grid();
    grid.scroll_up(&(0..3), 1);
    grid.scroll_display(Scroll::Delta(isize::MAX));
    assert_eq!(grid.display_offset(), 1);
    grid.scroll_display(Scroll::Delta(isize::MIN));
    assert_eq!(grid.display_offset(), 0);
}

#[test]
fn equality_is_logical_and_ignores_cursors() {
    let mut a: Grid<Cell> = Grid::new(3, 2, 0);
    put_row(&mut a, 1, "cd");
    put_row(&mut a, 2, "ef");
    // Rotate the ring a full cycle: same logical content, different
    // physical layout underneath.
    let mut b = a.clone();
    b.scroll_up(&(0..3), 1);
    b.scroll_down(&(0..3), 1);
    assert_eq!(a, b);
    // Cursor state takes no part in equality.
    b.cursor.point = Point { line: 2, col: 1 };
    b.saved_cursor.point = Point { line: 1, col: 0 };
    assert_eq!(a, b);
    // Content differences do.
    b.set_cell(2, 0, cell('x'));
    assert_ne!(a, b);
    // Display offset differences do too.
    let mut c = sample_grid();
    let d = c.clone();
    c.scroll_up(&(0..3), 1);
    assert_ne!(c, d);
    c.scroll_display(Scroll::Delta(1));
    assert_eq!(c.display_offset(), 1);
}
