use letui::screen::{BUFFER_CELLS, BUFFER_WORDS};
use letui::session::Session;

#[test]
fn scenario_single_red_cell() {
    // Grid 3 by 1: write cell 0 as 'A' in red on black, flush once.
    let mut s = Session::new();
    assert!(s.init_buffer(3, 1));
    assert!(s.write(0, 'A' as u64, 0xFF0000, 0));
    let ups = s.flush();
    assert_eq!(ups.len(), 1);
    assert_eq!(ups[0].x, 0);
    assert_eq!(ups[0].y, 0);
    assert_eq!(ups[0].glyph, 'A');
    assert_eq!(ups[0].fg_r, 0xFF);
    assert_eq!(ups[0].fg_g, 0);
    assert_eq!(ups[0].fg_b, 0);
    assert_eq!(ups[0].bg_r, 0);
    assert_eq!(ups[0].bg_g, 0);
    assert_eq!(ups[0].bg_b, 0);
    // A second flush with no intervening write emits nothing.
    let again = s.flush();
    assert_eq!(again.len(), 0);
}

#[test]
fn diff_emits_one_command_per_changed_cell() {
    let mut s = Session::new();
    assert!(s.init_buffer(3, 1));
    assert!(s.write(0, 'x' as u64, 1, 2));
    assert!(s.write(2, 'y' as u64, 3, 4));
    let ups = s.flush();
    assert_eq!(ups.len(), 2);
    assert_eq!((ups[0].x, ups[0].y, ups[0].glyph), (0, 0, 'x'));
    assert_eq!((ups[1].x, ups[1].y, ups[1].glyph), (2, 0, 'y'));
}

#[test]
fn rewriting_same_record_is_not_a_change() {
    let mut s = Session::new();
    assert!(s.init_buffer(2, 2));
    assert!(s.write(1, 'q' as u64, 5, 6));
    assert_eq!(s.flush().len(), 1);
    // The same record again: the grids already agree on it.
    assert!(s.write(1, 'q' as u64, 5, 6));
    assert_eq!(s.flush().len(), 0);
}

#[test]
fn cursor_position_from_index() {
    let mut s = Session::new();
    assert!(s.init_buffer(4, 3));
    // Cell 7 of a 4-wide grid sits at column 3, row 1.
    assert!(s.write(7, 'z' as u64, 0, 0));
    let ups = s.flush();
    assert_eq!(ups.len(), 1);
    assert_eq!((ups[0].x, ups[0].y), (3, 1));
}

#[test]
fn invalid_codepoint_is_skipped() {
    let mut s = Session::new();
    assert!(s.init_buffer(3, 1));
    // A surrogate is not a displayable character: the cell is skipped.
    assert!(s.write(0, 0xD800, 0, 0));
    assert_eq!(s.flush().len(), 0);
    // A valid neighbour still comes through alone.
    assert!(s.write(1, 'b' as u64, 0, 0));
    assert!(s.write(2, 0x110000, 0, 0));
    let ups = s.flush();
    assert_eq!(ups.len(), 1);
    assert_eq!(ups[0].glyph, 'b');
}

#[test]
fn flush_before_init_is_a_no_op() {
    let mut s = Session::new();
    assert_eq!(s.flush().len(), 0);
    assert_eq!(s.get_width(), 0);
    assert_eq!(s.get_height(), 0);
    assert_eq!(s.get_buffer_len(), 0);
    assert_eq!(s.debug_buffer(0), 0);
    assert!(!s.write(0, 'a' as u64, 0, 0));
}

#[test]
fn init_rejects_area_beyond_capacity() {
    let mut s = Session::new();
    // 1000 * 1000 cells need three million words; capacity is two million.
    assert!(!s.init_buffer(1000, 1000));
    assert_eq!(s.get_width(), 0);
    assert_eq!(s.get_buffer_len(), 0);
    // A realistic size fits.
    assert!(s.init_buffer(811, 811));
    assert_eq!(s.get_width(), 811);
}

#[test]
fn write_rejects_index_beyond_capacity() {
    let mut s = Session::new();
    assert!(s.init_buffer(3, 1));
    assert!(s.write(BUFFER_CELLS - 1, 'a' as u64, 0, 0));
    assert!(!s.write(BUFFER_CELLS, 'a' as u64, 0, 0));
}

#[test]
fn size_update_changes_visible_area() {
    let mut s = Session::new();
    assert!(s.init_buffer(3, 1));
    assert!(s.update_terminal_size(5, 2));
    assert_eq!(s.get_width(), 5);
    assert_eq!(s.get_height(), 2);
    // Cell 9 is visible only under the new size.
    assert!(s.write(9, 'w' as u64, 0, 0));
    let ups = s.flush();
    assert_eq!(ups.len(), 1);
    assert_eq!((ups[0].x, ups[0].y), (4, 1));
    // Shrinking hides changes outside the visible area.
    assert!(s.write(9, 'v' as u64, 0, 0));
    assert!(s.update_terminal_size(2, 2));
    assert_eq!(s.flush().len(), 0);
    assert!(!s.update_terminal_size(1000, 1000));
    assert_eq!(s.get_width(), 2);
}

#[test]
fn debug_buffer_reads_written_words() {
    let mut s = Session::new();
    assert!(s.init_buffer(3, 1));
    assert!(s.write(0, 65, 7, 9));
    assert_eq!(s.debug_buffer(0), 65);
    assert_eq!(s.debug_buffer(1), 7);
    assert_eq!(s.debug_buffer(2), 9);
    assert_eq!(s.debug_buffer(3), 0);
    assert_eq!(s.debug_buffer(BUFFER_WORDS as u64), 0);
}

#[test]
fn buffer_reference_views_current_grid() {
    let mut s = Session::new();
    assert!(s.buffer_ref().is_none());
    assert!(s.init_buffer(3, 1));
    assert!(s.write(1, 42, 0, 0));
    let words = s.buffer_ref().unwrap();
    assert_eq!(words.len(), BUFFER_WORDS);
    assert_eq!(words[3], 42);
}

#[test]
fn free_buffer_releases_grids() {
    let mut s = Session::new();
    assert!(s.init_buffer(3, 1));
    assert!(s.write(0, 'a' as u64, 0, 0));
    s.free_buffer();
    assert_eq!(s.get_buffer_len(), 0);
    assert_eq!(s.flush().len(), 0);
    assert!(!s.write(0, 'a' as u64, 0, 0));
    // The recorded size survives a release, as in the boundary contract.
    assert_eq!(s.get_width(), 3);
}

#[test]
fn fresh_buffer_first_flush_is_empty() {
    let mut s = Session::new();
    assert!(s.init_buffer(10, 10));
    assert_eq!(s.flush().len(), 0);
}
