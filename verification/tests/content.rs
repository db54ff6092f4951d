use neomacs_display::colors::Color;
use neomacs_display::content::{RenderCell, RenderCursor, TerminalContent};
use neomacs_display::view::TerminalView;
use neomacs_display::TerminalMode;

#[test]
fn test_render_cell_creation() {
    let cell = RenderCell {
        col: 0,
        row: 0,
        c: 'A',
        fg: Color { r: 255, g: 255, b: 255 },
        bg: Color { r: 0, g: 0, b: 0 },
        wide: false,
    };
    assert_eq!(cell.c, 'A');
    assert_eq!(cell.col, 0);
}

#[test]
fn test_terminal_content_default() {
    let content = TerminalContent {
        cells: vec![],
        cols: 80,
        rows: 24,
        cursor: RenderCursor { col: 0, row: 0, visible: true },
        default_bg: Color { r: 0, g: 0, b: 0 },
        default_fg: Color { r: 255, g: 255, b: 255 },
    };
    assert_eq!(content.cols, 80);
    assert_eq!(content.rows, 24);
    assert!(content.cursor.visible);
}

#[test]
fn test_fresh_session_snapshot() {
    let mut view = TerminalView::new(1, 80, 24, TerminalMode::Window);
    assert!(view.update_content());
    let content = view.content().expect("snapshot after update");
    assert_eq!(content.cols, 80);
    assert_eq!(content.rows, 24);
    // A fresh grid has no spacers, so every cell is extracted, blank.
    assert_eq!(content.cells.len(), 80 * 24);
    assert!(content.cells.iter().all(|c| c.c == ' '));
    assert!(content.cursor.visible);
    assert_eq!(content.cursor.col, 0);
    assert_eq!(content.cursor.row, 0);
}

#[test]
fn test_hello_roundtrip() {
    let mut view = TerminalView::new(2, 80, 24, TerminalMode::Window);
    view.process_output(b"hello\n");
    assert_eq!(view.get_text(0, 0, 0, 4), "hello");
}

#[test]
fn test_snapshot_reflects_output() {
    let mut view = TerminalView::new(3, 80, 24, TerminalMode::Window);
    view.process_output(b"hi");
    assert!(view.update_content());
    let content = view.content().expect("snapshot after update");
    let at = |col: usize, row: usize| {
        content
            .cells
            .iter()
            .find(|c| c.col == col && c.row == row)
            .expect("cell present")
    };
    assert_eq!(at(0, 0).c, 'h');
    assert_eq!(at(1, 0).c, 'i');
    assert_eq!(content.cursor.col, 2);
    assert_eq!(content.cursor.row, 0);
}

#[test]
fn test_wide_char_has_no_continuation_cell() {
    let mut view = TerminalView::new(4, 80, 24, TerminalMode::Window);
    view.process_output("日x".as_bytes());
    assert!(view.update_content());
    let content = view.content().expect("snapshot after update");
    let wide = content
        .cells
        .iter()
        .find(|c| c.col == 0 && c.row == 0)
        .expect("wide cell present");
    assert_eq!(wide.c, '日');
    assert!(wide.wide);
    // The spacer at column 1 is omitted entirely.
    assert!(!content.cells.iter().any(|c| c.col == 1 && c.row == 0));
    // The next glyph sits at column 2.
    let next = content
        .cells
        .iter()
        .find(|c| c.col == 2 && c.row == 0)
        .expect("next cell present");
    assert_eq!(next.c, 'x');
    // Extracted text carries the wide character once, with no gap.
    assert_eq!(view.get_text(0, 0, 0, 2), "日x");
}

#[test]
fn test_get_text_trims_trailing_keeps_interior() {
    let mut view = TerminalView::new(5, 80, 24, TerminalMode::Window);
    view.process_output(b"  a b  \r\nxy");
    assert_eq!(view.get_text(0, 0, 0, 79), "  a b");
    assert_eq!(view.get_text(0, 0, 1, 1), "  a b\nxy");
}

#[test]
fn test_get_text_region_bounds() {
    let mut view = TerminalView::new(6, 80, 24, TerminalMode::Window);
    view.process_output(b"abcdef\r\nsecond");
    // A middle slice of the first row.
    assert_eq!(view.get_text(0, 1, 0, 3), "bcd");
    // A region past the last column trims to the row's content.
    assert_eq!(view.get_text(0, 0, 0, 200), "abcdef");
    // A reversed region is empty.
    assert_eq!(view.get_text(1, 0, 0, 5), "");
}

#[test]
fn test_get_visible_text() {
    let mut view = TerminalView::new(7, 10, 3, TerminalMode::Window);
    view.process_output(b"one\r\ntwo");
    assert_eq!(view.get_visible_text(), "one\ntwo\n");
}

#[test]
fn test_sgr_color_resolution() {
    let mut view = TerminalView::new(8, 80, 24, TerminalMode::Window);
    // SGR 31: red foreground; SGR 0: reset.
    view.process_output(b"\x1b[31mr\x1b[0mn");
    assert!(view.update_content());
    let content = view.content().expect("snapshot after update");
    let red = content
        .cells
        .iter()
        .find(|c| c.col == 0 && c.row == 0)
        .expect("red cell present");
    assert_eq!(red.c, 'r');
    assert_eq!(red.fg, Color { r: 205, g: 0, b: 0 });
    let plain = content
        .cells
        .iter()
        .find(|c| c.col == 1 && c.row == 0)
        .expect("plain cell present");
    assert_eq!(plain.c, 'n');
    // Unstyled cells resolve to the snapshot defaults.
    assert_eq!(plain.fg, Color { r: 255, g: 255, b: 255 });
    assert_eq!(plain.bg, Color { r: 0, g: 0, b: 0 });
}

#[test]
fn test_cursor_visibility_follows_mode() {
    let mut view = TerminalView::new(9, 80, 24, TerminalMode::Window);
    // DECTCEM reset: hide the cursor.
    view.process_output(b"\x1b[?25l");
    assert!(view.update_content());
    assert!(!view.content().expect("snapshot").cursor.visible);
    // DECTCEM set: show it again.
    view.process_output(b"\x1b[?25h");
    assert!(view.update_content());
    assert!(view.content().expect("snapshot").cursor.visible);
}
