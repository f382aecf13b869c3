use relay_console::terminal::{
    cell_or_blank, clamp, is_supported_size, CellView, Color, ScreenView, Terminal, MAX_COLS,
    MIN_COLS, MIN_ROWS,
};

fn terminal(rows: u16, cols: u16) -> Terminal {
    Terminal::new(rows, cols).expect("a supported size")
}

fn fed(rows: u16, cols: u16, chunks: &[&[u8]]) -> ScreenView {
    let mut term = terminal(rows, cols);
    for chunk in chunks {
        term.feed(chunk);
    }
    term.snapshot()
}

#[test]
fn new_terminal_is_blank_with_cursor_at_home() {
    let term = terminal(24, 80);
    assert_eq!(term.size(), (24, 80));
    assert_eq!(term.cursor(), (0, 0));
    assert_eq!(term.cell(0, 0), CellView::blank());
    assert_eq!(term.cell(23, 79), CellView::blank());
}

#[test]
fn new_refuses_unsupported_sizes() {
    assert!(Terminal::new(0, 80).is_none());
    assert!(Terminal::new(1, 80).is_none());
    assert!(Terminal::new(24, 0).is_none());
    assert!(Terminal::new(24, 1).is_none());
    assert!(Terminal::new(24, 65528).is_none());
    assert!(Terminal::new(24, 65535).is_none());
    assert!(Terminal::new(0, 0).is_none());
    assert!(Terminal::new(2, 2).is_some());
    assert!(Terminal::new(20, 80).is_some());
    assert!(Terminal::new(65535, 2).is_some());
    assert!(is_supported_size(2, 65527));
    assert!(!is_supported_size(1, 2));
    assert_eq!((MIN_ROWS, MIN_COLS, MAX_COLS), (2, 2, 65527));
}

#[test]
fn blank_cell_has_no_text_and_default_attributes() {
    let blank = CellView::blank();
    assert_eq!(blank.text, "");
    assert!(!blank.bold && !blank.italic && !blank.underline && !blank.inverse);
    assert_eq!(blank.fg, Color::Default);
    assert_eq!(blank.bg, Color::Default);
}

#[test]
fn letter_then_carriage_return_and_line_feed() {
    let mut term = terminal(24, 80);
    term.feed(b"A");
    term.feed(b"\r\n");
    assert_eq!(term.cursor(), (1, 0));
    assert_eq!(term.cell(0, 0).text, "A");
    let view = term.snapshot();
    assert_eq!((view.cursor_row, view.cursor_col), (1, 0));
    assert_eq!(view.cells[0][0].text, "A");
    assert_eq!(view.cells[1][0].text, "");
}

#[test]
fn printable_bytes_advance_the_cursor() {
    let mut term = terminal(24, 80);
    term.feed(b"hello");
    assert_eq!(term.cursor(), (0, 5));
    assert_eq!(term.cell(0, 0).text, "h");
    assert_eq!(term.cell(0, 4).text, "o");
    assert_eq!(term.cell(0, 5).text, "");
}

#[test]
fn backspace_moves_the_cursor_left() {
    let mut term = terminal(24, 80);
    term.feed(b"ab\x08");
    assert_eq!(term.cursor(), (0, 1));
    term.feed(b"c");
    assert_eq!(term.cell(0, 0).text, "a");
    assert_eq!(term.cell(0, 1).text, "c");
}

#[test]
fn text_wraps_at_the_last_column() {
    let mut term = terminal(4, 5);
    term.feed(b"abcdefg");
    assert_eq!(term.cell(0, 4).text, "e");
    assert_eq!(term.cell(1, 0).text, "f");
    assert_eq!(term.cell(1, 1).text, "g");
    assert_eq!(term.cursor(), (1, 2));
}

#[test]
fn cursor_positioning_sequence_is_applied() {
    let mut term = terminal(24, 80);
    term.feed(b"\x1b[5;10HZ");
    assert_eq!(term.cell(4, 9).text, "Z");
    assert_eq!(term.cursor(), (4, 10));
}

#[test]
fn clear_screen_sequence_blanks_the_grid() {
    let mut term = terminal(24, 80);
    term.feed(b"junk\x1b[2J");
    assert_eq!(term.cell(0, 0).text, "");
    assert_eq!(term.cell(0, 3).text, "");
}

#[test]
fn attributes_are_copied_out() {
    let mut term = terminal(24, 80);
    term.feed(b"\x1b[31mR\x1b[0m\x1b[1mB\x1b[0m\x1b[4;7;3;42mU\x1b[0m\x1b[38;2;1;2;3mT");
    let red = term.cell(0, 0);
    assert_eq!(red.text, "R");
    assert_eq!(red.fg, Color::Idx(1));
    assert_eq!(red.bg, Color::Default);
    assert!(!red.bold);
    let bold = term.cell(0, 1);
    assert!(bold.bold);
    assert_eq!(bold.fg, Color::Default);
    let mixed = term.cell(0, 2);
    assert!(mixed.underline && mixed.inverse && mixed.italic && !mixed.bold);
    assert_eq!(mixed.bg, Color::Idx(2));
    let truecolor = term.cell(0, 3);
    assert_eq!(truecolor.fg, Color::Rgb(1, 2, 3));
}

#[test]
fn cell_outside_the_grid_is_blank() {
    let mut term = terminal(4, 5);
    term.feed(b"abc");
    assert_eq!(term.cell(4, 0), CellView::blank());
    assert_eq!(term.cell(0, 5), CellView::blank());
    assert_eq!(term.cell(1000, 1000), CellView::blank());
}

#[test]
fn snapshot_has_every_cell_of_the_grid() {
    let mut term = terminal(3, 4);
    term.feed(b"hi\r\nyo");
    let view = term.snapshot();
    assert_eq!((view.rows, view.cols), (3, 4));
    assert_eq!(view.cells.len(), 3);
    for row in &view.cells {
        assert_eq!(row.len(), 4);
    }
    assert_eq!(view.cells[0][0].text, "h");
    assert_eq!(view.cells[0][1].text, "i");
    assert_eq!(view.cells[1][0].text, "y");
    assert_eq!(view.cells[1][1].text, "o");
    assert_eq!(view.cells[2][3], CellView::blank());
    assert_eq!((view.cursor_row, view.cursor_col), (1, 2));
    assert_eq!(term.row(1), view.cells[1]);
}

#[test]
fn snapshot_is_a_copy_that_later_input_does_not_change() {
    let mut term = terminal(3, 4);
    term.feed(b"a");
    let before = term.snapshot();
    term.feed(b"b");
    assert_eq!(before.cells[0][1].text, "");
    assert_eq!(term.snapshot().cells[0][1].text, "b");
    assert_ne!(before, term.snapshot());
}

#[test]
fn chunking_does_not_change_the_screen() {
    let stream: &[u8] = b"ab\x1b[31mcd\r\n\x1b[2;5Hxy\xe2\x82\xac!\x1b[1mbold\x1b[0m\x08\x08q\ttab";
    let whole = fed(6, 20, &[stream]);
    let bytewise: Vec<&[u8]> = stream.chunks(1).collect();
    assert_eq!(fed(6, 20, &bytewise), whole);
    for size in 2..stream.len() {
        let chunks: Vec<&[u8]> = stream.chunks(size).collect();
        assert_eq!(fed(6, 20, &chunks), whole);
    }
    for cut in 0..=stream.len() {
        assert_eq!(fed(6, 20, &[&stream[..cut], &stream[cut..]]), whole);
    }
}

#[test]
fn control_sequence_split_across_chunks_is_carried_over() {
    let mut term = terminal(24, 80);
    term.feed(b"\x1b[3");
    assert_eq!(term.cursor(), (0, 0));
    term.feed(b"1");
    term.feed(b"mR");
    assert_eq!(term.cell(0, 0).text, "R");
    assert_eq!(term.cell(0, 0).fg, Color::Idx(1));
    assert_eq!(term.cursor(), (0, 1));
}

#[test]
fn empty_chunk_changes_nothing() {
    let mut term = terminal(24, 80);
    term.feed(b"abc");
    let before = term.snapshot();
    term.feed(b"");
    assert_eq!(term.snapshot(), before);
}

#[test]
fn unknown_sequence_between_printable_runs_is_skipped() {
    let mut term = terminal(24, 80);
    term.feed(b"X\x1b[999zY");
    assert_eq!(term.cell(0, 0).text, "X");
    assert_eq!(term.cell(0, 1).text, "Y");
    assert_eq!(term.cursor(), (0, 2));
}

#[test]
fn cancelled_sequence_between_printable_runs_is_skipped() {
    let mut term = terminal(24, 80);
    term.feed(b"X\x1b[12;\x18Y");
    assert_eq!(term.cell(0, 0).text, "X");
    assert_eq!(term.cell(0, 1).text, "Y");
    term.feed(b"\x1b[?77777hZ");
    assert_eq!(term.cell(0, 2).text, "Z");
    assert_eq!(term.cursor(), (0, 3));
}

#[test]
fn cursor_past_the_last_column_is_reported_on_it() {
    let mut term = terminal(24, 80);
    term.feed(&[b'a'; 80]);
    assert_eq!(term.cursor(), (0, 79));
    assert_eq!(term.parser().screen().cursor_position(), (0, 80));
    term.feed(b"b");
    assert_eq!(term.cursor(), (1, 1));
    assert_eq!(term.cell(1, 0).text, "b");
}

#[test]
fn clamp_brings_a_position_inside() {
    assert_eq!(clamp((0, 0), 24, 80), (0, 0));
    assert_eq!(clamp((23, 79), 24, 80), (23, 79));
    assert_eq!(clamp((0, 80), 24, 80), (0, 79));
    assert_eq!(clamp((24, 5), 24, 80), (23, 5));
    assert_eq!(clamp((65535, 65535), 2, 2), (1, 1));
    assert_eq!(clamp((7, 7), 1, 1), (0, 0));
    assert_eq!(clamp((7, 7), 0, 0), (0, 0));
    assert_eq!(clamp((7, 7), 0, 9), (0, 7));
}

#[test]
fn absent_cell_is_shown_blank() {
    assert_eq!(cell_or_blank(None), CellView::blank());
    let cell = CellView { text: "x".to_string(), bold: true, ..CellView::blank() };
    assert_eq!(cell_or_blank(Some(cell.clone())), cell);
}

#[test]
fn resize_to_fewer_columns_keeps_the_cursor_inside() {
    let mut term = terminal(24, 80);
    term.feed(&[b'a'; 50]);
    assert_eq!(term.cursor(), (0, 50));
    assert!(term.resize(24, 10));
    assert_eq!(term.size(), (24, 10));
    let (row, col) = term.cursor();
    assert!(row < 24 && col < 10);
    assert_eq!((row, col), (4, 9));
    let view = term.snapshot();
    assert_eq!((view.rows, view.cols), (24, 10));
    assert_eq!((view.cursor_row, view.cursor_col), (4, 9));
    assert_eq!(view.cells[0].len(), 10);
    for row in 0..5 {
        for col in 0..10 {
            assert_eq!(view.cells[row][col].text, "a");
        }
    }
    assert_eq!(view.cells[5][0].text, "");
}

#[test]
fn resize_to_fewer_rows_keeps_the_cursor_inside() {
    let mut term = terminal(24, 80);
    term.feed(b"\x1b[20;1H");
    assert_eq!(term.cursor(), (19, 0));
    assert!(term.resize(5, 80));
    assert_eq!(term.cursor(), (4, 0));
    assert_eq!(term.snapshot().cells.len(), 5);
}

#[test]
fn resize_lays_the_output_out_as_if_it_had_always_had_that_size() {
    let stream: &[u8] = b"one two three four five six\r\n\x1b[31mred\x1b[0m\ttab\x1b[3;2Hx";
    let mut resized = terminal(24, 80);
    resized.feed(stream);
    assert!(resized.resize(4, 7));
    let mut born = terminal(4, 7);
    born.feed(stream);
    assert_eq!(resized.snapshot(), born.snapshot());
    assert_eq!(resized.cursor(), born.cursor());
}

#[test]
fn resize_and_feed_commute() {
    let mut first = terminal(5, 9);
    first.feed(b"abc");
    assert!(first.resize(3, 4));
    first.feed(b"defgh\x1b[1mi");
    let mut second = terminal(5, 9);
    second.feed(b"abc");
    second.feed(b"defgh\x1b[1mi");
    assert!(second.resize(3, 4));
    assert_eq!(first.snapshot(), second.snapshot());
}

#[test]
fn resize_back_restores_the_screen() {
    let mut term = terminal(6, 20);
    term.feed(b"a long line that fills the first row and more\r\nend");
    let before = term.snapshot();
    assert!(term.resize(2, 3));
    assert_ne!(term.snapshot(), before);
    assert!(term.resize(6, 20));
    assert_eq!(term.snapshot(), before);
}

#[test]
fn resize_to_more_columns_keeps_content() {
    let mut term = terminal(4, 5);
    term.feed(b"abc");
    assert!(term.resize(6, 12));
    assert_eq!(term.size(), (6, 12));
    assert_eq!(term.cell(0, 0).text, "a");
    assert_eq!(term.cell(0, 2).text, "c");
    assert_eq!(term.cursor(), (0, 3));
    assert_eq!(term.cell(5, 11), CellView::blank());
}

#[test]
fn resize_refuses_unsupported_sizes_and_changes_nothing() {
    let mut term = terminal(4, 5);
    term.feed(b"abc");
    let before = term.snapshot();
    assert!(!term.resize(0, 5));
    assert!(!term.resize(1, 5));
    assert!(!term.resize(4, 1));
    assert!(!term.resize(4, 65528));
    assert_eq!(term.size(), (4, 5));
    assert_eq!(term.snapshot(), before);
}

#[test]
fn feeding_after_a_resize_uses_the_new_width() {
    let mut term = terminal(4, 10);
    assert!(term.resize(4, 3));
    term.feed(b"abcd");
    assert_eq!(term.cell(0, 2).text, "c");
    assert_eq!(term.cell(1, 0).text, "d");
}

#[test]
fn restoring_a_cursor_saved_before_a_smaller_size_is_harmless() {
    let mut term = terminal(24, 80);
    term.feed(b"\x1b[20;70H\x1b7");
    assert!(term.resize(3, 5));
    term.feed(b"\x1b8after");
    let (row, col) = term.cursor();
    assert!(row < 3 && col < 5);
}

#[test]
fn parser_shows_what_the_terminal_shows() {
    let mut term = terminal(4, 10);
    term.feed(b"ok");
    assert_eq!(term.parser().screen().contents(), "ok");
    assert_eq!(term.parser().screen().cursor_position(), term.cursor());
}
