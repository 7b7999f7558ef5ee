use solito::screen::buffer::ScreenBuffer;
use solito::screen::cell::{CellStyle, ScreenCell};
use solito::screen::sgr::{apply, ansi_256_color, cube_component};
use solito::size::TerminalSize;
use solito::width::cell_width;

fn terminal_size() -> TerminalSize {
    TerminalSize { cols: 120, rows: 80 }
}

fn cell(c: char) -> ScreenCell {
    ScreenCell::new(c, CellStyle::default())
}

fn init_buffer() -> ScreenBuffer {
    let mut buffer = ScreenBuffer::new(terminal_size());
    for ch in 'A'..='Z' {
        buffer.lines[0].push(cell(ch));
    }
    buffer
}

#[test]
fn insert_cell_to_buffer() {
    let mut buf = init_buffer();
    assert_eq!(buf.lines[0][0].ch, 'A');

    buf.insert_cell(0, 0, cell('a'));
    assert_eq!(buf.lines[0][0].ch, 'a');
    assert_eq!(buf.lines[0][1].ch, 'A');
    assert_eq!(buf.lines[0][buf.line_len(0) - 1].ch, 'Z');
    assert_eq!(buf.lines[0].len(), 27);
}

#[test]
fn replace_cell_for_buffer() {
    let mut buf = init_buffer();
    assert_eq!(buf.lines[0][0].ch, 'A');
    assert_eq!(buf.lines[0].len(), 26);

    buf.replace_cell(0, 0, cell('a'));
    assert_eq!(buf.lines[0][0].ch, 'a');
    assert_eq!(buf.lines[0].len(), 26);
    assert_eq!(buf.lines[0][1].ch, 'B');
}

#[test]
fn push_cell_to_buffer() {
    let mut buf = init_buffer();
    assert_eq!(buf.lines[0][0].ch, 'A');
    assert_eq!(buf.lines[0].len(), 26);
    assert_eq!(buf.lines[0][buf.line_len(0) - 1].ch, 'Z');

    buf.push_cell(0, cell('a'));
    assert_eq!(buf.lines[0][0].ch, 'A');
    assert_eq!(buf.lines[0].len(), 27);
    assert_eq!(buf.lines[0][buf.line_len(0) - 1].ch, 'a');
}

#[test]
fn truncate_buffer() {
    let mut buf = init_buffer();
    assert_eq!(buf.line_len(0), 26);

    buf.truncate_line(0, 1);
    assert_eq!(buf.line_len(0), 1);
    assert_eq!(buf.lines[0][0].ch, 'A');
}

#[test]
fn applies_ansi_and_resets_foreground() {
    let mut style = CellStyle::default();

    apply(&mut style, &[31]);
    assert_eq!(style.fg_rgba, Some([197, 15, 31, 255]));

    apply(&mut style, &[39]);
    assert_eq!(style.fg_rgba, None);
}

#[test]
fn applies_indexed_foreground() {
    let mut style = CellStyle::default();

    apply(&mut style, &[38, 5, 196]);

    assert_eq!(style.fg_rgba, Some([255, 0, 0, 255]));
}

#[test]
fn applies_true_color_foreground() {
    let mut style = CellStyle::default();

    apply(&mut style, &[38, 2, 12, 34, 56]);

    assert_eq!(style.fg_rgba, Some([12, 34, 56, 255]));
}

#[test]
fn dimensions_are_never_zero() {
    assert_eq!(TerminalSize::new(0, 0), TerminalSize { cols: 1, rows: 1 });
}

#[test]
fn gray_ramp_and_cube_colors() {
    assert_eq!(cube_component(0), 0);
    assert_eq!(cube_component(1), 95);
    assert_eq!(cube_component(5), 255);
    assert_eq!(ansi_256_color(232), [8, 8, 8, 255]);
    assert_eq!(ansi_256_color(16), [0, 0, 0, 255]);
}

#[test]
fn cell_widths_of_narrow_wide_and_control_characters() {
    assert_eq!(cell_width('A'), 1);
    assert_eq!(cell_width('あ'), 2);
    assert_eq!(cell_width('\u{7}'), 1);
}

#[test]
fn zero_sizes_count_as_one() {
    let mut screen = solito::screen::editor::Screen::new(TerminalSize { cols: 0, rows: 0 });
    screen.put_char('a');
    screen.put_char('b');
    let snapshot = screen.snapshot();
    assert_eq!(snapshot.lines.len(), 2);
    assert_eq!(snapshot.lines[0][0].ch, 'a');
    assert_eq!(snapshot.lines[1][0].ch, 'b');
    assert_eq!((snapshot.cursor_row, snapshot.cursor_col), (1, 0));

    screen.resize(TerminalSize { cols: 0, rows: 5 });
    screen.put_char('c');
    let snapshot = screen.snapshot();
    assert_eq!(snapshot.lines[2][0].ch, 'c');

    let buffer = ScreenBuffer::new(TerminalSize { cols: 3, rows: 0 });
    assert_eq!((buffer.cols(), buffer.rows()), (3, 1));
}
