//! Behavior of the line buffer: appends, wrapping, and visible lines.

use text_console::buffer::CharBuffer;
use text_console::{COLS, ROWS};

#[test]
fn new_console_shows_one_empty_line() {
    let buf = CharBuffer::new();
    let lines = buf.lines();
    assert_eq!(lines.len(), 1);
    assert_eq!(lines[0].len(), 0);
    assert_eq!(lines[0].text(), Vec::<u8>::new());
}

#[test]
fn appended_bytes_fill_the_current_line() {
    let mut buf = CharBuffer::new();
    buf.add(b'a');
    buf.add(b'b');
    let lines = buf.lines();
    assert_eq!(lines.len(), 1);
    assert_eq!(lines[0].text(), vec![b'a', b'b']);
}

#[test]
fn newline_defers_the_advance() {
    let mut buf = CharBuffer::new();
    buf.write_str("ab\n");
    let lines = buf.lines();
    assert_eq!(lines.len(), 1);
    assert_eq!(lines[0].text(), vec![b'a', b'b']);

    buf.add(b'c');
    let lines = buf.lines();
    assert_eq!(lines.len(), 2);
    assert_eq!(lines[0].text(), vec![b'a', b'b']);
    assert_eq!(lines[1].text(), vec![b'c']);
}

#[test]
fn tab_matches_four_spaces() {
    let mut with_tab = CharBuffer::new();
    with_tab.add(b'x');
    with_tab.add(b'\t');

    let mut with_spaces = CharBuffer::new();
    with_spaces.add(b'x');
    for _ in 0..4 {
        with_spaces.add(b' ');
    }

    let a = with_tab.lines();
    let b = with_spaces.lines();
    assert_eq!(a.len(), b.len());
    for (la, lb) in a.iter().zip(b.iter()) {
        assert_eq!(la.text(), lb.text());
    }
    assert_eq!(a[0].len(), 5);
}

#[test]
fn tab_honours_a_pending_newline() {
    let mut buf = CharBuffer::new();
    buf.write_str("x\n\t");
    let lines = buf.lines();
    assert_eq!(lines.len(), 2);
    assert_eq!(lines[0].text(), vec![b'x']);
    assert_eq!(lines[1].text(), vec![b' '; 4]);
}

#[test]
fn long_input_soft_wraps_at_cols() {
    let mut buf = CharBuffer::new();
    for _ in 0..(COLS + 5) {
        buf.add(b'a');
    }
    let lines = buf.lines();
    assert_eq!(lines.len(), 2);
    assert_eq!(lines[0].len(), COLS);
    assert_eq!(lines[1].len(), 5);
}

#[test]
fn no_line_ever_exceeds_cols_and_no_view_exceeds_rows() {
    let mut buf = CharBuffer::new();
    for i in 0..2000u32 {
        let b = (i % 256) as u8;
        buf.add(b);
    }
    let lines = buf.lines();
    assert!(lines.len() <= ROWS);
    for line in &lines {
        assert!(line.len() <= COLS);
    }
}

#[test]
fn wrap_discards_the_oldest_line() {
    let mut buf = CharBuffer::new();
    for i in 0..ROWS {
        buf.write_str(&format!("line{:02}\n", i));
    }
    buf.write_str(&format!("line{:02}", ROWS));

    let lines = buf.lines();
    assert_eq!(lines.len(), ROWS);
    for (k, line) in lines.iter().enumerate() {
        let expected = format!("line{:02}", k + 1);
        assert_eq!(line.text(), expected.as_bytes().to_vec());
    }
}

#[test]
fn advance_opens_a_fresh_line() {
    let mut buf = CharBuffer::new();
    buf.add(b'a');
    buf.advance();
    let lines = buf.lines();
    assert_eq!(lines.len(), 2);
    assert_eq!(lines[0].text(), vec![b'a']);
    assert_eq!(lines[1].len(), 0);
}

#[test]
fn current_line_tracks_the_newest_line() {
    let mut buf = CharBuffer::new();
    assert_eq!(buf.current_line().len(), 0);
    buf.add(b'a');
    buf.add(b'b');
    assert_eq!(buf.current_line().text(), vec![b'a', b'b']);
    buf.write_str("c\nd");
    assert_eq!(buf.current_line().text(), vec![b'd']);
}

#[test]
fn sentinel_byte_occupies_a_cell() {
    let mut buf = CharBuffer::new();
    buf.add(0);
    let lines = buf.lines();
    assert_eq!(lines.len(), 1);
    assert_eq!(lines[0].text(), vec![0u8]);
}

#[test]
fn write_str_reduces_wide_scalars() {
    let mut buf = CharBuffer::new();
    buf.write_str("a\u{e9}\u{20ac}");
    let lines = buf.lines();
    assert_eq!(lines[0].text(), vec![b'a', 0xe9, 0]);
}

#[test]
fn ring_reuses_storage_after_many_lines() {
    let mut buf = CharBuffer::new();
    for i in 0..(3 * ROWS + 4) {
        buf.write_str(&format!("{}\n", i));
        buf.add(b'!');
        buf.write_str("\n");
    }
    let lines = buf.lines();
    assert_eq!(lines.len(), ROWS);
    assert_eq!(lines[ROWS - 1].text(), vec![b'!']);
}
