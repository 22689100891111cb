use textedit::render::{left_margin, render, render_quit, FrameBuffer};
use textedit::screen::{CursorPos, ScreenSize};

fn expected_frame(rows: usize, banner_line: Option<(usize, &[u8])>, cursor: &[u8]) -> Vec<u8> {
    let mut v = b"\x1b[?25l\x1b[H".to_vec();
    for r in 0..rows {
        v.extend_from_slice(b"~\x1b[K");
        if let Some((margin, text)) = banner_line {
            if r == rows / 3 {
                v.extend(std::iter::repeat(b' ').take(margin));
                v.extend_from_slice(text);
            }
        }
        if r + 1 < rows {
            v.extend_from_slice(b"\r\n");
        }
    }
    v.extend_from_slice(cursor);
    v.extend_from_slice(b"\x1b[?25h");
    v
}

#[test]
fn frame_of_24_by_80_at_origin() {
    let mut fb = FrameBuffer::new();
    render(&mut fb, ScreenSize { rows: 24, cols: 80 }, CursorPos { x: 0, y: 0 }, &[]);
    let bytes = fb.as_bytes().to_vec();
    assert_eq!(bytes, expected_frame(24, None, b"\x1b[1;1H"));
    assert_eq!(bytes.iter().filter(|&&b| b == b'~').count(), 24);
    assert_eq!(bytes.windows(4).filter(|w| w == b"~\x1b[K").count(), 24);
    assert_eq!(bytes.windows(2).filter(|w| w == b"\r\n").count(), 23);
    assert!(bytes.ends_with(b"\x1b[1;1H\x1b[?25h"));
}

#[test]
fn frame_places_cursor_one_indexed() {
    let mut fb = FrameBuffer::new();
    render(&mut fb, ScreenSize { rows: 2, cols: 120 }, CursorPos { x: 104, y: 1 }, &[]);
    assert_eq!(fb.as_bytes().to_vec(), expected_frame(2, None, b"\x1b[2;105H"));
}

#[test]
fn single_row_frame_has_no_separator() {
    let mut fb = FrameBuffer::new();
    render(&mut fb, ScreenSize { rows: 1, cols: 1 }, CursorPos { x: 0, y: 0 }, &[]);
    assert_eq!(fb.as_bytes().to_vec(), b"\x1b[?25l\x1b[H~\x1b[K\x1b[1;1H\x1b[?25h".to_vec());
}

#[test]
fn banner_on_row_eight_of_24() {
    let banner = b"Welcome to textedit";
    assert_eq!(left_margin(80, banner.len()), 29);
    let mut fb = FrameBuffer::new();
    render(&mut fb, ScreenSize { rows: 24, cols: 80 }, CursorPos { x: 0, y: 0 }, banner);
    let bytes = fb.as_bytes().to_vec();
    assert_eq!(bytes, expected_frame(24, Some((29, banner)), b"\x1b[1;1H"));
    let body = &bytes[b"\x1b[?25l\x1b[H".len()..];
    let rows: Vec<&[u8]> = body.split(|&b| b == b'\n').collect();
    let mut line = b"~\x1b[K".to_vec();
    line.extend(std::iter::repeat(b' ').take(29));
    line.extend_from_slice(banner);
    line.push(b'\r');
    assert_eq!(rows[8], line.as_slice());
}

#[test]
fn banner_margin_is_stable() {
    let banner = b"Welcome to textedit";
    let mut a = FrameBuffer::new();
    let mut b = FrameBuffer::new();
    let size = ScreenSize { rows: 24, cols: 80 };
    render(&mut a, size, CursorPos { x: 0, y: 0 }, banner);
    render(&mut b, size, CursorPos { x: 0, y: 0 }, banner);
    assert_eq!(a.as_bytes(), b.as_bytes());
}

#[test]
fn banner_margin_edge_cases() {
    assert_eq!(left_margin(81, 19), 30);
    assert_eq!(left_margin(21, 19), 0);
    assert_eq!(left_margin(20, 19), 0);
    assert_eq!(left_margin(10, 19), 0);
    assert_eq!(left_margin(0, 0), 0);
}

#[test]
fn frame_buffer_appends_and_clears() {
    let mut fb = FrameBuffer::new();
    fb.print(b"ab");
    fb.print(b"");
    fb.print(b"c");
    fb.print_decimal(0);
    fb.print_decimal(1907);
    fb.print_spaces(2);
    assert_eq!(fb.as_bytes(), b"abc01907  ");
    fb.clear();
    assert_eq!(fb.as_bytes(), b"");
    render_quit(&mut fb);
    assert_eq!(fb.as_bytes(), b"\x1b[2J\x1b[H");
}
