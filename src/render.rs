use vstd::prelude::*;

use crate::screen::{CursorPos, ScreenSize};

verus! {

/// `ESC [ ? 25 l`: hide the cursor.
pub open spec fn hide_cursor_code() -> Seq<u8> {
    seq![0x1bu8, 0x5bu8, 0x3fu8, 0x32u8, 0x35u8, 0x6cu8]
}

/// `ESC [ ? 25 h`: show the cursor.
pub open spec fn show_cursor_code() -> Seq<u8> {
    seq![0x1bu8, 0x5bu8, 0x3fu8, 0x32u8, 0x35u8, 0x68u8]
}

/// `ESC [ 2 J`: erase the whole display.
pub open spec fn clear_screen_code() -> Seq<u8> {
    seq![0x1bu8, 0x5bu8, 0x32u8, 0x4au8]
}

/// `ESC [ K`: erase from the cursor to the end of the line.
pub open spec fn clear_line_code() -> Seq<u8> {
    seq![0x1bu8, 0x5bu8, 0x4bu8]
}

/// `ESC [ H`: cursor to row 1, column 1.
pub open spec fn cursor_home_code() -> Seq<u8> {
    seq![0x1bu8, 0x5bu8, 0x48u8]
}

/// The marker at the start of each row.
pub open spec fn row_marker() -> Seq<u8> {
    seq![0x7eu8]
}

/// Carriage return and newline, between two rows.
pub open spec fn row_separator() -> Seq<u8> {
    seq![0x0du8, 0x0au8]
}

/// The decimal digits of `n`, most significant first, without leading zeros.
pub open spec fn decimal(n: nat) -> Seq<u8>
    decreases n,
{
    if n < 10 {
        seq![(0x30 + n) as u8]
    } else {
        decimal(n / 10).push((0x30 + n % 10) as u8)
    }
}

/// `ESC [ row ; col H`: cursor to the 1-indexed `row` and `col`.
pub open spec fn cursor_to_code(row: nat, col: nat) -> Seq<u8> {
    seq![0x1bu8, 0x5bu8] + decimal(row) + seq![0x3bu8] + decimal(col) + seq![0x48u8]
}

/// `n` spaces.
pub open spec fn spaces(n: nat) -> Seq<u8> {
    Seq::new(n, |i: int| 0x20u8)
}

/// The banner's left margin on a row of `cols` columns: half the free
/// columns, less the one that the row marker takes; zero when the banner
/// leaves fewer than two columns free.
pub open spec fn banner_margin(cols: nat, len: nat) -> nat {
    if cols >= len + 2 {
        ((cols - len) / 2 - 1) as nat
    } else {
        0
    }
}

/// The row that holds the banner.
pub open spec fn banner_row(size: ScreenSize) -> nat {
    (size.rows / 3) as nat
}

/// Row `r` of a frame: the marker, a line clear, the banner when `r` is the
/// banner row and a banner is set, and a separator unless `r` is the last row.
pub open spec fn row_spec(size: ScreenSize, banner: Seq<u8>, r: nat) -> Seq<u8> {
    row_marker() + clear_line_code() + (if banner.len() > 0 && r == banner_row(size) {
        spaces(banner_margin(size.cols as nat, banner.len())) + banner
    } else {
        Seq::empty()
    }) + (if r + 1 < size.rows {
        row_separator()
    } else {
        Seq::empty()
    })
}

/// The first `n` rows of a frame.
pub open spec fn rows_spec(size: ScreenSize, banner: Seq<u8>, n: nat) -> Seq<u8>
    decreases n,
{
    if n == 0 {
        Seq::empty()
    } else {
        rows_spec(size, banner, (n - 1) as nat) + row_spec(size, banner, (n - 1) as nat)
    }
}

/// A whole frame: cursor hidden and sent home, every row, the cursor placed
/// at its 1-indexed cell, cursor shown.
pub open spec fn frame_spec(size: ScreenSize, cursor: CursorPos, banner: Seq<u8>) -> Seq<u8> {
    hide_cursor_code() + cursor_home_code() + rows_spec(size, banner, size.rows as nat)
        + cursor_to_code((cursor.y + 1) as nat, (cursor.x + 1) as nat) + show_cursor_code()
}

/// The last frame: display erased and cursor sent home.
pub open spec fn quit_frame_spec() -> Seq<u8> {
    clear_screen_code() + cursor_home_code()
}

/// The bytes of one frame, built up and then written out in one piece.
pub struct FrameBuffer {
    buf: Vec<u8>,
}

impl View for FrameBuffer {
    type V = Seq<u8>;

    closed spec fn view(&self) -> Seq<u8> {
        self.buf@
    }
}

impl FrameBuffer {
    pub fn new() -> (r: FrameBuffer)
        ensures
            r@ == Seq::<u8>::empty(),
    {
        FrameBuffer { buf: Vec::new() }
    }

    /// The bytes gathered so far.
    pub fn as_bytes(&self) -> (r: &[u8])
        ensures
            r@ == self@,
    {
        self.buf.as_slice()
    }

    /// Empties the buffer, keeping its storage for the next frame.
    pub fn clear(&mut self)
        ensures
            final(self)@ == Seq::<u8>::empty(),
    {
        self.buf.clear();
    }

    /// Appends `content`.
    pub fn print(&mut self, content: &[u8])
        ensures
            final(self)@ == old(self)@ + content@,
    {
        let mut i: usize = 0;
        while i < content.len()
            invariant
                i <= content@.len(),
                self@ == old(self)@ + content@.subrange(0, i as int),
            decreases content@.len() - i,
        {
            self.buf.push(content[i]);
            i = i + 1;
            assert(self@ =~= old(self)@ + content@.subrange(0, i as int));
        }
        assert(content@.subrange(0, i as int) =~= content@);
    }

    /// Appends the decimal digits of `n`.
    pub fn print_decimal(&mut self, n: usize)
        ensures
            final(self)@ == old(self)@ + decimal(n as nat),
        decreases n,
    {
        if n >= 10 {
            self.print_decimal(n / 10);
        }
        self.buf.push(0x30u8 + (n % 10) as u8);
        assert(self@ =~= old(self)@ + decimal(n as nat));
    }

    /// Appends `n` spaces.
    pub fn print_spaces(&mut self, n: usize)
        ensures
            final(self)@ == old(self)@ + spaces(n as nat),
    {
        let mut i: usize = 0;
        while i < n
            invariant
                i <= n,
                self@ == old(self)@ + spaces(i as nat),
            decreases n - i,
        {
            self.buf.push(0x20u8);
            i = i + 1;
            assert(self@ =~= old(self)@ + spaces(i as nat));
        }
    }
}

/// The banner's left margin, as `banner_margin` states it.
pub fn left_margin(cols: usize, len: usize) -> (r: usize)
    ensures
        r == banner_margin(cols as nat, len as nat),
{
    if len <= cols && cols - len >= 2 {
        (cols - len) / 2 - 1
    } else {
        0
    }
}

/// Appends row `r` of a frame.
fn render_row(fb: &mut FrameBuffer, size: ScreenSize, banner: &[u8], r: usize)
    requires
        r < size.rows,
    ensures
        final(fb)@ == old(fb)@ + row_spec(size, banner@, r as nat),
{
    fb.print(&[0x7eu8]);
    fb.print(&[0x1bu8, 0x5bu8, 0x4bu8]);
    if banner.len() > 0 && r == size.rows / 3 {
        fb.print_spaces(left_margin(size.cols, banner.len()));
        fb.print(banner);
    }
    if r + 1 < size.rows {
        fb.print(&[0x0du8, 0x0au8]);
    }
    assert(fb@ =~= old(fb)@ + row_spec(size, banner@, r as nat));
}

/// Appends a whole frame for a screen of `size` with the cursor at `cursor`,
/// with `banner` centred on the banner row when it is not empty.
pub fn render(fb: &mut FrameBuffer, size: ScreenSize, cursor: CursorPos, banner: &[u8])
    requires
        cursor.within(size),
    ensures
        final(fb)@ == old(fb)@ + frame_spec(size, cursor, banner@),
{
    fb.print(&[0x1bu8, 0x5bu8, 0x3fu8, 0x32u8, 0x35u8, 0x6cu8]);
    fb.print(&[0x1bu8, 0x5bu8, 0x48u8]);
    let ghost head = fb@;
    let mut i: usize = 0;
    while i < size.rows
        invariant
            i <= size.rows,
            head == old(fb)@ + hide_cursor_code() + cursor_home_code(),
            fb@ == head + rows_spec(size, banner@, i as nat),
        decreases size.rows - i,
    {
        render_row(fb, size, banner, i);
        i = i + 1;
        assert(fb@ =~= head + rows_spec(size, banner@, i as nat));
    }
    fb.print(&[0x1bu8, 0x5bu8]);
    fb.print_decimal(cursor.y + 1);
    fb.print(&[0x3bu8]);
    fb.print_decimal(cursor.x + 1);
    fb.print(&[0x48u8]);
    fb.print(&[0x1bu8, 0x5bu8, 0x3fu8, 0x32u8, 0x35u8, 0x68u8]);
    assert(fb@ =~= old(fb)@ + frame_spec(size, cursor, banner@));
}

/// Appends the last frame: display erased, cursor home.
pub fn render_quit(fb: &mut FrameBuffer)
    ensures
        final(fb)@ == old(fb)@ + quit_frame_spec(),
{
    fb.print(&[0x1bu8, 0x5bu8, 0x32u8, 0x4au8]);
    fb.print(&[0x1bu8, 0x5bu8, 0x48u8]);
    assert(fb@ =~= old(fb)@ + quit_frame_spec());
}

} // verus!
