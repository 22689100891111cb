use vstd::prelude::*;

use crate::error::EditorError;
use crate::input::KeyEvent;

verus! {

/// The terminal's dimensions; both are positive.
#[derive(Clone, Copy, Debug, PartialEq, Eq, Structural)]
pub struct ScreenSize {
    pub rows: usize,
    pub cols: usize,
}

impl ScreenSize {
    pub open spec fn wf(self) -> bool {
        self.rows > 0 && self.cols > 0
    }
}

/// The screen size from a geometry query's row and column counts; a zero
/// dimension is a configuration error.
pub fn window_size(ws_row: u16, ws_col: u16) -> (r: Result<ScreenSize, EditorError>)
    ensures
        ws_row > 0 && ws_col > 0 ==> r == Ok::<ScreenSize, EditorError>(
            (ScreenSize { rows: ws_row as usize, cols: ws_col as usize }),
        ),
        ws_row == 0 || ws_col == 0 ==> r == Err::<ScreenSize, EditorError>(
            EditorError::TerminalConfig,
        ),
{
    if ws_row == 0 || ws_col == 0 {
        Err(EditorError::TerminalConfig)
    } else {
        Ok(ScreenSize { rows: ws_row as usize, cols: ws_col as usize })
    }
}

/// The cursor's cell: column `x`, row `y`, both counted from zero.
#[derive(Clone, Copy, Debug, PartialEq, Eq, Structural)]
pub struct CursorPos {
    pub x: usize,
    pub y: usize,
}

impl CursorPos {
    /// The cursor lies on the screen.
    pub open spec fn within(self, size: ScreenSize) -> bool {
        self.x < size.cols && self.y < size.rows
    }
}

/// The cursor after `ev`: one cell in the arrow's direction, unless that
/// would leave the screen, in which case it stays. Other events leave it.
pub open spec fn move_spec(c: CursorPos, size: ScreenSize, ev: KeyEvent) -> CursorPos {
    match ev {
        KeyEvent::MoveUp => if c.y > 0 {
            CursorPos { y: (c.y - 1) as usize, ..c }
        } else {
            c
        },
        KeyEvent::MoveDown => if c.y + 1 < size.rows {
            CursorPos { y: (c.y + 1) as usize, ..c }
        } else {
            c
        },
        KeyEvent::MoveRight => if c.x + 1 < size.cols {
            CursorPos { x: (c.x + 1) as usize, ..c }
        } else {
            c
        },
        KeyEvent::MoveLeft => if c.x > 0 {
            CursorPos { x: (c.x - 1) as usize, ..c }
        } else {
            c
        },
        KeyEvent::Quit => c,
    }
}

/// The cursor after each of `evs` in turn.
pub open spec fn moves_spec(c: CursorPos, size: ScreenSize, evs: Seq<KeyEvent>) -> CursorPos
    decreases evs.len(),
{
    if evs.len() == 0 {
        c
    } else {
        moves_spec(move_spec(c, size, evs[0]), size, evs.drop_first())
    }
}

/// Moves the cursor for `ev`, clamped to the screen.
pub fn move_cursor(c: CursorPos, size: ScreenSize, ev: KeyEvent) -> (r: CursorPos)
    requires
        c.within(size),
    ensures
        r == move_spec(c, size, ev),
        r.within(size),
{
    match ev {
        KeyEvent::MoveUp => if c.y > 0 {
            CursorPos { x: c.x, y: c.y - 1 }
        } else {
            c
        },
        KeyEvent::MoveDown => if c.y < size.rows - 1 {
            CursorPos { x: c.x, y: c.y + 1 }
        } else {
            c
        },
        KeyEvent::MoveRight => if c.x < size.cols - 1 {
            CursorPos { x: c.x + 1, y: c.y }
        } else {
            c
        },
        KeyEvent::MoveLeft => if c.x > 0 {
            CursorPos { x: c.x - 1, y: c.y }
        } else {
            c
        },
        KeyEvent::Quit => c,
    }
}

/// Whatever moves are applied, a cursor that starts on the screen stays on it.
pub proof fn lemma_moves_stay_on_screen(c: CursorPos, size: ScreenSize, evs: Seq<KeyEvent>)
    requires
        c.within(size),
    ensures
        moves_spec(c, size, evs).within(size),
    decreases evs.len(),
{
    if evs.len() > 0 {
        lemma_moves_stay_on_screen(move_spec(c, size, evs[0]), size, evs.drop_first());
    }
}

/// Moving left from the first column, any number of times, leaves the cursor
/// where it was.
pub proof fn lemma_left_at_first_column(c: CursorPos, size: ScreenSize, evs: Seq<KeyEvent>)
    requires
        c.x == 0,
        forall|i: int| 0 <= i < evs.len() ==> evs[i] == KeyEvent::MoveLeft,
    ensures
        moves_spec(c, size, evs) == c,
    decreases evs.len(),
{
    if evs.len() > 0 {
        assert(evs[0] == KeyEvent::MoveLeft);
        lemma_left_at_first_column(c, size, evs.drop_first());
    }
}

} // verus!
