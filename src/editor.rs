use vstd::prelude::*;

use crate::error::EditorError;
use crate::input::{feed_spec, read_key, Decoded, Decoder, DecoderState, KeyEvent, RawRead};
use crate::render::{frame_spec, quit_frame_spec, render, render_quit, FrameBuffer};
use crate::screen::{move_cursor, move_spec, window_size, CursorPos, ScreenSize};
use crate::terminal::{AttrsView, RawModeMasks, TermAttrs, TerminalSession, raw_spec};

verus! {

/// Where the editor loop stands: which action it waits on.
#[derive(Clone, Copy, Debug, PartialEq, Eq, Structural)]
pub enum Phase {
    /// Created; the session has not begun.
    Start,
    /// Waiting for the raw attribute set to be applied.
    Entering,
    /// Waiting for a frame to be written.
    Drawing,
    /// Waiting for a byte.
    Reading,
    /// Waiting for the last frame to be written.
    Quitting,
    /// Waiting for the saved attribute set to be applied.
    Restoring,
    /// Done; only the exit remains.
    Finished,
}

/// What the caller must do next.
#[derive(Debug)]
pub enum Action {
    /// Apply this attribute set to the terminal.
    SetAttrs(TermAttrs),
    /// Write the whole frame buffer in one call.
    Flush,
    /// Read one byte, waiting at most the terminal's read timeout.
    ReadByte,
    /// End the process with this status.
    Exit(i32),
}

/// The mathematical value of an `Action`.
pub enum ActionView {
    SetAttrs(AttrsView),
    Flush,
    ReadByte,
    Exit(i32),
}

impl View for Action {
    type V = ActionView;

    open spec fn view(&self) -> ActionView {
        match self {
            Action::SetAttrs(a) => ActionView::SetAttrs(a@),
            Action::Flush => ActionView::Flush,
            Action::ReadByte => ActionView::ReadByte,
            Action::Exit(c) => ActionView::Exit(*c),
        }
    }
}

/// How the last action went.
#[derive(Clone, Copy, Debug, PartialEq, Eq, Structural)]
pub enum Outcome {
    /// The attribute set was applied, or the frame was written.
    Done,
    /// What the read gave.
    Read(RawRead),
    /// Applying attributes or writing failed.
    Failed,
}

/// The state of the editor as mathematical values.
pub struct EditorView {
    pub phase: Phase,
    pub size: ScreenSize,
    pub cursor: CursorPos,
    pub decoder: DecoderState,
    pub frame: Seq<u8>,
    pub banner: Seq<u8>,
    pub saved: AttrsView,
    pub raw: AttrsView,
    pub failure: Option<EditorError>,
}

/// The process status for a session that ended with `failure`.
pub open spec fn exit_code(failure: Option<EditorError>) -> i32 {
    if failure is None {
        0
    } else {
        1
    }
}

/// The screen is usable and the cursor lies on it.
pub open spec fn on_screen(v: EditorView) -> bool {
    v.size.wf() && v.cursor.within(v.size)
}

/// The phases in which the terminal may be in raw mode.
pub open spec fn mid_session(p: Phase) -> bool {
    p == Phase::Entering || p == Phase::Drawing || p == Phase::Reading || p == Phase::Quitting
}

/// A failure with error `e`. In the middle of a session the saved attribute
/// set is applied first; otherwise the process ends at once.
pub open spec fn fail_spec(v: EditorView, e: EditorError) -> (EditorView, ActionView) {
    if mid_session(v.phase) {
        (EditorView { phase: Phase::Restoring, failure: Some(e), ..v }, ActionView::SetAttrs(v.saved))
    } else {
        (EditorView { phase: Phase::Finished, failure: Some(e), ..v }, ActionView::Exit(1))
    }
}

/// Begins the session: the raw attribute set is applied. Begun twice, the
/// session fails.
pub open spec fn begin_spec(v: EditorView) -> (EditorView, ActionView) {
    if v.phase == Phase::Start {
        (EditorView { phase: Phase::Entering, ..v }, ActionView::SetAttrs(v.raw))
    } else {
        fail_spec(v, EditorError::Io)
    }
}

/// A frame for the current state is appended and written.
pub open spec fn draw_spec(v: EditorView) -> (EditorView, ActionView) {
    (
        EditorView {
            phase: Phase::Drawing,
            frame: v.frame + frame_spec(v.size, v.cursor, v.banner),
            ..v
        },
        ActionView::Flush,
    )
}

/// The reaction to one byte read.
pub open spec fn byte_spec(v: EditorView, b: u8) -> (EditorView, ActionView) {
    let (next, out) = feed_spec(v.decoder, Some(b));
    let w = EditorView { decoder: next, ..v };
    match out {
        Decoded::Waiting => (w, ActionView::ReadByte),
        Decoded::Complete(Some(KeyEvent::Quit)) => (
            EditorView { phase: Phase::Quitting, frame: w.frame + quit_frame_spec(), ..w },
            ActionView::Flush,
        ),
        Decoded::Complete(Some(ev)) => draw_spec(
            EditorView { cursor: move_spec(v.cursor, v.size, ev), ..w },
        ),
        Decoded::Complete(None) => draw_spec(w),
    }
}

/// One step of the loop: the next state and action for the outcome of the
/// last action.
pub open spec fn step_spec(v: EditorView, o: Outcome) -> (EditorView, ActionView) {
    match v.phase {
        Phase::Start => fail_spec(v, EditorError::Io),
        Phase::Entering => match o {
            Outcome::Done => draw_spec(v),
            Outcome::Failed => fail_spec(v, EditorError::TerminalConfig),
            Outcome::Read(_) => fail_spec(v, EditorError::Io),
        },
        Phase::Drawing => match o {
            Outcome::Done => (
                EditorView { phase: Phase::Reading, frame: Seq::empty(), ..v },
                ActionView::ReadByte,
            ),
            _ => fail_spec(v, EditorError::Io),
        },
        Phase::Reading => match o {
            Outcome::Read(RawRead::Byte(b)) => byte_spec(v, b),
            Outcome::Read(RawRead::EndOfInput) => (v, ActionView::ReadByte),
            _ => fail_spec(v, EditorError::Io),
        },
        Phase::Quitting => match o {
            Outcome::Done => (
                EditorView { phase: Phase::Restoring, frame: Seq::empty(), ..v },
                ActionView::SetAttrs(v.saved),
            ),
            _ => fail_spec(v, EditorError::Io),
        },
        Phase::Restoring => match o {
            Outcome::Done => (
                EditorView { phase: Phase::Finished, ..v },
                ActionView::Exit(exit_code(v.failure)),
            ),
            _ => fail_spec(v, EditorError::TerminalConfig),
        },
        Phase::Finished => (v, ActionView::Exit(exit_code(v.failure))),
    }
}

/// The state after each of `os` in turn.
pub open spec fn run_spec(v: EditorView, os: Seq<Outcome>) -> EditorView
    decreases os.len(),
{
    if os.len() == 0 {
        v
    } else {
        run_spec(step_spec(v, os[0]).0, os.drop_first())
    }
}

/// Beginning applies the raw set; after that, every attribute set that the
/// loop applies, on whatever path it leaves raw mode, is the one captured at
/// the start.
pub proof fn lemma_attrs_round_trip(v: EditorView, os: Seq<Outcome>, i: int)
    requires
        v.phase == Phase::Start,
        0 <= i < os.len(),
    ensures
        begin_spec(v).1 == ActionView::SetAttrs(v.raw),
        ({
            let before = run_spec(begin_spec(v).0, os.take(i));
            step_spec(before, os[i]).1 matches ActionView::SetAttrs(a) ==> a == v.saved
        }),
{
    lemma_run_keeps_attrs(begin_spec(v).0, os.take(i));
}

proof fn lemma_run_keeps_attrs(v: EditorView, os: Seq<Outcome>)
    ensures
        run_spec(v, os).saved == v.saved,
    decreases os.len(),
{
    if os.len() > 0 {
        lemma_run_keeps_attrs(step_spec(v, os[0]).0, os.drop_first());
    }
}

/// While the terminal may be in raw mode, no step ends the process.
pub proof fn lemma_no_exit_mid_session(v: EditorView, o: Outcome)
    requires
        mid_session(v.phase),
    ensures
        !(step_spec(v, o).1 is Exit),
{
}

/// A failure in the middle of a session first applies the saved attribute
/// set; only then does the process end, with a failure status, whether or
/// not that restoration succeeds.
pub proof fn lemma_failure_restores_first(v: EditorView, o: Outcome)
    requires
        mid_session(v.phase),
        o == Outcome::Failed || o == Outcome::Read(RawRead::Failed),
    ensures
        ({
            let (w, a) = step_spec(v, o);
            &&& a == ActionView::SetAttrs(v.saved)
            &&& w.phase == Phase::Restoring
            &&& w.failure is Some
            &&& step_spec(w, Outcome::Done).1 == ActionView::Exit(1)
            &&& step_spec(w, Outcome::Failed).1 == ActionView::Exit(1)
        }),
{
}

/// The screen and the cursor, which always lies on it.
struct Screen {
    size: ScreenSize,
    cursor: CursorPos,
}

impl Screen {
    #[verifier::type_invariant]
    spec fn wf(&self) -> bool {
        self.size.wf() && self.cursor.within(self.size)
    }

    /// The screen with the cursor moved for `ev`.
    fn moved(&self, ev: KeyEvent) -> (r: Screen)
        ensures
            r.size == self.size,
            r.cursor == move_spec(self.cursor, self.size, ev),
    {
        proof {
            use_type_invariant(self);
        }
        Screen { size: self.size, cursor: move_cursor(self.cursor, self.size, ev) }
    }
}

/// The editor: a terminal session, the screen, the cursor, the decoder and the
/// frame buffer, driven one action at a time by its caller.
pub struct Editor {
    session: TerminalSession,
    screen: Screen,
    decoder: Decoder,
    frame: FrameBuffer,
    banner: Vec<u8>,
    phase: Phase,
    failure: Option<EditorError>,
}

impl View for Editor {
    type V = EditorView;

    closed spec fn view(&self) -> EditorView {
        EditorView {
            phase: self.phase,
            size: self.screen.size,
            cursor: self.screen.cursor,
            decoder: self.decoder.state,
            frame: self.frame@,
            banner: self.banner@,
            saved: self.session.saved(),
            raw: self.session.raw(),
            failure: self.failure,
        }
    }
}

impl Editor {
    /// An editor for a terminal whose attributes were `original` and whose
    /// geometry query gave `ws_row` rows and `ws_col` columns, with `banner`
    /// (none when empty) on the banner row. Fails with a configuration error
    /// when a dimension is zero or the raw set cannot be derived.
    pub fn new(original: TermAttrs, masks: &RawModeMasks, ws_row: u16, ws_col: u16, banner: Vec<u8>) -> (r:
        Result<Editor, EditorError>)
        ensures
            r is Ok <==> ws_row > 0 && ws_col > 0 && masks.fits(original@.control_chars),
            r is Err ==> r == Err::<Editor, EditorError>(EditorError::TerminalConfig),
            r matches Ok(e) ==> on_screen(e@) && e@ == (EditorView {
                phase: Phase::Start,
                size: ScreenSize { rows: ws_row as usize, cols: ws_col as usize },
                cursor: CursorPos { x: 0, y: 0 },
                decoder: DecoderState::Idle,
                frame: Seq::empty(),
                banner: banner@,
                saved: original@,
                raw: raw_spec(original@, *masks),
                failure: None,
            }),
    {
        let session = match TerminalSession::new(original, masks) {
            Ok(s) => s,
            Err(e) => return Err(e),
        };
        let size = match window_size(ws_row, ws_col) {
            Ok(s) => s,
            Err(e) => return Err(e),
        };
        Ok(Editor {
            session,
            screen: Screen { size, cursor: CursorPos { x: 0, y: 0 } },
            decoder: Decoder::new(),
            frame: FrameBuffer::new(),
            banner,
            phase: Phase::Start,
            failure: None,
        })
    }

    fn fail(&mut self, e: EditorError) -> (r: Action)
        ensures
            (final(self)@, r@) == fail_spec(old(self)@, e),
    {
        self.failure = Some(e);
        match self.phase {
            Phase::Entering | Phase::Drawing | Phase::Reading | Phase::Quitting => {
                self.phase = Phase::Restoring;
                Action::SetAttrs(self.session.exit())
            },
            _ => {
                self.phase = Phase::Finished;
                Action::Exit(1)
            },
        }
    }

    fn draw(&mut self) -> (r: Action)
        ensures
            (final(self)@, r@) == draw_spec(old(self)@),
    {
        proof {
            use_type_invariant(&self.screen);
        }
        render(&mut self.frame, self.screen.size, self.screen.cursor, self.banner.as_slice());
        self.phase = Phase::Drawing;
        Action::Flush
    }

    /// Begins the session: the first action applies the raw attribute set.
    pub fn begin(&mut self) -> (r: Action)
        ensures
            (final(self)@, r@) == begin_spec(old(self)@),
            on_screen(final(self)@),
    {
        proof {
            use_type_invariant(&self.screen);
        }
        if self.phase == Phase::Start {
            self.phase = Phase::Entering;
            Action::SetAttrs(self.session.enter())
        } else {
            self.fail(EditorError::Io)
        }
    }

    fn handle_byte(&mut self, b: u8) -> (r: Action)
        ensures
            (final(self)@, r@) == byte_spec(old(self)@, b),
    {
        match self.decoder.feed(Some(b)) {
            Decoded::Waiting => Action::ReadByte,
            Decoded::Complete(Some(KeyEvent::Quit)) => {
                render_quit(&mut self.frame);
                self.phase = Phase::Quitting;
                Action::Flush
            },
            Decoded::Complete(Some(ev)) => {
                self.screen = self.screen.moved(ev);
                self.draw()
            },
            Decoded::Complete(None) => self.draw(),
        }
    }

    /// Takes the outcome of the last action and gives the next one.
    pub fn step(&mut self, o: Outcome) -> (r: Action)
        ensures
            (final(self)@, r@) == step_spec(old(self)@, o),
            on_screen(final(self)@),
    {
        let r = match self.phase {
            Phase::Start => self.fail(EditorError::Io),
            Phase::Entering => match o {
                Outcome::Done => self.draw(),
                Outcome::Failed => self.fail(EditorError::TerminalConfig),
                Outcome::Read(_) => self.fail(EditorError::Io),
            },
            Phase::Drawing => match o {
                Outcome::Done => {
                    self.frame.clear();
                    self.phase = Phase::Reading;
                    Action::ReadByte
                },
                _ => self.fail(EditorError::Io),
            },
            Phase::Reading => match o {
                Outcome::Read(read) => match read_key(read) {
                    Ok(Some(b)) => self.handle_byte(b),
                    Ok(None) => Action::ReadByte,
                    Err(e) => self.fail(e),
                },
                _ => self.fail(EditorError::Io),
            },
            Phase::Quitting => match o {
                Outcome::Done => {
                    self.frame.clear();
                    self.phase = Phase::Restoring;
                    Action::SetAttrs(self.session.exit())
                },
                _ => self.fail(EditorError::Io),
            },
            Phase::Restoring => match o {
                Outcome::Done => {
                    self.phase = Phase::Finished;
                    Action::Exit(self.exit_status())
                },
                _ => self.fail(EditorError::TerminalConfig),
            },
            Phase::Finished => Action::Exit(self.exit_status()),
        };
        proof {
            use_type_invariant(&self.screen);
        }
        r
    }

    fn exit_status(&self) -> (r: i32)
        ensures
            r == exit_code(self@.failure),
    {
        match self.failure {
            None => 0,
            Some(_) => 1,
        }
    }

    /// The bytes to write for a `Flush`.
    pub fn frame(&self) -> (r: &[u8])
        ensures
            r@ == self@.frame,
    {
        self.frame.as_bytes()
    }

    pub fn phase(&self) -> (r: Phase)
        ensures
            r == self@.phase,
    {
        self.phase
    }

    pub fn cursor(&self) -> (r: CursorPos)
        ensures
            r == self@.cursor,
    {
        self.screen.cursor
    }

    pub fn size(&self) -> (r: ScreenSize)
        ensures
            r == self@.size,
    {
        self.screen.size
    }

    /// The error that ended the session, if one did.
    pub fn failure(&self) -> (r: Option<EditorError>)
        ensures
            r == self@.failure,
    {
        self.failure
    }
}

} // verus!
