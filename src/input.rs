use vstd::prelude::*;

use crate::error::EditorError;

verus! {

/// The byte that Ctrl-Q produces: it ends the session.
pub const QUIT_BYTE: u8 = 0x11;

/// The byte that opens an escape sequence.
pub const ESC_BYTE: u8 = 0x1b;

/// The byte that follows ESC in a cursor-key sequence.
pub const BRACKET_BYTE: u8 = 0x5b;

/// The control byte that a terminal sends for `c` held with Ctrl: the low
/// five bits of `c`.
pub fn ctrl_chord(c: u8) -> (r: u8)
    ensures
        r == c & 0x1f,
        r == c % 32,
{
    assert(c & 0x1f == c % 32) by (bit_vector);
    c & 0x1f
}

/// What one attempt to read a single byte from the terminal gave.
#[derive(Clone, Copy, Debug, PartialEq, Eq, Structural)]
pub enum RawRead {
    /// A byte arrived.
    Byte(u8),
    /// The read ended before a byte arrived: the terminal's read timeout ran out.
    EndOfInput,
    /// Any other read failure.
    Failed,
}

/// Classifies one read: a byte, no data (a timeout, which is no error), or
/// an I/O failure.
pub fn read_key(read: RawRead) -> (r: Result<Option<u8>, EditorError>)
    ensures
        match read {
            RawRead::Byte(b) => r == Ok::<Option<u8>, EditorError>(Some(b)),
            RawRead::EndOfInput => r == Ok::<Option<u8>, EditorError>(None),
            RawRead::Failed => r == Err::<Option<u8>, EditorError>(EditorError::Io),
        },
{
    match read {
        RawRead::Byte(b) => Ok(Some(b)),
        RawRead::EndOfInput => Ok(None),
        RawRead::Failed => Err(EditorError::Io),
    }
}

/// Where the decoder stands inside an escape sequence.
#[derive(Clone, Copy, Debug, PartialEq, Eq, Structural)]
pub enum DecoderState {
    Idle,
    SawEscape,
    SawBracket,
}

/// A logical key event.
#[derive(Clone, Copy, Debug, PartialEq, Eq, Structural)]
pub enum KeyEvent {
    Quit,
    MoveUp,
    MoveDown,
    MoveRight,
    MoveLeft,
}

/// The event that ends a cursor-key sequence `ESC [ b`, if `b` names one.
pub open spec fn arrow_event(b: u8) -> Option<KeyEvent> {
    if b == 0x41 {
        Some(KeyEvent::MoveUp)
    } else if b == 0x42 {
        Some(KeyEvent::MoveDown)
    } else if b == 0x43 {
        Some(KeyEvent::MoveRight)
    } else if b == 0x44 {
        Some(KeyEvent::MoveLeft)
    } else {
        None
    }
}

/// The transition table: the next state and the event, if any, for one byte.
/// The quit byte is checked before the table and aborts any sequence.
pub open spec fn decode_spec(state: DecoderState, b: u8) -> (DecoderState, Option<KeyEvent>) {
    if b == QUIT_BYTE {
        (DecoderState::Idle, Some(KeyEvent::Quit))
    } else {
        match state {
            DecoderState::Idle => if b == ESC_BYTE {
                (DecoderState::SawEscape, None)
            } else {
                (DecoderState::Idle, None)
            },
            DecoderState::SawEscape => if b == BRACKET_BYTE {
                (DecoderState::SawBracket, None)
            } else {
                (DecoderState::Idle, None)
            },
            DecoderState::SawBracket => (DecoderState::Idle, arrow_event(b)),
        }
    }
}

/// One step of the decoder: the next state and the event, if any, for `b`.
pub fn decode_byte(state: DecoderState, b: u8) -> (r: (DecoderState, Option<KeyEvent>))
    ensures
        r == decode_spec(state, b),
{
    if b == ctrl_chord(0x71) {
        return (DecoderState::Idle, Some(KeyEvent::Quit));
    }
    match state {
        DecoderState::Idle => if b == ESC_BYTE {
            (DecoderState::SawEscape, None)
        } else {
            (DecoderState::Idle, None)
        },
        DecoderState::SawEscape => if b == BRACKET_BYTE {
            (DecoderState::SawBracket, None)
        } else {
            (DecoderState::Idle, None)
        },
        DecoderState::SawBracket => {
            let ev = if b == 0x41 {
                Some(KeyEvent::MoveUp)
            } else if b == 0x42 {
                Some(KeyEvent::MoveDown)
            } else if b == 0x43 {
                Some(KeyEvent::MoveRight)
            } else if b == 0x44 {
                Some(KeyEvent::MoveLeft)
            } else {
                None
            };
            (DecoderState::Idle, ev)
        },
    }
}

/// What feeding one read to the decoder gave.
#[derive(Clone, Copy, Debug, PartialEq, Eq, Structural)]
pub enum Decoded {
    /// A timeout, or a byte in the middle of an escape sequence: read on.
    Waiting,
    /// A byte or a sequence is complete, with its event if it has one.
    Complete(Option<KeyEvent>),
}

/// The decoder's state and outcome after one read result (`None` is a timeout).
pub open spec fn feed_spec(state: DecoderState, read: Option<u8>) -> (DecoderState, Decoded) {
    match read {
        None => (state, Decoded::Waiting),
        Some(b) => {
            let (next, ev) = decode_spec(state, b);
            if next == DecoderState::Idle {
                (next, Decoded::Complete(ev))
            } else {
                (next, Decoded::Waiting)
            }
        },
    }
}

/// Decoding of a sequence of read results: the state after it, the number of
/// results consumed, and the outcome. Decoding stops after the first complete
/// byte or sequence; when the reads run out first the outcome is `Waiting`.
pub open spec fn decode_seq_spec(state: DecoderState, reads: Seq<Option<u8>>) -> (
    DecoderState,
    nat,
    Decoded,
)
    decreases reads.len(),
{
    if reads.len() == 0 {
        (state, 0, Decoded::Waiting)
    } else {
        let (next, out) = feed_spec(state, reads[0]);
        match out {
            Decoded::Complete(ev) => (next, 1, out),
            Decoded::Waiting => {
                let (last, n, res) = decode_seq_spec(next, reads.drop_first());
                (last, n + 1, res)
            },
        }
    }
}

/// `n` read results that each timed out.
pub open spec fn timeouts(n: nat) -> Seq<Option<u8>> {
    Seq::new(n, |i: int| None::<u8>)
}

/// The quit byte, in any state, emits `Quit` and returns the decoder to `Idle`.
pub proof fn lemma_quit_from_any_state(state: DecoderState)
    ensures
        decode_spec(state, QUIT_BYTE) == (DecoderState::Idle, Some(KeyEvent::Quit)),
        feed_spec(state, Some(QUIT_BYTE)) == (
            DecoderState::Idle,
            Decoded::Complete(Some(KeyEvent::Quit)),
        ),
{
}

/// Timeouts before a run of reads change neither the state reached nor the
/// outcome; they only add to the number of reads consumed.
pub proof fn lemma_timeouts_transparent(state: DecoderState, n: nat, rest: Seq<Option<u8>>)
    ensures
        decode_seq_spec(state, timeouts(n) + rest) == ({
            let (last, k, res) = decode_seq_spec(state, rest);
            (last, k + n, res)
        }),
    decreases n,
{
    if n > 0 {
        let reads = timeouts(n) + rest;
        assert(reads[0] == None::<u8>);
        assert(reads.drop_first() =~= timeouts((n - 1) as nat) + rest);
        lemma_timeouts_transparent(state, (n - 1) as nat, rest);
    } else {
        assert(timeouts(n) + rest =~= rest);
    }
}

/// The escape-sequence state machine, threaded through successive reads.
pub struct Decoder {
    pub state: DecoderState,
}

impl Decoder {
    pub fn new() -> (r: Decoder)
        ensures
            r.state == DecoderState::Idle,
    {
        Decoder { state: DecoderState::Idle }
    }

    /// Feeds one read result (`None`: the read timed out) to the decoder.
    pub fn feed(&mut self, read: Option<u8>) -> (r: Decoded)
        ensures
            (final(self).state, r) == feed_spec(old(self).state, read),
    {
        match read {
            None => Decoded::Waiting,
            Some(b) => {
                let (next, ev) = decode_byte(self.state, b);
                self.state = next;
                match next {
                    DecoderState::Idle => Decoded::Complete(ev),
                    _ => Decoded::Waiting,
                }
            },
        }
    }

    /// Decodes from an in-memory run of read results until one byte or
    /// sequence is complete; returns how many results it consumed and the
    /// outcome.
    pub fn decode(&mut self, reads: &[Option<u8>]) -> (r: (usize, Decoded))
        ensures
            (final(self).state, r.0 as nat, r.1) == decode_seq_spec(old(self).state, reads@),
    {
        let mut i: usize = 0;
        assert(reads@.skip(0) =~= reads@);
        while i < reads.len()
            invariant
                i <= reads@.len(),
                decode_seq_spec(old(self).state, reads@) == ({
                    let (last, n, res) = decode_seq_spec(self.state, reads@.skip(i as int));
                    (last, (n + i) as nat, res)
                }),
            decreases reads@.len() - i,
        {
            assert(reads@.skip(i as int).drop_first() =~= reads@.skip(i + 1));
            let out = self.feed(reads[i]);
            i = i + 1;
            if let Decoded::Complete(_) = out {
                return (i, out);
            }
        }
        assert(reads@.skip(i as int).len() == 0);
        (i, Decoded::Waiting)
    }
}

} // verus!
