use textedit::input::{
    ctrl_chord, decode_byte, read_key, Decoded, Decoder, DecoderState, KeyEvent, RawRead,
};
use textedit::EditorError;

#[test]
fn ctrl_chord_masks_low_five_bits() {
    assert_eq!(ctrl_chord(b'q'), 0x11);
    assert_eq!(ctrl_chord(b'Q'), 0x11);
    assert_eq!(ctrl_chord(0xff), 0x1f);
    assert_eq!(ctrl_chord(0), 0);
}

#[test]
fn read_key_classifies_reads() {
    assert_eq!(read_key(RawRead::Byte(b'x')), Ok(Some(b'x')));
    assert_eq!(read_key(RawRead::EndOfInput), Ok(None));
    assert_eq!(read_key(RawRead::Failed), Err(EditorError::Io));
}

#[test]
fn arrow_up_sequence_is_one_event_of_three_bytes() {
    let mut d = Decoder::new();
    let reads = [Some(0x1b), Some(b'['), Some(b'A'), Some(b'B')];
    assert_eq!(d.decode(&reads), (3, Decoded::Complete(Some(KeyEvent::MoveUp))));
    assert_eq!(d.state, DecoderState::Idle);
}

#[test]
fn every_arrow_key_decodes() {
    for (b, ev) in [
        (b'A', KeyEvent::MoveUp),
        (b'B', KeyEvent::MoveDown),
        (b'C', KeyEvent::MoveRight),
        (b'D', KeyEvent::MoveLeft),
    ] {
        let mut d = Decoder::new();
        assert_eq!(d.decode(&[Some(0x1b), Some(b'['), Some(b)]), (3, Decoded::Complete(Some(ev))));
    }
}

#[test]
fn unknown_sequence_consumes_three_bytes_without_event() {
    let mut d = Decoder::new();
    assert_eq!(d.decode(&[Some(0x1b), Some(b'['), Some(b'Z')]), (3, Decoded::Complete(None)));
    assert_eq!(d.state, DecoderState::Idle);
}

#[test]
fn malformed_escape_is_dropped() {
    let mut d = Decoder::new();
    assert_eq!(d.decode(&[Some(0x1b), Some(b'x')]), (2, Decoded::Complete(None)));
    assert_eq!(d.state, DecoderState::Idle);
}

#[test]
fn plain_byte_completes_without_event() {
    let mut d = Decoder::new();
    assert_eq!(d.decode(&[Some(b'a'), Some(0x11)]), (1, Decoded::Complete(None)));
}

#[test]
fn quit_byte_in_every_state() {
    for s in [DecoderState::Idle, DecoderState::SawEscape, DecoderState::SawBracket] {
        assert_eq!(decode_byte(s, 0x11), (DecoderState::Idle, Some(KeyEvent::Quit)));
        let mut d = Decoder { state: s };
        assert_eq!(d.feed(Some(0x11)), Decoded::Complete(Some(KeyEvent::Quit)));
        assert_eq!(d.state, DecoderState::Idle);
    }
}

#[test]
fn quit_aborts_escape_sequence() {
    let mut d = Decoder::new();
    assert_eq!(
        d.decode(&[Some(0x1b), Some(b'['), Some(0x11), Some(b'A')]),
        (3, Decoded::Complete(Some(KeyEvent::Quit)))
    );
    assert_eq!(d.state, DecoderState::Idle);
}

#[test]
fn five_timeouts_then_quit() {
    let mut d = Decoder::new();
    let reads = [None, None, None, None, None, Some(0x11)];
    assert_eq!(d.decode(&reads), (6, Decoded::Complete(Some(KeyEvent::Quit))));
    assert_eq!(d.state, DecoderState::Idle);
}

#[test]
fn timeouts_inside_a_sequence_keep_state() {
    let mut d = Decoder::new();
    assert_eq!(d.feed(Some(0x1b)), Decoded::Waiting);
    assert_eq!(d.feed(None), Decoded::Waiting);
    assert_eq!(d.state, DecoderState::SawEscape);
    assert_eq!(d.feed(Some(b'[')), Decoded::Waiting);
    assert_eq!(d.feed(None), Decoded::Waiting);
    assert_eq!(d.state, DecoderState::SawBracket);
    assert_eq!(d.feed(Some(b'D')), Decoded::Complete(Some(KeyEvent::MoveLeft)));
}

#[test]
fn reads_running_out_leave_decoder_waiting() {
    let mut d = Decoder::new();
    assert_eq!(d.decode(&[None, Some(0x1b), None]), (3, Decoded::Waiting));
    assert_eq!(d.state, DecoderState::SawEscape);
    assert_eq!(d.decode(&[]), (0, Decoded::Waiting));
}
