use textedit::terminal::{raw_mode_params, RawModeMasks, TermAttrs, TerminalSession};
use textedit::EditorError;

fn masks() -> RawModeMasks {
    RawModeMasks {
        cs8: 0o60,
        brkint: 0o2,
        icrnl: 0o400,
        inpck: 0o20,
        istrip: 0o40,
        ixon: 0o2000,
        echo: 0o10,
        icanon: 0o2,
        iexten: 0o100000,
        isig: 0o1,
        opost: 0o1,
        vmin: 6,
        vtime: 5,
    }
}

fn cooked() -> TermAttrs {
    TermAttrs {
        input_flags: 0o2402 | 0o60 | 0o10000,
        output_flags: 0o5,
        control_flags: 0o277,
        local_flags: 0o105073,
        control_chars: (0..32u8).collect(),
    }
}

fn same(a: &TermAttrs, b: &TermAttrs) -> bool {
    a.input_flags == b.input_flags
        && a.output_flags == b.output_flags
        && a.control_flags == b.control_flags
        && a.local_flags == b.local_flags
        && a.control_chars == b.control_chars
}

#[test]
fn raw_mode_clears_and_sets_flags() {
    let mut t = cooked();
    assert_eq!(raw_mode_params(&mut t, &masks()), Ok(()));
    assert_eq!(t.input_flags, 0o10000);
    assert_eq!(t.output_flags, 0o4);
    assert_eq!(t.control_flags, 0o277);
    assert_eq!(t.local_flags, 0o5060);
    assert_eq!(t.control_chars[6], 0);
    assert_eq!(t.control_chars[5], 1);
    assert_eq!(t.control_chars[7], 7);
}

#[test]
fn raw_mode_sets_character_size() {
    let mut t = cooked();
    t.control_flags = 0o200;
    raw_mode_params(&mut t, &masks()).unwrap();
    assert_eq!(t.control_flags, 0o260);
}

#[test]
fn raw_mode_rejects_short_control_chars() {
    let mut t = cooked();
    t.control_chars = vec![9; 6];
    assert_eq!(raw_mode_params(&mut t, &masks()), Err(EditorError::TerminalConfig));
    assert_eq!(t.control_chars, vec![9; 6]);
    assert_eq!(t.input_flags, cooked().input_flags);
}

#[test]
fn platform_masks_are_nonzero() {
    let m = RawModeMasks::platform();
    assert_ne!(m.cs8, 0);
    assert_ne!(m.echo, 0);
    assert_ne!(m.icanon, 0);
    assert_ne!(m.vmin, m.vtime);
}

#[test]
fn session_enter_then_exit_restores_original() {
    let original = cooked();
    let s = TerminalSession::new(original.copied(), &masks()).unwrap();
    let raw = s.enter();
    assert!(!same(&raw, &original));
    let back = s.exit();
    assert!(same(&back, &original));
}

#[test]
fn session_fails_when_raw_set_cannot_be_derived() {
    let mut original = cooked();
    original.control_chars.truncate(3);
    assert!(matches!(
        TerminalSession::new(original, &masks()),
        Err(EditorError::TerminalConfig)
    ));
}
