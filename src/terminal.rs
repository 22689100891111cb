use vstd::prelude::*;

use crate::error::EditorError;
use nix::sys::termios::{ControlFlags, InputFlags, LocalFlags, OutputFlags, SpecialCharacterIndices};

verus! {

/// A terminal attribute set as plain values: the four flag words and the
/// control characters.
#[derive(Debug)]
pub struct TermAttrs {
    pub input_flags: u64,
    pub output_flags: u64,
    pub control_flags: u64,
    pub local_flags: u64,
    pub control_chars: Vec<u8>,
}

/// The mathematical value of a `TermAttrs`.
pub struct AttrsView {
    pub input_flags: u64,
    pub output_flags: u64,
    pub control_flags: u64,
    pub local_flags: u64,
    pub control_chars: Seq<u8>,
}

impl View for TermAttrs {
    type V = AttrsView;

    open spec fn view(&self) -> AttrsView {
        AttrsView {
            input_flags: self.input_flags,
            output_flags: self.output_flags,
            control_flags: self.control_flags,
            local_flags: self.local_flags,
            control_chars: self.control_chars@,
        }
    }
}

impl TermAttrs {
    /// An exact copy.
    pub fn copied(&self) -> (r: TermAttrs)
        ensures
            r@ == self@,
    {
        TermAttrs {
            input_flags: self.input_flags,
            output_flags: self.output_flags,
            control_flags: self.control_flags,
            local_flags: self.local_flags,
            control_chars: self.control_chars.clone(),
        }
    }
}

/// The platform's values of the flags and control-character slots that raw
/// mode touches.
#[derive(Clone, Copy, Debug)]
pub struct RawModeMasks {
    pub cs8: u64,
    pub brkint: u64,
    pub icrnl: u64,
    pub inpck: u64,
    pub istrip: u64,
    pub ixon: u64,
    pub echo: u64,
    pub icanon: u64,
    pub iexten: u64,
    pub isig: u64,
    pub opost: u64,
    pub vmin: usize,
    pub vtime: usize,
}

/// Relies on nix's `ControlFlags::CS8`: the platform's 8-bit character size.
#[verifier::external_body]
fn flag_cs8() -> u64 {
    ControlFlags::CS8.bits() as u64
}

/// Relies on nix's `InputFlags::BRKINT`: the platform's break-to-interrupt flag.
#[verifier::external_body]
fn flag_brkint() -> u64 {
    InputFlags::BRKINT.bits() as u64
}

/// Relies on nix's `InputFlags::ICRNL`: the platform's CR-to-NL flag.
#[verifier::external_body]
fn flag_icrnl() -> u64 {
    InputFlags::ICRNL.bits() as u64
}

/// Relies on nix's `InputFlags::INPCK`: the platform's parity-check flag.
#[verifier::external_body]
fn flag_inpck() -> u64 {
    InputFlags::INPCK.bits() as u64
}

/// Relies on nix's `InputFlags::ISTRIP`: the platform's 8th-bit stripping flag.
#[verifier::external_body]
fn flag_istrip() -> u64 {
    InputFlags::ISTRIP.bits() as u64
}

/// Relies on nix's `InputFlags::IXON`: the platform's software flow control flag.
#[verifier::external_body]
fn flag_ixon() -> u64 {
    InputFlags::IXON.bits() as u64
}

/// Relies on nix's `LocalFlags::ECHO`: the platform's echo flag.
#[verifier::external_body]
fn flag_echo() -> u64 {
    LocalFlags::ECHO.bits() as u64
}

/// Relies on nix's `LocalFlags::ICANON`: the platform's canonical-input flag.
#[verifier::external_body]
fn flag_icanon() -> u64 {
    LocalFlags::ICANON.bits() as u64
}

/// Relies on nix's `LocalFlags::IEXTEN`: the platform's extended-processing flag.
#[verifier::external_body]
fn flag_iexten() -> u64 {
    LocalFlags::IEXTEN.bits() as u64
}

/// Relies on nix's `LocalFlags::ISIG`: the platform's signal-character flag.
#[verifier::external_body]
fn flag_isig() -> u64 {
    LocalFlags::ISIG.bits() as u64
}

/// Relies on nix's `OutputFlags::OPOST`: the platform's output post-processing flag.
#[verifier::external_body]
fn flag_opost() -> u64 {
    OutputFlags::OPOST.bits() as u64
}

/// Relies on nix's `SpecialCharacterIndices::VMIN`: the platform's slot of
/// the minimum byte count of a read.
#[verifier::external_body]
fn index_vmin() -> usize {
    SpecialCharacterIndices::VMIN as usize
}

/// Relies on nix's `SpecialCharacterIndices::VTIME`: the platform's slot of
/// the read timeout.
#[verifier::external_body]
fn index_vtime() -> usize {
    SpecialCharacterIndices::VTIME as usize
}

impl RawModeMasks {
    /// The masks of the platform this library was built for.
    pub fn platform() -> (r: RawModeMasks) {
        RawModeMasks {
            cs8: flag_cs8(),
            brkint: flag_brkint(),
            icrnl: flag_icrnl(),
            inpck: flag_inpck(),
            istrip: flag_istrip(),
            ixon: flag_ixon(),
            echo: flag_echo(),
            icanon: flag_icanon(),
            iexten: flag_iexten(),
            isig: flag_isig(),
            opost: flag_opost(),
            vmin: index_vmin(),
            vtime: index_vtime(),
        }
    }

    /// Whether both control-character slots lie inside `chars`.
    pub open spec fn fits(self, chars: Seq<u8>) -> bool {
        self.vmin < chars.len() && self.vtime < chars.len()
    }
}

/// Minimum number of bytes a raw-mode read waits for.
pub const RAW_VMIN: u8 = 0;

/// Raw-mode read timeout, in tenths of a second.
pub const RAW_VTIME: u8 = 1;

/// The raw attribute set derived from `a`: 8-bit characters; no break
/// interrupt, CR-to-NL translation, parity check, 8th-bit stripping or
/// software flow control on input; no echo, canonical input, extended
/// processing or signal characters; no output post-processing; reads that
/// return at once with what is there, after at most a tenth of a second.
pub open spec fn raw_spec(a: AttrsView, m: RawModeMasks) -> AttrsView {
    AttrsView {
        input_flags: a.input_flags & !(m.brkint | m.icrnl | m.inpck | m.istrip | m.ixon),
        output_flags: a.output_flags & !m.opost,
        control_flags: a.control_flags | m.cs8,
        local_flags: a.local_flags & !(m.echo | m.icanon | m.iexten | m.isig),
        control_chars: a.control_chars.update(m.vmin as int, RAW_VMIN).update(
            m.vtime as int,
            RAW_VTIME,
        ),
    }
}

/// Turns `t` into its raw-mode form. Fails, leaving `t` as it was, when a
/// control-character slot of `m` lies outside `t`'s control characters.
pub fn raw_mode_params(t: &mut TermAttrs, m: &RawModeMasks) -> (r: Result<(), EditorError>)
    ensures
        r is Ok <==> m.fits(old(t)@.control_chars),
        r is Ok ==> final(t)@ == raw_spec(old(t)@, *m),
        r is Err ==> r == Err::<(), EditorError>(EditorError::TerminalConfig) && final(t)@ == old(
            t,
        )@,
{
    if m.vmin >= t.control_chars.len() || m.vtime >= t.control_chars.len() {
        return Err(EditorError::TerminalConfig);
    }
    t.control_flags = t.control_flags | m.cs8;
    t.input_flags = t.input_flags & !(m.brkint | m.icrnl | m.inpck | m.istrip | m.ixon);
    t.local_flags = t.local_flags & !(m.echo | m.icanon | m.iexten | m.isig);
    t.output_flags = t.output_flags & !m.opost;
    t.control_chars.set(m.vmin, RAW_VMIN);
    t.control_chars.set(m.vtime, RAW_VTIME);
    Ok(())
}

/// A terminal session: the attribute set captured when it began and the raw
/// set derived from it. Neither changes during the session.
pub struct TerminalSession {
    saved: TermAttrs,
    raw: TermAttrs,
}

impl TerminalSession {
    /// The attribute set captured at the start.
    pub closed spec fn saved(&self) -> AttrsView {
        self.saved@
    }

    /// The raw attribute set that the session applies.
    pub closed spec fn raw(&self) -> AttrsView {
        self.raw@
    }

    /// Captures `original` and derives its raw form with `masks`.
    pub fn new(original: TermAttrs, masks: &RawModeMasks) -> (r: Result<
        TerminalSession,
        EditorError,
    >)
        ensures
            r is Ok <==> masks.fits(original@.control_chars),
            r matches Ok(s) ==> s.saved() == original@ && s.raw() == raw_spec(original@, *masks),
            r is Err ==> r == Err::<TerminalSession, EditorError>(EditorError::TerminalConfig),
    {
        let mut raw = original.copied();
        match raw_mode_params(&mut raw, masks) {
            Ok(()) => Ok(TerminalSession { saved: original, raw }),
            Err(e) => Err(e),
        }
    }

    /// The attribute set to apply on entering raw mode.
    pub fn enter(&self) -> (r: TermAttrs)
        ensures
            r@ == self.raw(),
    {
        self.raw.copied()
    }

    /// The attribute set to apply on leaving: the one captured at the start.
    pub fn exit(&self) -> (r: TermAttrs)
        ensures
            r@ == self.saved(),
    {
        self.saved.copied()
    }
}

} // verus!
