use vstd::prelude::*;

verus! {

/// The two kinds of failure that end an editing session.
#[derive(Clone, Copy, Debug, PartialEq, Eq, Structural)]
pub enum EditorError {
    /// Reading, deriving or applying terminal attributes failed, or the
    /// terminal reported no usable geometry.
    TerminalConfig,
    /// A read or write on the terminal failed in a way other than a timeout.
    Io,
}

} // verus!
