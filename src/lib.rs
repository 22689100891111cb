//! The core of a full-screen terminal editor: terminal attribute sessions,
//! keystroke decoding, frame rendering and the editor loop as a state machine.
mod error;
pub mod input;
pub mod terminal;
pub mod screen;
pub mod render;
pub mod editor;

pub use error::EditorError;
