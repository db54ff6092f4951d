//! Terminal session engine.
//!
//! A session attaches a shell process (through a pseudo-terminal managed by
//! the surrounding application) to a VT/ANSI interpretation engine and
//! exposes immutable, renderer-consumable snapshots of the character grid.
//! The grid itself is maintained by `alacritty_terminal`; this crate states
//! and verifies the orchestration around it: wakeup coalescing, resize and
//! dirty tracking, snapshot extraction, colour resolution, and the session
//! registry with its monotonic identifiers.

use vstd::prelude::*;

pub mod animation;
pub mod backend;
pub mod colors;
pub mod content;
pub mod engine;
pub mod text;
pub mod view;

pub use content::TerminalContent;
pub use view::{TerminalManager, TerminalView};

verus! {

/// Unique identifier for a terminal instance.
pub type TerminalId = u32;

/// Terminal display mode.
#[derive(Debug, Clone, Copy, PartialEq, Eq, Structural)]
pub enum TerminalMode {
    /// Terminal fills an entire window.
    Window,
    /// Terminal is inline within buffer text.
    Inline,
    /// Terminal floats on top of all content.
    Floating,
}

} // verus!

