//! Terminal session state: the dimensions the dashboard last laid out
//! against, per-frame resize detection, and the typed errors of the render
//! path. The device handle itself lives with the driver; the session only
//! decides, so its decisions are verified.

use vstd::prelude::*;
use vstd::string::StringExecFns;
use crate::layout::Rect;

verus! {

/// The typed failures of session startup and per-frame rendering.
#[derive(Clone, Copy, PartialEq, Eq, Structural, Debug)]
pub enum RenderError {
    /// The terminal device could not be acquired.
    BackendInit,
    /// The terminal dimensions could not be queried.
    SizeQuery,
    /// The terminal could not be cleared.
    Clear,
    /// The cursor could not be hidden or shown.
    Cursor,
    /// A composed frame could not be committed to the device.
    Draw,
    /// The backend could not be resized.
    Resize,
    /// The shared game state's lock was observed poisoned: its holder
    /// panicked, the state is of unknown consistency, and rendering must
    /// not proceed.
    LockPoisoned,
}

/// The message shown for each error kind.
pub open spec fn error_text(e: RenderError) -> Seq<char> {
    match e {
        RenderError::BackendInit => "Failed to create terminal interface backend."@,
        RenderError::SizeQuery => "Failed to get terminal size."@,
        RenderError::Clear => "Failed to clear terminal."@,
        RenderError::Cursor => "Failed to hide cursor."@,
        RenderError::Draw => "Failed to render."@,
        RenderError::Resize => "Failed to resize terminal."@,
        RenderError::LockPoisoned => "Failed to lock game data."@,
    }
}

impl RenderError {
    /// The human-readable message for this error.
    pub fn describe(&self) -> (s: String)
        ensures
            s@ == error_text(*self),
    {
        match self {
            RenderError::BackendInit => String::from_str(
                "Failed to create terminal interface backend.",
            ),
            RenderError::SizeQuery => String::from_str("Failed to get terminal size."),
            RenderError::Clear => String::from_str("Failed to clear terminal."),
            RenderError::Cursor => String::from_str("Failed to hide cursor."),
            RenderError::Draw => String::from_str("Failed to render."),
            RenderError::Resize => String::from_str("Failed to resize terminal."),
            RenderError::LockPoisoned => String::from_str("Failed to lock game data."),
        }
    }
}

/// Tracks the terminal dimensions the session last laid out against.
pub struct TerminalSession {
    pub size: Rect,
}

impl TerminalSession {
    /// Starts a session at the dimensions first queried from the device.
    pub fn new(initial: Rect) -> (s: Self)
        ensures
            s.size == initial,
    {
        TerminalSession { size: initial }
    }

    /// Law: per-frame resize detection. The backend needs a resize exactly
    /// when the freshly queried dimensions differ from the stored ones, and
    /// the stored dimensions are the queried ones afterwards either way, so
    /// the following layout pass partitions against the new size, never a
    /// stale one.
    pub fn update(&mut self, queried: Rect) -> (resize: bool)
        ensures
            final(self).size == queried,
            resize == (old(self).size != queried),
    {
        let changed = self.size != queried;
        self.size = queried;
        changed
    }
}

/// The single input decision the dashboard driver depends on: the
/// designated quit key ends the render loop; every other key is ignored.
pub fn is_quit_key(key: char) -> (quit: bool)
    ensures
        quit == (key == 'q'),
{
    key == 'q'
}

} // verus!
