//! The text injector boundary.
//!
//! Injection pastes the resolved transcript into whatever application holds
//! focus: the clipboard is saved, replaced with the transcript, a paste
//! keystroke is sent, and after a short settle delay the old clipboard
//! contents are restored. All of that is platform I/O and lives in the
//! shell; this module holds the injector handle the orchestrator owns and
//! the timing constant the shell must honour.

use vstd::prelude::*;

verus! {

/// How long the target application gets to read the clipboard before its
/// previous contents are restored, in milliseconds.
pub const PASTE_SETTLE_DELAY_MS: u64 = 120;

/// Handle for clipboard-based text injection. The paste itself is carried
/// out by the platform shell; near-atomic from the orchestrator's point of
/// view, with no partial-text outcome to model.
#[derive(Debug)]
pub struct ClipboardInjector;

impl ClipboardInjector {
    pub fn new() -> ClipboardInjector {
        ClipboardInjector
    }
}

} // verus!
