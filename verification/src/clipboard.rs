//! The OS clipboard binding. Construction happens once, at dispatcher
//! initialisation; a construction failure is stored and surfaces only when
//! a copy is actually attempted. Whether the clipboard service is available
//! and whether a copy succeeds depend on the machine, so the trusted
//! wrappers promise nothing about which outcome comes back.

use vstd::prelude::*;

verus! {

/// Declares arboard's `Clipboard` so the stored binding can hold it; the
/// type stays opaque.
#[verifier::external_type_specification]
#[verifier::external_body]
pub struct ExClipboard(arboard::Clipboard);

/// The stored outcome of opening the clipboard binding: a ready handle, or
/// the message of the construction failure.
pub enum ClipboardState {
    Ready(arboard::Clipboard),
    Unavailable(String),
}

/// Relies on arboard's `Clipboard::new`: it opens a handle to the OS
/// clipboard service, or fails when none is available (for example without
/// a display); on failure the error's message is returned.
#[verifier::external_body]
pub(crate) fn clipboard_new() -> (r: Result<arboard::Clipboard, String>) {
    match arboard::Clipboard::new() {
        Ok(c) => Ok(c),
        Err(e) => Err(format!("{}", e)),
    }
}

/// Relies on arboard's `Clipboard::set_text`: it places the text on the OS
/// clipboard; on failure the error's message is returned.
#[verifier::external_body]
pub(crate) fn clipboard_set_text(clip: &mut arboard::Clipboard, text: &str) -> (r: Result<
    (),
    String,
>) {
    match clip.set_text(text) {
        Ok(()) => Ok(()),
        Err(e) => Err(format!("{}", e)),
    }
}

} // verus!
