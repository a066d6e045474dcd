//! The paste actuator: writes the transcript to the system clipboard and
//! sequences the synthetic paste chord.
//!
//! The clipboard write happens here, through the clipboard crate. The
//! keystroke chord is returned as data — four key events with their timing
//! margins — for the embedding to actuate; it exists only after the
//! clipboard write succeeded, so a clipboard failure can never be followed
//! by keystrokes.

use vstd::prelude::*;

verus! {

#[verifier::external_type_specification]
#[verifier::external_body]
pub struct ExClipboard(arboard::Clipboard);

#[verifier::external_type_specification]
#[verifier::external_body]
pub struct ExClipboardError(arboard::Error);

/// Relies on arboard::Clipboard::new: opens a handle to the system
/// clipboard, or reports an error where no clipboard is available.
#[verifier::external_body]
fn clipboard_open() -> (r: Result<arboard::Clipboard, arboard::Error>) {
    arboard::Clipboard::new()
}

/// Relies on arboard::Clipboard::set_text: places the text onto the
/// system clipboard, or reports an error when it could not be stored.
#[verifier::external_body]
fn clipboard_write(cb: &mut arboard::Clipboard, text: &str) -> (r: Result<(), arboard::Error>) {
    cb.set_text(text)
}

/// Relies on arboard::Error's Display implementation for its message.
#[verifier::external_body]
fn clipboard_error_text(e: &arboard::Error) -> (r: String) {
    format!("{}", e)
}

/// Why the paste sequence aborted before any keystroke.
#[derive(Debug)]
pub enum PasteError {
    /// The clipboard write failed, with the clipboard's message; no
    /// keystroke may follow.
    ClipboardFailure(String),
}

/// One key event of the paste chord.
#[derive(Clone, Copy, PartialEq, Eq, Structural, Debug)]
pub enum PasteKey {
    CtrlDown,
    VDown,
    VUp,
    CtrlUp,
}

/// One step of the chord: the key event and the settle delay that must
/// pass before it is sent.
#[derive(Clone, Copy, PartialEq, Eq, Structural, Debug)]
pub struct PasteStep {
    pub key: PasteKey,
    pub delay_before_ms: u64,
}

/// The platform paste chord: a 50 ms settle delay so the target window
/// regains readiness, then modifier-down, key-down, key-up, modifier-up
/// with 20 ms between the events so they arrive as discrete keystrokes.
pub open spec fn spec_paste_chord() -> Seq<PasteStep> {
    seq![
        (PasteStep { key: PasteKey::CtrlDown, delay_before_ms: 50 }),
        (PasteStep { key: PasteKey::VDown, delay_before_ms: 20 }),
        (PasteStep { key: PasteKey::VUp, delay_before_ms: 20 }),
        (PasteStep { key: PasteKey::CtrlUp, delay_before_ms: 20 }),
    ]
}

/// The paste chord as a value, for the embedding to actuate in order.
pub fn paste_key_sequence() -> (r: Vec<PasteStep>)
    ensures
        r@ == spec_paste_chord(),
{
    let mut v: Vec<PasteStep> = Vec::new();
    v.push(PasteStep { key: PasteKey::CtrlDown, delay_before_ms: 50 });
    v.push(PasteStep { key: PasteKey::VDown, delay_before_ms: 20 });
    v.push(PasteStep { key: PasteKey::VUp, delay_before_ms: 20 });
    v.push(PasteStep { key: PasteKey::CtrlUp, delay_before_ms: 20 });
    proof {
        assert(v@ =~= spec_paste_chord());
    }
    v
}

/// Writes `text` verbatim to the system clipboard. Whether the clipboard
/// accepted it is the environment's decision; on failure the error carries
/// the clipboard's message.
pub fn copy_to_clipboard(text: &str) -> (r: Result<(), PasteError>)
    ensures
        r matches Err(e) ==> e is ClipboardFailure,
{
    let mut cb = match clipboard_open() {
        Ok(c) => c,
        Err(e) => {
            return Err(PasteError::ClipboardFailure(clipboard_error_text(&e)));
        },
    };
    match clipboard_write(&mut cb, text) {
        Ok(()) => Ok(()),
        Err(e) => Err(PasteError::ClipboardFailure(clipboard_error_text(&e))),
    }
}

/// Step 1 of delivery: writes `text` to the clipboard; a failure there
/// aborts the sequence before any keystroke exists. On success, returns
/// the keystroke chord the caller must actuate as step 2.
pub fn copy_to_clipboard_and_paste(text: &str) -> (r: Result<Vec<PasteStep>, PasteError>)
    ensures
        r matches Ok(plan) ==> plan@ == spec_paste_chord(),
        r matches Err(e) ==> e is ClipboardFailure,
{
    match copy_to_clipboard(text) {
        Ok(()) => Ok(paste_key_sequence()),
        Err(e) => Err(e),
    }
}

/// How a delivery attempt ended once the clipboard write succeeded.
#[derive(Clone, Copy, PartialEq, Eq, Structural, Debug)]
pub enum PasteOutcome {
    /// Clipboard and keystrokes both went through.
    Delivered,
    /// The keystroke synthesis failed, but the text sits on the
    /// clipboard: the transcription still counts as delivered, with a
    /// secondary warning.
    DeliveredClipboardOnly,
}

/// Classifies the actuation of the chord: a keystroke failure after a
/// clipboard success is the distinct partial-failure outcome, not a
/// failed delivery.
pub fn classify_actuation(keystrokes_ok: bool) -> (r: PasteOutcome)
    ensures
        r == if keystrokes_ok { PasteOutcome::Delivered } else { PasteOutcome::DeliveredClipboardOnly },
{
    if keystrokes_ok {
        PasteOutcome::Delivered
    } else {
        PasteOutcome::DeliveredClipboardOnly
    }
}

} // verus!
