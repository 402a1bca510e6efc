//! The event model: the messages that flow through the pipeline.
//!
//! Events are transient, single-use messages. Three intent-level variants
//! (`Rendered`, `CursorHintCompensation`, `TriggerCompensation`) are rewritten
//! by the action-translation middleware into the two command variants
//! (`TextInject`, `KeySequenceInject`); every other variant passes through the
//! middleware unchanged.

use vstd::prelude::*;

verus! {

/// A symbolic key. The action-translation stage emits only `ArrowLeft`
/// (cursor-hint compensation) and `Backspace` (trigger compensation).
#[derive(Clone, Copy, Debug, PartialEq, Eq)]
pub enum Key {
    ArrowLeft,
    Backspace,
}

/// The strategy a text-injection backend should use. Opaque to this library
/// beyond being an optional override carried through to the backend.
#[derive(Clone, Copy, Debug, PartialEq, Eq)]
pub enum TextInjectMode {
    Keys,
    Clipboard,
}

/// A match has produced its final expansion text.
#[derive(Clone, Debug, PartialEq, Eq)]
pub struct RenderedEvent {
    pub match_id: i32,
    pub body: String,
}

/// The rendered body contained `cursor_hint_back_count` cursor-hint
/// placeholders; the cursor must move back that many positions after
/// injection.
#[derive(Clone, Copy, Debug, PartialEq, Eq)]
pub struct CursorHintCompensationEvent {
    pub cursor_hint_back_count: usize,
}

/// The text that triggered a match and, if present, the literal left-side
/// separator that introduced it. Upstream stages guarantee that the
/// separator, when present, occupies the left edge of the trigger.
#[derive(Clone, Debug, PartialEq, Eq)]
pub struct TriggerCompensationEvent {
    pub trigger: String,
    pub left_separator: Option<String>,
}

/// Command: type this text, optionally overriding the backend's default
/// injection strategy.
#[derive(Clone, Debug, PartialEq, Eq)]
pub struct TextInjectRequest {
    pub text: String,
    pub force_mode: Option<TextInjectMode>,
}

/// Command: press these keys, in order, left to right.
#[derive(Clone, Debug, PartialEq, Eq)]
pub struct KeySequenceInjectRequest {
    pub keys: Vec<Key>,
}

/// A pipeline message. Beyond the variants the action-translation stage
/// rewrites or emits, `NOOP` and `ExitRequested` stand for the open-ended
/// category of messages that other stages exchange: the middleware forwards
/// them untouched.
#[derive(Clone, Debug, PartialEq, Eq)]
pub enum Event {
    NOOP,
    ExitRequested,
    Rendered(RenderedEvent),
    CursorHintCompensation(CursorHintCompensationEvent),
    TriggerCompensation(TriggerCompensationEvent),
    TextInject(TextInjectRequest),
    KeySequenceInject(KeySequenceInjectRequest),
}

} // verus!
