//! Action-translation stage of a text-expansion event pipeline.
//!
//! The library converts abstract, intent-level events produced after a text
//! match has been rendered into concrete injection commands (text to type,
//! keys to press) that a downstream input-simulation layer can execute. The
//! heart of it is the correction arithmetic: how many backspaces erase a
//! trigger while preserving its left separator, and how many arrow-left
//! presses move the cursor back to a hinted position.

pub mod action;
pub mod event;
