//! Typed builders for block-based scripts.

pub mod scripting;
