use vstd::prelude::*;

pub mod char_filter;
pub mod chars;
pub mod charset;
pub mod config;
pub mod display;
pub mod loader;
pub mod targets;
pub mod text_transformation;

verus! {

/// Errors raised while compiling configuration data into engine values.
#[derive(Debug, Clone, Copy, PartialEq, Eq, Structural)]
pub enum EngineError {
    /// A character-range entry specifies neither a single value nor both
    /// a start and an end.
    InvalidCharacterRange,
    /// A replacement template contains an unrecognized `{tag}`.
    PatternSyntax,
}

} // verus!
