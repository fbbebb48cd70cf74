//! Line formatting for a `cat`-like tool: numbering, end-of-line marks,
//! tab display, caret notation for control characters and blank-line
//! squeezing, each with a contract over the characters of the line.
mod text;
pub mod escape;
pub mod number;
pub mod format;
pub mod source;
pub mod laws;
