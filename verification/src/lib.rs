//! Transcoding of Braille ASCII text into Unicode Braille Patterns and into
//! raw dot-pattern bytes, one cell per character.
//!
//! Accepted are the printable characters `0x20..=0x7E` and, under
//! [`ControlPolicy::LineBreaks`], carriage return and line feed. Every other
//! character makes a transcoding fail as a whole with [`InvalidCharacter`].
//! [`brf`] and [`brf_bytes`] accept line breaks.

pub mod codec;
pub mod table;

pub use crate::codec::{brf, brf_bytes, ControlPolicy, InvalidCharacter};
