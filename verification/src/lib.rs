//! Renders a single-line, colourised shell prompt from independent segments.
//!
//! A configuration names the segments in order. Each segment computes one
//! block (text, colours, separator) from the prompt context, blocks with an
//! empty text are dropped, and the renderer joins what is left into one string
//! of escape codes.

pub mod chain;
pub mod config;
pub mod host;
pub mod prompt;
pub mod render;
pub mod segments;
pub mod text;
pub mod themes;
