//! The context that every segment computes in.

use vstd::prelude::*;
use crate::host::Host;
use crate::themes::{Symbols, Theme};

verus! {

/// The palette, the glyphs and the observations of one prompt computation.
/// Segments read it and never change it.
pub struct Prompt {
    pub theme: Theme,
    pub symbols: Symbols,
    pub host: Host,
}

} // verus!
