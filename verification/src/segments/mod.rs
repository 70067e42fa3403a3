//! The segments of a prompt and the contract that each of them meets.

use vstd::prelude::*;
use vstd::string::*;
use crate::prompt::Prompt;
use crate::themes::{Colorcode, RESET};

pub mod cwd;
pub mod dummy;
pub mod env;
pub mod exit_code;
pub mod git;
pub mod hostname;
pub mod jobs;
pub mod read_only;
pub mod root;
pub mod ssh;
pub mod stdout;
pub mod username;
pub mod virtual_env;

verus! {

/// What a segment computes: its text, foreground, background, a separator
/// of its own (empty for the default glyph) and the separator's colour (the
/// palette's reset value for "as the background").
pub type ResultSet = (String, Colorcode, Colorcode, String, Colorcode);

/// A `ResultSet` with its strings as sequences of characters.
pub type ResultView = (Seq<char>, Colorcode, Colorcode, Seq<char>, Colorcode);

/// A provider of one block of the prompt.
pub trait Segment {
    /// The block that this segment shows in the context `prompt`. A block
    /// with an empty text shows nothing.
    spec fn outcome(&self, prompt: &Prompt) -> ResultView;

    /// Computes the block. It depends on the segment and on the context
    /// alone.
    fn compute(&self, prompt: &Prompt) -> (r: ResultSet)
        ensures
            r@ == self.outcome(prompt),
    ;
}

/// The block of a segment that has nothing to show: no text, no colours.
pub open spec fn empty_outcome(prompt: &Prompt) -> ResultView {
    (
        Seq::<char>::empty(),
        prompt.theme[RESET as int],
        prompt.theme[RESET as int],
        Seq::<char>::empty(),
        prompt.theme[RESET as int],
    )
}

/// Whether a block has a text to show.
pub open spec fn is_shown(block: ResultView) -> bool {
    block.0.len() > 0
}

/// The block of a segment that has nothing to show.
pub fn empty_result(prompt: &Prompt) -> (r: ResultSet)
    ensures
        r@ == empty_outcome(prompt),
{
    (String::new(), prompt.theme[RESET], prompt.theme[RESET], String::new(), prompt.theme[RESET])
}

} // verus!
