//! The active Python environment. Nothing is shown of it yet.

use vstd::prelude::*;
use vstd::string::*;
use crate::config::ConfigMap;
use crate::prompt::Prompt;
use crate::segments::{ResultSet, ResultView, Segment};
use crate::themes::{HOSTNAME_BG, HOSTNAME_FG, RESET};

verus! {

/// Stands for the active Python environment; its text is always empty.
pub struct VirtualEnvSegment<'a> {
    /// The options of this one segment, where its entry gave any.
    pub options: Option<&'a ConfigMap>,
}

impl<'a> Segment for VirtualEnvSegment<'a> {
    open spec fn outcome(&self, prompt: &Prompt) -> ResultView {
        (
            Seq::<char>::empty(),
            prompt.theme[HOSTNAME_FG as int],
            prompt.theme[HOSTNAME_BG as int],
            Seq::<char>::empty(),
            prompt.theme[RESET as int],
        )
    }

    fn compute(&self, prompt: &Prompt) -> (r: ResultSet) {
        (
            String::new(),
            prompt.theme[HOSTNAME_FG],
            prompt.theme[HOSTNAME_BG],
            String::new(),
            prompt.theme[RESET],
        )
    }
}

} // verus!
