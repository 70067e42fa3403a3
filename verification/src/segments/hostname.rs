//! The host's name, left to the shell to fill in.

use vstd::prelude::*;
use vstd::string::*;
use crate::config::ConfigMap;
use crate::prompt::Prompt;
use crate::segments::{ResultSet, ResultView, Segment};
use crate::themes::{HOSTNAME_BG, HOSTNAME_FG, RESET};

verus! {

/// Shows the shell's placeholder for the host name.
pub struct HostnameSegment<'a> {
    /// The options of this one segment, where its entry gave any.
    pub options: Option<&'a ConfigMap>,
}

impl<'a> Segment for HostnameSegment<'a> {
    open spec fn outcome(&self, prompt: &Prompt) -> ResultView {
        (
            " \\h "@,
            prompt.theme[HOSTNAME_FG as int],
            prompt.theme[HOSTNAME_BG as int],
            Seq::<char>::empty(),
            prompt.theme[RESET as int],
        )
    }

    fn compute(&self, prompt: &Prompt) -> (r: ResultSet) {
        (
            String::from_str(" \\h "),
            prompt.theme[HOSTNAME_FG],
            prompt.theme[HOSTNAME_BG],
            String::new(),
            prompt.theme[RESET],
        )
    }
}

} // verus!
