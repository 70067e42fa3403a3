//! The prompt sign, coloured by the fate of the previous command.

use vstd::prelude::*;
use vstd::string::*;
use crate::config::ConfigMap;
use crate::prompt::Prompt;
use crate::segments::{ResultSet, ResultView, Segment};
use crate::themes::{CMD_FAILED_BG, CMD_FAILED_FG, CMD_PASSED_BG, CMD_PASSED_FG, RESET};

verus! {

/// Shows the shell's placeholder for the prompt sign.
pub struct RootSegment<'a> {
    /// The options of this one segment, where its entry gave any.
    pub options: Option<&'a ConfigMap>,
    /// The exit code of the previous command.
    pub prev_error: i32,
}

impl<'a> Segment for RootSegment<'a> {
    /// The sign in the colours of success after an exit code of 0, in those
    /// of failure after any other.
    open spec fn outcome(&self, prompt: &Prompt) -> ResultView {
        (
            " \\$ "@,
            if self.prev_error != 0 {
                prompt.theme[CMD_FAILED_FG as int]
            } else {
                prompt.theme[CMD_PASSED_FG as int]
            },
            if self.prev_error != 0 {
                prompt.theme[CMD_FAILED_BG as int]
            } else {
                prompt.theme[CMD_PASSED_BG as int]
            },
            Seq::<char>::empty(),
            prompt.theme[RESET as int],
        )
    }

    fn compute(&self, prompt: &Prompt) -> (r: ResultSet) {
        let mut fg = prompt.theme[CMD_PASSED_FG];
        let mut bg = prompt.theme[CMD_PASSED_BG];

        if self.prev_error != 0 {
            fg = prompt.theme[CMD_FAILED_FG];
            bg = prompt.theme[CMD_FAILED_BG];
        }
        (String::from_str(" \\$ "), fg, bg, String::new(), prompt.theme[RESET])
    }
}

} // verus!
