//! The exit code of the previous command, where it failed.

use vstd::prelude::*;
use vstd::string::*;
use crate::config::ConfigMap;
use crate::prompt::Prompt;
use crate::segments::{empty_outcome, empty_result, ResultSet, ResultView, Segment};
use crate::text::{decimal, push_decimal};
use crate::themes::{CMD_FAILED_BG, CMD_FAILED_FG, RESET};

verus! {

/// Shows the exit code of the previous command unless it is 0.
pub struct ExitCodeSegment<'a> {
    /// The options of this one segment, where its entry gave any.
    pub options: Option<&'a ConfigMap>,
    /// The exit code of the previous command.
    pub prev_error: i32,
}

impl<'a> Segment for ExitCodeSegment<'a> {
    /// Nothing after a success; after a failure the code between two
    /// spaces, in the colours of failure.
    open spec fn outcome(&self, prompt: &Prompt) -> ResultView {
        if self.prev_error == 0 {
            empty_outcome(prompt)
        } else {
            (
                seq![' '] + decimal(self.prev_error as int) + seq![' '],
                prompt.theme[CMD_FAILED_FG as int],
                prompt.theme[CMD_FAILED_BG as int],
                Seq::<char>::empty(),
                prompt.theme[RESET as int],
            )
        }
    }

    fn compute(&self, prompt: &Prompt) -> (r: ResultSet) {
        if self.prev_error == 0 {
            empty_result(prompt)
        } else {
            proof {
                reveal_strlit(" ");
                assert(" "@ =~= seq![' ']);
            }
            let mut text = String::from_str(" ");
            push_decimal(&mut text, self.prev_error as i64);
            text.append(" ");
            (
                text,
                prompt.theme[CMD_FAILED_FG],
                prompt.theme[CMD_FAILED_BG],
                String::new(),
                prompt.theme[RESET],
            )
        }
    }
}

} // verus!
