//! A lock on a working directory that cannot be written to.

use vstd::prelude::*;
use vstd::string::*;
use crate::config::ConfigMap;
use crate::prompt::Prompt;
use crate::segments::{empty_outcome, empty_result, ResultSet, ResultView, Segment};
use crate::themes::{READONLY_BG, READONLY_FG, RESET};

verus! {

/// Shows the lock glyph where the working directory is read-only.
pub struct ReadOnlySegment<'a> {
    /// The options of this one segment, where its entry gave any.
    pub options: Option<&'a ConfigMap>,
}

impl<'a> Segment for ReadOnlySegment<'a> {
    /// Nothing where the working directory is not known. Else the lock
    /// between two spaces where the directory cannot be written to, and no
    /// text where it can.
    open spec fn outcome(&self, prompt: &Prompt) -> ResultView {
        if prompt.host.current_dir.is_none() {
            empty_outcome(prompt)
        } else {
            (
                if prompt.host.writable {
                    Seq::<char>::empty()
                } else {
                    seq![' '] + prompt.symbols.lock@ + seq![' ']
                },
                prompt.theme[READONLY_FG as int],
                prompt.theme[READONLY_BG as int],
                Seq::<char>::empty(),
                prompt.theme[RESET as int],
            )
        }
    }

    fn compute(&self, prompt: &Prompt) -> (r: ResultSet) {
        if prompt.host.current_dir.is_none() {
            return empty_result(prompt);
        }
        let mut result = String::new();

        if !prompt.host.writable {
            proof {
                reveal_strlit(" ");
                assert(" "@ =~= seq![' ']);
            }
            result.append(" ");
            result.append(prompt.symbols.lock);
            result.append(" ");
            assert(result@ =~= seq![' '] + prompt.symbols.lock@ + seq![' ']);
        }
        (
            result,
            prompt.theme[READONLY_FG],
            prompt.theme[READONLY_BG],
            String::new(),
            prompt.theme[RESET],
        )
    }
}

} // verus!
